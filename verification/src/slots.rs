//! A dense index space whose entries arrive in any order.

use vstd::pervasive::unreached;
use vstd::prelude::*;

verus! {

/// `k` is the lowest empty slot of `slots`, or their number if none is empty.
pub open spec fn is_first_empty<T>(slots: Seq<Option<T>>, k: int) -> bool {
    &&& 0 <= k <= slots.len()
    &&& forall|j: int| 0 <= j < k ==> (#[trigger] slots[j]) is Some
    &&& k < slots.len() ==> slots[k] is None
}

/// The lowest empty slot of `slots`, or their number if none is empty.
pub open spec fn first_empty<T>(slots: Seq<Option<T>>) -> int {
    choose|k: int| is_first_empty(slots, k)
}

/// No slot is empty.
pub open spec fn all_filled<T>(slots: Seq<Option<T>>) -> bool {
    forall|j: int| 0 <= j < slots.len() ==> (#[trigger] slots[j]) is Some
}

/// The entries of slots of which none is empty, in index order.
pub open spec fn dense<T>(slots: Seq<Option<T>>) -> Seq<T> {
    Seq::new(slots.len(), |j: int| slots[j]->0)
}

/// Every sequence of slots has a lowest empty slot, and only one.
pub proof fn lemma_first_empty<T>(slots: Seq<Option<T>>)
    ensures
        is_first_empty(slots, first_empty(slots)),
        forall|k: int| is_first_empty(slots, k) ==> k == first_empty(slots),
        all_filled(slots) <==> first_empty(slots) == slots.len(),
    decreases slots.len(),
{
    if slots.len() == 0 {
        assert(is_first_empty(slots, 0));
    } else {
        let front = slots.drop_last();
        lemma_first_empty(front);
        let k = first_empty(front);
        assert forall|j: int| 0 <= j < k implies (#[trigger] slots[j]) is Some by {
            assert(front[j] is Some);
        }
        if k < front.len() {
            assert(slots[k] == front[k]);
            assert(is_first_empty(slots, k));
        } else if slots.last() is None {
            assert(is_first_empty(slots, slots.len() - 1));
        } else {
            assert forall|j: int| 0 <= j < slots.len() implies (#[trigger] slots[j]) is Some by {
                if j < front.len() {
                    assert(front[j] is Some);
                }
            }
            assert(is_first_empty(slots, slots.len() as int));
        }
    }
    let first = first_empty(slots);
    assert forall|k: int| is_first_empty(slots, k) implies k == first by {
        if k < first {
            assert(slots[k] is Some);
        } else if first < k {
            assert(slots[first] is Some);
        }
    }
}

/// A fixed number of slots, each empty or holding one entry.
pub struct Slots<T> {
    items: Vec<Option<T>>,
    next: usize,
}

impl<T> View for Slots<T> {
    type V = Seq<Option<T>>;

    closed spec fn view(&self) -> Seq<Option<T>> {
        self.items@
    }
}

impl<T> Slots<T> {
    /// The internal cursor points at the lowest empty slot.
    pub closed spec fn wf(&self) -> bool {
        is_first_empty(self.items@, self.next as int)
    }

    /// `len` empty slots.
    pub fn new(len: usize) -> (slots: Self)
        ensures
            slots.wf(),
            slots@.len() == len,
            forall|j: int| 0 <= j < len ==> (#[trigger] slots@[j]) is None,
    {
        let mut items: Vec<Option<T>> = Vec::new();
        let mut i: usize = 0;
        while i < len
            invariant
                i <= len,
                items@.len() == i,
                forall|j: int| 0 <= j < i ==> (#[trigger] items@[j]) is None,
            decreases len - i,
        {
            items.push(None);
            i += 1;
        }
        Slots { items, next: 0 }
    }

    /// The number of slots.
    pub fn len(&self) -> (len: usize)
        ensures
            len == self@.len(),
    {
        self.items.len()
    }

    /// The lowest empty slot, or the number of slots if none is empty.
    pub fn first_empty(&self) -> (index: usize)
        requires
            self.wf(),
        ensures
            index == first_empty(self@),
            index <= self@.len(),
    {
        proof {
            lemma_first_empty(self@);
        }
        self.next
    }

    /// Whether no slot is empty.
    pub fn is_complete(&self) -> (complete: bool)
        requires
            self.wf(),
        ensures
            complete == all_filled(self@),
    {
        proof {
            lemma_first_empty(self@);
        }
        self.next == self.items.len()
    }

    /// Whether `index` is a slot that holds an entry.
    pub fn is_filled(&self, index: usize) -> (filled: bool)
        ensures
            filled == (index < self@.len() && self@[index as int] is Some),
    {
        index < self.items.len() && self.items[index].is_some()
    }

    /// Fills the empty slot `index`.
    pub fn put(&mut self, index: usize, value: T)
        requires
            old(self).wf(),
            index < old(self)@.len(),
            old(self)@[index as int] is None,
        ensures
            final(self).wf(),
            final(self)@ == old(self)@.update(index as int, Some(value)),
    {
        let ghost before = self.items@;
        assert(index < before.len());
        self.items.set(index, Some(value));
        assert(index < self.items.len());
        if index == self.next {
            self.next = index + 1;
            while self.next < self.items.len() && self.items[self.next].is_some()
                invariant
                    index < before.len(),
                    self.items@ == before.update(index as int, Some(value)),
                    self.next <= self.items@.len(),
                    forall|j: int| 0 <= j < self.next ==> (#[trigger] self.items@[j]) is Some,
                decreases self.items@.len() - self.next,
            {
                self.next = self.next + 1;
            }
        }
    }

    /// The entries in index order, once no slot is empty.
    pub fn into_dense(self) -> (entries: Vec<T>)
        requires
            all_filled(self@),
        ensures
            entries@ == dense(self@),
    {
        let ghost slots = self.items@;
        let mut items = self.items;
        let mut reversed: Vec<T> = Vec::new();
        while items.len() > 0
            invariant
                all_filled(slots),
                items@ == slots.take(items@.len() as int),
                items@.len() + reversed@.len() == slots.len(),
                forall|k: int|
                    0 <= k < reversed@.len() ==> slots[slots.len() - 1 - k] == Some(
                        #[trigger] reversed@[k],
                    ),
            decreases items@.len(),
        {
            let ghost at = items@.len() - 1;
            assert(slots[at] is Some);
            match items.pop() {
                Some(Some(value)) => {
                    reversed.push(value);
                },
                _ => unreached(),
            }
            assert(items@ == slots.take(items@.len() as int));
        }
        let mut entries: Vec<T> = Vec::new();
        while reversed.len() > 0
            invariant
                entries@.len() + reversed@.len() == slots.len(),
                forall|k: int|
                    0 <= k < reversed@.len() ==> slots[slots.len() - 1 - k] == Some(
                        #[trigger] reversed@[k],
                    ),
                forall|k: int| 0 <= k < entries@.len() ==> slots[k] == Some(#[trigger] entries@[k]),
            decreases reversed@.len(),
        {
            match reversed.pop() {
                Some(value) => {
                    entries.push(value);
                },
                None => unreached(),
            }
        }
        assert(entries@ =~= dense(slots));
        entries
    }
}

} // verus!
