//! The custom sections of a compilation, in a `PrimaryMap` of `wasmer_types`.

use crate::artifacts::CustomSection;
use vstd::prelude::*;
use wasmer_types::entity::PrimaryMap;
use wasmer_types::SectionIndex;

verus! {

/// The custom sections of a compilation, keyed by dense section index.
///
/// The sections lie in a `wasmer_types::entity::PrimaryMap`. Contracts
/// speak of what it holds as [`sections_of`].
#[verifier::external_body]
pub struct CustomSections {
    inner: PrimaryMap<SectionIndex, CustomSection>,
}

/// The sections that the map holds, by section index.
pub uninterp spec fn sections_of(sections: CustomSections) -> Seq<CustomSection>;

/// `PrimaryMap::new`: a map that holds nothing.
#[verifier::external_body]
fn sections_new() -> (sections: CustomSections)
    ensures
        sections_of(sections) == Seq::<CustomSection>::empty(),
{
    CustomSections { inner: PrimaryMap::new() }
}

/// `PrimaryMap::push`: the map holds `section` behind what it held before.
/// The key of the new entry is the number of entries before it, which has
/// to be a valid 32-bit index.
#[verifier::external_body]
fn sections_push(sections: &mut CustomSections, section: CustomSection)
    requires
        sections_of(*old(sections)).len() < u32::MAX,
    ensures
        sections_of(*final(sections)) == sections_of(*old(sections)).push(section),
{
    sections.inner.push(section);
}

/// `PrimaryMap::len`: the number of sections that the map holds.
#[verifier::external_body]
fn sections_len(sections: &CustomSections) -> (len: usize)
    ensures
        len == sections_of(*sections).len(),
{
    sections.inner.len()
}

/// `PrimaryMap::values`, of which the standard library's `Iterator::nth`
/// takes one: the section at `index`, if the map holds that many.
#[verifier::external_body]
fn sections_get(sections: &CustomSections, index: usize) -> (section: Option<&CustomSection>)
    ensures
        match section {
            Some(section) => index < sections_of(*sections).len() && *section == sections_of(
                *sections,
            )[index as int],
            None => index >= sections_of(*sections).len(),
        },
{
    sections.inner.values().nth(index)
}

impl CustomSections {
    /// No sections.
    pub fn new() -> (sections: Self)
        ensures
            sections_of(sections) == Seq::<CustomSection>::empty(),
    {
        sections_new()
    }

    /// Appends `section` and returns its index; hands the section back if
    /// the index space is exhausted.
    pub fn push(&mut self, section: CustomSection) -> (index: Result<u32, CustomSection>)
        ensures
            match index {
                Ok(index) => {
                    &&& index == sections_of(*old(self)).len()
                    &&& sections_of(*final(self)) == sections_of(*old(self)).push(section)
                },
                Err(back) => {
                    &&& back == section
                    &&& sections_of(*old(self)).len() >= u32::MAX
                    &&& sections_of(*final(self)) == sections_of(*old(self))
                },
            },
    {
        let len: usize = sections_len(self);
        if len < u32::MAX as usize {
            sections_push(self, section);
            Ok(len as u32)
        } else {
            Err(section)
        }
    }

    /// The number of sections.
    pub fn len(&self) -> (len: usize)
        ensures
            len == sections_of(*self).len(),
    {
        sections_len(self)
    }

    /// The section at `index`, if there is one.
    pub fn get(&self, index: u32) -> (section: Option<&CustomSection>)
        ensures
            match section {
                Some(section) => index < sections_of(*self).len() && *section == sections_of(
                    *self,
                )[index as int],
                None => index >= sections_of(*self).len(),
            },
    {
        sections_get(self, index as usize)
    }
}

} // verus!
