//! Merges the table-based unwind information of a module's functions into
//! one frame table of `gimli`.

use cranelift_codegen::isa::unwind::systemv::UnwindInfo;
use gimli::write::{Address, CommonInformationEntry, FrameTable};
use vstd::prelude::*;

verus! {

/// A table of frame description entries, as `gimli` writes it to an unwind
/// section. What it holds is [`frame_table_addresses`].
#[verifier::external_type_specification]
#[verifier::external_body]
pub struct ExFrameTable(FrameTable);

/// The description that the frame table's entries share.
#[verifier::external_type_specification]
#[verifier::external_body]
pub struct ExCommonInformationEntry(CommonInformationEntry);

/// The symbolic addresses of the entries that the frame table holds, each
/// as symbol and addend, in the order in which the table writes them.
pub uninterp spec fn frame_table_addresses(table: FrameTable) -> Seq<(usize, i64)>;

/// `FrameTable::default`: a table without entries.
#[verifier::external_body]
fn frame_table_empty() -> (table: FrameTable)
    ensures
        frame_table_addresses(table) == Seq::<(usize, i64)>::empty(),
{
    FrameTable::default()
}

/// `UnwindInfo::to_fde` and `FrameTable::add_fde`: the table holds one more
/// entry behind those it held, which describes `unwind` at the symbolic
/// address of `symbol` and `addend`. The entry belongs to `cie`, which
/// `FrameTable::add_cie` adds to the table unless the table has it.
#[verifier::external_body]
fn frame_table_add(
    table: &mut FrameTable,
    cie: &CommonInformationEntry,
    unwind: &UnwindInfo,
    symbol: usize,
    addend: i64,
)
    ensures
        frame_table_addresses(*final(table)) == frame_table_addresses(*old(table)).push(
            (symbol, addend),
        ),
{
    let id = table.add_cie(cie.clone());
    table.add_fde(id, unwind.to_fde(Address::Symbol { symbol, addend }));
}

/// The symbol by which a frame table entry addresses a function; the addend
/// beside it is the function's local index.
pub const FUNCTION_SYMBOL: usize = 0;

/// The addresses of the frame table of functions with the given table-based
/// unwind information: one entry for each function that has any, in index
/// order, addressed by the function's local index.
pub open spec fn spec_frame_addresses(entries: Seq<Option<UnwindInfo>>) -> Seq<(usize, i64)>
    decreases entries.len(),
{
    if entries.len() == 0 {
        Seq::empty()
    } else if entries.last() is Some {
        spec_frame_addresses(entries.drop_last()).push((FUNCTION_SYMBOL, (entries.len() - 1) as i64))
    } else {
        spec_frame_addresses(entries.drop_last())
    }
}

/// Assembles the frame table of a module from the table-based unwind
/// information of its local functions, given by local index.
pub fn assemble_frame_table(cie: &CommonInformationEntry, entries: &Vec<Option<UnwindInfo>>) -> (table:
    FrameTable)
    requires
        entries@.len() <= u32::MAX,
    ensures
        frame_table_addresses(table) == spec_frame_addresses(entries@),
{
    let mut table = frame_table_empty();
    let mut i: usize = 0;
    while i < entries.len()
        invariant
            i <= entries.len(),
            entries@.len() <= u32::MAX,
            frame_table_addresses(table) == spec_frame_addresses(entries@.take(i as int)),
        decreases entries.len() - i,
    {
        proof {
            assert(entries@.take(i + 1).drop_last() == entries@.take(i as int));
            assert(entries@.take(i + 1).last() == entries@[i as int]);
        }
        match &entries[i] {
            Some(unwind) => {
                frame_table_add(&mut table, cie, unwind, FUNCTION_SYMBOL, i as i64);
            },
            None => {},
        }
        i += 1;
    }
    proof {
        assert(entries@.take(i as int) == entries@);
    }
    table
}

} // verus!
