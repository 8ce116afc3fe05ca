//! What holds of the verdict on every transaction.

use vstd::prelude::*;
use crate::amount::{le_value, le_value_fits, total, total_from};
use crate::error::Error;
use crate::host::{ReadingView, Transaction, TransactionView, HASH_LEN, UDT_LEN};
use crate::owner::{glance, owner_mode, owner_mode_from, Glance};
use crate::script::loaded_args;
use crate::verify::verdict;

verus! {

/// Whether a reading is a lock hash: bytes, 32 of them.
pub open spec fn is_hash(reading: ReadingView) -> bool {
    reading matches ReadingView::Bytes(hash) && hash.len() == HASH_LEN
}

/// Whether a reading is a token payload: bytes, 16 of them.
pub open spec fn is_amount(reading: ReadingView) -> bool {
    reading matches ReadingView::Bytes(bytes) && bytes.len() == UDT_LEN
}

/// The tokens that a cell holds: the number its payload spells, and none
/// where the reading is no payload.
pub open spec fn tokens(reading: ReadingView) -> nat {
    match reading {
        ReadingView::Bytes(bytes) => if bytes.len() == UDT_LEN {
            le_value(bytes)
        } else {
            0
        },
        ReadingView::Failed(_) => 0,
    }
}

/// The tokens that all the cells of a list hold together.
pub open spec fn supply(cells: Seq<ReadingView>) -> nat
    decreases cells.len(),
{
    if cells.len() == 0 {
        0
    } else {
        tokens(cells.first()) + supply(cells.drop_first())
    }
}

/// The verdict depends on what the transaction holds and on nothing else:
/// two transactions that hold the same get the same verdict, and so does one
/// transaction at each time it is verified.
pub proof fn same_contents_same_verdict(first: Transaction, second: Transaction)
    requires
        first@ == second@,
    ensures
        verdict(first@) == verdict(second@),
{
}

proof fn owner_found_from(owner: Seq<u8>, inputs: Seq<ReadingView>, from: int, at: int)
    requires
        0 <= from <= at < inputs.len(),
        owner.len() == HASH_LEN,
        inputs[at] == ReadingView::Bytes(owner),
        forall|i: int| from <= i < at ==> is_hash(#[trigger] inputs[i]),
    ensures
        owner_mode_from(owner, inputs, from) == Ok::<bool, Error>(true),
    decreases at - from,
{
    if from < at {
        assert(is_hash(inputs[from]));
        owner_found_from(owner, inputs, from + 1, at);
    }
}

/// A transaction with an input that the owner has locked is accepted,
/// whatever its group holds: more tokens out than in, cells that are no
/// amounts, or no cells at all. The inputs before that one are any whose lock
/// hash reads as a hash.
pub proof fn owner_input_accepts(tx: TransactionView, owner: Seq<u8>, at: int)
    requires
        loaded_args(tx.script) == Ok::<Seq<u8>, Error>(owner),
        owner.len() == HASH_LEN,
        0 <= at < tx.inputs.len(),
        tx.inputs[at] == ReadingView::Bytes(owner),
        forall|i: int| 0 <= i < at ==> is_hash(#[trigger] tx.inputs[i]),
    ensures
        verdict(tx) == Ok::<(), Error>(()),
{
    owner_found_from(owner, tx.inputs, 0, at);
}

proof fn no_owner_from(owner: Seq<u8>, inputs: Seq<ReadingView>, from: int)
    requires
        0 <= from <= inputs.len(),
        forall|i: int|
            from <= i < inputs.len() ==> glance(owner, #[trigger] inputs[i]) == Glance::Stranger,
    ensures
        owner_mode_from(owner, inputs, from) == Ok::<bool, Error>(false),
    decreases inputs.len() - from,
{
    if from < inputs.len() {
        assert(glance(owner, inputs[from]) == Glance::Stranger);
        no_owner_from(owner, inputs, from + 1);
    }
}

/// Where every input is locked by somebody else, owner mode is off.
pub proof fn strangers_only(owner: Seq<u8>, inputs: Seq<ReadingView>)
    requires
        forall|i: int|
            0 <= i < inputs.len() ==> glance(owner, #[trigger] inputs[i]) == Glance::Stranger,
    ensures
        owner_mode(owner, inputs) == Ok::<bool, Error>(false),
{
    no_owner_from(owner, inputs, 0);
}

proof fn total_is_supply_from(cells: Seq<ReadingView>, from: int)
    requires
        0 <= from <= cells.len(),
        forall|i: int| from <= i < cells.len() ==> is_amount(#[trigger] cells[i]),
    ensures
        total_from(cells, from) == Ok::<nat, Error>(supply(cells.skip(from))),
    decreases cells.len() - from,
{
    let rest = cells.skip(from);
    if from < cells.len() {
        assert(is_amount(cells[from]));
        let bytes = cells[from]->Bytes_0;
        le_value_fits(bytes);
        assert(rest.first() == cells[from]);
        assert(rest.drop_first() == cells.skip(from + 1));
        total_is_supply_from(cells, from + 1);
    } else {
        assert(rest.len() == 0);
    }
}

/// The total of a group whose cells are all payloads is the sum of the
/// amounts that they spell.
pub proof fn total_is_supply(cells: Seq<ReadingView>)
    requires
        forall|i: int| 0 <= i < cells.len() ==> is_amount(#[trigger] cells[i]),
    ensures
        total(cells) == Ok::<nat, Error>(supply(cells)),
{
    total_is_supply_from(cells, 0);
    assert(cells.skip(0) == cells);
}

/// A transaction without an input of the owner's is accepted if and only if
/// its group's inputs hold at least as many tokens as its outputs, and is
/// rejected with `Amount` otherwise. Every input is locked by somebody else,
/// and every cell of the group is a payload.
pub proof fn conserved_iff_accepted(tx: TransactionView, owner: Seq<u8>)
    requires
        loaded_args(tx.script) == Ok::<Seq<u8>, Error>(owner),
        forall|i: int|
            0 <= i < tx.inputs.len() ==> glance(owner, #[trigger] tx.inputs[i])
                == Glance::Stranger,
        forall|i: int| 0 <= i < tx.group_inputs.len() ==> is_amount(#[trigger] tx.group_inputs[i]),
        forall|i: int|
            0 <= i < tx.group_outputs.len() ==> is_amount(#[trigger] tx.group_outputs[i]),
    ensures
        verdict(tx) == if supply(tx.group_inputs) >= supply(tx.group_outputs) {
            Ok::<(), Error>(())
        } else {
            Err(Error::Amount)
        },
        verdict(tx) is Ok <==> supply(tx.group_inputs) >= supply(tx.group_outputs),
{
    strangers_only(owner, tx.inputs);
    total_is_supply(tx.group_inputs);
    total_is_supply(tx.group_outputs);
}

/// A transaction whose group has no cell at all is accepted, in owner mode or
/// out of it, once its inputs' lock hashes are read without a failure.
pub proof fn empty_group_accepts(tx: TransactionView, owner: Seq<u8>)
    requires
        loaded_args(tx.script) == Ok::<Seq<u8>, Error>(owner),
        owner_mode(owner, tx.inputs) is Ok,
        tx.group_inputs.len() == 0,
        tx.group_outputs.len() == 0,
    ensures
        verdict(tx) == Ok::<(), Error>(()),
{
}

proof fn malformed_from(cells: Seq<ReadingView>, from: int, at: int)
    requires
        0 <= from <= at < cells.len(),
        cells[at] matches ReadingView::Bytes(bytes) && bytes.len() != UDT_LEN,
        forall|i: int| from <= i < at ==> is_amount(#[trigger] cells[i]),
    ensures
        total_from(cells, from) == Err::<nat, Error>(Error::Encoding),
    decreases at - from,
{
    if from < at {
        assert(is_amount(cells[from]));
        malformed_from(cells, from + 1, at);
    }
}

/// A group in which a cell's data has not 16 bytes, after cells that are all
/// payloads, has no total: it rejects with `Encoding`.
pub proof fn malformed_cell_has_no_total(cells: Seq<ReadingView>, at: int)
    requires
        0 <= at < cells.len(),
        cells[at] matches ReadingView::Bytes(bytes) && bytes.len() != UDT_LEN,
        forall|i: int| 0 <= i < at ==> is_amount(#[trigger] cells[i]),
    ensures
        total(cells) == Err::<nat, Error>(Error::Encoding),
{
    malformed_from(cells, 0, at);
}

/// Out of owner mode, a transaction with a group input whose data has not 16
/// bytes is rejected with `Encoding`, whatever the outputs are. The group
/// inputs before that one are payloads.
pub proof fn malformed_input_rejects(tx: TransactionView, owner: Seq<u8>, at: int)
    requires
        loaded_args(tx.script) == Ok::<Seq<u8>, Error>(owner),
        owner_mode(owner, tx.inputs) == Ok::<bool, Error>(false),
        0 <= at < tx.group_inputs.len(),
        tx.group_inputs[at] matches ReadingView::Bytes(bytes) && bytes.len() != UDT_LEN,
        forall|i: int| 0 <= i < at ==> is_amount(#[trigger] tx.group_inputs[i]),
    ensures
        verdict(tx) == Err::<(), Error>(Error::Encoding),
{
    malformed_cell_has_no_total(tx.group_inputs, at);
}

/// Out of owner mode, a transaction with a group output whose data has not 16
/// bytes is rejected with `Encoding`, whatever the amounts are. The group's
/// inputs have a total, and the group outputs before that one are payloads.
pub proof fn malformed_output_rejects(tx: TransactionView, owner: Seq<u8>, at: int)
    requires
        loaded_args(tx.script) == Ok::<Seq<u8>, Error>(owner),
        owner_mode(owner, tx.inputs) == Ok::<bool, Error>(false),
        total(tx.group_inputs) is Ok,
        0 <= at < tx.group_outputs.len(),
        tx.group_outputs[at] matches ReadingView::Bytes(bytes) && bytes.len() != UDT_LEN,
        forall|i: int| 0 <= i < at ==> is_amount(#[trigger] tx.group_outputs[i]),
    ensures
        verdict(tx) == Err::<(), Error>(Error::Encoding),
{
    malformed_cell_has_no_total(tx.group_outputs, at);
}

} // verus!
