//! What the host shows of a transaction, as plain values.

use vstd::prelude::*;
use crate::error::Signal;

verus! {

/// Length of a lock hash, and of the owner's identity.
pub const HASH_LEN: usize = 32;

/// Length of a token amount: a `u128`, little-endian.
pub const UDT_LEN: usize = 16;

/// Room offered for the script's own descriptor.
pub const BUF_LEN: usize = 1024;

/// What one read of the host answered.
#[derive(Debug)]
pub enum Reading {
    /// The read went well and gave these bytes, all that there are. A host
    /// that is offered less room than the data needs does not cut them short:
    /// it fails with `LengthNotEnough`.
    Bytes(Vec<u8>),
    /// The read failed with this signal.
    Failed(Signal),
}

/// A [`Reading`] as a mathematical value.
pub enum ReadingView {
    Bytes(Seq<u8>),
    Failed(Signal),
}

impl View for Reading {
    type V = ReadingView;

    open spec fn view(&self) -> ReadingView {
        match self {
            Reading::Bytes(bytes) => ReadingView::Bytes(bytes@),
            Reading::Failed(signal) => ReadingView::Failed(*signal),
        }
    }
}

impl DeepView for Reading {
    type V = ReadingView;

    open spec fn deep_view(&self) -> ReadingView {
        self@
    }
}

impl Clone for Reading {
    fn clone(&self) -> (copy: Reading)
        ensures
            copy@ == self@,
    {
        match self {
            Reading::Bytes(bytes) => Reading::Bytes(bytes.clone()),
            Reading::Failed(signal) => Reading::Failed(*signal),
        }
    }
}

/// What a list of cells answers at `index`: the reading kept there, and past
/// its end the signal that the list is over.
pub open spec fn answer(cells: Seq<ReadingView>, index: int) -> ReadingView {
    if 0 <= index < cells.len() {
        cells[index]
    } else {
        ReadingView::Failed(Signal::IndexOutOfBound)
    }
}

/// A transaction as the script sees it: what each read of the host answers.
///
/// A list stands for the cells of one source in their order. A read past its
/// end answers `IndexOutOfBound`, as does a reading kept in it that says so.
#[derive(Clone, Debug)]
pub struct Transaction {
    /// The descriptor of the running script, as serialised by the host.
    pub script: Reading,
    /// The lock hash of each input of the whole transaction.
    pub inputs: Vec<Reading>,
    /// The payload of each input cell of the script's own group.
    pub group_inputs: Vec<Reading>,
    /// The payload of each output cell of the script's own group.
    pub group_outputs: Vec<Reading>,
}

/// A [`Transaction`] as a mathematical value.
pub struct TransactionView {
    pub script: ReadingView,
    pub inputs: Seq<ReadingView>,
    pub group_inputs: Seq<ReadingView>,
    pub group_outputs: Seq<ReadingView>,
}

impl View for Transaction {
    type V = TransactionView;

    open spec fn view(&self) -> TransactionView {
        TransactionView {
            script: self.script@,
            inputs: self.inputs.deep_view(),
            group_inputs: self.group_inputs.deep_view(),
            group_outputs: self.group_outputs.deep_view(),
        }
    }
}

/// Reads `cells` at `index` as the host would.
pub fn read_at(cells: &Vec<Reading>, index: usize) -> (reading: Reading)
    ensures
        reading@ == answer(cells.deep_view(), index as int),
{
    if index < cells.len() {
        cells[index].clone()
    } else {
        Reading::Failed(Signal::IndexOutOfBound)
    }
}

} // verus!
