//! Token amounts: how a payload is read, and how the payloads of a group add up.

use vstd::prelude::*;
use crate::error::{Error, Signal};
use crate::host::{answer, read_at, Reading, ReadingView, Transaction, UDT_LEN};

verus! {

/// The number that `bytes` spell, least significant byte first.
pub open spec fn le_value(bytes: Seq<u8>) -> nat
    decreases bytes.len(),
{
    if bytes.len() == 0 {
        0
    } else {
        bytes[0] as nat + 256 * le_value(bytes.drop_first())
    }
}

/// The number of values that `len` bytes can spell: 256 to the power of `len`.
pub open spec fn span(len: nat) -> nat
    decreases len,
{
    if len == 0 {
        1
    } else {
        256 * span((len - 1) as nat)
    }
}

/// A number spelt with `n` bytes is below `256^n`.
pub proof fn le_value_below_span(bytes: Seq<u8>)
    ensures
        le_value(bytes) < span(bytes.len()),
    decreases bytes.len(),
{
    if bytes.len() > 0 {
        le_value_below_span(bytes.drop_first());
    }
}

/// Sixteen bytes spell a number that a `u128` holds.
pub proof fn le_value_fits(bytes: Seq<u8>)
    requires
        bytes.len() <= UDT_LEN,
    ensures
        le_value(bytes) <= u128::MAX,
{
    le_value_below_span(bytes);
    reveal_with_fuel(span, 17);
}

/// Decodes a payload of sixteen bytes into the amount it holds.
pub fn decode_amount(bytes: &[u8]) -> (amount: u128)
    requires
        bytes@.len() == UDT_LEN,
    ensures
        amount == le_value(bytes@),
{
    let mut amount: u128 = 0;
    let mut i: usize = UDT_LEN;
    proof {
        assert(bytes@.subrange(16, 16).len() == 0);
    }
    while i > 0
        invariant
            bytes@.len() == UDT_LEN,
            i <= UDT_LEN,
            amount == le_value(bytes@.subrange(i as int, 16)),
        decreases i,
    {
        i = i - 1;
        proof {
            let tail = bytes@.subrange(i as int, 16);
            assert(tail.drop_first() == bytes@.subrange(i + 1, 16));
            le_value_below_span(tail.drop_first());
            reveal_with_fuel(span, 17);
        }
        amount = amount * 256 + bytes[i] as u128;
    }
    proof {
        assert(bytes@.subrange(0, 16) == bytes@);
    }
    amount
}

/// What the reading of one group cell's payload comes to.
#[derive(Clone, Copy, Debug, PartialEq, Eq, Structural)]
pub enum Payload {
    /// The cell holds this many tokens.
    Amount(u128),
    /// There is no such cell: the group has ended.
    End,
    /// The transaction is rejected for this reason.
    Fail(Error),
}

/// How a reading is taken as a payload: sixteen bytes are an amount, bytes of
/// any other length are malformed, `IndexOutOfBound` ends the group, and any
/// other signal rejects.
pub open spec fn payload(reading: ReadingView) -> Payload {
    match reading {
        ReadingView::Bytes(bytes) => if bytes.len() == UDT_LEN {
            Payload::Amount(le_value(bytes) as u128)
        } else {
            Payload::Fail(Error::Encoding)
        },
        ReadingView::Failed(Signal::IndexOutOfBound) => Payload::End,
        ReadingView::Failed(signal) => Payload::Fail(Error::of(signal)),
    }
}

/// Computes [`payload`].
pub fn read_amount(reading: &Reading) -> (read: Payload)
    ensures
        read == payload(reading@),
{
    match reading {
        Reading::Bytes(bytes) => if bytes.len() == UDT_LEN {
            Payload::Amount(decode_amount(bytes.as_slice()))
        } else {
            Payload::Fail(Error::Encoding)
        },
        Reading::Failed(Signal::IndexOutOfBound) => Payload::End,
        Reading::Failed(signal) => Payload::Fail(Error::from(*signal)),
    }
}

/// The sum of the amounts that a scan of `cells` adds up when it starts at
/// `from`: those of the cells up to the first that is not an amount.
pub open spec fn gathered_from(cells: Seq<ReadingView>, from: int) -> nat
    decreases cells.len() - from,
{
    match payload(answer(cells, from)) {
        Payload::Amount(amount) => amount as nat + gathered_from(cells, from + 1),
        _ => 0,
    }
}

/// The total of a group, scanned from `from`: the sum of its amounts where the
/// scan reaches the group's end, the rejection of the first cell that fails
/// otherwise.
pub open spec fn total_from(cells: Seq<ReadingView>, from: int) -> Result<nat, Error>
    decreases cells.len() - from,
{
    match payload(answer(cells, from)) {
        Payload::Amount(amount) => match total_from(cells, from + 1) {
            Ok(rest) => Ok(amount as nat + rest),
            Err(error) => Err(error),
        },
        Payload::End => Ok(0),
        Payload::Fail(error) => Err(error),
    }
}

/// The total of a group of cells.
pub open spec fn total(cells: Seq<ReadingView>) -> Result<nat, Error> {
    total_from(cells, 0)
}

/// The sum of all that a scan of `cells` adds up, whether it ends well or not.
pub open spec fn gathered(cells: Seq<ReadingView>) -> nat {
    gathered_from(cells, 0)
}

/// The outcome of a scan as a mathematical value.
pub open spec fn sum_view(sum: Result<u128, Error>) -> Result<nat, Error> {
    match sum {
        Ok(amount) => Ok(amount as nat),
        Err(error) => Err(error),
    }
}

/// Where a scan ends well, its total is all that it added up.
pub proof fn total_is_gathered(cells: Seq<ReadingView>, from: int)
    ensures
        total_from(cells, from) matches Ok(sum) ==> sum == gathered_from(cells, from),
    decreases cells.len() - from,
{
    if payload(answer(cells, from)) is Amount {
        total_is_gathered(cells, from + 1);
    }
}

/// Sums the amounts of a group of cells, in their order, up to the group's end.
///
/// The amounts that the scan adds up must fit into 128 bits together. The
/// supply of a token is far below that; here it is asked of the caller.
pub fn collect_amount(cells: &Vec<Reading>) -> (sum: Result<u128, Error>)
    requires
        gathered(cells.deep_view()) <= u128::MAX,
    ensures
        sum_view(sum) == total(cells.deep_view()),
{
    let ghost group = cells.deep_view();
    let mut amount: u128 = 0;
    let mut i: usize = 0;
    loop
        invariant
            group == cells.deep_view(),
            i <= cells.len(),
            amount + gathered_from(group, i as int) == gathered(group),
            gathered(group) <= u128::MAX,
            total(group) == match total_from(group, i as int) {
                Ok(rest) => Ok::<nat, Error>(amount as nat + rest),
                Err(error) => Err(error),
            },
        decreases cells.len() - i,
    {
        match read_amount(&read_at(cells, i)) {
            Payload::Amount(next) => {
                amount = amount + next;
                i = i + 1;
            },
            Payload::End => {
                return Ok(amount);
            },
            Payload::Fail(error) => {
                return Err(error);
            },
        }
    }
}

/// The tokens that the group's inputs hold.
pub fn collect_inputs_amount(tx: &Transaction) -> (sum: Result<u128, Error>)
    requires
        gathered(tx@.group_inputs) <= u128::MAX,
    ensures
        sum_view(sum) == total(tx@.group_inputs),
{
    collect_amount(&tx.group_inputs)
}

/// The tokens that the group's outputs hold.
pub fn collect_outputs_amount(tx: &Transaction) -> (sum: Result<u128, Error>)
    requires
        gathered(tx@.group_outputs) <= u128::MAX,
    ensures
        sum_view(sum) == total(tx@.group_outputs),
{
    collect_amount(&tx.group_outputs)
}

} // verus!
