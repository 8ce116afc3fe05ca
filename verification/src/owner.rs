//! Owner mode: whether an input of the transaction is locked by the token's owner.

use vstd::prelude::*;
use crate::error::{Error, Signal};
use crate::host::{answer, read_at, Reading, ReadingView, Transaction, HASH_LEN};

verus! {

/// What the lock hash of one input says about owner mode.
#[derive(Clone, Copy, Debug, PartialEq, Eq, Structural)]
pub enum Glance {
    /// The input is locked by the owner.
    Owner,
    /// The input is locked by somebody else.
    Stranger,
    /// There is no such input: the list has ended.
    End,
    /// The transaction is rejected for this reason.
    Fail(Error),
}

/// How the reading of a lock hash is judged against the owner's identity.
///
/// A hash has 32 bytes, and bytes of any other length are malformed, whatever
/// `owner` is. An identity that has not 32 bytes therefore equals no hash.
pub open spec fn glance(owner: Seq<u8>, reading: ReadingView) -> Glance {
    match reading {
        ReadingView::Bytes(hash) => if hash.len() != HASH_LEN {
            Glance::Fail(Error::Encoding)
        } else if hash == owner {
            Glance::Owner
        } else {
            Glance::Stranger
        },
        ReadingView::Failed(Signal::IndexOutOfBound) => Glance::End,
        ReadingView::Failed(signal) => Glance::Fail(Error::of(signal)),
    }
}

/// Whether two byte strings are the same.
pub fn same_bytes(left: &[u8], right: &[u8]) -> (same: bool)
    ensures
        same <==> left@ == right@,
{
    if left.len() != right.len() {
        return false;
    }
    let mut i: usize = 0;
    while i < left.len()
        invariant
            left@.len() == right@.len(),
            i <= left@.len(),
            forall|k: int| 0 <= k < i ==> left@[k] == right@[k],
        decreases left.len() - i,
    {
        if left[i] != right[i] {
            return false;
        }
        i = i + 1;
    }
    proof {
        assert(left@ =~= right@);
    }
    true
}

/// Computes [`glance`].
pub fn inspect_lock(owner: &[u8], reading: &Reading) -> (seen: Glance)
    ensures
        seen == glance(owner@, reading@),
{
    match reading {
        Reading::Bytes(hash) => if hash.len() != HASH_LEN {
            Glance::Fail(Error::Encoding)
        } else if same_bytes(hash.as_slice(), owner) {
            Glance::Owner
        } else {
            Glance::Stranger
        },
        Reading::Failed(Signal::IndexOutOfBound) => Glance::End,
        Reading::Failed(signal) => Glance::Fail(Error::from(*signal)),
    }
}

/// Owner mode as decided by the inputs from `from` on: the first input that
/// is not a stranger's decides.
pub open spec fn owner_mode_from(owner: Seq<u8>, inputs: Seq<ReadingView>, from: int) -> Result<
    bool,
    Error,
>
    decreases inputs.len() - from,
{
    match glance(owner, answer(inputs, from)) {
        Glance::Owner => Ok(true),
        Glance::Stranger => owner_mode_from(owner, inputs, from + 1),
        Glance::End => Ok(false),
        Glance::Fail(error) => Err(error),
    }
}

/// Whether the transaction is in owner mode: `Ok(true)` where an input is
/// locked by `owner` and all inputs before it are locked by others, `Ok(false)`
/// where the inputs end before that, and the rejection of the first reading
/// that fails otherwise.
pub open spec fn owner_mode(owner: Seq<u8>, inputs: Seq<ReadingView>) -> Result<bool, Error> {
    owner_mode_from(owner, inputs, 0)
}

/// Looks through the inputs of the transaction, in their order, for one that
/// the owner has locked, and stops at the first.
pub fn check_owner_mode(args: &[u8], tx: &Transaction) -> (mode: Result<bool, Error>)
    ensures
        mode == owner_mode(args@, tx@.inputs),
{
    let ghost inputs = tx@.inputs;
    let mut i: usize = 0;
    loop
        invariant
            inputs == tx.inputs.deep_view(),
            i <= tx.inputs.len(),
            owner_mode(args@, inputs) == owner_mode_from(args@, inputs, i as int),
        decreases tx.inputs.len() - i,
    {
        match inspect_lock(args, &read_at(&tx.inputs, i)) {
            Glance::Owner => {
                return Ok(true);
            },
            Glance::Stranger => {
                i = i + 1;
            },
            Glance::End => {
                return Ok(false);
            },
            Glance::Fail(error) => {
                return Err(error);
            },
        }
    }
}

} // verus!
