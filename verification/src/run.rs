//! The machine run against a whole transaction, and what the run comes to.

use vstd::prelude::*;
use crate::amount::{gathered, gathered_from, payload, total, total_from, Payload};
use crate::error::Error;
use crate::host::{answer, ReadingView, TransactionView};
use crate::machine::{admits, next, StateView};
use crate::owner::{glance, owner_mode, owner_mode_from, Glance};
use crate::script::loaded_args;
use crate::verify::{admissible, conservation, verdict};

verus! {

/// What the transaction answers to the request of `state`.
pub open spec fn reply(state: StateView, tx: TransactionView) -> ReadingView {
    match state {
        StateView::Start => tx.script,
        StateView::Owner { index, .. } => answer(tx.inputs, index as int),
        StateView::Inputs { index, .. } => answer(tx.group_inputs, index as int),
        StateView::Outputs { index, .. } => answer(tx.group_outputs, index as int),
        StateView::Done(_) => tx.script,
    }
}

/// The number of phases that lie ahead of `state`.
pub open spec fn phases_left(state: StateView) -> nat {
    match state {
        StateView::Start => 4,
        StateView::Owner { .. } => 3,
        StateView::Inputs { .. } => 2,
        StateView::Outputs { .. } => 1,
        StateView::Done(_) => 0,
    }
}

/// The number of cells that `state` has yet to read in its own phase.
pub open spec fn cells_left(state: StateView, tx: TransactionView) -> nat {
    match state {
        StateView::Owner { index, .. } => (tx.inputs.len() - index) as nat,
        StateView::Inputs { index, .. } => (tx.group_inputs.len() - index) as nat,
        StateView::Outputs { index, .. } => (tx.group_outputs.len() - index) as nat,
        _ => 0,
    }
}

/// The verdict that the machine reaches from `state` when the transaction
/// answers each of its requests.
pub open spec fn run(state: StateView, tx: TransactionView) -> Result<(), Error>
    decreases phases_left(state), cells_left(state, tx),
{
    match state {
        StateView::Done(verdict) => verdict,
        _ => run(next(state, reply(state, tx)), tx),
    }
}

/// Whether the run that starts in `state` comes to an end, that is, whether
/// every state on the way admits the answer that the transaction gives it.
pub open spec fn completes(state: StateView, tx: TransactionView) -> bool
    decreases phases_left(state), cells_left(state, tx),
{
    match state {
        StateView::Done(_) => true,
        _ => admits(state, reply(state, tx)) && completes(next(state, reply(state, tx)), tx),
    }
}

/// From the outputs on, the run compares what the inputs hold with what the
/// outputs before `index` hold together with the total of the rest.
proof fn run_from_outputs(tx: TransactionView, index: nat, inputs: nat, sum: nat)
    ensures
        run(StateView::Outputs { index, inputs, sum }, tx) == match total_from(
            tx.group_outputs,
            index as int,
        ) {
            Ok(rest) => if inputs >= sum + rest {
                Ok::<(), Error>(())
            } else {
                Err(Error::Amount)
            },
            Err(error) => Err(error),
        },
    decreases tx.group_outputs.len() - index,
{
    let state = StateView::Outputs { index, inputs, sum };
    assert(run(state, tx) == run(next(state, reply(state, tx)), tx));
    if let Payload::Amount(amount) = payload(answer(tx.group_outputs, index as int)) {
        run_from_outputs(tx, index + 1, inputs, sum + amount as nat);
    }
}

/// From the inputs on, the run comes to the comparison of the two totals, the
/// inputs before `index` counted with `sum`.
proof fn run_from_inputs(tx: TransactionView, index: nat, sum: nat)
    ensures
        run(StateView::Inputs { index, sum }, tx) == match total_from(
            tx.group_inputs,
            index as int,
        ) {
            Ok(rest) => match total(tx.group_outputs) {
                Ok(outputs) => if sum + rest >= outputs {
                    Ok::<(), Error>(())
                } else {
                    Err(Error::Amount)
                },
                Err(error) => Err(error),
            },
            Err(error) => Err(error),
        },
    decreases tx.group_inputs.len() - index,
{
    let state = StateView::Inputs { index, sum };
    assert(run(state, tx) == run(next(state, reply(state, tx)), tx));
    match payload(answer(tx.group_inputs, index as int)) {
        Payload::Amount(amount) => {
            run_from_inputs(tx, index + 1, sum + amount as nat);
        },
        Payload::End => {
            run_from_outputs(tx, 0, sum, 0);
        },
        Payload::Fail(_) => {},
    }
}

/// From the scan for the owner on, the run comes to the judgement that the
/// inputs from `index` on decide.
proof fn run_from_owner(tx: TransactionView, args: Seq<u8>, index: nat)
    ensures
        run(StateView::Owner { args, index }, tx) == match owner_mode_from(
            args,
            tx.inputs,
            index as int,
        ) {
            Ok(true) => Ok::<(), Error>(()),
            Ok(false) => conservation(tx),
            Err(error) => Err(error),
        },
    decreases tx.inputs.len() - index,
{
    let state = StateView::Owner { args, index };
    assert(run(state, tx) == run(next(state, reply(state, tx)), tx));
    match glance(args, answer(tx.inputs, index as int)) {
        Glance::Stranger => {
            run_from_owner(tx, args, index + 1);
        },
        Glance::End => {
            run_from_inputs(tx, 0, 0);
        },
        _ => {},
    }
}

/// Driven by the answers of a transaction, the machine reaches the verdict on
/// that transaction, and so the same one at every run.
pub proof fn run_reaches_verdict(tx: TransactionView)
    ensures
        run(StateView::Start, tx) == verdict(tx),
{
    let state = StateView::Start;
    assert(run(state, tx) == run(next(state, reply(state, tx)), tx));
    if let Ok(args) = loaded_args(tx.script) {
        run_from_owner(tx, args, 0);
    }
}

/// From the outputs on, the machine completes exactly if what it adds up fits.
proof fn completes_from_outputs(tx: TransactionView, index: nat, inputs: nat, sum: nat)
    requires
        tx.group_outputs.len() <= usize::MAX,
        inputs <= u128::MAX,
        sum <= u128::MAX,
    ensures
        completes(StateView::Outputs { index, inputs, sum }, tx) <==> sum + gathered_from(
            tx.group_outputs,
            index as int,
        ) <= u128::MAX,
    decreases tx.group_outputs.len() - index,
{
    let state = StateView::Outputs { index, inputs, sum };
    let after = next(state, reply(state, tx));
    assert(completes(state, tx) == (admits(state, reply(state, tx)) && completes(after, tx)));
    if let Payload::Amount(amount) = payload(answer(tx.group_outputs, index as int)) {
        if sum + amount <= u128::MAX {
            completes_from_outputs(tx, index + 1, inputs, sum + amount as nat);
        }
    } else {
        assert(completes(after, tx));
    }
}

/// From the inputs on, the machine completes exactly if the inputs fit and,
/// where their total is reached, the outputs do.
proof fn completes_from_inputs(tx: TransactionView, index: nat, sum: nat)
    requires
        tx.group_inputs.len() <= usize::MAX,
        tx.group_outputs.len() <= usize::MAX,
        sum <= u128::MAX,
    ensures
        completes(StateView::Inputs { index, sum }, tx) <==> {
            &&& sum + gathered_from(tx.group_inputs, index as int) <= u128::MAX
            &&& total_from(tx.group_inputs, index as int) is Ok ==> gathered(tx.group_outputs)
                <= u128::MAX
        },
    decreases tx.group_inputs.len() - index,
{
    let state = StateView::Inputs { index, sum };
    let after = next(state, reply(state, tx));
    assert(completes(state, tx) == (admits(state, reply(state, tx)) && completes(after, tx)));
    match payload(answer(tx.group_inputs, index as int)) {
        Payload::Amount(amount) => {
            if sum + amount <= u128::MAX {
                completes_from_inputs(tx, index + 1, sum + amount as nat);
            }
        },
        Payload::End => {
            completes_from_outputs(tx, 0, sum, 0);
        },
        Payload::Fail(_) => {
            assert(completes(after, tx));
        },
    }
}

/// From the scan for the owner on, the machine completes exactly if the sums
/// that it comes to form fit.
proof fn completes_from_owner(tx: TransactionView, args: Seq<u8>, index: nat)
    requires
        tx.inputs.len() <= usize::MAX,
        tx.group_inputs.len() <= usize::MAX,
        tx.group_outputs.len() <= usize::MAX,
    ensures
        completes(StateView::Owner { args, index }, tx) <==> (owner_mode_from(
            args,
            tx.inputs,
            index as int,
        ) == Ok::<bool, Error>(false) ==> {
            &&& gathered(tx.group_inputs) <= u128::MAX
            &&& total(tx.group_inputs) is Ok ==> gathered(tx.group_outputs) <= u128::MAX
        }),
    decreases tx.inputs.len() - index,
{
    let state = StateView::Owner { args, index };
    let after = next(state, reply(state, tx));
    assert(completes(state, tx) == (admits(state, reply(state, tx)) && completes(after, tx)));
    match glance(args, answer(tx.inputs, index as int)) {
        Glance::Stranger => {
            completes_from_owner(tx, args, index + 1);
        },
        Glance::End => {
            completes_from_inputs(tx, 0, 0);
        },
        _ => {
            assert(completes(after, tx));
        },
    }
}

/// A run from the start reaches a verdict on exactly the transactions that
/// [`crate::verify::check`] takes. The lists are as long as a `Vec` can be.
pub proof fn completes_iff_admissible(tx: TransactionView)
    requires
        tx.inputs.len() <= usize::MAX,
        tx.group_inputs.len() <= usize::MAX,
        tx.group_outputs.len() <= usize::MAX,
    ensures
        completes(StateView::Start, tx) <==> admissible(tx),
{
    let state = StateView::Start;
    let after = next(state, reply(state, tx));
    assert(completes(state, tx) == (admits(state, reply(state, tx)) && completes(after, tx)));
    match loaded_args(tx.script) {
        Ok(args) => {
            completes_from_owner(tx, args, 0);
        },
        Err(_) => {
            assert(completes(after, tx));
        },
    }
}

/// The number of reads that the machine asks for from `state` until it has
/// its verdict.
pub open spec fn reads(state: StateView, tx: TransactionView) -> nat
    decreases phases_left(state), cells_left(state, tx),
{
    match state {
        StateView::Done(_) => 0,
        _ => 1 + reads(next(state, reply(state, tx)), tx),
    }
}

proof fn reads_from_outputs(tx: TransactionView, index: nat, inputs: nat, sum: nat)
    requires
        index <= tx.group_outputs.len(),
    ensures
        reads(StateView::Outputs { index, inputs, sum }, tx) <= 1 + tx.group_outputs.len() - index,
    decreases tx.group_outputs.len() - index,
{
    let state = StateView::Outputs { index, inputs, sum };
    let after = next(state, reply(state, tx));
    assert(reads(state, tx) == 1 + reads(after, tx));
    if let Payload::Amount(amount) = payload(answer(tx.group_outputs, index as int)) {
        reads_from_outputs(tx, index + 1, inputs, sum + amount as nat);
    } else {
        assert(reads(after, tx) == 0);
    }
}

proof fn reads_from_inputs(tx: TransactionView, index: nat, sum: nat)
    requires
        index <= tx.group_inputs.len(),
    ensures
        reads(StateView::Inputs { index, sum }, tx) <= 2 + tx.group_inputs.len() - index
            + tx.group_outputs.len(),
    decreases tx.group_inputs.len() - index,
{
    let state = StateView::Inputs { index, sum };
    let after = next(state, reply(state, tx));
    assert(reads(state, tx) == 1 + reads(after, tx));
    match payload(answer(tx.group_inputs, index as int)) {
        Payload::Amount(amount) => {
            reads_from_inputs(tx, index + 1, sum + amount as nat);
        },
        Payload::End => {
            reads_from_outputs(tx, 0, sum, 0);
        },
        Payload::Fail(_) => {
            assert(reads(after, tx) == 0);
        },
    }
}

proof fn reads_from_owner(tx: TransactionView, args: Seq<u8>, index: nat)
    requires
        index <= tx.inputs.len(),
    ensures
        reads(StateView::Owner { args, index }, tx) <= 3 + tx.inputs.len() - index
            + tx.group_inputs.len() + tx.group_outputs.len(),
        owner_mode_from(args, tx.inputs, index as int) == Ok::<bool, Error>(true) ==> reads(
            StateView::Owner { args, index },
            tx,
        ) <= tx.inputs.len() - index,
    decreases tx.inputs.len() - index,
{
    let state = StateView::Owner { args, index };
    let after = next(state, reply(state, tx));
    assert(reads(state, tx) == 1 + reads(after, tx));
    match glance(args, answer(tx.inputs, index as int)) {
        Glance::Stranger => {
            reads_from_owner(tx, args, index + 1);
        },
        Glance::End => {
            reads_from_inputs(tx, 0, 0);
        },
        _ => {
            assert(reads(after, tx) == 0);
        },
    }
}

/// The machine asks for the descriptor, for each cell of a list at most once,
/// and once more for the end of each list: it stops after a number of reads
/// that the size of the transaction bounds.
pub proof fn reads_are_bounded(tx: TransactionView)
    ensures
        reads(StateView::Start, tx) <= 4 + tx.inputs.len() + tx.group_inputs.len()
            + tx.group_outputs.len(),
{
    let state = StateView::Start;
    let after = next(state, reply(state, tx));
    assert(reads(state, tx) == 1 + reads(after, tx));
    match loaded_args(tx.script) {
        Ok(args) => {
            reads_from_owner(tx, args, 0);
        },
        Err(_) => {
            assert(reads(after, tx) == 0);
        },
    }
}

/// In owner mode the machine stops at the owner's input: it reads the
/// descriptor and lock hashes, and no cell of the group.
pub proof fn owner_mode_reads_no_group_cell(tx: TransactionView, owner: Seq<u8>)
    requires
        loaded_args(tx.script) == Ok::<Seq<u8>, Error>(owner),
        owner_mode(owner, tx.inputs) == Ok::<bool, Error>(true),
    ensures
        reads(StateView::Start, tx) <= 1 + tx.inputs.len(),
{
    let state = StateView::Start;
    assert(reads(state, tx) == 1 + reads(next(state, reply(state, tx)), tx));
    reads_from_owner(tx, owner, 0);
}

} // verus!
