//! The verdict on a transaction.

use vstd::prelude::*;
use crate::amount::{collect_inputs_amount, collect_outputs_amount, gathered, total};
use crate::error::Error;
use crate::host::{Transaction, TransactionView};
use crate::machine::{serve, State};
use crate::owner::{check_owner_mode, owner_mode};
use crate::run::{cells_left, completes, completes_iff_admissible, phases_left, reply, run};
use crate::run::run_reaches_verdict;
use crate::script::{legible, load_args, loaded_args};

verus! {

/// Whether the script's group keeps its tokens: accepted where the inputs
/// hold at least what the outputs hold, rejected with `Amount` where they hold
/// less, and with the rejection of the first group cell that fails, the inputs
/// before the outputs, where one does.
pub open spec fn conservation(tx: TransactionView) -> Result<(), Error> {
    match total(tx.group_inputs) {
        Err(error) => Err(error),
        Ok(inputs) => match total(tx.group_outputs) {
            Err(error) => Err(error),
            Ok(outputs) => if inputs >= outputs {
                Ok(())
            } else {
                Err(Error::Amount)
            },
        },
    }
}

/// The verdict on a transaction for a token that `owner` owns: accepted in
/// owner mode whatever the amounts are, and by [`conservation`] otherwise.
pub open spec fn judgement(owner: Seq<u8>, tx: TransactionView) -> Result<(), Error> {
    match owner_mode(owner, tx.inputs) {
        Err(error) => Err(error),
        Ok(true) => Ok(()),
        Ok(false) => conservation(tx),
    }
}

/// The verdict on a transaction: the [`judgement`] for the owner that the
/// script's descriptor names, or the rejection that reading it gave.
pub open spec fn verdict(tx: TransactionView) -> Result<(), Error> {
    match loaded_args(tx.script) {
        Err(error) => Err(error),
        Ok(owner) => judgement(owner, tx),
    }
}

/// Whether the sums that the verification forms fit into 128 bits: that of
/// the group's inputs where owner mode is off, and that of its outputs where
/// the inputs' total is then reached.
pub open spec fn sums_fit(owner: Seq<u8>, tx: TransactionView) -> bool {
    owner_mode(owner, tx.inputs) == Ok::<bool, Error>(false) ==> {
        &&& gathered(tx.group_inputs) <= u128::MAX
        &&& total(tx.group_inputs) is Ok ==> gathered(tx.group_outputs) <= u128::MAX
    }
}

/// What [`check`] asks of a transaction: a descriptor that is a `Script`, and
/// sums that fit.
pub open spec fn admissible(tx: TransactionView) -> bool {
    &&& legible(tx.script)
    &&& loaded_args(tx.script) matches Ok(owner) ==> sums_fit(owner, tx)
}

/// Verifies a transaction for a token that `args` names the owner of.
pub fn judge(args: &[u8], tx: &Transaction) -> (result: Result<(), Error>)
    requires
        sums_fit(args@, tx@),
    ensures
        result == judgement(args@, tx@),
{
    match check_owner_mode(args, tx) {
        Err(error) => {
            return Err(error);
        },
        Ok(true) => {
            return Ok(());
        },
        Ok(false) => {},
    }
    let inputs_amount = match collect_inputs_amount(tx) {
        Err(error) => {
            return Err(error);
        },
        Ok(amount) => amount,
    };
    let outputs_amount = match collect_outputs_amount(tx) {
        Err(error) => {
            return Err(error);
        },
        Ok(amount) => amount,
    };
    if inputs_amount < outputs_amount {
        return Err(Error::Amount);
    }
    Ok(())
}

/// Verifies a transaction: loads the owner's identity from the script's
/// descriptor, accepts in owner mode, and otherwise compares the tokens that
/// the group's inputs and outputs hold.
pub fn check(tx: &Transaction) -> (result: Result<(), Error>)
    requires
        admissible(tx@),
    ensures
        result == verdict(tx@),
{
    match load_args(&tx.script) {
        Err(error) => Err(error),
        Ok(args) => judge(args.as_slice(), tx),
    }
}

/// As [`check`], for any transaction: `None` where the transaction is not
/// [`admissible`], the verdict otherwise.
///
/// It runs the [`State`] machine on the transaction, one read after the other.
pub fn try_check(tx: &Transaction) -> (result: Option<Result<(), Error>>)
    ensures
        result is Some <==> admissible(tx@),
        result matches Some(reached) ==> reached == verdict(tx@),
{
    let mut state = State::new();
    proof {
        assert(tx@.inputs.len() == tx.inputs.len());
        assert(tx@.group_inputs.len() == tx.group_inputs.len());
        assert(tx@.group_outputs.len() == tx.group_outputs.len());
        run_reaches_verdict(tx@);
        completes_iff_admissible(tx@);
    }
    loop
        invariant
            run(state@, tx@) == verdict(tx@),
            completes(state@, tx@) <==> admissible(tx@),
        decreases phases_left(state@), cells_left(state@, tx@),
    {
        match state.request() {
            None => {
                return state.verdict();
            },
            Some(request) => {
                let reading = serve(tx, request);
                assert(reading@ == reply(state@, tx@));
                match state.try_step(&reading) {
                    None => {
                        return None;
                    },
                    Some(after) => {
                        state = after;
                    },
                }
            },
        }
    }
}

} // verus!
