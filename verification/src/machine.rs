//! The verification as a machine that asks for one read at a time.
//!
//! Whoever can reach the host runs the loop: ask the [`State`] for its
//! [`Request`], perform the read, and hand the [`Reading`] to
//! [`State::try_step`], until the state is `Done`.

use vstd::prelude::*;
use crate::amount::{payload, read_amount, Payload};
use crate::error::Error;
use crate::host::{answer, read_at, Reading, ReadingView, Transaction, TransactionView};
use crate::host::{BUF_LEN, HASH_LEN, UDT_LEN};
use crate::owner::{glance, inspect_lock, Glance};
use crate::script::{legible, load_args, loaded_args, try_load_args};

verus! {

/// One of the two lists of cells that belong to the script's own group.
#[derive(Clone, Copy, Debug, PartialEq, Eq, Structural)]
pub enum Group {
    Inputs,
    Outputs,
}

/// A read that the machine asks for.
#[derive(Clone, Copy, Debug, PartialEq, Eq, Structural)]
pub enum Request {
    /// The descriptor of the running script.
    Script,
    /// The lock hash of the input at `index`, among all inputs of the transaction.
    LockHash { index: usize },
    /// The payload of the cell at `index` of a list of the script's group.
    Payload { group: Group, index: usize },
}

impl Request {
    /// The room to offer for the answer, in bytes.
    pub open spec fn spec_capacity(self) -> usize {
        match self {
            Request::Script => BUF_LEN,
            Request::LockHash { .. } => HASH_LEN,
            Request::Payload { .. } => UDT_LEN,
        }
    }

    #[verifier::when_used_as_spec(spec_capacity)]
    pub fn capacity(self) -> (room: usize)
        ensures
            room == self.spec_capacity(),
    {
        match self {
            Request::Script => BUF_LEN,
            Request::LockHash { .. } => HASH_LEN,
            Request::Payload { .. } => UDT_LEN,
        }
    }
}

/// What the transaction answers to a request.
pub open spec fn served(tx: TransactionView, request: Request) -> ReadingView {
    match request {
        Request::Script => tx.script,
        Request::LockHash { index } => answer(tx.inputs, index as int),
        Request::Payload { group: Group::Inputs, index } => answer(tx.group_inputs, index as int),
        Request::Payload { group: Group::Outputs, index } => answer(tx.group_outputs, index as int),
    }
}

/// Answers a request from a transaction held in memory.
pub fn serve(tx: &Transaction, request: Request) -> (reading: Reading)
    ensures
        reading@ == served(tx@, request),
{
    match request {
        Request::Script => tx.script.clone(),
        Request::LockHash { index } => read_at(&tx.inputs, index),
        Request::Payload { group: Group::Inputs, index } => read_at(&tx.group_inputs, index),
        Request::Payload { group: Group::Outputs, index } => read_at(&tx.group_outputs, index),
    }
}

/// How far the verification has come.
#[derive(Debug)]
pub enum State {
    /// Nothing is read yet.
    Start,
    /// The owner is known; the inputs before `index` are locked by others.
    Owner { args: Vec<u8>, index: usize },
    /// Owner mode is off; the group's inputs before `index` hold `sum`.
    Inputs { index: usize, sum: u128 },
    /// The group's inputs hold `inputs`; its outputs before `index` hold `sum`.
    Outputs { index: usize, inputs: u128, sum: u128 },
    /// The verdict is reached.
    Done(Result<(), Error>),
}

/// A [`State`] as a mathematical value, its counters unbounded.
pub enum StateView {
    Start,
    Owner { args: Seq<u8>, index: nat },
    Inputs { index: nat, sum: nat },
    Outputs { index: nat, inputs: nat, sum: nat },
    Done(Result<(), Error>),
}

impl View for State {
    type V = StateView;

    open spec fn view(&self) -> StateView {
        match self {
            State::Start => StateView::Start,
            State::Owner { args, index } => StateView::Owner { args: args@, index: *index as nat },
            State::Inputs { index, sum } => StateView::Inputs {
                index: *index as nat,
                sum: *sum as nat,
            },
            State::Outputs { index, inputs, sum } => StateView::Outputs {
                index: *index as nat,
                inputs: *inputs as nat,
                sum: *sum as nat,
            },
            State::Done(verdict) => StateView::Done(*verdict),
        }
    }
}

/// The state that follows `state` when its request is answered by `reading`.
pub open spec fn next(state: StateView, reading: ReadingView) -> StateView {
    match state {
        StateView::Start => match loaded_args(reading) {
            Ok(args) => StateView::Owner { args, index: 0 },
            Err(error) => StateView::Done(Err(error)),
        },
        StateView::Owner { args, index } => match glance(args, reading) {
            Glance::Owner => StateView::Done(Ok(())),
            Glance::Stranger => StateView::Owner { args, index: index + 1 },
            Glance::End => StateView::Inputs { index: 0, sum: 0 },
            Glance::Fail(error) => StateView::Done(Err(error)),
        },
        StateView::Inputs { index, sum } => match payload(reading) {
            Payload::Amount(amount) => StateView::Inputs {
                index: index + 1,
                sum: sum + amount as nat,
            },
            Payload::End => StateView::Outputs { index: 0, inputs: sum, sum: 0 },
            Payload::Fail(error) => StateView::Done(Err(error)),
        },
        StateView::Outputs { index, inputs, sum } => match payload(reading) {
            Payload::Amount(amount) => StateView::Outputs {
                index: index + 1,
                inputs,
                sum: sum + amount as nat,
            },
            Payload::End => StateView::Done(
                if inputs >= sum {
                    Ok(())
                } else {
                    Err(Error::Amount)
                },
            ),
            Payload::Fail(error) => StateView::Done(Err(error)),
        },
        StateView::Done(verdict) => StateView::Done(verdict),
    }
}

/// Whether a [`State`] can hold `state`: an index is a `usize`, a sum a `u128`.
pub open spec fn representable(state: StateView) -> bool {
    match state {
        StateView::Start => true,
        StateView::Owner { index, .. } => index <= usize::MAX,
        StateView::Inputs { index, sum } => index <= usize::MAX && sum <= u128::MAX,
        StateView::Outputs { index, inputs, sum } => {
            &&& index <= usize::MAX
            &&& inputs <= u128::MAX
            &&& sum <= u128::MAX
        },
        StateView::Done(_) => true,
    }
}

/// Whether `state` can take `reading` as the answer to its request: the
/// verdict is still open, a descriptor is a `Script`, and the state that
/// follows is one that a [`State`] can hold.
pub open spec fn admits(state: StateView, reading: ReadingView) -> bool {
    &&& !(state is Done)
    &&& state is Start ==> legible(reading)
    &&& representable(next(state, reading))
}

impl State {
    /// The state in which nothing is read yet.
    pub fn new() -> (state: State)
        ensures
            state@ == StateView::Start,
    {
        State::Start
    }

    /// The read to perform next: none once the verdict is reached.
    pub open spec fn spec_request(self) -> Option<Request> {
        match self {
            State::Start => Some(Request::Script),
            State::Owner { index, .. } => Some(Request::LockHash { index }),
            State::Inputs { index, .. } => Some(Request::Payload { group: Group::Inputs, index }),
            State::Outputs { index, .. } => Some(
                Request::Payload { group: Group::Outputs, index },
            ),
            State::Done(_) => None,
        }
    }

    /// The read to perform next: none once the verdict is reached.
    pub fn request(&self) -> (request: Option<Request>)
        ensures
            request == self.spec_request(),
    {
        match self {
            State::Start => Some(Request::Script),
            State::Owner { index, .. } => Some(Request::LockHash { index: *index }),
            State::Inputs { index, .. } => Some(
                Request::Payload { group: Group::Inputs, index: *index },
            ),
            State::Outputs { index, .. } => Some(
                Request::Payload { group: Group::Outputs, index: *index },
            ),
            State::Done(_) => None,
        }
    }

    /// The verdict, once it is reached.
    pub fn verdict(&self) -> (verdict: Option<Result<(), Error>>)
        ensures
            match self@ {
                StateView::Done(reached) => verdict == Some(reached),
                _ => verdict is None,
            },
    {
        match self {
            State::Done(reached) => Some(*reached),
            _ => None,
        }
    }

    /// Whether this state can take `reading`: computes [`admits`].
    pub fn accepts(&self, reading: &Reading) -> (ok: bool)
        ensures
            ok == admits(self@, reading@),
    {
        match self {
            State::Start => try_load_args(reading).is_some(),
            State::Owner { args, index } => match inspect_lock(args.as_slice(), reading) {
                Glance::Stranger => *index < usize::MAX,
                _ => true,
            },
            State::Inputs { index, sum } => match read_amount(reading) {
                Payload::Amount(amount) => *index < usize::MAX && amount <= u128::MAX - *sum,
                _ => true,
            },
            State::Outputs { index, sum, .. } => match read_amount(reading) {
                Payload::Amount(amount) => *index < usize::MAX && amount <= u128::MAX - *sum,
                _ => true,
            },
            State::Done(_) => false,
        }
    }

    /// Takes the answer to this state's request and moves on.
    pub fn step(self, reading: &Reading) -> (after: State)
        requires
            admits(self@, reading@),
        ensures
            after@ == next(self@, reading@),
    {
        match self {
            State::Start => match load_args(reading) {
                Ok(args) => State::Owner { args, index: 0 },
                Err(error) => State::Done(Err(error)),
            },
            State::Owner { args, index } => match inspect_lock(args.as_slice(), reading) {
                Glance::Owner => State::Done(Ok(())),
                Glance::Stranger => State::Owner { args, index: index + 1 },
                Glance::End => State::Inputs { index: 0, sum: 0 },
                Glance::Fail(error) => State::Done(Err(error)),
            },
            State::Inputs { index, sum } => match read_amount(reading) {
                Payload::Amount(amount) => State::Inputs { index: index + 1, sum: sum + amount },
                Payload::End => State::Outputs { index: 0, inputs: sum, sum: 0 },
                Payload::Fail(error) => State::Done(Err(error)),
            },
            State::Outputs { index, inputs, sum } => match read_amount(reading) {
                Payload::Amount(amount) => State::Outputs {
                    index: index + 1,
                    inputs,
                    sum: sum + amount,
                },
                Payload::End => State::Done(
                    if inputs >= sum {
                        Ok(())
                    } else {
                        Err(Error::Amount)
                    },
                ),
                Payload::Fail(error) => State::Done(Err(error)),
            },
            State::Done(verdict) => State::Done(verdict),
        }
    }

    /// As [`State::step`], for any state and reading: `None` where the state
    /// does not admit the reading, and nothing can be decided from it.
    pub fn try_step(self, reading: &Reading) -> (after: Option<State>)
        ensures
            after is Some <==> admits(self@, reading@),
            after matches Some(state) ==> state@ == next(self@, reading@),
    {
        if self.accepts(reading) {
            Some(self.step(reading))
        } else {
            None
        }
    }
}

} // verus!
