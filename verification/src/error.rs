//! The reasons for which a transaction is turned down, and their exit codes.

use vstd::prelude::*;
use vstd::std_specs::convert::FromSpecImpl;

verus! {

/// A failure that a read of the host can signal.
///
/// These three are the whole interface. A return code outside it has no
/// `Signal`: whoever talks to the host stops there instead of handing one on.
#[derive(Clone, Copy, Debug, PartialEq, Eq, Structural)]
pub enum Signal {
    /// No cell at this index: the list has ended.
    IndexOutOfBound,
    /// The cell is there, the field asked for is not.
    ItemMissing,
    /// The data does not fit into the buffer offered.
    LengthNotEnough,
}

/// Why a transaction is rejected.
#[derive(Clone, Copy, Debug, PartialEq, Eq, Structural)]
pub enum Error {
    IndexOutOfBound,
    ItemMissing,
    LengthNotEnough,
    /// A field or a payload has not the length it must have.
    Encoding,
    /// The group's outputs hold more tokens than its inputs.
    Amount,
}

impl Error {
    /// The exit code of this rejection, from 1 to 5 in the order of the variants.
    pub open spec fn spec_code(self) -> i8 {
        match self {
            Error::IndexOutOfBound => 1,
            Error::ItemMissing => 2,
            Error::LengthNotEnough => 3,
            Error::Encoding => 4,
            Error::Amount => 5,
        }
    }

    /// The rejection that a signal of the host turns into when nothing handles it.
    pub open spec fn of(signal: Signal) -> Error {
        match signal {
            Signal::IndexOutOfBound => Error::IndexOutOfBound,
            Signal::ItemMissing => Error::ItemMissing,
            Signal::LengthNotEnough => Error::LengthNotEnough,
        }
    }

    #[verifier::when_used_as_spec(spec_code)]
    pub fn code(self) -> (code: i8)
        ensures
            code == self.spec_code(),
            1 <= code <= 5,
    {
        match self {
            Error::IndexOutOfBound => 1,
            Error::ItemMissing => 2,
            Error::LengthNotEnough => 3,
            Error::Encoding => 4,
            Error::Amount => 5,
        }
    }
}

impl From<Signal> for Error {
    fn from(signal: Signal) -> (error: Error) {
        match signal {
            Signal::IndexOutOfBound => Error::IndexOutOfBound,
            Signal::ItemMissing => Error::ItemMissing,
            Signal::LengthNotEnough => Error::LengthNotEnough,
        }
    }
}

impl FromSpecImpl<Signal> for Error {
    open spec fn obeys_from_spec() -> bool {
        true
    }

    open spec fn from_spec(signal: Signal) -> Error {
        Error::of(signal)
    }
}

/// The status that the script exits with: 0 for an accepted transaction, the
/// code of the rejection otherwise.
pub open spec fn status(verdict: Result<(), Error>) -> i8 {
    match verdict {
        Ok(_) => 0,
        Err(error) => error.spec_code(),
    }
}

/// Computes [`status`].
pub fn exit_code(verdict: Result<(), Error>) -> (code: i8)
    ensures
        code == status(verdict),
        code == 0 <==> verdict is Ok,
{
    match verdict {
        Ok(_) => 0,
        Err(error) => error.code(),
    }
}

} // verus!
