//! The owner's identity: the argument of the running script.

use vstd::prelude::*;
use ckb_types::packed::Script;
use ckb_types::prelude::{Entity, Unpack};
use crate::error::Error;
use crate::host::{Reading, ReadingView};

verus! {

/// The `args` field that `ckb_types` unpacks from a serialised `Script`, and
/// `None` for bytes that it does not take for a `Script`.
pub uninterp spec fn script_args(descriptor: Seq<u8>) -> Option<Seq<u8>>;

/// Calls `Script::from_compatible_slice` of `ckb_types`, and on the entity
/// that it gives, `args()` and `unpack()`.
///
/// Believed, not proved: the outcome is a function of the bytes alone, the
/// one that [`script_args`] names. It is `None` where `from_compatible_slice`
/// refuses the bytes, and the unpacked argument where it takes them. That call
/// checks the table's header, offsets and fields before an accessor runs, so
/// no input makes one panic.
#[verifier::external_body]
fn unpack_args(descriptor: &[u8]) -> (args: Option<Vec<u8>>)
    ensures
        match args {
            Some(bytes) => script_args(descriptor@) == Some(bytes@),
            None => script_args(descriptor@) is None,
        },
{
    match Script::from_compatible_slice(descriptor) {
        Ok(script) => Some(script.args().unpack()),
        Err(_) => None,
    }
}

/// Whether the descriptor that was read, if one was, is a `Script`.
pub open spec fn legible(script: ReadingView) -> bool {
    script matches ReadingView::Bytes(descriptor) ==> script_args(descriptor) is Some
}

/// What loading the script's argument comes to: the `args` of the descriptor,
/// or the rejection for the signal that the read gave. Of a descriptor that is
/// not [`legible`] it says nothing.
pub open spec fn loaded_args(script: ReadingView) -> Result<Seq<u8>, Error> {
    match script {
        ReadingView::Bytes(descriptor) => Ok(script_args(descriptor)->Some_0),
        ReadingView::Failed(signal) => Err(Error::of(signal)),
    }
}

/// The outcome of [`try_load_args`] as a mathematical value.
pub open spec fn args_view(loaded: Result<Vec<u8>, Error>) -> Result<Seq<u8>, Error> {
    match loaded {
        Ok(args) => Ok(args@),
        Err(error) => Err(error),
    }
}

/// Extracts the script's argument from the reading of its descriptor.
///
/// The descriptor comes from the host, which serialises it itself: bytes that
/// are no `Script` are left out here, and [`try_load_args`] tests for them.
pub fn load_args(script: &Reading) -> (loaded: Result<Vec<u8>, Error>)
    requires
        legible(script@),
    ensures
        args_view(loaded) == loaded_args(script@),
{
    match script {
        Reading::Failed(signal) => Err(Error::from(*signal)),
        Reading::Bytes(descriptor) => Ok(unpack_args(descriptor.as_slice()).unwrap()),
    }
}

/// As [`load_args`], for any reading: `None` where the bytes are no `Script`.
pub fn try_load_args(script: &Reading) -> (loaded: Option<Result<Vec<u8>, Error>>)
    ensures
        loaded is Some <==> legible(script@),
        loaded matches Some(outcome) ==> args_view(outcome) == loaded_args(script@),
{
    match script {
        Reading::Failed(signal) => Some(Err(Error::from(*signal))),
        Reading::Bytes(descriptor) => {
            match unpack_args(descriptor.as_slice()) {
                Some(args) => Some(Ok(args)),
                None => None,
            }
        },
    }
}

} // verus!
