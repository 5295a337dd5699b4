//! Errors of the wire form of tagged handles.
use crate::runtime::TagError;
use vstd::prelude::*;

verus! {

/// Why a tagged handle could not be written to or read from the wire.
#[derive(Clone, Copy, Debug, PartialEq, Eq, Structural)]
pub enum WireError {
    /// The codec could not encode the handle, or the bytes are not the
    /// encoding of one.
    Malformed,
    /// The handle was read but refused for the tag.
    Refused(TagError),
}

/// The refusal a result carries: the tag error for a refused handle, and
/// `Ok(())` otherwise. A malformed result carries no refusal; the contracts
/// that use this say on their own when a result is malformed.
pub open spec fn refusal<T>(r: Result<T, WireError>) -> Result<(), TagError> {
    match r {
        Ok(_) => Ok(()),
        Err(WireError::Refused(e)) => Err(e),
        Err(WireError::Malformed) => Ok(()),
    }
}

} // verus!
