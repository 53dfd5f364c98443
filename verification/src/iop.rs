//! What the wrapper writes down about each call: what was asked for, and
//! how it ended.

use std::io::{ErrorKind, SeekFrom};
use vstd::prelude::*;

verus! {

/// `std::io::Error`, carried through as it is.
#[verifier::external_type_specification]
#[verifier::external_body]
pub struct ExIoError(std::io::Error);

/// `std::io::ErrorKind`, carried through as it is.
#[verifier::external_type_specification]
#[verifier::external_body]
pub struct ExErrorKind(std::io::ErrorKind);

/// `std::io::SeekFrom`, with its three variants.
#[verifier::external_type_specification]
pub struct ExSeekFrom(std::io::SeekFrom);

/// The kind of an I/O error, as `std::io::Error::kind` gives it.
pub uninterp spec fn error_kind(error: std::io::Error) -> ErrorKind;

/// `std::io::Error::kind`: the kind depends on the error alone.
pub assume_specification[ std::io::Error::kind ](error: &std::io::Error) -> (kind: ErrorKind)
    ensures
        kind == error_kind(*error),
;

/// Types of IO Operations.
#[derive(Debug, Clone, Copy, PartialEq, Eq)]
pub enum IopActions {
    /// Attempted read of the given size.
    Read(usize),
    /// Attempted seek to the given position.
    Seek(SeekFrom),
    /// Attempted write of the given size.
    Write(usize),
    /// Attempted flush of a writer.
    Flush,
}

/// Results of IO Operations.
///
/// Of an error only the kind is kept: an `std::io::Error` cannot be copied.
#[derive(Debug, Clone, Copy, PartialEq, Eq)]
pub enum IopResults {
    /// Result of a read operation.
    Read(Result<usize, ErrorKind>),
    /// Result of a seek operation.
    Seek(Result<u64, ErrorKind>),
    /// Result of a write operation.
    Write(Result<usize, ErrorKind>),
    /// Result of a flush operation.
    Flush(Result<(), ErrorKind>),
}

/// One logged call: what was asked for, and how it ended.
pub type IopInfoPair = (IopActions, IopResults);

/// What is kept of a result that carries a full I/O error: the value on
/// success, the error's kind on failure.
pub open spec fn outcome_of<V>(result: Result<V, std::io::Error>) -> Result<V, ErrorKind> {
    match result {
        Ok(value) => Ok(value),
        Err(error) => Err(error_kind(error)),
    }
}

/// Reduces the result of a call to what the log keeps of it.
pub fn classify<V: Copy>(result: &Result<V, std::io::Error>) -> (outcome: Result<V, ErrorKind>)
    ensures
        outcome == outcome_of(*result),
{
    match result {
        Ok(value) => Ok(*value),
        Err(error) => Err(error.kind()),
    }
}

} // verus!
