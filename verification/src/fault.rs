//! What the document store reports when it refuses or fails an operation.

use mongodb::error::{Error, ErrorKind, WriteFailure};
use vstd::prelude::*;

verus! {

/// The server's code for a write that a unique index refused.
pub const DUPLICATE_KEY_CODE: i32 = 11000;

/// Why the store did not carry out an operation.
#[derive(Clone, Copy, Debug, PartialEq, Eq, Structural)]
pub enum FaultKind {
    /// A unique index refused the write: the key is taken.
    DuplicateKey,
    /// Anything else: the network, a timeout, the server.
    Other,
}

/// What a fault is: its kind and the store's description of it.
pub struct StoreFaultView {
    pub kind: FaultKind,
    pub message: Seq<char>,
}

/// A failure reported by the document store.
#[derive(Debug)]
pub struct StoreFault {
    kind: FaultKind,
    message: String,
}

impl View for StoreFault {
    type V = StoreFaultView;

    closed spec fn view(&self) -> StoreFaultView {
        StoreFaultView { kind: self.kind, message: self.message@ }
    }
}

impl DeepView for StoreFault {
    type V = StoreFaultView;

    open spec fn deep_view(&self) -> StoreFaultView {
        self@
    }
}

/// The kind of fault that a write error with the given code is. `None`
/// stands for a failure that is no write error at all.
pub open spec fn kind_of_code(write_code: Option<i32>) -> FaultKind {
    if write_code == Some(DUPLICATE_KEY_CODE) {
        FaultKind::DuplicateKey
    } else {
        FaultKind::Other
    }
}

impl StoreFault {
    pub fn new(kind: FaultKind, message: String) -> (fault: StoreFault)
        ensures
            fault@ == (StoreFaultView { kind, message: message@ }),
    {
        StoreFault { kind, message }
    }

    pub fn kind(&self) -> (kind: FaultKind)
        ensures
            kind == self@.kind,
    {
        self.kind
    }

    pub fn message(&self) -> (message: &String)
        ensures
            message@ == self@.message,
    {
        &self.message
    }

    pub fn into_message(self) -> (message: String)
        ensures
            message@ == self@.message,
    {
        self.message
    }
}

/// Sorts a failure by the code of the write error behind it, if there is one:
/// the duplicate-key code makes a `DuplicateKey` fault, everything else an
/// `Other` one. The description is kept as it is.
pub fn classify(write_code: Option<i32>, message: String) -> (fault: StoreFault)
    ensures
        fault@ == (StoreFaultView { kind: kind_of_code(write_code), message: message@ }),
{
    let duplicate = match write_code {
        Some(code) => code == DUPLICATE_KEY_CODE,
        None => false,
    };
    if duplicate {
        StoreFault::new(FaultKind::DuplicateKey, message)
    } else {
        StoreFault::new(FaultKind::Other, message)
    }
}

/// `mongodb::error::Error`, by name only: nothing is known of what one holds.
#[verifier::external_type_specification]
#[verifier::external_body]
pub struct ExDriverError(Error);

/// The code of the write error that an error of the driver carries, `None`
/// where it carries none: the error is of another kind, or the write failed
/// on its write concern.
pub uninterp spec fn write_code(error: Error) -> Option<i32>;

/// Reads `mongodb::error::Error::kind`: where the kind is a write failure
/// that holds a write error, that error's code; `None` for every other
/// error.
#[verifier::external_body]
fn write_error_code(error: &Error) -> (code: Option<i32>)
    ensures
        code == write_code(*error),
{
    match error.kind.as_ref() {
        ErrorKind::Write(WriteFailure::WriteError(write_error)) => Some(write_error.code),
        _ => None,
    }
}

/// Calls `to_string` on a `mongodb::error::Error`: the driver's own rendering
/// of the error. Nothing is claimed of the text.
#[verifier::external_body]
fn error_text(error: &Error) -> String {
    error.to_string()
}

/// The fault that an error of the driver amounts to: a duplicate key where
/// the error carries a write error with the duplicate-key code, another fault
/// otherwise. The message is the driver's rendering of the error, of which
/// nothing is promised.
pub fn fault_of(error: &Error) -> (fault: StoreFault)
    ensures
        fault@.kind == kind_of_code(write_code(*error)),
{
    let write_code = write_error_code(error);
    let message = error_text(error);
    classify(write_code, message)
}

} // verus!
