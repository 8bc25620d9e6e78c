use vstd::prelude::*;

verus! {

/// The four ways an operation of this layer can fail.
#[derive(Clone, Copy, Debug, PartialEq, Eq, Structural)]
pub enum ErrorKind {
    /// The engine set its error flag; number and message are the engine's own.
    Engine,
    /// A result buffer does not have the shape the requested decode needs.
    Marshaling,
    /// An operation on a disposed handle, or a disposal that is not allowed.
    Lifecycle,
    /// The engine could not provide a new, registered context.
    ContextCreation,
}

/// An error surfaced to the caller of any engine operation.
#[derive(Debug)]
pub struct DSSError {
    pub kind: ErrorKind,
    pub number: i32,
    pub message: String,
}

impl DSSError {
    /// An error reported by the engine through its error flag.
    pub fn engine(number: i32, message: String) -> (e: DSSError)
        ensures
            e.kind == ErrorKind::Engine,
            e.number == number,
            e.message@ == message@,
    {
        DSSError { kind: ErrorKind::Engine, number, message }
    }

    /// An error raised by this layer itself; such errors carry the number 0.
    pub fn raised(kind: ErrorKind, message: &str) -> (e: DSSError)
        ensures
            e.kind == kind,
            e.number == 0,
            e.message@ == message@,
    {
        DSSError { kind, number: 0, message: message.to_string() }
    }
}

/// `r` is an error of the given kind.
pub open spec fn fails_with<T>(r: Result<T, DSSError>, kind: ErrorKind) -> bool {
    r matches Err(e) && e.kind == kind
}

} // verus!
