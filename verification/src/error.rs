//! The kinds of failure and the HTTP status each one is answered with.

use vstd::prelude::*;

verus! {

/// Why a request was not carried out.
#[derive(Clone, Copy, Debug, PartialEq, Eq, Structural)]
pub enum ErrorKind {
    /// The request is malformed or cannot be satisfied; the backend never saw it.
    Invalid,
    /// No pod, or no container, answers to the identity given.
    NotFound,
    /// A pod with that identity is already there.
    AlreadyExists,
    /// The backend does not implement the operation.
    Unsupported,
    /// The backend failed unexpectedly.
    Internal,
}

/// The status of a request that was carried out.
pub const STATUS_OK: u16 = 200;

/// The HTTP status a failure of the given kind is answered with.
pub open spec fn status_of(kind: ErrorKind) -> u16 {
    match kind {
        ErrorKind::Invalid => 400,
        ErrorKind::NotFound => 404,
        ErrorKind::AlreadyExists => 409,
        ErrorKind::Unsupported => 500,
        ErrorKind::Internal => 500,
    }
}

/// The HTTP status a failure of the given kind is answered with.
pub fn status_code(kind: ErrorKind) -> (code: u16)
    ensures
        code == status_of(kind),
{
    match kind {
        ErrorKind::Invalid => 400,
        ErrorKind::NotFound => 404,
        ErrorKind::AlreadyExists => 409,
        ErrorKind::Unsupported => 500,
        ErrorKind::Internal => 500,
    }
}

/// The name under which a kind of failure is reported.
pub open spec fn name_of(kind: ErrorKind) -> Seq<char> {
    match kind {
        ErrorKind::Invalid => "Invalid"@,
        ErrorKind::NotFound => "NotFound"@,
        ErrorKind::AlreadyExists => "AlreadyExists"@,
        ErrorKind::Unsupported => "Unsupported"@,
        ErrorKind::Internal => "Internal"@,
    }
}

impl ErrorKind {
    /// The name under which the kind is reported.
    pub fn name(self) -> (name: &'static str)
        ensures
            name@ == name_of(self),
    {
        match self {
            ErrorKind::Invalid => "Invalid",
            ErrorKind::NotFound => "NotFound",
            ErrorKind::AlreadyExists => "AlreadyExists",
            ErrorKind::Unsupported => "Unsupported",
            ErrorKind::Internal => "Internal",
        }
    }
}

/// A failure reported by a backend: its kind and a message for a human reader.
#[derive(Debug)]
pub struct ProviderError {
    pub kind: ErrorKind,
    pub message: String,
}

impl ProviderError {
    /// A failure of the given kind with the given message.
    pub fn new(kind: ErrorKind, message: &str) -> (e: ProviderError)
        ensures
            e.kind == kind,
            e.message@ == message@,
    {
        ProviderError { kind, message: crate::text::owned(message) }
    }
}

/// No failure is mistaken for success: every kind maps to a client or server
/// error status, never to 200.
pub proof fn lemma_failure_status_is_error(kind: ErrorKind)
    ensures
        400 <= status_of(kind) <= 500,
        status_of(kind) != STATUS_OK,
{
}

} // verus!
