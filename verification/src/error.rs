//! The closed error taxonomy shared by every capability.

use vstd::prelude::*;

verus! {

/// One failure kind per failure channel: I/O faults, structured-value
/// encode/decode faults, a task that cannot be found, a sandbox violation,
/// a timeout, and a configuration problem (wrong capability, unknown
/// operation, or malformed parameters).  Values are built at the point of
/// failure and returned up the call stack; nothing aggregates them.
#[derive(Debug)]
pub enum Error {
    Io(String),
    Serialization(String),
    TaskNotFound(String),
    PermissionDenied(String),
    Timeout,
    InvalidConfig(String),
}

/// The mathematical shape of an [`Error`]: the same variants over
/// character sequences.
pub enum ErrorView {
    Io(Seq<char>),
    Serialization(Seq<char>),
    TaskNotFound(Seq<char>),
    PermissionDenied(Seq<char>),
    Timeout,
    InvalidConfig(Seq<char>),
}

impl View for Error {
    type V = ErrorView;

    open spec fn view(&self) -> ErrorView {
        match self {
            Error::Io(m) => ErrorView::Io(m@),
            Error::Serialization(m) => ErrorView::Serialization(m@),
            Error::TaskNotFound(m) => ErrorView::TaskNotFound(m@),
            Error::PermissionDenied(m) => ErrorView::PermissionDenied(m@),
            Error::Timeout => ErrorView::Timeout,
            Error::InvalidConfig(m) => ErrorView::InvalidConfig(m@),
        }
    }
}

impl Error {
    /// A human-readable description, in place of a `Display` impl.
    pub fn message(&self) -> (r: String)
        ensures
            self@ matches ErrorView::Io(m) ==> r@ == m,
            self@ matches ErrorView::Serialization(m) ==> r@ == m,
            self@ matches ErrorView::TaskNotFound(m) ==> r@ == m,
            self@ matches ErrorView::PermissionDenied(m) ==> r@ == m,
            self@ matches ErrorView::InvalidConfig(m) ==> r@ == m,
    {
        match self {
            Error::Io(m) => m.clone(),
            Error::Serialization(m) => m.clone(),
            Error::TaskNotFound(m) => m.clone(),
            Error::PermissionDenied(m) => m.clone(),
            Error::Timeout => String::from_str("timeout"),
            Error::InvalidConfig(m) => m.clone(),
        }
    }
}

} // verus!
