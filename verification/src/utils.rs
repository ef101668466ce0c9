//! What the other parts share: the comparison of names, and the way an error
//! becomes an exception of the host.

use vstd::prelude::*;

verus! {

/// Whether two string slices hold the same characters in the same order.
pub(crate) fn same_text(left: &str, right: &str) -> (same: bool)
    ensures
        same == (left@ == right@),
{
    String::from_str(left) == String::from_str(right)
}

/// The kinds of exception that the host knows.
#[derive(Clone, Copy, Debug, PartialEq, Eq, Structural)]
pub enum ExceptionKind {
    /// A plain error.
    Error,
    /// A value had the wrong type.
    TypeError,
    /// A number was out of range.
    RangeError,
}

/// An exception to raise in the host: nothing is retried and nothing is
/// swallowed, the caller gets a readable message.
#[derive(Clone, Debug, PartialEq, Eq)]
pub struct Exception {
    pub kind: ExceptionKind,
    pub message: String,
}

/// An error that can say in words what went wrong.
pub trait Describe {
    /// The words.
    spec fn text(&self) -> Seq<char>;

    /// The kind of exception that the error is raised as.
    spec fn kind(&self) -> ExceptionKind;

    /// Renders the error.
    fn describe(&self) -> (exception: Exception)
        ensures
            exception.kind == self.kind(),
            exception.message@ == self.text(),
    ;
}

impl Describe for String {
    open spec fn text(&self) -> Seq<char> {
        self@
    }

    open spec fn kind(&self) -> ExceptionKind {
        ExceptionKind::Error
    }

    fn describe(&self) -> (exception: Exception) {
        Exception { kind: ExceptionKind::Error, message: self.clone() }
    }
}

/// Results whose error can be raised in the host.
pub trait ResultExt<T> {
    /// What `or_throw` returns.
    spec fn thrown(self) -> Result<T, (ExceptionKind, Seq<char>)> where Self: Sized;

    /// Passes a success through, and turns an error into the exception that
    /// carries its description.
    fn or_throw(self) -> (out: Result<T, Exception>) where Self: Sized
        ensures
            match self.thrown() {
                Ok(value) => out == Ok::<T, Exception>(value),
                Err((kind, text)) => out matches Err(exception) && exception.kind == kind
                    && exception.message@ == text,
            },
    ;
}

impl<T, E: Describe> ResultExt<T> for Result<T, E> {
    open spec fn thrown(self) -> Result<T, (ExceptionKind, Seq<char>)> {
        match self {
            Ok(value) => Ok(value),
            Err(error) => Err((error.kind(), error.text())),
        }
    }

    fn or_throw(self) -> (out: Result<T, Exception>) {
        match self {
            Ok(value) => Ok(value),
            Err(error) => Err(error.describe()),
        }
    }
}

} // verus!
