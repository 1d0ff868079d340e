//! Boundary contract types: the tagged result that every boundary call
//! returns, and the error record it carries on failure.

use vstd::prelude::*;

verus! {

/// The stable error taxonomy surfaced across the boundary.
#[derive(Clone, Copy, PartialEq, Eq, Structural, Debug)]
pub enum ResultErrorKind {
    /// The underlying driver failed (device lost, out of memory, ...).
    Device,
    /// An offset/length pair fell outside the resource's capacity.
    ResourceBounds,
}

impl ResultErrorKind {
    /// The stable discriminant under which this kind crosses the boundary.
    pub fn code(&self) -> (c: u8)
        ensures
            *self == ResultErrorKind::Device ==> c == 1,
            *self == ResultErrorKind::ResourceBounds ==> c == 2,
    {
        match *self {
            ResultErrorKind::Device => 1,
            ResultErrorKind::ResourceBounds => 2,
        }
    }
}

/// An error crossing the boundary: a stable kind plus a readable message.
#[derive(Debug)]
pub struct ResultError {
    pub kind: ResultErrorKind,
    pub message: String,
}

impl ResultError {
    pub open spec fn spec_kind(&self) -> ResultErrorKind {
        self.kind
    }

    pub open spec fn spec_message(&self) -> Seq<char> {
        self.message@
    }

    pub fn new(kind: ResultErrorKind, message: String) -> (e: ResultError)
        ensures
            e.spec_kind() == kind,
            e.spec_message() == message@,
    {
        ResultError { kind, message }
    }

    pub fn kind(&self) -> (k: ResultErrorKind)
        ensures
            k == self.spec_kind(),
    {
        self.kind
    }

    pub fn message(&self) -> (m: &str)
        ensures
            m@ == self.spec_message(),
    {
        self.message.as_str()
    }
}

/// The tagged union every boundary call returns: exactly one of a success
/// value or an error record.
pub enum InteropResult<T> {
    Success(T),
    Failure(ResultError),
}

impl<T> InteropResult<T> {
    pub open spec fn spec_is_ok(self) -> bool {
        self is Success
    }

    pub open spec fn spec_value(self) -> T
        recommends
            self is Success,
    {
        match self {
            InteropResult::Success(v) => v,
            InteropResult::Failure(_) => arbitrary(),
        }
    }

    pub open spec fn spec_error(self) -> ResultError
        recommends
            self is Failure,
    {
        match self {
            InteropResult::Success(_) => arbitrary(),
            InteropResult::Failure(e) => e,
        }
    }

    pub open spec fn spec_as_result(self) -> Result<T, ResultError> {
        match self {
            InteropResult::Success(v) => Ok(v),
            InteropResult::Failure(e) => Err(e),
        }
    }

    pub fn with_ok(value: T) -> (r: InteropResult<T>)
        ensures
            r == InteropResult::<T>::Success(value),
    {
        InteropResult::Success(value)
    }

    pub fn with_err(error: ResultError) -> (r: InteropResult<T>)
        ensures
            r == InteropResult::<T>::Failure(error),
    {
        InteropResult::Failure(error)
    }

    /// Which variant this result holds, without consuming it.
    pub fn is_ok(&self) -> (b: bool)
        ensures
            b == self.spec_is_ok(),
    {
        match self {
            InteropResult::Success(_) => true,
            InteropResult::Failure(_) => false,
        }
    }

    /// The same outcome as a plain `Result`.
    pub fn into_result(self) -> (r: Result<T, ResultError>)
        ensures
            r == self.spec_as_result(),
    {
        match self {
            InteropResult::Success(v) => Ok(v),
            InteropResult::Failure(e) => Err(e),
        }
    }
}

} // verus!
