//! The flat result for callers that have no rich error types.

use vstd::prelude::*;
use vstd::std_specs::convert::FromSpecImpl;

verus! {

/// Whether an operation went through, with nothing said of why it did not.
#[derive(Clone, Copy, Debug, PartialEq, Eq, Structural)]
pub enum Response {
    /// The operation failed, for whatever reason.
    Failure,
    /// The operation went through.
    Success,
}

impl Response {
    /// The number that stands for this response across a foreign-function
    /// boundary.
    pub open spec fn spec_code(self) -> u16 {
        match self {
            Response::Failure => 0x00,
            Response::Success => 0x55,
        }
    }

    /// The number that stands for this response across a foreign-function
    /// boundary.
    #[verifier::when_used_as_spec(spec_code)]
    pub fn code(self) -> (code: u16)
        ensures
            code == self.spec_code(),
    {
        match self {
            Response::Failure => 0x00,
            Response::Success => 0x55,
        }
    }
}

impl<T, E> From<Result<T, E>> for Response {
    /// `Success` for `Ok`, `Failure` for `Err`; what they carry is dropped.
    fn from(value: Result<T, E>) -> (response: Response) {
        match value {
            Ok(_) => Response::Success,
            Err(_) => Response::Failure,
        }
    }
}

impl<T, E> FromSpecImpl<Result<T, E>> for Response {
    open spec fn obeys_from_spec() -> bool {
        true
    }

    open spec fn from_spec(value: Result<T, E>) -> Response {
        if value is Ok {
            Response::Success
        } else {
            Response::Failure
        }
    }
}

} // verus!
