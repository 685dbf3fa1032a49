//! The build-time failures of the transformation. All three abort the build of
//! the enclosing program; none is recoverable or retried.

use vstd::prelude::*;
use vstd::string::StringExecFns;

verus! {

/// Why a transformation was rejected.
#[derive(Clone, Copy, Debug, PartialEq, Eq, Structural)]
pub enum TransformError {
    /// The annotation's argument list is not exactly one identifier.
    MalformedAnnotationArguments,
    /// The annotated item does not parse as a function.
    NotAFunction,
    /// The synthesized acquisition statement did not parse against the host
    /// grammar: a defect of this system, not of the caller's input.
    InternalInvariantViolation,
}

impl TransformError {
    /// The diagnostic text for this failure.
    pub open spec fn message_spec(self) -> Seq<char> {
        match self {
            TransformError::MalformedAnnotationArguments => "expected exactly one identifier naming a lock"@,
            TransformError::NotAFunction => "the annotated item is not a function"@,
            TransformError::InternalInvariantViolation => "the synthesized acquisition statement did not parse"@,
        }
    }

    /// The diagnostic text for this failure, for build-time output.
    pub fn message(&self) -> (r: String)
        ensures
            r@ == self.message_spec(),
    {
        match self {
            TransformError::MalformedAnnotationArguments => {
                String::from_str("expected exactly one identifier naming a lock")
            },
            TransformError::NotAFunction => {
                String::from_str("the annotated item is not a function")
            },
            TransformError::InternalInvariantViolation => {
                String::from_str("the synthesized acquisition statement did not parse")
            },
        }
    }
}

} // verus!
