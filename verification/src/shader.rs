//! The verdict on a shader text. A text must parse as WGSL and its module
//! must be valid before anything is built from it; the host examines the
//! text and reports what it found.

use vstd::prelude::*;

verus! {

/// What the examination of a shader text found.
#[derive(Debug, PartialEq, Eq)]
pub enum ShaderVerdict {
    /// The text is no WGSL module; the parser's message.
    ParseFailed(String),
    /// The text parses, and the module is not valid; the validator's message.
    ValidationFailed(String),
    /// The text parses and the module is valid.
    Valid,
}

impl ShaderVerdict {
    pub open spec fn accepted(self) -> bool {
        self is Valid
    }

    pub fn is_accepted(&self) -> (b: bool)
        ensures
            b == self.accepted(),
    {
        match self {
            ShaderVerdict::Valid => true,
            _ => false,
        }
    }
}

} // verus!
