use vstd::prelude::*;

verus! {

/// Why a listed file cannot be handled by the resize pipeline.
#[derive(Clone, Copy, Debug, PartialEq, Eq, Structural)]
pub enum ResizeError {
    /// The file name, or its extension, is not valid text.
    InvalidStr,
    /// The file has no extension, or one other than `jpg` and `png`.
    InvalidFormat,
}

impl ResizeError {
    /// The message shown to the user for this error.
    pub fn message(&self) -> (r: String)
        ensures
            r@ == match self {
                ResizeError::InvalidStr => "Invalid String"@,
                ResizeError::InvalidFormat => "Invalid format found (only Jpeg and Png allowed)"@,
            },
    {
        match self {
            ResizeError::InvalidStr => String::from_str("Invalid String"),
            ResizeError::InvalidFormat => String::from_str("Invalid format found (only Jpeg and Png allowed)"),
        }
    }
}

} // verus!
