use vstd::prelude::*;

verus! {

/// Errors that the program returns to its callers.
#[derive(Clone, Copy, Debug, PartialEq, Eq, Structural)]
pub enum ErrorCode {
    /// The instruction was not signed by the expected signer.
    InvalidSigner,
    /// The instruction parameter is not one the program knows.
    InvalidParam,
}

/// The number Anchor adds to the position of a custom error to form its code.
///
/// Reads `anchor_lang::error::ERROR_CODE_OFFSET`, which the crate's source
/// defines as 6000.
#[verifier::external_body]
fn error_code_offset() -> (offset: u32)
    ensures
        offset == 6000,
{
    anchor_lang::error::ERROR_CODE_OFFSET
}

impl ErrorCode {
    /// Position of the variant in the declaration.
    pub open spec fn position(self) -> u32 {
        match self {
            ErrorCode::InvalidSigner => 0,
            ErrorCode::InvalidParam => 1,
        }
    }

    /// The numeric code that the program reports for this error.
    pub open spec fn spec_code(self) -> u32 {
        (6000 + self.position()) as u32
    }

    /// The numeric code that the program reports: 6000 plus the variant's position.
    pub fn code(&self) -> (code: u32)
        ensures
            code == self.spec_code(),
    {
        let offset = error_code_offset();
        match self {
            ErrorCode::InvalidSigner => offset,
            ErrorCode::InvalidParam => offset + 1,
        }
    }

    /// The variant's name, as reported in error logs.
    pub fn name(&self) -> (name: &'static str)
        ensures
            *self == ErrorCode::InvalidSigner ==> name@ == "InvalidSigner"@,
            *self == ErrorCode::InvalidParam ==> name@ == "InvalidParam"@,
    {
        match self {
            ErrorCode::InvalidSigner => "InvalidSigner",
            ErrorCode::InvalidParam => "InvalidParam",
        }
    }

    /// The human-readable message attached to the error.
    pub fn message(&self) -> (msg: &'static str)
        ensures
            *self == ErrorCode::InvalidSigner ==> msg@ == "Invalid signer"@,
            *self == ErrorCode::InvalidParam ==> msg@ == "Invalid Param"@,
    {
        match self {
            ErrorCode::InvalidSigner => "Invalid signer",
            ErrorCode::InvalidParam => "Invalid Param",
        }
    }
}

/// Distinct errors are reported under distinct codes, so a caller can tell
/// them apart by the code alone.
pub proof fn error_codes_are_distinct(a: ErrorCode, b: ErrorCode)
    ensures
        a != b ==> a.spec_code() != b.spec_code(),
{
}

} // verus!
