use vstd::prelude::*;

verus! {

/// Why a decode or parse call failed.
#[derive(Clone, Copy, Debug, PartialEq, Eq, Structural)]
pub enum CodecError {
    /// A feed-id string is not sixty-four hexadecimal digits.
    InvalidArgument,
    /// The buffer ends before a field is complete.
    UnexpectedEndOfInput,
    /// A tag byte names no variant.
    InvalidData,
    /// The buffer is too short to hold the type discriminator.
    AccountTooSmall,
    /// The account bytes do not hold a well-formed record.
    InvalidAccountData,
}

impl CodecError {
    /// The one kind that an account decoder reports for a failure inside the
    /// record: which field failed, and how, is deliberately not passed on.
    pub fn into_account_error(self) -> (r: CodecError)
        ensures
            r == CodecError::InvalidAccountData,
    {
        CodecError::InvalidAccountData
    }
}

} // verus!
