//! How strongly a price was attested, and its one- or two-byte wire form.

use vstd::prelude::*;
use crate::borsh_io::{read_u8, write_u8};
use crate::cursor::read_exact;
use crate::error::CodecError;
use vstd::slice::slice_subrange;

verus! {

/// How many attestations stand behind a price.
#[derive(Clone, Copy, Debug, PartialEq, Eq, Structural)]
pub enum VerificationLevel {
    /// Only `num_signatures` attestations were checked.
    Partial { num_signatures: u8 },
    /// Every attestation was checked.
    Full,
}

impl VerificationLevel {
    /// The wire form: tag `0` and the count for `Partial`, tag `1` alone for `Full`.
    pub open spec fn wire(self) -> Seq<u8> {
        match self {
            VerificationLevel::Partial { num_signatures } => seq![0u8, num_signatures],
            VerificationLevel::Full => seq![1u8],
        }
    }

    /// What the front of `bytes` decodes to.
    ///
    /// An empty input, or tag `0` with nothing behind it, ends too early; a
    /// tag other than `0` and `1` names no variant.
    pub open spec fn decode(bytes: Seq<u8>) -> Result<VerificationLevel, CodecError> {
        if bytes.len() == 0 {
            Err(CodecError::UnexpectedEndOfInput)
        } else if bytes[0] == 0 {
            if bytes.len() < 2 {
                Err(CodecError::UnexpectedEndOfInput)
            } else {
                Ok(VerificationLevel::Partial { num_signatures: bytes[1] })
            }
        } else if bytes[0] == 1 {
            Ok(VerificationLevel::Full)
        } else {
            Err(CodecError::InvalidData)
        }
    }

    /// Appends the wire form of `self` to `writer`.
    pub fn serialize(&self, writer: &mut Vec<u8>)
        ensures
            final(writer)@ == old(writer)@ + self.wire(),
    {
        match self {
            VerificationLevel::Partial { num_signatures } => {
                writer.push(0);
                write_u8(*num_signatures, writer);
            },
            VerificationLevel::Full => {
                writer.push(1);
            },
        }
        assert(writer@ =~= old(writer)@ + self.wire());
    }

    /// Decodes a level from the front of `buf` and moves `buf` past the bytes
    /// it used. A failed call leaves `buf` where it was.
    pub fn deserialize(buf: &mut &[u8]) -> (r: Result<VerificationLevel, CodecError>)
        ensures
            r == VerificationLevel::decode(old(buf)@),
            r matches Ok(level) ==> final(buf)@ == old(buf)@.skip(level.wire().len() as int),
            r is Err ==> final(buf)@ == old(buf)@,
    {
        let whole: &[u8] = *buf;
        if whole.is_empty() {
            return Err(CodecError::UnexpectedEndOfInput);
        }
        let variant: u8 = whole[0];
        let mut rest: &[u8] = slice_subrange(whole, 1, whole.len());
        match variant {
            0 => match read_u8(&mut rest) {
                Some(num_signatures) => {
                    assert(rest@ =~= whole@.skip(2));
                    *buf = rest;
                    Ok(VerificationLevel::Partial { num_signatures })
                },
                None => Err(CodecError::UnexpectedEndOfInput),
            },
            1 => {
                assert(rest@ =~= whole@.skip(1));
                *buf = rest;
                Ok(VerificationLevel::Full)
            },
            _ => Err(CodecError::InvalidData),
        }
    }

    /// Decodes a level by reading the tag, and then the count if the tag asks
    /// for one, off the front of `reader`. A failed call leaves `reader`
    /// where it was.
    pub fn deserialize_reader(reader: &mut &[u8]) -> (r: Result<VerificationLevel, CodecError>)
        ensures
            r == VerificationLevel::decode(old(reader)@),
            r matches Ok(level) ==> final(reader)@ == old(reader)@.skip(level.wire().len() as int),
            r is Err ==> final(reader)@ == old(reader)@,
    {
        let mut rest: &[u8] = *reader;
        let variant_buf: [u8; 1] = match read_exact::<1>(&mut rest) {
            Some(bytes) => bytes,
            None => { return Err(CodecError::UnexpectedEndOfInput); },
        };
        match variant_buf[0] {
            0 => match read_exact::<1>(&mut rest) {
                Some(sigs_buf) => {
                    assert(rest@ =~= old(reader)@.skip(2));
                    *reader = rest;
                    Ok(VerificationLevel::Partial { num_signatures: sigs_buf[0] })
                },
                None => Err(CodecError::UnexpectedEndOfInput),
            },
            1 => {
                *reader = rest;
                Ok(VerificationLevel::Full)
            },
            _ => Err(CodecError::InvalidData),
        }
    }

    /// Round trip: a level's wire form, whatever follows it, decodes to the
    /// level again.
    pub proof fn lemma_decode_wire(self, rest: Seq<u8>)
        ensures
            VerificationLevel::decode(self.wire() + rest) == Ok::<VerificationLevel, CodecError>(
                self,
            ),
    {
    }

    /// Tag rejection: a first byte other than `0` and `1` is invalid data,
    /// whatever follows it.
    pub proof fn lemma_unknown_tag(bytes: Seq<u8>)
        requires
            bytes.len() >= 1,
            bytes[0] != 0,
            bytes[0] != 1,
        ensures
            VerificationLevel::decode(bytes) == Err::<VerificationLevel, CodecError>(
                CodecError::InvalidData,
            ),
    {
    }

    /// Truncation: every proper prefix of a level's wire form ends too early.
    pub proof fn lemma_truncated(self, len: int)
        requires
            0 <= len < self.wire().len(),
        ensures
            VerificationLevel::decode(self.wire().take(len)) == Err::<
                VerificationLevel,
                CodecError,
            >(CodecError::UnexpectedEndOfInput),
    {
    }
}

} // verus!
