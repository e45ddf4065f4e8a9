//! The price-update account record: who may write it, how strongly its price
//! was attested, the price itself and the slot it was posted in.

use anchor_lang::prelude::Clock;
use vstd::prelude::*;
use vstd::slice::slice_subrange;
use crate::borsh_io::{read_pubkey, read_u64, write_pubkey, write_u64};
use crate::error::CodecError;
use crate::price_feed_message::{PriceFeedMessage, PriceFeedMessageView};
use crate::verification_level::VerificationLevel;
use crate::wire::{lemma_u64_round_trip, u64_field, u64_wire};

verus! {

/// The clock of the hosting runtime. Nothing here looks inside it.
#[verifier::external_type_specification]
#[verifier::external_body]
pub struct ExClock(Clock);

/// A price with its confidence interval, both scaled by ten to the
/// `exponent`, and the time it was published.
#[derive(Clone, Copy, Debug, PartialEq, Eq, Structural)]
pub struct Price {
    pub price: i64,
    pub conf: u64,
    pub exponent: i32,
    pub publish_time: i64,
}

/// A price-update account.
#[derive(Clone, Debug, PartialEq)]
pub struct PriceUpdateV2 {
    pub write_authority: [u8; 32],
    pub verification_level: VerificationLevel,
    pub price_message: PriceFeedMessage,
    pub posted_slot: u64,
}

/// A [`PriceUpdateV2`] as a mathematical value: byte arrays are sequences.
pub struct PriceUpdateV2View {
    pub write_authority: Seq<u8>,
    pub verification_level: VerificationLevel,
    pub price_message: PriceFeedMessageView,
    pub posted_slot: u64,
}

impl View for PriceUpdateV2 {
    type V = PriceUpdateV2View;

    open spec fn view(&self) -> PriceUpdateV2View {
        PriceUpdateV2View {
            write_authority: self.write_authority@,
            verification_level: self.verification_level,
            price_message: self.price_message@,
            posted_slot: self.posted_slot,
        }
    }
}

/// The eight bytes that mark account data as a price update.
pub open spec fn discriminator() -> Seq<u8> {
    seq![34u8, 241u8, 35u8, 99u8, 157u8, 126u8, 244u8, 205u8]
}

/// The identity of the program that owns price-update accounts.
pub open spec fn owner_id() -> Seq<u8> {
    seq![
        12u8, 183u8, 250u8, 187u8, 82u8, 247u8, 166u8, 72u8, 187u8, 91u8, 49u8, 125u8, 154u8, 1u8,
        139u8, 144u8, 87u8, 203u8, 2u8, 71u8, 116u8, 250u8, 254u8, 1u8, 230u8, 196u8, 223u8, 152u8,
        204u8, 56u8, 88u8, 129u8,
    ]
}

impl PriceUpdateV2View {
    /// Both byte fields have their thirty-two bytes.
    pub open spec fn well_formed(self) -> bool {
        &&& self.write_authority.len() == 32
        &&& self.price_message.well_formed()
    }

    /// The record's fields on the wire, in order: write authority,
    /// verification level, price message, posted slot.
    pub open spec fn wire(self) -> Seq<u8> {
        self.write_authority + self.verification_level.wire() + self.price_message.wire()
            + u64_wire(self.posted_slot)
    }

    /// Account data: the discriminator, then the record's fields.
    pub open spec fn account_wire(self) -> Seq<u8> {
        discriminator() + self.wire()
    }

    /// What the front of `bytes` decodes to as the record's fields; the error
    /// is that of the first field that fails.
    pub open spec fn decode(bytes: Seq<u8>) -> Result<PriceUpdateV2View, CodecError> {
        if bytes.len() < 32 {
            Err(CodecError::UnexpectedEndOfInput)
        } else {
            match VerificationLevel::decode(bytes.skip(32)) {
                Err(e) => Err(e),
                Ok(level) => {
                    let at: int = 32 + level.wire().len() as int;
                    match PriceFeedMessageView::decode(bytes.skip(at)) {
                        Err(e) => Err(e),
                        Ok(message) => if bytes.len() < at + 92 {
                            Err(CodecError::UnexpectedEndOfInput)
                        } else {
                            Ok(
                                PriceUpdateV2View {
                                    write_authority: bytes.subrange(0, 32),
                                    verification_level: level,
                                    price_message: message,
                                    posted_slot: u64_field(bytes.subrange(at + 84, at + 92)),
                                },
                            )
                        },
                    }
                },
            }
        }
    }

    /// What account data decodes to: data shorter than a discriminator is too
    /// small; a wrong discriminator, or any failure behind a right one, is
    /// invalid account data.
    pub open spec fn decode_account(bytes: Seq<u8>) -> Result<PriceUpdateV2View, CodecError> {
        if bytes.len() < 8 {
            Err(CodecError::AccountTooSmall)
        } else if bytes.subrange(0, 8) != discriminator() {
            Err(CodecError::InvalidAccountData)
        } else {
            PriceUpdateV2View::decode_unchecked(bytes.skip(8))
        }
    }

    /// What `bytes` decode to when no discriminator is expected: every
    /// failure is invalid account data.
    pub open spec fn decode_unchecked(bytes: Seq<u8>) -> Result<PriceUpdateV2View, CodecError> {
        match PriceUpdateV2View::decode(bytes) {
            Ok(update) => Ok(update),
            Err(_) => Err(CodecError::InvalidAccountData),
        }
    }

    /// The fields take 125 bytes on the wire with full verification and 126
    /// with partial; account data is eight bytes longer.
    pub proof fn lemma_wire_len(self)
        requires
            self.well_formed(),
        ensures
            self.wire().len() == 124 + self.verification_level.wire().len(),
            self.verification_level is Full ==> self.wire().len() == 125,
            self.verification_level is Partial ==> self.wire().len() == 126,
            self.account_wire().len() == 8 + self.wire().len(),
    {
        self.price_message.lemma_wire_len();
        lemma_u64_round_trip(self.posted_slot);
    }

    /// Round trip: a record's wire form, whatever follows it, decodes to the
    /// record again.
    pub proof fn lemma_decode_wire(self, rest: Seq<u8>)
        requires
            self.well_formed(),
        ensures
            PriceUpdateV2View::decode(self.wire() + rest) == Ok::<PriceUpdateV2View, CodecError>(
                self,
            ),
    {
        let bytes = self.wire() + rest;
        let level = self.verification_level;
        let at: int = 32 + level.wire().len() as int;
        self.lemma_wire_len();
        self.price_message.lemma_wire_len();
        lemma_u64_round_trip(self.posted_slot);
        let after_level = self.price_message.wire() + u64_wire(self.posted_slot) + rest;
        assert(bytes.skip(32) =~= level.wire() + after_level);
        level.lemma_decode_wire(after_level);
        let after_message = u64_wire(self.posted_slot) + rest;
        assert(bytes.skip(at) =~= self.price_message.wire() + after_message);
        self.price_message.lemma_decode_wire(after_message);
        assert(bytes.subrange(0, 32) =~= self.write_authority);
        assert(bytes.subrange(at + 84, at + 92) =~= u64_wire(self.posted_slot));
    }

    /// Round trip of account data: a record's account data, whatever follows
    /// it, decodes to the record again.
    pub proof fn lemma_decode_account_wire(self, rest: Seq<u8>)
        requires
            self.well_formed(),
        ensures
            PriceUpdateV2View::decode_account(self.account_wire() + rest) == Ok::<
                PriceUpdateV2View,
                CodecError,
            >(self),
    {
        let bytes = self.account_wire() + rest;
        assert(bytes.subrange(0, 8) =~= discriminator());
        assert(bytes.skip(8) =~= self.wire() + rest);
        self.lemma_decode_wire(rest);
    }

    /// Truncation: every proper prefix of a record's wire form ends too early.
    pub proof fn lemma_truncated(self, len: int)
        requires
            self.well_formed(),
            0 <= len < self.wire().len(),
        ensures
            PriceUpdateV2View::decode(self.wire().take(len)) == Err::<
                PriceUpdateV2View,
                CodecError,
            >(CodecError::UnexpectedEndOfInput),
    {
        let bytes = self.wire().take(len);
        let level = self.verification_level;
        let at: int = 32 + level.wire().len() as int;
        self.lemma_wire_len();
        self.price_message.lemma_wire_len();
        if len >= 32 {
            if len < at {
                assert(bytes.skip(32) =~= level.wire().take(len - 32));
                level.lemma_truncated(len - 32);
            } else {
                let after_level = bytes.skip(at);
                assert(bytes.skip(32) =~= level.wire() + after_level);
                level.lemma_decode_wire(after_level);
                if len >= at + 84 {
                    let after_message = bytes.skip(at + 84);
                    assert(after_level =~= self.price_message.wire() + after_message);
                    self.price_message.lemma_decode_wire(after_message);
                }
            }
        }
    }

    /// Account data shorter than the discriminator is too small.
    pub proof fn lemma_account_too_small(bytes: Seq<u8>)
        requires
            bytes.len() < 8,
        ensures
            PriceUpdateV2View::decode_account(bytes) == Err::<PriceUpdateV2View, CodecError>(
                CodecError::AccountTooSmall,
            ),
    {
    }

    /// Account data that does not begin with the discriminator is invalid,
    /// whatever follows.
    pub proof fn lemma_discriminator_mismatch(bytes: Seq<u8>)
        requires
            bytes.len() >= 8,
            bytes.subrange(0, 8) != discriminator(),
        ensures
            PriceUpdateV2View::decode_account(bytes) == Err::<PriceUpdateV2View, CodecError>(
                CodecError::InvalidAccountData,
            ),
    {
    }
}

impl PriceUpdateV2 {
    /// The discriminator that account data of this type begins with.
    pub const DISCRIMINATOR: [u8; 8] = [34, 241, 35, 99, 157, 126, 244, 205];

    /// Two records with the same view are the same record.
    pub proof fn lemma_view_injective(self, other: PriceUpdateV2)
        requires
            self@ == other@,
        ensures
            self == other,
    {
        assert(self.write_authority =~= other.write_authority);
        self.price_message.lemma_view_injective(other.price_message);
    }

    /// Round trip: the wire form of a record, and its account data, whatever
    /// follows them, decode to the view of that record, and no other record
    /// has that view.
    pub proof fn lemma_round_trip(self, rest: Seq<u8>)
        ensures
            PriceUpdateV2View::decode(self@.wire() + rest) == Ok::<PriceUpdateV2View, CodecError>(
                self@,
            ),
            PriceUpdateV2View::decode_unchecked(self@.wire() + rest) == Ok::<
                PriceUpdateV2View,
                CodecError,
            >(self@),
            PriceUpdateV2View::decode_account(self@.account_wire() + rest) == Ok::<
                PriceUpdateV2View,
                CodecError,
            >(self@),
            forall|decoded: PriceUpdateV2| #[trigger] decoded@ == self@ ==> decoded == self,
    {
        self@.lemma_decode_wire(rest);
        self@.lemma_decode_account_wire(rest);
        assert forall|decoded: PriceUpdateV2| #[trigger] decoded@ == self@ implies decoded
            == self by {
            decoded.lemma_view_injective(self);
        }
    }

    /// The identity of the program that owns price-update accounts. A caller
    /// compares it with an account's owner before trusting the account's data.
    pub fn owner() -> (r: [u8; 32])
        ensures
            r@ == owner_id(),
    {
        let bytes: [u8; 32] = [
            12, 183, 250, 187, 82, 247, 166, 72, 187, 91, 49, 125, 154, 1, 139, 144, 87, 203, 2,
            71, 116, 250, 254, 1, 230, 196, 223, 152, 204, 56, 88, 129,
        ];
        assert(bytes@ =~= owner_id());
        bytes
    }

    /// Appends the record's fields to `writer`, without a discriminator.
    pub fn serialize(&self, writer: &mut Vec<u8>)
        ensures
            final(writer)@ == old(writer)@ + self@.wire(),
    {
        write_pubkey(&self.write_authority, writer);
        self.verification_level.serialize(writer);
        self.price_message.serialize(writer);
        write_u64(self.posted_slot, writer);
        assert(writer@ =~= old(writer)@ + self@.wire());
    }

    /// Decodes the record's fields from the front of `buf` and moves `buf`
    /// past them. A failed call leaves `buf` where it was.
    pub fn deserialize(buf: &mut &[u8]) -> (r: Result<PriceUpdateV2, CodecError>)
        ensures
            match r {
                Ok(update) => PriceUpdateV2View::decode(old(buf)@) == Ok::<
                    PriceUpdateV2View,
                    CodecError,
                >(update@) && final(buf)@ == old(buf)@.skip(update@.wire().len() as int),
                Err(e) => PriceUpdateV2View::decode(old(buf)@) == Err::<
                    PriceUpdateV2View,
                    CodecError,
                >(e) && final(buf)@ == old(buf)@,
            },
    {
        let ghost bytes = old(buf)@;
        let mut rest: &[u8] = *buf;
        let write_authority: [u8; 32] = match read_pubkey(&mut rest) {
            Some(key) => key,
            None => { return Err(CodecError::UnexpectedEndOfInput); },
        };
        assert(write_authority@ =~= bytes.subrange(0, 32));
        assert(rest@ =~= bytes.skip(32));
        let verification_level = match VerificationLevel::deserialize(&mut rest) {
            Ok(level) => level,
            Err(e) => { return Err(e); },
        };
        let ghost at: int = 32 + verification_level.wire().len() as int;
        assert(rest@ =~= bytes.skip(at));
        let price_message = match PriceFeedMessage::deserialize(&mut rest) {
            Ok(message) => message,
            Err(e) => { return Err(e); },
        };
        assert(rest@ =~= bytes.skip(at + 84));
        let posted_slot: u64 = match read_u64(&mut rest) {
            Some(slot) => slot,
            None => { return Err(CodecError::UnexpectedEndOfInput); },
        };
        assert(bytes.skip(at + 84).take(8) =~= bytes.subrange(at + 84, at + 92));
        assert(rest@ =~= bytes.skip(at + 92));
        *buf = rest;
        let update = PriceUpdateV2 {
            write_authority,
            verification_level,
            price_message,
            posted_slot,
        };
        proof {
            assert(update@.price_message == price_message@);
            update@.lemma_wire_len();
        }
        Ok(update)
    }

    /// Decodes the record's fields read off the front of `reader`; the same
    /// decoding as [`PriceUpdateV2::deserialize`].
    pub fn deserialize_reader(reader: &mut &[u8]) -> (r: Result<PriceUpdateV2, CodecError>)
        ensures
            match r {
                Ok(update) => PriceUpdateV2View::decode(old(reader)@) == Ok::<
                    PriceUpdateV2View,
                    CodecError,
                >(update@) && final(reader)@ == old(reader)@.skip(update@.wire().len() as int),
                Err(e) => PriceUpdateV2View::decode(old(reader)@) == Err::<
                    PriceUpdateV2View,
                    CodecError,
                >(e) && final(reader)@ == old(reader)@,
            },
    {
        PriceUpdateV2::deserialize(reader)
    }

    /// Appends account data for `self` to `writer`: the discriminator, then
    /// the record's fields. Writing into memory cannot fail.
    pub fn try_serialize(&self, writer: &mut Vec<u8>) -> (r: Result<(), CodecError>)
        ensures
            r is Ok,
            final(writer)@ == old(writer)@ + self@.account_wire(),
    {
        writer.extend_from_slice(PriceUpdateV2::DISCRIMINATOR.as_slice());
        assert(writer@ =~= old(writer)@ + discriminator());
        self.serialize(writer);
        assert(writer@ =~= old(writer)@ + self@.account_wire());
        Ok(())
    }

    /// Decodes account data: checks the discriminator, then decodes the
    /// record's fields behind it. `buf` is only read, never moved.
    pub fn try_deserialize(buf: &mut &[u8]) -> (r: Result<PriceUpdateV2, CodecError>)
        ensures
            final(buf)@ == old(buf)@,
            match r {
                Ok(update) => PriceUpdateV2View::decode_account(old(buf)@) == Ok::<
                    PriceUpdateV2View,
                    CodecError,
                >(update@),
                Err(e) => PriceUpdateV2View::decode_account(old(buf)@) == Err::<
                    PriceUpdateV2View,
                    CodecError,
                >(e),
            },
    {
        let whole: &[u8] = *buf;
        if whole.len() < 8 {
            return Err(CodecError::AccountTooSmall);
        }
        if !starts_with_discriminator(whole) {
            return Err(CodecError::InvalidAccountData);
        }
        let mut data: &[u8] = slice_subrange(whole, 8, whole.len());
        assert(data@ =~= whole@.skip(8));
        match PriceUpdateV2::deserialize(&mut data) {
            Ok(update) => Ok(update),
            Err(e) => Err(e.into_account_error()),
        }
    }

    /// Decodes the record's fields from the front of `buf` without looking
    /// for a discriminator, and moves `buf` past them. For data whose origin
    /// the caller has established by other means. A failed call leaves `buf`
    /// where it was.
    pub fn try_deserialize_unchecked(buf: &mut &[u8]) -> (r: Result<PriceUpdateV2, CodecError>)
        ensures
            match r {
                Ok(update) => PriceUpdateV2View::decode_unchecked(old(buf)@) == Ok::<
                    PriceUpdateV2View,
                    CodecError,
                >(update@) && final(buf)@ == old(buf)@.skip(update@.wire().len() as int),
                Err(e) => PriceUpdateV2View::decode_unchecked(old(buf)@) == Err::<
                    PriceUpdateV2View,
                    CodecError,
                >(e) && final(buf)@ == old(buf)@,
            },
    {
        match PriceUpdateV2::deserialize(buf) {
            Ok(update) => Ok(update),
            Err(e) => Err(e.into_account_error()),
        }
    }

    /// The price held in this update.
    ///
    /// The price is handed out as it is stored: its age is not held against
    /// the clock and the maximum age, and the feed it belongs to is not
    /// compared with the feed id. The three arguments are not looked at, and
    /// the call always succeeds. A caller that needs a fresh price of a given
    /// feed checks both itself.
    pub fn get_price_no_older_than(
        &self,
        _clock: &Clock,
        _maximum_age: u64,
        _feed_id: &[u8; 32],
    ) -> (r: Result<Price, CodecError>)
        ensures
            r == Ok::<Price, CodecError>(
                (Price {
                    price: self.price_message.price,
                    conf: self.price_message.conf,
                    exponent: self.price_message.exponent,
                    publish_time: self.price_message.publish_time,
                }),
            ),
    {
        Ok(
            Price {
                price: self.price_message.price,
                conf: self.price_message.conf,
                exponent: self.price_message.exponent,
                publish_time: self.price_message.publish_time,
            },
        )
    }
}

/// Whether `data` begins with the discriminator.
fn starts_with_discriminator(data: &[u8]) -> (r: bool)
    requires
        data@.len() >= 8,
    ensures
        r == (data@.subrange(0, 8) == discriminator()),
{
    let expected: [u8; 8] = PriceUpdateV2::DISCRIMINATOR;
    let mut i: usize = 0;
    while i < 8
        invariant
            i <= 8 <= data@.len(),
            expected@ == discriminator(),
            forall|j: int| 0 <= j < i ==> data@[j] == discriminator()[j],
        decreases 8 - i,
    {
        if data[i] != expected[i] {
            assert(data@.subrange(0, 8)[i as int] != discriminator()[i as int]);
            return false;
        }
        i = i + 1;
    }
    assert(data@.subrange(0, 8) =~= discriminator());
    true
}

} // verus!
