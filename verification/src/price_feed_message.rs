//! The flat price record of one feed and its eighty-four-byte wire form.

use vstd::prelude::*;
use crate::borsh_io::{read_i32, read_i64, read_u64, write_i32, write_i64, write_u64};
use crate::cursor::read_exact;
use crate::error::CodecError;
use crate::wire::{
    i32_field, i32_wire, i64_field, i64_wire, lemma_i32_round_trip, lemma_i64_round_trip,
    lemma_u64_round_trip, u64_field, u64_wire,
};

verus! {

/// Bytes in the wire form of a [`PriceFeedMessage`]: the feed id and seven numbers.
pub const MESSAGE_LEN: usize = 84;

/// One price observation of a feed, as the oracle published it.
#[derive(Clone, Copy, Debug, PartialEq)]
pub struct PriceFeedMessage {
    pub feed_id: [u8; 32],
    pub price: i64,
    pub conf: u64,
    pub exponent: i32,
    pub publish_time: i64,
    pub prev_publish_time: i64,
    pub ema_price: i64,
    pub ema_conf: u64,
}

/// A [`PriceFeedMessage`] as a mathematical value: the feed id is a sequence
/// of bytes.
pub struct PriceFeedMessageView {
    pub feed_id: Seq<u8>,
    pub price: i64,
    pub conf: u64,
    pub exponent: i32,
    pub publish_time: i64,
    pub prev_publish_time: i64,
    pub ema_price: i64,
    pub ema_conf: u64,
}

impl View for PriceFeedMessage {
    type V = PriceFeedMessageView;

    open spec fn view(&self) -> PriceFeedMessageView {
        PriceFeedMessageView {
            feed_id: self.feed_id@,
            price: self.price,
            conf: self.conf,
            exponent: self.exponent,
            publish_time: self.publish_time,
            prev_publish_time: self.prev_publish_time,
            ema_price: self.ema_price,
            ema_conf: self.ema_conf,
        }
    }
}

impl PriceFeedMessageView {
    /// The feed id has its thirty-two bytes.
    pub open spec fn well_formed(self) -> bool {
        self.feed_id.len() == 32
    }

    /// The wire form: the feed id as it is, then each number in declaration
    /// order, fixed width, least significant byte first.
    pub open spec fn wire(self) -> Seq<u8> {
        self.feed_id + i64_wire(self.price) + u64_wire(self.conf) + i32_wire(self.exponent)
            + i64_wire(self.publish_time) + i64_wire(self.prev_publish_time) + i64_wire(
            self.ema_price,
        ) + u64_wire(self.ema_conf)
    }

    /// What the first eighty-four of `bytes` decode to; fewer end too early.
    pub open spec fn decode(bytes: Seq<u8>) -> Result<PriceFeedMessageView, CodecError> {
        if bytes.len() < 84 {
            Err(CodecError::UnexpectedEndOfInput)
        } else {
            Ok(
                PriceFeedMessageView {
                    feed_id: bytes.subrange(0, 32),
                    price: i64_field(bytes.subrange(32, 40)),
                    conf: u64_field(bytes.subrange(40, 48)),
                    exponent: i32_field(bytes.subrange(48, 52)),
                    publish_time: i64_field(bytes.subrange(52, 60)),
                    prev_publish_time: i64_field(bytes.subrange(60, 68)),
                    ema_price: i64_field(bytes.subrange(68, 76)),
                    ema_conf: u64_field(bytes.subrange(76, 84)),
                },
            )
        }
    }

    /// The wire form is eighty-four bytes long.
    pub proof fn lemma_wire_len(self)
        requires
            self.well_formed(),
        ensures
            self.wire().len() == 84,
    {
        lemma_i64_round_trip(self.price);
        lemma_u64_round_trip(self.conf);
        lemma_i32_round_trip(self.exponent);
        lemma_i64_round_trip(self.publish_time);
        lemma_i64_round_trip(self.prev_publish_time);
        lemma_i64_round_trip(self.ema_price);
        lemma_u64_round_trip(self.ema_conf);
    }

    /// Round trip: a message's wire form, whatever follows it, decodes to the
    /// message again.
    pub proof fn lemma_decode_wire(self, rest: Seq<u8>)
        requires
            self.well_formed(),
        ensures
            PriceFeedMessageView::decode(self.wire() + rest) == Ok::<
                PriceFeedMessageView,
                CodecError,
            >(self),
    {
        self.lemma_wire_len();
        lemma_i64_round_trip(self.price);
        lemma_u64_round_trip(self.conf);
        lemma_i32_round_trip(self.exponent);
        lemma_i64_round_trip(self.publish_time);
        lemma_i64_round_trip(self.prev_publish_time);
        lemma_i64_round_trip(self.ema_price);
        lemma_u64_round_trip(self.ema_conf);
        let bytes = self.wire() + rest;
        assert(bytes.subrange(0, 32) =~= self.feed_id);
        assert(bytes.subrange(32, 40) =~= i64_wire(self.price));
        assert(bytes.subrange(40, 48) =~= u64_wire(self.conf));
        assert(bytes.subrange(48, 52) =~= i32_wire(self.exponent));
        assert(bytes.subrange(52, 60) =~= i64_wire(self.publish_time));
        assert(bytes.subrange(60, 68) =~= i64_wire(self.prev_publish_time));
        assert(bytes.subrange(68, 76) =~= i64_wire(self.ema_price));
        assert(bytes.subrange(76, 84) =~= u64_wire(self.ema_conf));
    }

    /// Truncation: fewer than eighty-four bytes end too early.
    pub proof fn lemma_truncated(bytes: Seq<u8>)
        requires
            bytes.len() < 84,
        ensures
            PriceFeedMessageView::decode(bytes) == Err::<PriceFeedMessageView, CodecError>(
                CodecError::UnexpectedEndOfInput,
            ),
    {
    }
}

impl PriceFeedMessage {
    /// Two messages with the same view are the same message.
    pub proof fn lemma_view_injective(self, other: PriceFeedMessage)
        requires
            self@ == other@,
        ensures
            self == other,
    {
        assert(self.feed_id =~= other.feed_id);
    }

    /// Round trip: the wire form of a message, whatever follows it, decodes
    /// to the view of that message, and no other message has that view.
    pub proof fn lemma_round_trip(self, rest: Seq<u8>)
        ensures
            PriceFeedMessageView::decode(self@.wire() + rest) == Ok::<
                PriceFeedMessageView,
                CodecError,
            >(self@),
            forall|decoded: PriceFeedMessage| #[trigger] decoded@ == self@ ==> decoded == self,
    {
        self@.lemma_decode_wire(rest);
        assert forall|decoded: PriceFeedMessage| #[trigger] decoded@ == self@ implies decoded
            == self by {
            decoded.lemma_view_injective(self);
        }
    }

    /// Appends the wire form of `self` to `writer`.
    pub fn serialize(&self, writer: &mut Vec<u8>)
        ensures
            final(writer)@ == old(writer)@ + self@.wire(),
    {
        writer.extend_from_slice(self.feed_id.as_slice());
        assert(writer@ =~= old(writer)@ + self.feed_id@);
        write_i64(self.price, writer);
        write_u64(self.conf, writer);
        write_i32(self.exponent, writer);
        write_i64(self.publish_time, writer);
        write_i64(self.prev_publish_time, writer);
        write_i64(self.ema_price, writer);
        write_u64(self.ema_conf, writer);
        assert(writer@ =~= old(writer)@ + self@.wire());
    }

    /// Decodes a message from the front of `buf` and moves `buf` past its
    /// eighty-four bytes. A failed call leaves `buf` where it was.
    pub fn deserialize(buf: &mut &[u8]) -> (r: Result<PriceFeedMessage, CodecError>)
        ensures
            match r {
                Ok(message) => PriceFeedMessageView::decode(old(buf)@) == Ok::<
                    PriceFeedMessageView,
                    CodecError,
                >(message@) && final(buf)@ == old(buf)@.skip(84),
                Err(e) => PriceFeedMessageView::decode(old(buf)@) == Err::<
                    PriceFeedMessageView,
                    CodecError,
                >(e) && final(buf)@ == old(buf)@,
            },
    {
        let ghost bytes = old(buf)@;
        let mut rest: &[u8] = *buf;
        let feed_id: [u8; 32] = match read_exact::<32>(&mut rest) {
            Some(id) => id,
            None => { return Err(CodecError::UnexpectedEndOfInput); },
        };
        assert(feed_id@ =~= bytes.subrange(0, 32));
        let price: i64 = match read_i64(&mut rest) {
            Some(v) => v,
            None => { return Err(CodecError::UnexpectedEndOfInput); },
        };
        assert(bytes.skip(32).take(8) =~= bytes.subrange(32, 40));
        assert(rest@ =~= bytes.skip(40));
        let conf: u64 = match read_u64(&mut rest) {
            Some(v) => v,
            None => { return Err(CodecError::UnexpectedEndOfInput); },
        };
        assert(bytes.skip(40).take(8) =~= bytes.subrange(40, 48));
        assert(rest@ =~= bytes.skip(48));
        let exponent: i32 = match read_i32(&mut rest) {
            Some(v) => v,
            None => { return Err(CodecError::UnexpectedEndOfInput); },
        };
        assert(bytes.skip(48).take(4) =~= bytes.subrange(48, 52));
        assert(rest@ =~= bytes.skip(52));
        let publish_time: i64 = match read_i64(&mut rest) {
            Some(v) => v,
            None => { return Err(CodecError::UnexpectedEndOfInput); },
        };
        assert(bytes.skip(52).take(8) =~= bytes.subrange(52, 60));
        assert(rest@ =~= bytes.skip(60));
        let prev_publish_time: i64 = match read_i64(&mut rest) {
            Some(v) => v,
            None => { return Err(CodecError::UnexpectedEndOfInput); },
        };
        assert(bytes.skip(60).take(8) =~= bytes.subrange(60, 68));
        assert(rest@ =~= bytes.skip(68));
        let ema_price: i64 = match read_i64(&mut rest) {
            Some(v) => v,
            None => { return Err(CodecError::UnexpectedEndOfInput); },
        };
        assert(bytes.skip(68).take(8) =~= bytes.subrange(68, 76));
        assert(rest@ =~= bytes.skip(76));
        let ema_conf: u64 = match read_u64(&mut rest) {
            Some(v) => v,
            None => { return Err(CodecError::UnexpectedEndOfInput); },
        };
        assert(bytes.skip(76).take(8) =~= bytes.subrange(76, 84));
        assert(rest@ =~= bytes.skip(84));
        *buf = rest;
        Ok(
            PriceFeedMessage {
                feed_id,
                price,
                conf,
                exponent,
                publish_time,
                prev_publish_time,
                ema_price,
                ema_conf,
            },
        )
    }

    /// Decodes a message read off the front of `reader`; the same decoding as
    /// [`PriceFeedMessage::deserialize`].
    pub fn deserialize_reader(reader: &mut &[u8]) -> (r: Result<PriceFeedMessage, CodecError>)
        ensures
            match r {
                Ok(message) => PriceFeedMessageView::decode(old(reader)@) == Ok::<
                    PriceFeedMessageView,
                    CodecError,
                >(message@) && final(reader)@ == old(reader)@.skip(84),
                Err(e) => PriceFeedMessageView::decode(old(reader)@) == Err::<
                    PriceFeedMessageView,
                    CodecError,
                >(e) && final(reader)@ == old(reader)@,
            },
    {
        PriceFeedMessage::deserialize(reader)
    }
}

} // verus!
