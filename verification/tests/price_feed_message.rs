use anchor_lang::prelude::borsh::BorshSerialize;
use pyth_price_update::price_feed_message::MESSAGE_LEN;
use pyth_price_update::{CodecError, PriceFeedMessage};

fn sample() -> PriceFeedMessage {
    let mut feed_id = [0u8; 32];
    for (i, byte) in feed_id.iter_mut().enumerate() {
        *byte = 0xA0 + i as u8;
    }
    PriceFeedMessage {
        feed_id,
        price: 100,
        conf: 5,
        exponent: -8,
        publish_time: 1000,
        prev_publish_time: 999,
        ema_price: -2,
        ema_conf: 0x0102_0304_0506_0708,
    }
}

fn sample_bytes() -> Vec<u8> {
    let mut expected: Vec<u8> = (0..32u8).map(|i| 0xA0 + i).collect();
    expected.extend_from_slice(&[100, 0, 0, 0, 0, 0, 0, 0]);
    expected.extend_from_slice(&[5, 0, 0, 0, 0, 0, 0, 0]);
    expected.extend_from_slice(&[0xF8, 0xFF, 0xFF, 0xFF]);
    expected.extend_from_slice(&[0xE8, 0x03, 0, 0, 0, 0, 0, 0]);
    expected.extend_from_slice(&[0xE7, 0x03, 0, 0, 0, 0, 0, 0]);
    expected.extend_from_slice(&[0xFE, 0xFF, 0xFF, 0xFF, 0xFF, 0xFF, 0xFF, 0xFF]);
    expected.extend_from_slice(&[8, 7, 6, 5, 4, 3, 2, 1]);
    expected
}

fn encode(message: &PriceFeedMessage) -> Vec<u8> {
    let mut out = Vec::new();
    message.serialize(&mut out);
    out
}

#[test]
fn message_encodes_to_golden_bytes() {
    let bytes = encode(&sample());
    assert_eq!(bytes.len(), 84);
    assert_eq!(bytes.len(), MESSAGE_LEN);
    assert_eq!(bytes, sample_bytes());
}

#[test]
fn message_decodes_from_golden_bytes() {
    let bytes = sample_bytes();
    let mut buf: &[u8] = &bytes;
    assert_eq!(PriceFeedMessage::deserialize(&mut buf), Ok(sample()));
    assert!(buf.is_empty());
    let mut reader: &[u8] = &bytes;
    assert_eq!(PriceFeedMessage::deserialize_reader(&mut reader), Ok(sample()));
    assert!(reader.is_empty());
}

#[test]
fn message_round_trip_at_the_limits() {
    let extremes = [
        PriceFeedMessage {
            feed_id: [0; 32],
            price: i64::MIN,
            conf: 0,
            exponent: i32::MIN,
            publish_time: i64::MIN,
            prev_publish_time: i64::MAX,
            ema_price: -1,
            ema_conf: u64::MAX,
        },
        PriceFeedMessage {
            feed_id: [0xFF; 32],
            price: i64::MAX,
            conf: u64::MAX,
            exponent: i32::MAX,
            publish_time: 0,
            prev_publish_time: -1,
            ema_price: i64::MIN,
            ema_conf: 1,
        },
        sample(),
    ];
    for message in extremes {
        let bytes = encode(&message);
        assert_eq!(bytes.len(), 84);
        let mut buf: &[u8] = &bytes;
        assert_eq!(PriceFeedMessage::deserialize(&mut buf), Ok(message));
        assert!(buf.is_empty());
    }
}

#[test]
fn message_limits_encode_to_golden_bytes() {
    let message = PriceFeedMessage {
        feed_id: [0x11; 32],
        price: i64::MIN,
        conf: u64::MAX,
        exponent: i32::MIN,
        publish_time: i64::MAX,
        prev_publish_time: -256,
        ema_price: 256,
        ema_conf: 1 << 63,
    };
    let mut expected = vec![0x11u8; 32];
    expected.extend_from_slice(&[0, 0, 0, 0, 0, 0, 0, 0x80]);
    expected.extend_from_slice(&[0xFF; 8]);
    expected.extend_from_slice(&[0, 0, 0, 0x80]);
    expected.extend_from_slice(&[0xFF, 0xFF, 0xFF, 0xFF, 0xFF, 0xFF, 0xFF, 0x7F]);
    expected.extend_from_slice(&[0, 0xFF, 0xFF, 0xFF, 0xFF, 0xFF, 0xFF, 0xFF]);
    expected.extend_from_slice(&[0, 1, 0, 0, 0, 0, 0, 0]);
    expected.extend_from_slice(&[0, 0, 0, 0, 0, 0, 0, 0x80]);
    assert_eq!(encode(&message), expected);
    let mut buf: &[u8] = &expected;
    assert_eq!(PriceFeedMessage::deserialize(&mut buf), Ok(message));
}

#[test]
fn message_matches_borsh_field_by_field() {
    let message = sample();
    let mut expected = Vec::new();
    message.feed_id.serialize(&mut expected).unwrap();
    message.price.serialize(&mut expected).unwrap();
    message.conf.serialize(&mut expected).unwrap();
    message.exponent.serialize(&mut expected).unwrap();
    message.publish_time.serialize(&mut expected).unwrap();
    message.prev_publish_time.serialize(&mut expected).unwrap();
    message.ema_price.serialize(&mut expected).unwrap();
    message.ema_conf.serialize(&mut expected).unwrap();
    assert_eq!(encode(&message), expected);
}

#[test]
fn message_decode_leaves_the_rest() {
    let mut bytes = sample_bytes();
    bytes.extend_from_slice(&[1, 2, 3]);
    let mut buf: &[u8] = &bytes;
    assert_eq!(PriceFeedMessage::deserialize(&mut buf), Ok(sample()));
    assert_eq!(buf, &[1u8, 2, 3][..]);
}

#[test]
fn message_every_truncation_ends_too_early() {
    let bytes = sample_bytes();
    for len in 0..bytes.len() {
        let mut buf: &[u8] = &bytes[..len];
        assert_eq!(
            PriceFeedMessage::deserialize(&mut buf),
            Err(CodecError::UnexpectedEndOfInput)
        );
        assert_eq!(buf, &bytes[..len]);
        let mut reader: &[u8] = &bytes[..len];
        assert_eq!(
            PriceFeedMessage::deserialize_reader(&mut reader),
            Err(CodecError::UnexpectedEndOfInput)
        );
    }
}
