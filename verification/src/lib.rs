//! Byte-exact codec for oracle price-update account records.
//!
//! A price update is held in account data as an eight-byte discriminator
//! followed by fixed-width fields. This crate encodes and decodes that
//! layout, and parses feed identifiers from their hexadecimal spelling.

pub mod borsh_io;
pub mod cursor;
pub mod error;
pub mod feed_id;
pub mod price_feed_message;
pub mod price_update;
pub mod verification_level;
pub mod wire;

pub use error::CodecError;
pub use feed_id::get_feed_id_from_hex;
pub use price_feed_message::PriceFeedMessage;
pub use price_update::{Price, PriceUpdateV2};
pub use verification_level::VerificationLevel;
