use pyth_price_update::{get_feed_id_from_hex, CodecError};

#[test]
fn feed_id_of_repeated_ab_with_prefix() {
    let input = format!("0x{}", "ab".repeat(32));
    assert_eq!(get_feed_id_from_hex(&input), Ok([0xABu8; 32]));
}

#[test]
fn feed_id_without_prefix() {
    let input = "ab".repeat(32);
    assert_eq!(get_feed_id_from_hex(&input), Ok([0xABu8; 32]));
}

#[test]
fn feed_id_digits_in_order() {
    let input = "000102030405060708090a0b0c0d0e0f101112131415161718191A1B1C1D1E1F";
    let mut expected = [0u8; 32];
    for (i, byte) in expected.iter_mut().enumerate() {
        *byte = i as u8;
    }
    assert_eq!(get_feed_id_from_hex(input), Ok(expected));
}

#[test]
fn feed_id_high_digit_comes_first() {
    let input = format!("0x{}", "f0".repeat(31) + "1e");
    let mut expected = [0xF0u8; 32];
    expected[31] = 0x1E;
    assert_eq!(get_feed_id_from_hex(&input), Ok(expected));
}

#[test]
fn feed_id_upper_and_lower_case_agree() {
    let lower = "e62df6c8b4a85fe1a67db44dc12de5db330f7ac66b72dc658afedf0f4a415b43";
    let upper = lower.to_uppercase();
    let id = get_feed_id_from_hex(lower).unwrap();
    assert_eq!(id[0], 0xE6);
    assert_eq!(id[1], 0x2D);
    assert_eq!(id[31], 0x43);
    assert_eq!(get_feed_id_from_hex(&upper), Ok(id));
    assert_eq!(get_feed_id_from_hex(&format!("0x{upper}")), Ok(id));
}

#[test]
fn feed_id_of_63_characters_is_invalid() {
    let input = "a".repeat(63);
    assert_eq!(get_feed_id_from_hex(&input), Err(CodecError::InvalidArgument));
    let prefixed = format!("0x{}", "a".repeat(63));
    assert_eq!(get_feed_id_from_hex(&prefixed), Err(CodecError::InvalidArgument));
}

#[test]
fn feed_id_of_65_characters_is_invalid() {
    let input = "a".repeat(65);
    assert_eq!(get_feed_id_from_hex(&input), Err(CodecError::InvalidArgument));
    let prefixed = format!("0x{}", "a".repeat(66));
    assert_eq!(get_feed_id_from_hex(&prefixed), Err(CodecError::InvalidArgument));
}

#[test]
fn feed_id_empty_and_bare_prefix_are_invalid() {
    assert_eq!(get_feed_id_from_hex(""), Err(CodecError::InvalidArgument));
    assert_eq!(get_feed_id_from_hex("0"), Err(CodecError::InvalidArgument));
    assert_eq!(get_feed_id_from_hex("0x"), Err(CodecError::InvalidArgument));
}

#[test]
fn feed_id_non_hex_character_anywhere_is_invalid() {
    let good = "ab".repeat(32);
    for at in 0..64 {
        for bad in ['g', 'G', 'x', ' ', '+', '-', '/', ':', '@', '`', '\0'] {
            let mut text: Vec<char> = good.chars().collect();
            text[at] = bad;
            let input: String = text.into_iter().collect();
            assert_eq!(get_feed_id_from_hex(&input), Err(CodecError::InvalidArgument));
            let prefixed = format!("0x{input}");
            assert_eq!(get_feed_id_from_hex(&prefixed), Err(CodecError::InvalidArgument));
        }
    }
}

#[test]
fn feed_id_with_a_sign_is_invalid() {
    let input = format!("+f{}", "ab".repeat(31));
    assert_eq!(input.len(), 64);
    assert_eq!(get_feed_id_from_hex(&input), Err(CodecError::InvalidArgument));
}

#[test]
fn feed_id_upper_case_prefix_is_not_a_prefix() {
    let input = format!("0X{}", "ab".repeat(32));
    assert_eq!(get_feed_id_from_hex(&input), Err(CodecError::InvalidArgument));
}

#[test]
fn feed_id_prefix_is_stripped_before_counting() {
    let input = format!("0x{}", "ab".repeat(31));
    assert_eq!(input.len(), 64);
    assert_eq!(get_feed_id_from_hex(&input), Err(CodecError::InvalidArgument));
}

#[test]
fn feed_id_non_ascii_text_is_invalid() {
    let input = format!("{}é", "ab".repeat(31) + "a");
    assert_eq!(input.chars().count(), 64);
    assert_eq!(get_feed_id_from_hex(&input), Err(CodecError::InvalidArgument));
    let wide = "ａ".repeat(64);
    assert_eq!(get_feed_id_from_hex(&wide), Err(CodecError::InvalidArgument));
    let mixed = format!("0x{}\u{1F600}", "ab".repeat(32));
    assert_eq!(get_feed_id_from_hex(&mixed), Err(CodecError::InvalidArgument));
}
