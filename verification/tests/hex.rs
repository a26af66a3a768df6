use zola::hex::{hex_to_rgb, Channel, HexError};

#[test]
fn hex_parses_upper_case_digits() {
    assert_eq!(hex_to_rgb("#1E90FF"), Ok(0x1E90FF));
}

#[test]
fn hex_parses_lower_case_digits() {
    assert_eq!(hex_to_rgb("#aba123"), Ok(0xABA123));
}

#[test]
fn hex_parses_mixed_case_digits() {
    assert_eq!(hex_to_rgb("#aB0c9F"), Ok(0xAB0C9F));
}

#[test]
fn hex_packs_red_green_blue() {
    assert_eq!(hex_to_rgb("#010203"), Ok((1 << 16) | (2 << 8) | 3));
    assert_eq!(hex_to_rgb("#ff0000"), Ok(16711680));
    assert_eq!(hex_to_rgb("#00ff00"), Ok(65280));
    assert_eq!(hex_to_rgb("#0000ff"), Ok(255));
    assert_eq!(hex_to_rgb("#ffffff"), Ok(16777215));
}

#[test]
fn hex_smallest_value_is_one() {
    assert_eq!(hex_to_rgb("#000001"), Ok(1));
}

#[test]
fn hex_rejects_black() {
    assert_eq!(hex_to_rgb("#000000"), Err(HexError::ReservedBlack));
}

#[test]
fn hex_rejects_wrong_length() {
    assert_eq!(hex_to_rgb(""), Err(HexError::InvalidHexFormat));
    assert_eq!(hex_to_rgb("#"), Err(HexError::InvalidHexFormat));
    assert_eq!(hex_to_rgb("#12345"), Err(HexError::InvalidHexFormat));
    assert_eq!(hex_to_rgb("#1234567"), Err(HexError::InvalidHexFormat));
    assert_eq!(hex_to_rgb("#00000"), Err(HexError::InvalidHexFormat));
    assert_eq!(hex_to_rgb("#0000000"), Err(HexError::InvalidHexFormat));
}

#[test]
fn hex_rejects_missing_hash() {
    assert_eq!(hex_to_rgb("1234567"), Err(HexError::InvalidHexFormat));
    assert_eq!(hex_to_rgb("0000000"), Err(HexError::InvalidHexFormat));
    assert_eq!(hex_to_rgb(" #12345"), Err(HexError::InvalidHexFormat));
}

#[test]
fn hex_names_the_broken_channel() {
    assert_eq!(hex_to_rgb("#g00000"), Err(HexError::InvalidHex(Channel::Red)));
    assert_eq!(hex_to_rgb("#0g0000"), Err(HexError::InvalidHex(Channel::Red)));
    assert_eq!(hex_to_rgb("#00g000"), Err(HexError::InvalidHex(Channel::Green)));
    assert_eq!(hex_to_rgb("#000g00"), Err(HexError::InvalidHex(Channel::Green)));
    assert_eq!(hex_to_rgb("#0000g0"), Err(HexError::InvalidHex(Channel::Blue)));
    assert_eq!(hex_to_rgb("#00000g"), Err(HexError::InvalidHex(Channel::Blue)));
}

#[test]
fn hex_names_the_first_broken_channel() {
    assert_eq!(hex_to_rgb("#zzzzzz"), Err(HexError::InvalidHex(Channel::Red)));
    assert_eq!(hex_to_rgb("#00zzzz"), Err(HexError::InvalidHex(Channel::Green)));
}

#[test]
fn hex_takes_no_sign_or_blank() {
    assert_eq!(hex_to_rgb("#+f0000"), Err(HexError::InvalidHex(Channel::Red)));
    assert_eq!(hex_to_rgb("#00 f00"), Err(HexError::InvalidHex(Channel::Green)));
    assert_eq!(hex_to_rgb("#0000-1"), Err(HexError::InvalidHex(Channel::Blue)));
}

#[test]
fn hex_counts_characters_not_bytes() {
    assert_eq!(hex_to_rgb("#\u{e9}00000"), Err(HexError::InvalidHex(Channel::Red)));
    assert_eq!(hex_to_rgb("#0\u{e9}0000"), Err(HexError::InvalidHex(Channel::Red)));
    assert_eq!(hex_to_rgb("#\u{e9}0000"), Err(HexError::InvalidHexFormat));
    assert_eq!(hex_to_rgb("\u{e9}000000"), Err(HexError::InvalidHexFormat));
}

#[test]
fn hex_edges_of_the_digit_ranges() {
    assert_eq!(hex_to_rgb("#09afAF"), Ok(0x09AFAF));
    assert_eq!(hex_to_rgb("#/00000"), Err(HexError::InvalidHex(Channel::Red)));
    assert_eq!(hex_to_rgb("#:00000"), Err(HexError::InvalidHex(Channel::Red)));
    assert_eq!(hex_to_rgb("#@00000"), Err(HexError::InvalidHex(Channel::Red)));
    assert_eq!(hex_to_rgb("#G00000"), Err(HexError::InvalidHex(Channel::Red)));
    assert_eq!(hex_to_rgb("#`00000"), Err(HexError::InvalidHex(Channel::Red)));
}
