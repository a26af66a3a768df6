//! Parsing of `#RRGGBB` colour codes.

use vstd::prelude::*;
use crate::text::chars_of;

verus! {

/// One of the three colour channels of a hex code.
#[derive(Clone, Copy, Debug, PartialEq, Eq, Structural)]
pub enum Channel {
    Red,
    Green,
    Blue,
}

/// Why a hex code was turned down.
#[derive(Clone, Copy, Debug, PartialEq, Eq, Structural)]
pub enum HexError {
    /// The code is not seven characters long or does not begin with `#`.
    InvalidHexFormat,
    /// The code is `#000000`, which the platform shows as "no colour".
    ReservedBlack,
    /// The two characters of this channel are not both hexadecimal digits.
    /// Of several broken channels the first in the order red, green, blue
    /// is named.
    InvalidHex(Channel),
}

/// The value of a hexadecimal digit of either case.
pub open spec fn hex_digit(c: char) -> Option<u64> {
    if '0' <= c <= '9' {
        Some((c as u8 - 48) as u64)
    } else if 'a' <= c <= 'f' {
        Some((c as u8 - 87) as u64)
    } else if 'A' <= c <= 'F' {
        Some((c as u8 - 55) as u64)
    } else {
        None
    }
}

/// The value of a two-digit hexadecimal number, if both are digits.
pub open spec fn hex_pair(hi: char, lo: char) -> Option<u64> {
    match (hex_digit(hi), hex_digit(lo)) {
        (Some(h), Some(l)) => Some((16 * h + l) as u64),
        _ => None,
    }
}

/// Seven characters, the first of them `#`.
pub open spec fn well_formed(s: Seq<char>) -> bool {
    s.len() == 7 && s[0] == '#'
}

/// The code that is always refused.
pub open spec fn black() -> Seq<char> {
    seq!['#', '0', '0', '0', '0', '0', '0']
}

/// The index at which the two digits of `channel` begin.
pub open spec fn channel_start(channel: Channel) -> int {
    match channel {
        Channel::Red => 1,
        Channel::Green => 3,
        Channel::Blue => 5,
    }
}

/// The value of one channel of a well-formed code.
pub open spec fn channel_value(s: Seq<char>, channel: Channel) -> Option<u64> {
    hex_pair(s[channel_start(channel)], s[channel_start(channel) + 1])
}

/// Three channel values packed into 24 bits.
pub open spec fn pack(r: u64, g: u64, b: u64) -> u64 {
    (r << 16) | (g << 8) | b
}

/// What parsing the code `s` gives.
pub open spec fn parse_hex(s: Seq<char>) -> Result<u64, HexError> {
    if !well_formed(s) {
        Err(HexError::InvalidHexFormat)
    } else if s == black() {
        Err(HexError::ReservedBlack)
    } else {
        match (
            channel_value(s, Channel::Red),
            channel_value(s, Channel::Green),
            channel_value(s, Channel::Blue),
        ) {
            (None, _, _) => Err(HexError::InvalidHex(Channel::Red)),
            (Some(_), None, _) => Err(HexError::InvalidHex(Channel::Green)),
            (Some(_), Some(_), None) => Err(HexError::InvalidHex(Channel::Blue)),
            (Some(r), Some(g), Some(b)) => Ok(pack(r, g, b)),
        }
    }
}

fn digit_value(c: char) -> (v: Option<u64>)
    ensures
        v == hex_digit(c),
        v is Some ==> v->0 < 16,
{
    if c >= '0' && c <= '9' {
        Some((c as u8 - 48) as u64)
    } else if c >= 'a' && c <= 'f' {
        Some((c as u8 - 87) as u64)
    } else if c >= 'A' && c <= 'F' {
        Some((c as u8 - 55) as u64)
    } else {
        None
    }
}

fn pair_value(hi: char, lo: char) -> (v: Option<u64>)
    ensures
        v == hex_pair(hi, lo),
        v is Some ==> v->0 < 256,
{
    match digit_value(hi) {
        Some(h) => match digit_value(lo) {
            Some(l) => Some(16 * h + l),
            None => None,
        },
        None => None,
    }
}

/// Parses a `#RRGGBB` colour code into `(R << 16) | (G << 8) | B`.
///
/// Digits of either case are taken; a sign, a blank or any other character
/// in a channel is an error that names the channel.
pub fn hex_to_rgb(hex: &str) -> (result: Result<u64, HexError>)
    ensures
        result == parse_hex(hex@),
{
    let s = chars_of(hex);
    if s.len() != 7 || s[0] != '#' {
        return Err(HexError::InvalidHexFormat);
    }
    if s[1] == '0' && s[2] == '0' && s[3] == '0' && s[4] == '0' && s[5] == '0' && s[6] == '0' {
        proof {
            assert(s@ =~= black());
        }
        return Err(HexError::ReservedBlack);
    }
    let r = match pair_value(s[1], s[2]) {
        Some(r) => r,
        None => {
            return Err(HexError::InvalidHex(Channel::Red));
        },
    };
    let g = match pair_value(s[3], s[4]) {
        Some(g) => g,
        None => {
            return Err(HexError::InvalidHex(Channel::Green));
        },
    };
    let b = match pair_value(s[5], s[6]) {
        Some(b) => b,
        None => {
            return Err(HexError::InvalidHex(Channel::Blue));
        },
    };
    Ok((r << 16) | (g << 8) | b)
}

/// Every character after the `#` is a hexadecimal digit.
pub open spec fn all_hex_digits(s: Seq<char>) -> bool {
    forall|i: int| 1 <= i < 7 ==> (#[trigger] hex_digit(s[i])) is Some
}

/// Packing three bytes is the same as weighting them by 65536, 256 and 1,
/// and the result fits in 24 bits.
pub proof fn lemma_pack_bytes(r: u64, g: u64, b: u64)
    requires
        r < 256,
        g < 256,
        b < 256,
    ensures
        pack(r, g, b) == r * 65536 + g * 256 + b,
        pack(r, g, b) < 0x100_0000,
{
    assert(((r << 16) | (g << 8) | b) == r * 65536 + g * 256 + b) by (bit_vector)
        requires
            r < 256,
            g < 256,
            b < 256,
    ;
}

/// A well-formed code of six hexadecimal digits, other than black, parses to
/// `(R << 16) | (G << 8) | B`, where `R`, `G` and `B` are the values of its
/// three digit pairs.
pub proof fn lemma_valid_code_parses(s: Seq<char>)
    requires
        well_formed(s),
        all_hex_digits(s),
        s != black(),
    ensures
        parse_hex(s) == Ok::<u64, HexError>(
            pack(hex_pair(s[1], s[2])->0, hex_pair(s[3], s[4])->0, hex_pair(s[5], s[6])->0),
        ),
        hex_pair(s[1], s[2]) is Some && hex_pair(s[1], s[2])->0 < 256,
        hex_pair(s[3], s[4]) is Some && hex_pair(s[3], s[4])->0 < 256,
        hex_pair(s[5], s[6]) is Some && hex_pair(s[5], s[6])->0 < 256,
{
    assert(hex_digit(s[1]) is Some);
    assert(hex_digit(s[2]) is Some);
    assert(hex_digit(s[3]) is Some);
    assert(hex_digit(s[4]) is Some);
    assert(hex_digit(s[5]) is Some);
    assert(hex_digit(s[6]) is Some);
}

/// A code that breaks the length, the prefix or a digit is refused, and the
/// error says which: the format, or the first channel that holds a character
/// other than a hexadecimal digit.
pub proof fn lemma_invalid_code_fails(s: Seq<char>)
    requires
        !(well_formed(s) && all_hex_digits(s)),
    ensures
        !well_formed(s) ==> parse_hex(s) == Err::<u64, HexError>(HexError::InvalidHexFormat),
        well_formed(s) ==> exists|c: Channel|
            {
                &&& parse_hex(s) == Err::<u64, HexError>(HexError::InvalidHex(c))
                &&& #[trigger] channel_value(s, c) is None
                &&& forall|d: Channel|
                    channel_start(d) < channel_start(c) ==> (#[trigger] channel_value(s, d)) is Some
            },
{
    if well_formed(s) {
        assert(s != black()) by {
            if s == black() {
                assert(all_hex_digits(s));
            }
        }
        let i = choose|i: int| 1 <= i < 7 && !((#[trigger] hex_digit(s[i])) is Some);
        if channel_value(s, Channel::Red) is None {
            assert(channel_value(s, Channel::Red) is None);
        } else if channel_value(s, Channel::Green) is None {
            assert(channel_value(s, Channel::Green) is None);
        } else {
            assert(channel_value(s, Channel::Blue) is None);
        }
    }
}

/// `#000000` is refused as reserved, and no code at all parses to zero.
pub proof fn lemma_black_rejected(s: Seq<char>)
    ensures
        parse_hex(black()) == Err::<u64, HexError>(HexError::ReservedBlack),
        parse_hex(s) != Ok::<u64, HexError>(0),
{
    if parse_hex(s) is Ok {
        let r = hex_pair(s[1], s[2])->0;
        let g = hex_pair(s[3], s[4])->0;
        let b = hex_pair(s[5], s[6])->0;
        assert(r < 256 && g < 256 && b < 256);
        lemma_pack_bytes(r, g, b);
        if pack(r, g, b) == 0 {
            assert(r == 0 && g == 0 && b == 0);
            assert(s =~= black());
        }
    }
}

} // verus!
