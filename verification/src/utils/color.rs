use vstd::prelude::*;
use vstd::string::StrSliceExecFns;
use vstd::string::StringExecFns;
use vstd::string::StringSliceAdditionalSpecFns;
use vstd::utf8::is_ascii_chars;

verus! {

/// The length in bytes of a colour written as `#rrggbb`.
pub const HEX_COLOR_LENGTH: usize = 7;

/// The length in bytes of a colour written as `#rrggbbaa`.
pub const HEX_COLOR_WITH_ALPHA_LENGTH: usize = 9;

/// A colour as four channels of eight bits each.
#[derive(Clone, Copy, Debug, PartialEq, Eq, Structural)]
pub struct RgbaColor {
    pub red: u8,
    pub green: u8,
    pub blue: u8,
    pub alpha: u8,
}

/// A colour text has the shape of a hex colour: it starts with `#` and is
/// seven or nine bytes long. Nothing is said of the digits.
pub open spec fn valid_hex_color(color: &str) -> bool {
    &&& color.spec_bytes().len() == HEX_COLOR_LENGTH || color.spec_bytes().len()
        == HEX_COLOR_WITH_ALPHA_LENGTH
    &&& color@.len() > 0
    &&& color@[0] == '#'
}

pub fn is_valid_hex_color(color: &str) -> (valid: bool)
    ensures
        valid == valid_hex_color(color),
{
    let length: usize = color.as_bytes().len();
    (length == HEX_COLOR_LENGTH || length == HEX_COLOR_WITH_ALPHA_LENGTH) && color.unicode_len() > 0
        && color.get_char(0) == '#'
}

/// A hex colour without alpha gets the alpha `ff`; any other text is
/// returned as it is.
pub open spec fn rgba_hex(hex: &str) -> Seq<char> {
    if !valid_hex_color(hex) || hex.spec_bytes().len() == HEX_COLOR_WITH_ALPHA_LENGTH {
        hex@
    } else {
        hex@ + seq!['f', 'f']
    }
}

pub fn parse_color_to_rgba_hex(hex: &str) -> (rgba: String)
    ensures
        rgba@ == rgba_hex(hex),
{
    if !is_valid_hex_color(hex) || hex.as_bytes().len() == HEX_COLOR_WITH_ALPHA_LENGTH {
        String::from_str(hex)
    } else {
        proof {
            reveal_strlit("ff");
            assert("ff"@ =~= seq!['f', 'f']);
        }
        String::from_str(hex).concat("ff")
    }
}

/// The value of one hex digit, in either case.
pub open spec fn hex_digit_value(digit: u8) -> Option<u8> {
    if 0x30 <= digit <= 0x39 {
        Some((digit - 0x30) as u8)
    } else if 0x61 <= digit <= 0x66 {
        Some((digit - 0x61 + 10) as u8)
    } else if 0x41 <= digit <= 0x46 {
        Some((digit - 0x41 + 10) as u8)
    } else {
        None
    }
}

/// The channel that two characters stand for. Two hex digits give sixteen
/// times the first plus the second. A sign and one hex digit are read as a
/// signed number of one digit and reduced to eight bits: `+7` is 7 and `-1`
/// is 255.
pub open spec fn hex_pair_value(high: u8, low: u8) -> Option<u8> {
    match hex_digit_value(low) {
        None => None,
        Some(low_value) => match hex_digit_value(high) {
            Some(high_value) => Some((high_value * 16 + low_value) as u8),
            None => if high == 0x2b {
                Some(low_value)
            } else if high == 0x2d {
                Some(((256 - low_value) % 256) as u8)
            } else {
                None
            },
        },
    }
}

/// The colour that the text `hex` stands for, where it stands for one: a `#`
/// and then three or four channels of two characters each, all of them ASCII.
/// Without a fourth channel the colour is opaque.
pub open spec fn parse_hex_color(hex: Seq<char>) -> Option<RgbaColor> {
    if (hex.len() == HEX_COLOR_LENGTH || hex.len() == HEX_COLOR_WITH_ALPHA_LENGTH)
        && is_ascii_chars(hex) && hex[0] == '#' {
        let alpha = if hex.len() == HEX_COLOR_LENGTH {
            Some(255u8)
        } else {
            hex_pair_value(hex[7] as u8, hex[8] as u8)
        };
        match (
            hex_pair_value(hex[1] as u8, hex[2] as u8),
            hex_pair_value(hex[3] as u8, hex[4] as u8),
            hex_pair_value(hex[5] as u8, hex[6] as u8),
            alpha,
        ) {
            (Some(red), Some(green), Some(blue), Some(alpha)) => Some(
                RgbaColor { red, green, blue, alpha },
            ),
            _ => None,
        }
    } else {
        None
    }
}

fn parse_hex_digit(digit: u8) -> (value: Option<u8>)
    ensures
        value == hex_digit_value(digit),
{
    if 0x30 <= digit && digit <= 0x39 {
        Some(digit - 0x30)
    } else if 0x61 <= digit && digit <= 0x66 {
        Some(digit - 0x61 + 10)
    } else if 0x41 <= digit && digit <= 0x46 {
        Some(digit - 0x41 + 10)
    } else {
        None
    }
}

fn parse_hex_pair(high: u8, low: u8) -> (value: Option<u8>)
    ensures
        value == hex_pair_value(high, low),
{
    match parse_hex_digit(low) {
        None => None,
        Some(low_value) => match parse_hex_digit(high) {
            Some(high_value) => Some(high_value * 16 + low_value),
            None => if high == 0x2b {
                Some(low_value)
            } else if high == 0x2d {
                if low_value == 0 {
                    Some(0)
                } else {
                    let reduced: u16 = 256 - low_value as u16;
                    Some(reduced as u8)
                }
            } else {
                None
            },
        },
    }
}

impl RgbaColor {
    /// Reads a colour written as `#rrggbb` or `#rrggbbaa`. `None` where the
    /// text is no such colour.
    pub fn from_hex(hex: &str) -> (color: Option<RgbaColor>)
        ensures
            color == parse_hex_color(hex@),
    {
        broadcast use vstd::string::is_ascii_spec_bytes;

        if !hex.is_ascii() {
            return None;
        }
        let length: usize = hex.as_bytes().len();
        if length != HEX_COLOR_LENGTH && length != HEX_COLOR_WITH_ALPHA_LENGTH {
            return None;
        }
        assert(hex@[0] == '#' <==> hex@[0] as u8 == 0x23u8) by {
            vstd::utf8::is_ascii_chars_nat_bound(hex@);
        }
        if hex.get_ascii(0) != 0x23 {
            return None;
        }
        let alpha: Option<u8> = if length == HEX_COLOR_LENGTH {
            Some(255u8)
        } else {
            parse_hex_pair(hex.get_ascii(7), hex.get_ascii(8))
        };
        let red: Option<u8> = parse_hex_pair(hex.get_ascii(1), hex.get_ascii(2));
        let green: Option<u8> = parse_hex_pair(hex.get_ascii(3), hex.get_ascii(4));
        let blue: Option<u8> = parse_hex_pair(hex.get_ascii(5), hex.get_ascii(6));
        match (red, green, blue, alpha) {
            (Some(red), Some(green), Some(blue), Some(alpha)) => Some(
                RgbaColor { red, green, blue, alpha },
            ),
            _ => None,
        }
    }
}

} // verus!
