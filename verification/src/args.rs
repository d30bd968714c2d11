//! What the command line gives a frontend: a keyboard layout and two
//! colours, both read from text.

use crate::chip8::Chip8Error;
use vstd::prelude::*;
use vstd::string::{StringExecFns, StringSliceAdditionalSpecFns};
use vstd::utf8::encode_utf8;

verus! {

/// `std::io::Error`, the error of a failed read. Nothing is known of what a
/// value holds.
#[verifier::external_type_specification]
#[verifier::external_body]
pub struct ExIoError(std::io::Error);

/// The ways in which setting up an engine from the command line fails.
#[derive(Debug)]
pub enum ArgsError {
    /// The keyboard layout does not exist.
    Layout,
    /// The colour is not in the `#RRGGBB` format.
    HexRgb,
    /// The program could not be read.
    Io(std::io::Error),
    /// The engine could not be made.
    Chip8(Chip8Error),
}

/// The supported keyboard layouts.
#[derive(Clone, Copy, Debug, PartialEq, Eq, Structural, Hash, PartialOrd, Ord)]
pub enum Layout {
    /// The layout whose top row of letters starts with Q, W, E, R, T, Y.
    Qwerty,
    /// The Colemak layout.
    Colemak,
}

/// The lower-case form that `str::to_lowercase` gives a text.
pub uninterp spec fn lowercase(text: Seq<char>) -> Seq<char>;

/// `str::to_lowercase`: the lower-case form of the text, as Unicode defines
/// it. The contract only names the result.
#[verifier::external_body]
fn to_lowercase(text: &str) -> (lowered: String)
    ensures
        lowered@ == lowercase(text@),
{
    text.to_lowercase()
}

impl Layout {
    /// The layout that a lower-case name stands for.
    pub open spec fn named(lowered: Seq<char>) -> Option<Layout> {
        if lowered == "qwerty"@ {
            Some(Layout::Qwerty)
        } else if lowered == "colemak"@ {
            Some(Layout::Colemak)
        } else {
            None
        }
    }

    /// The name of the layout as it is shown.
    pub open spec fn spec_to_string(self) -> Seq<char> {
        match self {
            Layout::Qwerty => "QWERTY"@,
            Layout::Colemak => "Colemak"@,
        }
    }

    /// Reads a layout from its name in lower case: `qwerty` or `colemak`.
    pub fn from_lowercase(lowered: &str) -> (r: Result<Layout, ArgsError>)
        ensures
            match Self::named(lowered@) {
                Some(layout) => r matches Ok(found) && found == layout,
                None => r matches Err(ArgsError::Layout),
            },
    {
        let lowered = String::from_str(lowered);
        if lowered == String::from_str("qwerty") {
            Ok(Layout::Qwerty)
        } else if lowered == String::from_str("colemak") {
            Ok(Layout::Colemak)
        } else {
            Err(ArgsError::Layout)
        }
    }

    /// Reads a layout from its name, in whatever case it is written.
    pub fn from_str(s: &str) -> (r: Result<Layout, ArgsError>)
        ensures
            match Self::named(lowercase(s@)) {
                Some(layout) => r matches Ok(found) && found == layout,
                None => r matches Err(ArgsError::Layout),
            },
    {
        let lowered = to_lowercase(s);
        Self::from_lowercase(lowered.as_str())
    }

    /// Returns the name of the layout as it is shown.
    pub fn to_string(&self) -> (r: String)
        ensures
            r@ == self.spec_to_string(),
    {
        match self {
            Layout::Qwerty => String::from_str("QWERTY"),
            Layout::Colemak => String::from_str("Colemak"),
        }
    }
}

impl Default for Layout {
    /// The layout that is taken where none is named.
    fn default() -> (r: Self)
        ensures
            r == Layout::Qwerty,
    {
        Layout::Qwerty
    }
}

/// The value of a hexadecimal digit, in either case, or nothing for a byte
/// that is no such digit.
pub open spec fn hex_value(byte: u8) -> Option<u8> {
    if 0x30 <= byte <= 0x39 {
        Some((byte - 0x30) as u8)
    } else if 0x41 <= byte <= 0x46 {
        Some((byte - 0x41 + 10) as u8)
    } else if 0x61 <= byte <= 0x66 {
        Some((byte - 0x61 + 10) as u8)
    } else {
        None
    }
}

/// The byte that two characters spell in hexadecimal: two digits, or a plus
/// sign and one digit.
pub open spec fn hex_pair(first: u8, second: u8) -> Option<u8> {
    match (hex_value(first), hex_value(second)) {
        (Some(high), Some(low)) => Some((high * 16 + low) as u8),
        (None, Some(low)) => if first == 0x2B {
            Some(low)
        } else {
            None
        },
        _ => None,
    }
}

/// The colour that a text of the form `#RRGGBB` spells, by its bytes: seven
/// bytes, a number sign and three pairs.
pub open spec fn rgb(bytes: Seq<u8>) -> Option<Seq<u8>> {
    if bytes.len() == 7 && bytes[0] == 0x23 {
        match (hex_pair(bytes[1], bytes[2]), hex_pair(bytes[3], bytes[4]), hex_pair(
            bytes[5],
            bytes[6],
        )) {
            (Some(red), Some(green), Some(blue)) => Some(seq![red, green, blue]),
            _ => None,
        }
    } else {
        None
    }
}

/// Returns the value of a hexadecimal digit.
fn hex_digit_value(byte: u8) -> (r: Option<u8>)
    ensures
        r == hex_value(byte),
        r matches Some(value) ==> value < 16,
{
    if 0x30 <= byte && byte <= 0x39 {
        Some(byte - 0x30)
    } else if 0x41 <= byte && byte <= 0x46 {
        Some(byte - 0x41 + 10)
    } else if 0x61 <= byte && byte <= 0x66 {
        Some(byte - 0x61 + 10)
    } else {
        None
    }
}

/// Returns the byte that two characters spell in hexadecimal.
fn parse_hex_pair(first: u8, second: u8) -> (r: Option<u8>)
    ensures
        r == hex_pair(first, second),
{
    match (hex_digit_value(first), hex_digit_value(second)) {
        (Some(high), Some(low)) => Some(high * 16 + low),
        (None, Some(low)) => if first == 0x2B {
            Some(low)
        } else {
            None
        },
        _ => None,
    }
}

/// Converts a colour written as `#RRGGBB` to its red, green and blue bytes.
pub fn hex_to_rgb(color: String) -> (r: Result<[u8; 3], ArgsError>)
    ensures
        match rgb(encode_utf8(color@)) {
            Some(colour) => r matches Ok(found) && found@ == colour,
            None => r matches Err(ArgsError::HexRgb),
        },
{
    let bytes = color.as_str().as_bytes();
    if bytes.len() != 7 || bytes[0] != 0x23 {
        return Err(ArgsError::HexRgb);
    }
    match (
        parse_hex_pair(bytes[1], bytes[2]),
        parse_hex_pair(bytes[3], bytes[4]),
        parse_hex_pair(bytes[5], bytes[6]),
    ) {
        (Some(red), Some(green), Some(blue)) => {
            let found = [red, green, blue];
            Ok(found)
        },
        _ => Err(ArgsError::HexRgb),
    }
}

} // verus!
