//! Character-to-byte font tables: hexadecimal font, ASCII pass-through font,
//! and the segment bit assignment used for raw 7-segment control.

pub mod segment7font;

use vstd::prelude::*;

verus! {

/// Code the chip's hexadecimal font assigns to a byte: values 0-15 stand for
/// themselves, anything else becomes the blank code 0x20.
pub open spec fn hex_code(value: u8) -> u8 {
    if value <= 0xF {
        value
    } else {
        0x20
    }
}

/// Code the chip's hexadecimal font assigns to a character: the numeric
/// value of a hexadecimal digit (either case), and the blank code 0x20 for
/// every other character.
pub open spec fn hex_char_code(c: char) -> u8 {
    let u = c as u32;
    if '0' as u32 <= u && u <= '9' as u32 {
        (u - ('0' as u32)) as u8
    } else if 'A' as u32 <= u && u <= 'F' as u32 {
        (u - ('A' as u32) + 10) as u8
    } else if 'a' as u32 <= u && u <= 'f' as u32 {
        (u - ('a' as u32) + 10) as u8
    } else {
        0x20
    }
}

/// Code the chip's internal ASCII font assigns to a character: the
/// character's own code for ASCII input, and the blank code 0x20 (space)
/// for everything else.
pub open spec fn ascii_code(c: char) -> u8 {
    if (c as u32) < 0x80 {
        (c as u32) as u8
    } else {
        0x20
    }
}

/// 7-segment hexadecimal font codes.
///
/// Includes a [`Blank`](HexFont::Blank) code which blanks the digit. When a
/// digit is blanked, its auxiliary pair is blanked with it (e.g. `D0` also
/// blanks `D0a`).
#[derive(Clone, Copy, Debug, PartialEq, Eq, Structural)]
pub enum HexFont {
    Zero,
    One,
    Two,
    Three,
    Four,
    Five,
    Six,
    Seven,
    Eight,
    Nine,
    A,
    B,
    C,
    D,
    E,
    F,
    Blank,
}

impl HexFont {
    /// The byte the chip's font table reads for this code.
    pub open spec fn spec_value(self) -> u8 {
        match self {
            HexFont::Zero => 0x00,
            HexFont::One => 0x01,
            HexFont::Two => 0x02,
            HexFont::Three => 0x03,
            HexFont::Four => 0x04,
            HexFont::Five => 0x05,
            HexFont::Six => 0x06,
            HexFont::Seven => 0x07,
            HexFont::Eight => 0x08,
            HexFont::Nine => 0x09,
            HexFont::A => 0x0A,
            HexFont::B => 0x0B,
            HexFont::C => 0x0C,
            HexFont::D => 0x0D,
            HexFont::E => 0x0E,
            HexFont::F => 0x0F,
            HexFont::Blank => 0x20,
        }
    }

    /// The byte the chip's font table reads for this code.
    pub fn value(self) -> (v: u8)
        ensures
            v == self.spec_value(),
    {
        match self {
            HexFont::Zero => 0x00,
            HexFont::One => 0x01,
            HexFont::Two => 0x02,
            HexFont::Three => 0x03,
            HexFont::Four => 0x04,
            HexFont::Five => 0x05,
            HexFont::Six => 0x06,
            HexFont::Seven => 0x07,
            HexFont::Eight => 0x08,
            HexFont::Nine => 0x09,
            HexFont::A => 0x0A,
            HexFont::B => 0x0B,
            HexFont::C => 0x0C,
            HexFont::D => 0x0D,
            HexFont::E => 0x0E,
            HexFont::F => 0x0F,
            HexFont::Blank => 0x20,
        }
    }

    /// Decodes a byte: 0-15 map to their own code, everything else to
    /// [`Blank`](HexFont::Blank).
    ///
    /// The fallback is a default, not an error: a caller cannot tell a
    /// deliberately blanked digit from unrecognised input.
    pub fn from_u8(value: u8) -> (r: HexFont)
        ensures
            r.spec_value() == hex_code(value),
    {
        match value {
            0x00 => HexFont::Zero,
            0x01 => HexFont::One,
            0x02 => HexFont::Two,
            0x03 => HexFont::Three,
            0x04 => HexFont::Four,
            0x05 => HexFont::Five,
            0x06 => HexFont::Six,
            0x07 => HexFont::Seven,
            0x08 => HexFont::Eight,
            0x09 => HexFont::Nine,
            0x0A => HexFont::A,
            0x0B => HexFont::B,
            0x0C => HexFont::C,
            0x0D => HexFont::D,
            0x0E => HexFont::E,
            0x0F => HexFont::F,
            _ => HexFont::Blank,
        }
    }

    /// Decodes a character: hexadecimal digits (either case) map to their
    /// numeric value, everything else to [`Blank`](HexFont::Blank).
    pub fn from_char(c: char) -> (r: HexFont)
        ensures
            r.spec_value() == hex_char_code(c),
    {
        let u: u32 = c as u32;
        if 0x30 <= u && u <= 0x39 {
            HexFont::from_u8((u - 0x30) as u8)
        } else if 0x41 <= u && u <= 0x46 {
            HexFont::from_u8((u - 0x41 + 10) as u8)
        } else if 0x61 <= u && u <= 0x66 {
            HexFont::from_u8((u - 0x61 + 10) as u8)
        } else {
            HexFont::Blank
        }
    }
}

/// A byte for the chip's internal ASCII font table.
///
/// The table trusts the hardware's font ROM to interpret the byte; no
/// uppercasing or remapping happens on the way.
#[derive(Clone, Copy, Debug, PartialEq, Eq, Structural)]
pub struct AsciiFont(pub u8);

impl AsciiFont {
    /// Decodes a character: ASCII passes through unchanged, anything else
    /// becomes the blank code 0x20 (space).
    pub fn from_char(c: char) -> (r: AsciiFont)
        ensures
            r.0 == ascii_code(c),
    {
        let u: u32 = c as u32;
        if u < 0x80 {
            AsciiFont(u as u8)
        } else {
            AsciiFont(0x20)
        }
    }

    /// The hexadecimal font codes reinterpreted as ASCII font bytes.
    pub fn from_hex(value: HexFont) -> (r: AsciiFont)
        ensures
            r.0 == value.spec_value(),
    {
        AsciiFont(value.value())
    }

    /// The byte itself.
    pub fn value(self) -> (v: u8)
        ensures
            v == self.0,
    {
        self.0
    }
}

/// Physical display segments, for direct control when font decoding is
/// disabled on a 7-segment digit.
#[derive(Clone, Copy, Debug, PartialEq, Eq, Structural)]
pub enum Segments {
    A,
    B,
    C,
    D,
    E,
    F,
    G,
    DP,
}

impl Segments {
    /// The segment's bit in a digit-data byte: the decimal point sits at bit
    /// 7, segments A through G at bits 6 down to 0.
    pub open spec fn spec_mask(self) -> u8 {
        match self {
            Segments::A => 0x40,
            Segments::B => 0x20,
            Segments::C => 0x10,
            Segments::D => 0x08,
            Segments::E => 0x04,
            Segments::F => 0x02,
            Segments::G => 0x01,
            Segments::DP => 0x80,
        }
    }

    /// The segment's bit in a digit-data byte.
    pub fn mask(self) -> (m: u8)
        ensures
            m == self.spec_mask(),
    {
        match self {
            Segments::A => 0x40,
            Segments::B => 0x20,
            Segments::C => 0x10,
            Segments::D => 0x08,
            Segments::E => 0x04,
            Segments::F => 0x02,
            Segments::G => 0x01,
            Segments::DP => 0x80,
        }
    }
}

} // verus!
