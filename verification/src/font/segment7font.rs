//! Direct 7-segment bit patterns, used when font decoding is disabled for a
//! digit.

use vstd::prelude::*;

use crate::font::Segments;

verus! {

/// Named 7-segment bit patterns: digits, letters, a handful of punctuation,
/// and blank.
#[derive(Clone, Copy, Debug, PartialEq, Eq, Structural)]
pub enum Segment7 {
    Zero,
    One,
    Two,
    Three,
    Four,
    Five,
    Six,
    Seven,
    Eight,
    Nine,
    A,
    B,
    C,
    D,
    E,
    F,
    G,
    H,
    I,
    J,
    K,
    L,
    M,
    N,
    O,
    P,
    Q,
    R,
    S,
    T,
    U,
    V,
    W,
    X,
    Y,
    Z,
    QuestionMark,
    Minus,
    Underscore,
    Equal,
    Apostrophe,
    QuotationMark,
    Degree,
    Blank,
}

/// An ASCII lowercase letter's code folded to its uppercase counterpart;
/// every other code point is left alone.
pub open spec fn spec_upper(u: u32) -> u32 {
    if 'a' as u32 <= u && u <= 'z' as u32 {
        (u - 0x20) as u32
    } else {
        u
    }
}

/// The symbol an already-uppercased code point selects: one of the named
/// patterns for the known code points, [`Segment7::Blank`] for every other.
pub open spec fn spec_symbol_of_code(u: u32) -> Segment7 {
    if u == '0' as u32 {
        Segment7::Zero
    } else if u == '1' as u32 {
        Segment7::One
    } else if u == '2' as u32 {
        Segment7::Two
    } else if u == '3' as u32 {
        Segment7::Three
    } else if u == '4' as u32 {
        Segment7::Four
    } else if u == '5' as u32 {
        Segment7::Five
    } else if u == '6' as u32 {
        Segment7::Six
    } else if u == '7' as u32 {
        Segment7::Seven
    } else if u == '8' as u32 {
        Segment7::Eight
    } else if u == '9' as u32 {
        Segment7::Nine
    } else if u == 'A' as u32 {
        Segment7::A
    } else if u == 'B' as u32 {
        Segment7::B
    } else if u == 'C' as u32 {
        Segment7::C
    } else if u == 'D' as u32 {
        Segment7::D
    } else if u == 'E' as u32 {
        Segment7::E
    } else if u == 'F' as u32 {
        Segment7::F
    } else if u == 'G' as u32 {
        Segment7::G
    } else if u == 'H' as u32 {
        Segment7::H
    } else if u == 'I' as u32 {
        Segment7::I
    } else if u == 'J' as u32 {
        Segment7::J
    } else if u == 'K' as u32 {
        Segment7::K
    } else if u == 'L' as u32 {
        Segment7::L
    } else if u == 'M' as u32 {
        Segment7::M
    } else if u == 'N' as u32 {
        Segment7::N
    } else if u == 'O' as u32 {
        Segment7::O
    } else if u == 'P' as u32 {
        Segment7::P
    } else if u == 'Q' as u32 {
        Segment7::Q
    } else if u == 'R' as u32 {
        Segment7::R
    } else if u == 'S' as u32 {
        Segment7::S
    } else if u == 'T' as u32 {
        Segment7::T
    } else if u == 'U' as u32 {
        Segment7::U
    } else if u == 'V' as u32 {
        Segment7::V
    } else if u == 'W' as u32 {
        Segment7::W
    } else if u == 'X' as u32 {
        Segment7::X
    } else if u == 'Y' as u32 {
        Segment7::Y
    } else if u == 'Z' as u32 {
        Segment7::Z
    } else if u == '?' as u32 {
        Segment7::QuestionMark
    } else if u == '-' as u32 {
        Segment7::Minus
    } else if u == '_' as u32 {
        Segment7::Underscore
    } else if u == '=' as u32 {
        Segment7::Equal
    } else if u == '\'' as u32 {
        Segment7::Apostrophe
    } else if u == '"' as u32 {
        Segment7::QuotationMark
    } else {
        Segment7::Blank
    }
}

/// The symbol a character selects, case-insensitively: lowercase letters are
/// folded to uppercase before the lookup.
pub open spec fn spec_symbol(c: char) -> Segment7 {
    spec_symbol_of_code(spec_upper(c as u32))
}

impl Segment7 {
    /// The symbol's segment mask, from the datasheet's common 7-segment
    /// convention.
    pub open spec fn spec_mask(self) -> u8 {
        match self {
            Segment7::Zero => Segments::A.spec_mask() | Segments::B.spec_mask()
                | Segments::C.spec_mask() | Segments::D.spec_mask() | Segments::E.spec_mask()
                | Segments::F.spec_mask(),
            Segment7::One => Segments::B.spec_mask() | Segments::C.spec_mask(),
            Segment7::Two => Segments::A.spec_mask() | Segments::B.spec_mask()
                | Segments::G.spec_mask() | Segments::E.spec_mask() | Segments::D.spec_mask(),
            Segment7::Three => Segments::A.spec_mask() | Segments::B.spec_mask()
                | Segments::G.spec_mask() | Segments::C.spec_mask() | Segments::D.spec_mask(),
            Segment7::Four => Segments::F.spec_mask() | Segments::B.spec_mask()
                | Segments::G.spec_mask() | Segments::C.spec_mask(),
            Segment7::Five => Segments::A.spec_mask() | Segments::F.spec_mask()
                | Segments::G.spec_mask() | Segments::C.spec_mask() | Segments::D.spec_mask(),
            Segment7::Six => Segments::A.spec_mask() | Segments::F.spec_mask()
                | Segments::E.spec_mask() | Segments::D.spec_mask() | Segments::C.spec_mask()
                | Segments::G.spec_mask(),
            Segment7::Seven => Segments::A.spec_mask() | Segments::B.spec_mask()
                | Segments::C.spec_mask(),
            Segment7::Eight => Segments::A.spec_mask() | Segments::B.spec_mask()
                | Segments::C.spec_mask() | Segments::D.spec_mask() | Segments::E.spec_mask()
                | Segments::F.spec_mask() | Segments::G.spec_mask(),
            Segment7::Nine => Segments::A.spec_mask() | Segments::B.spec_mask()
                | Segments::C.spec_mask() | Segments::D.spec_mask() | Segments::F.spec_mask()
                | Segments::G.spec_mask(),
            Segment7::A => Segments::A.spec_mask() | Segments::B.spec_mask()
                | Segments::C.spec_mask() | Segments::E.spec_mask() | Segments::F.spec_mask()
                | Segments::G.spec_mask(),
            Segment7::B => Segments::C.spec_mask() | Segments::D.spec_mask()
                | Segments::E.spec_mask() | Segments::F.spec_mask() | Segments::G.spec_mask(),
            Segment7::C => Segments::A.spec_mask() | Segments::D.spec_mask()
                | Segments::E.spec_mask() | Segments::F.spec_mask(),
            Segment7::D => Segments::B.spec_mask() | Segments::C.spec_mask()
                | Segments::D.spec_mask() | Segments::E.spec_mask() | Segments::G.spec_mask(),
            Segment7::E => Segments::A.spec_mask() | Segments::D.spec_mask()
                | Segments::E.spec_mask() | Segments::F.spec_mask() | Segments::G.spec_mask(),
            Segment7::F => Segments::A.spec_mask() | Segments::E.spec_mask()
                | Segments::F.spec_mask() | Segments::G.spec_mask(),
            Segment7::G => Segments::A.spec_mask() | Segments::C.spec_mask()
                | Segments::D.spec_mask() | Segments::E.spec_mask() | Segments::F.spec_mask(),
            Segment7::H => Segments::C.spec_mask() | Segments::E.spec_mask()
                | Segments::F.spec_mask() | Segments::G.spec_mask(),
            Segment7::I => Segments::E.spec_mask() | Segments::F.spec_mask(),
            Segment7::J => Segments::B.spec_mask() | Segments::C.spec_mask()
                | Segments::D.spec_mask() | Segments::E.spec_mask(),
            Segment7::K => Segments::A.spec_mask() | Segments::C.spec_mask()
                | Segments::E.spec_mask() | Segments::F.spec_mask() | Segments::G.spec_mask(),
            Segment7::L => Segments::D.spec_mask() | Segments::E.spec_mask()
                | Segments::F.spec_mask(),
            Segment7::M => Segments::B.spec_mask() | Segments::C.spec_mask()
                | Segments::E.spec_mask() | Segments::G.spec_mask(),
            Segment7::N => Segments::C.spec_mask() | Segments::E.spec_mask()
                | Segments::G.spec_mask(),
            Segment7::O => Segments::C.spec_mask() | Segments::D.spec_mask()
                | Segments::E.spec_mask() | Segments::G.spec_mask(),
            Segment7::P => Segments::A.spec_mask() | Segments::B.spec_mask()
                | Segments::E.spec_mask() | Segments::F.spec_mask() | Segments::G.spec_mask(),
            Segment7::Q => Segments::A.spec_mask() | Segments::B.spec_mask()
                | Segments::C.spec_mask() | Segments::F.spec_mask() | Segments::G.spec_mask(),
            Segment7::R => Segments::E.spec_mask() | Segments::G.spec_mask(),
            Segment7::S => Segments::C.spec_mask() | Segments::F.spec_mask()
                | Segments::G.spec_mask(),
            Segment7::T => Segments::D.spec_mask() | Segments::E.spec_mask()
                | Segments::F.spec_mask() | Segments::G.spec_mask(),
            Segment7::U => Segments::B.spec_mask() | Segments::C.spec_mask()
                | Segments::D.spec_mask() | Segments::E.spec_mask() | Segments::F.spec_mask(),
            Segment7::V => Segments::C.spec_mask() | Segments::D.spec_mask()
                | Segments::E.spec_mask(),
            Segment7::W => Segments::B.spec_mask() | Segments::C.spec_mask()
                | Segments::D.spec_mask() | Segments::E.spec_mask() | Segments::F.spec_mask()
                | Segments::G.spec_mask(),
            Segment7::X => Segments::B.spec_mask() | Segments::C.spec_mask()
                | Segments::E.spec_mask() | Segments::F.spec_mask() | Segments::G.spec_mask(),
            Segment7::Y => Segments::B.spec_mask() | Segments::C.spec_mask()
                | Segments::D.spec_mask() | Segments::F.spec_mask() | Segments::G.spec_mask(),
            Segment7::Z => Segments::A.spec_mask() | Segments::D.spec_mask()
                | Segments::G.spec_mask(),
            Segment7::QuestionMark => Segments::A.spec_mask() | Segments::B.spec_mask()
                | Segments::E.spec_mask() | Segments::G.spec_mask(),
            Segment7::Minus => Segments::G.spec_mask(),
            Segment7::Underscore => Segments::D.spec_mask(),
            Segment7::Equal => Segments::A.spec_mask() | Segments::G.spec_mask(),
            Segment7::Apostrophe => Segments::F.spec_mask(),
            Segment7::QuotationMark => Segments::B.spec_mask() | Segments::F.spec_mask(),
            Segment7::Degree => Segments::A.spec_mask() | Segments::B.spec_mask()
                | Segments::F.spec_mask() | Segments::G.spec_mask(),
            Segment7::Blank => 0x00,
        }
    }

    /// The symbol's segment mask.
    pub fn mask(self) -> (m: u8)
        ensures
            m == self.spec_mask(),
    {
        match self {
            Segment7::Zero => Segments::A.mask() | Segments::B.mask() | Segments::C.mask()
                | Segments::D.mask() | Segments::E.mask() | Segments::F.mask(),
            Segment7::One => Segments::B.mask() | Segments::C.mask(),
            Segment7::Two => Segments::A.mask() | Segments::B.mask() | Segments::G.mask()
                | Segments::E.mask() | Segments::D.mask(),
            Segment7::Three => Segments::A.mask() | Segments::B.mask() | Segments::G.mask()
                | Segments::C.mask() | Segments::D.mask(),
            Segment7::Four => Segments::F.mask() | Segments::B.mask() | Segments::G.mask()
                | Segments::C.mask(),
            Segment7::Five => Segments::A.mask() | Segments::F.mask() | Segments::G.mask()
                | Segments::C.mask() | Segments::D.mask(),
            Segment7::Six => Segments::A.mask() | Segments::F.mask() | Segments::E.mask()
                | Segments::D.mask() | Segments::C.mask() | Segments::G.mask(),
            Segment7::Seven => Segments::A.mask() | Segments::B.mask() | Segments::C.mask(),
            Segment7::Eight => Segments::A.mask() | Segments::B.mask() | Segments::C.mask()
                | Segments::D.mask() | Segments::E.mask() | Segments::F.mask()
                | Segments::G.mask(),
            Segment7::Nine => Segments::A.mask() | Segments::B.mask() | Segments::C.mask()
                | Segments::D.mask() | Segments::F.mask() | Segments::G.mask(),
            Segment7::A => Segments::A.mask() | Segments::B.mask() | Segments::C.mask()
                | Segments::E.mask() | Segments::F.mask() | Segments::G.mask(),
            Segment7::B => Segments::C.mask() | Segments::D.mask() | Segments::E.mask()
                | Segments::F.mask() | Segments::G.mask(),
            Segment7::C => Segments::A.mask() | Segments::D.mask() | Segments::E.mask()
                | Segments::F.mask(),
            Segment7::D => Segments::B.mask() | Segments::C.mask() | Segments::D.mask()
                | Segments::E.mask() | Segments::G.mask(),
            Segment7::E => Segments::A.mask() | Segments::D.mask() | Segments::E.mask()
                | Segments::F.mask() | Segments::G.mask(),
            Segment7::F => Segments::A.mask() | Segments::E.mask() | Segments::F.mask()
                | Segments::G.mask(),
            Segment7::G => Segments::A.mask() | Segments::C.mask() | Segments::D.mask()
                | Segments::E.mask() | Segments::F.mask(),
            Segment7::H => Segments::C.mask() | Segments::E.mask() | Segments::F.mask()
                | Segments::G.mask(),
            Segment7::I => Segments::E.mask() | Segments::F.mask(),
            Segment7::J => Segments::B.mask() | Segments::C.mask() | Segments::D.mask()
                | Segments::E.mask(),
            Segment7::K => Segments::A.mask() | Segments::C.mask() | Segments::E.mask()
                | Segments::F.mask() | Segments::G.mask(),
            Segment7::L => Segments::D.mask() | Segments::E.mask() | Segments::F.mask(),
            Segment7::M => Segments::B.mask() | Segments::C.mask() | Segments::E.mask()
                | Segments::G.mask(),
            Segment7::N => Segments::C.mask() | Segments::E.mask() | Segments::G.mask(),
            Segment7::O => Segments::C.mask() | Segments::D.mask() | Segments::E.mask()
                | Segments::G.mask(),
            Segment7::P => Segments::A.mask() | Segments::B.mask() | Segments::E.mask()
                | Segments::F.mask() | Segments::G.mask(),
            Segment7::Q => Segments::A.mask() | Segments::B.mask() | Segments::C.mask()
                | Segments::F.mask() | Segments::G.mask(),
            Segment7::R => Segments::E.mask() | Segments::G.mask(),
            Segment7::S => Segments::C.mask() | Segments::F.mask() | Segments::G.mask(),
            Segment7::T => Segments::D.mask() | Segments::E.mask() | Segments::F.mask()
                | Segments::G.mask(),
            Segment7::U => Segments::B.mask() | Segments::C.mask() | Segments::D.mask()
                | Segments::E.mask() | Segments::F.mask(),
            Segment7::V => Segments::C.mask() | Segments::D.mask() | Segments::E.mask(),
            Segment7::W => Segments::B.mask() | Segments::C.mask() | Segments::D.mask()
                | Segments::E.mask() | Segments::F.mask() | Segments::G.mask(),
            Segment7::X => Segments::B.mask() | Segments::C.mask() | Segments::E.mask()
                | Segments::F.mask() | Segments::G.mask(),
            Segment7::Y => Segments::B.mask() | Segments::C.mask() | Segments::D.mask()
                | Segments::F.mask() | Segments::G.mask(),
            Segment7::Z => Segments::A.mask() | Segments::D.mask() | Segments::G.mask(),
            Segment7::QuestionMark => Segments::A.mask() | Segments::B.mask()
                | Segments::E.mask() | Segments::G.mask(),
            Segment7::Minus => Segments::G.mask(),
            Segment7::Underscore => Segments::D.mask(),
            Segment7::Equal => Segments::A.mask() | Segments::G.mask(),
            Segment7::Apostrophe => Segments::F.mask(),
            Segment7::QuotationMark => Segments::B.mask() | Segments::F.mask(),
            Segment7::Degree => Segments::A.mask() | Segments::B.mask() | Segments::F.mask()
                | Segments::G.mask(),
            Segment7::Blank => 0x00,
        }
    }

    /// Decodes a character, case-insensitively: the named symbols map to
    /// their patterns, everything else (space included) to
    /// [`Segment7::Blank`], all segments off.
    pub fn from(value: char) -> (r: Segment7)
        ensures
            r == spec_symbol(value),
    {
        match value {
            '0' => Segment7::Zero,
            '1' => Segment7::One,
            '2' => Segment7::Two,
            '3' => Segment7::Three,
            '4' => Segment7::Four,
            '5' => Segment7::Five,
            '6' => Segment7::Six,
            '7' => Segment7::Seven,
            '8' => Segment7::Eight,
            '9' => Segment7::Nine,
            'a' | 'A' => Segment7::A,
            'b' | 'B' => Segment7::B,
            'c' | 'C' => Segment7::C,
            'd' | 'D' => Segment7::D,
            'e' | 'E' => Segment7::E,
            'f' | 'F' => Segment7::F,
            'g' | 'G' => Segment7::G,
            'h' | 'H' => Segment7::H,
            'i' | 'I' => Segment7::I,
            'j' | 'J' => Segment7::J,
            'k' | 'K' => Segment7::K,
            'l' | 'L' => Segment7::L,
            'm' | 'M' => Segment7::M,
            'n' | 'N' => Segment7::N,
            'o' | 'O' => Segment7::O,
            'p' | 'P' => Segment7::P,
            'q' | 'Q' => Segment7::Q,
            'r' | 'R' => Segment7::R,
            's' | 'S' => Segment7::S,
            't' | 'T' => Segment7::T,
            'u' | 'U' => Segment7::U,
            'v' | 'V' => Segment7::V,
            'w' | 'W' => Segment7::W,
            'x' | 'X' => Segment7::X,
            'y' | 'Y' => Segment7::Y,
            'z' | 'Z' => Segment7::Z,
            '?' => Segment7::QuestionMark,
            '-' => Segment7::Minus,
            '_' => Segment7::Underscore,
            '=' => Segment7::Equal,
            '\'' => Segment7::Apostrophe,
            '"' => Segment7::QuotationMark,
            ' ' => Segment7::Blank,
            _ => Segment7::Blank,
        }
    }
}

/// Decoding is case-insensitive: a lowercase letter selects the same symbol
/// as its uppercase counterpart.
pub proof fn lemma_symbol_case_insensitive(lower: char, upper: char)
    requires
        'a' as u32 <= lower as u32 && lower as u32 <= 'z' as u32,
        upper as u32 == lower as u32 - 0x20,
    ensures
        spec_symbol(lower) == spec_symbol(upper),
{
}

} // verus!
