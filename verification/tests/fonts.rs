use max6954::AsciiFont;
use max6954::HexFont;
use max6954::Segment7;
use max6954::Segments;

#[test]
fn hex_font_round_trip_for_hex_digits() {
    for (index, c) in "0123456789abcdef".chars().enumerate() {
        assert_eq!(HexFont::from_char(c).value(), index as u8);
    }
    for (index, c) in "0123456789ABCDEF".chars().enumerate() {
        assert_eq!(HexFont::from_char(c).value(), index as u8);
    }
}

#[test]
fn hex_font_other_characters_decode_to_blank() {
    for c in ['g', 'G', 'z', ' ', '-', '/', ':', '@', '`', '\u{00E9}', '\u{20AC}'] {
        assert_eq!(HexFont::from_char(c).value(), 0x20);
    }
}

#[test]
fn hex_font_from_u8() {
    for value in 0u8..16 {
        assert_eq!(HexFont::from_u8(value).value(), value);
    }
    for value in [16u8, 17, 0x20, 0x7F, 255] {
        assert_eq!(HexFont::from_u8(value).value(), 0x20);
    }
}

#[test]
fn ascii_font_passes_every_ascii_character_through() {
    for code in 0u32..128 {
        let c = char::from_u32(code).unwrap();
        assert_eq!(AsciiFont::from_char(c).value(), code as u8);
    }
}

#[test]
fn ascii_font_non_ascii_decodes_to_blank() {
    for c in ['\u{0080}', '\u{00E9}', '\u{20AC}', '\u{1F600}'] {
        assert_eq!(AsciiFont::from_char(c).value(), 0x20);
    }
}

#[test]
fn ascii_font_from_hex_codes() {
    assert_eq!(AsciiFont::from_hex(HexFont::Zero).value(), 0x00);
    assert_eq!(AsciiFont::from_hex(HexFont::A).value(), 0x0A);
    assert_eq!(AsciiFont::from_hex(HexFont::F).value(), 0x0F);
    assert_eq!(AsciiFont::from_hex(HexFont::Blank).value(), 0x20);
}

#[test]
fn segment_masks_match_the_bit_assignment() {
    assert_eq!(Segments::DP.mask(), 0b1000_0000);
    assert_eq!(Segments::A.mask(), 0b0100_0000);
    assert_eq!(Segments::B.mask(), 0b0010_0000);
    assert_eq!(Segments::C.mask(), 0b0001_0000);
    assert_eq!(Segments::D.mask(), 0b0000_1000);
    assert_eq!(Segments::E.mask(), 0b0000_0100);
    assert_eq!(Segments::F.mask(), 0b0000_0010);
    assert_eq!(Segments::G.mask(), 0b0000_0001);
}

#[test]
fn segment7_known_patterns() {
    let eight = Segments::A.mask() | Segments::B.mask() | Segments::C.mask()
        | Segments::D.mask() | Segments::E.mask() | Segments::F.mask() | Segments::G.mask();
    assert_eq!(Segment7::from('8').mask(), eight);
    assert_eq!(Segment7::from('8').mask(), 0x7F);
    let one = Segments::B.mask() | Segments::C.mask();
    assert_eq!(Segment7::from('1').mask(), one);
    let zero = Segments::A.mask() | Segments::B.mask() | Segments::C.mask()
        | Segments::D.mask() | Segments::E.mask() | Segments::F.mask();
    assert_eq!(Segment7::from('0').mask(), zero);
    assert_eq!(Segment7::from('-').mask(), Segments::G.mask());
    assert_eq!(Segment7::from('_').mask(), Segments::D.mask());
}

#[test]
fn segment7_is_case_insensitive() {
    for (lower, upper) in ('a'..='z').zip('A'..='Z') {
        assert_eq!(Segment7::from(lower), Segment7::from(upper));
        assert_eq!(Segment7::from(lower).mask(), Segment7::from(upper).mask());
    }
    assert_eq!(Segment7::from('z'), Segment7::from('Z'));
}

#[test]
fn segment7_unmapped_characters_decode_to_blank() {
    for c in [' ', '!', '.', ',', '+', '/', '\u{00E9}', '\u{00B0}'] {
        assert_eq!(Segment7::from(c), Segment7::Blank);
        assert_eq!(Segment7::from(c).mask(), 0x00);
    }
}
