use max6954::Digit;
use max6954::Plane;
use max6954::Register;

#[test]
fn register_addresses_spot_checks() {
    assert_eq!(Register::NoOp.addr(), 0x00);
    assert_eq!(Register::DecodeMode.addr(), 0x01);
    assert_eq!(Register::GlobalIntensity.addr(), 0x02);
    assert_eq!(Register::ScanLimit.addr(), 0x03);
    assert_eq!(Register::Configuration.addr(), 0x04);
    assert_eq!(Register::GpioData.addr(), 0x05);
    assert_eq!(Register::PortConfiguration.addr(), 0x06);
    assert_eq!(Register::DisplayTest.addr(), 0x07);
    assert_eq!(Register::KeyAMaskDebounce.addr(), 0x08);
    assert_eq!(Register::KeyBMaskDebounce.addr(), 0x09);
    assert_eq!(Register::KeyCMaskDebounce.addr(), 0x0A);
    assert_eq!(Register::KeyDMaskDebounce.addr(), 0x0B);
    assert_eq!(Register::KeyAPressedDigitType.addr(), 0x0C);
    assert_eq!(Register::KeyBPressed.addr(), 0x0D);
    assert_eq!(Register::KeyCPressed.addr(), 0x0E);
    assert_eq!(Register::KeyDPressed.addr(), 0x0F);
    assert_eq!(Register::Intensity10.addr(), 0x10);
    assert_eq!(Register::Intensity76.addr(), 0x13);
    assert_eq!(Register::Intensity10a.addr(), 0x14);
    assert_eq!(Register::Intensity76a.addr(), 0x17);
    assert_eq!(Register::D0P0.addr(), 0x20);
    assert_eq!(Register::D7P0.addr(), 0x27);
    assert_eq!(Register::D0aP0.addr(), 0x28);
    assert_eq!(Register::D7aP0.addr(), 0x2F);
    assert_eq!(Register::D0P1.addr(), 0x40);
    assert_eq!(Register::D7aP1.addr(), 0x4F);
    assert_eq!(Register::D0P0P1.addr(), 0x60);
    assert_eq!(Register::D3P0P1.addr(), 0x63);
    assert_eq!(Register::D7aP0P1.addr(), 0x6F);
}

#[test]
fn resolve_covers_digit_data_registers_exactly() {
    let planes = [Plane::P0, Plane::P1, Plane::Both];
    let mut seen: Vec<u8> = Vec::new();
    for index in 0u8..8 {
        for plane in planes {
            let primary = Digit::new(index).unwrap();
            seen.push(primary.register(plane).addr());
            let auxiliary = Digit::new_a(index).unwrap();
            seen.push(auxiliary.register(plane).addr());
        }
    }
    assert_eq!(seen.len(), 48);
    let mut expected: Vec<u8> = Vec::new();
    for base in [0x20u8, 0x40, 0x60] {
        for offset in 0u8..16 {
            expected.push(base + offset);
        }
    }
    seen.sort();
    // Sorted equality of the two lists gives both distinctness (48 distinct
    // expected values) and coverage.
    assert_eq!(seen, expected);
}

#[test]
fn resolve_spot_checks() {
    assert_eq!(Digit::D3.register(Plane::P0), Register::D3P0);
    assert_eq!(Digit::D3.register(Plane::P1), Register::D3P1);
    assert_eq!(Digit::D3.register(Plane::Both), Register::D3P0P1);
    assert_eq!(Digit::D0a.register(Plane::P0), Register::D0aP0);
    assert_eq!(Digit::D7a.register(Plane::Both), Register::D7aP0P1);
}

#[test]
fn digit_new_accepts_exactly_0_through_7() {
    for index in 0u8..8 {
        let digit = Digit::new(index).unwrap();
        assert_eq!(digit.register(Plane::P0).addr(), 0x20 + index);
    }
    assert!(Digit::new(8).is_none());
    assert!(Digit::new(9).is_none());
    assert!(Digit::new(255).is_none());
}

#[test]
fn digit_new_a_accepts_exactly_0_through_7_with_offset_8() {
    for index in 0u8..8 {
        let digit = Digit::new_a(index).unwrap();
        assert_eq!(digit.register(Plane::P0).addr(), 0x28 + index);
    }
    assert!(Digit::new_a(8).is_none());
    assert!(Digit::new_a(255).is_none());
}
