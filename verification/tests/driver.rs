use max6954::ConfigFlags;
use max6954::Configuration;
use max6954::Digit;
use max6954::DigitConfiguration;
use max6954::DigitFlags;
use max6954::Error;
use max6954::Max6954;
use max6954::MockSpi;
use max6954::MockSpiError;
use max6954::Plane;
use max6954::Register;

#[test]
fn write_register_issues_one_transaction() {
    let mut driver = Max6954::new(MockSpi::new());
    driver.write_register(Register::ScanLimit, 0x07).unwrap();
    let spi = driver.destroy();
    assert_eq!(spi.write_count(), 1);
    assert_eq!(spi.write_at(0), (0x03, 0x07));
}

#[test]
fn set_digit_raw_writes_through_the_resolved_register() {
    let mut driver = Max6954::new(MockSpi::new());
    driver.set_digit_raw(Digit::D5, Plane::P1, 0xA5).unwrap();
    let spi = driver.destroy();
    assert_eq!(spi.write_count(), 1);
    assert_eq!(spi.write_at(0), (0x45, 0xA5));
}

#[test]
fn set_digit_hex_transaction_bytes() {
    let mut driver = Max6954::new(MockSpi::new());
    driver.set_digit_hex(Digit::D3, Plane::P0, 0x0A, true).unwrap();
    let spi = driver.destroy();
    assert_eq!(spi.write_count(), 1);
    assert_eq!(spi.write_at(0), (Register::D3P0.addr(), 0x0A | 0x80));
}

#[test]
fn set_digit_hex_unrepresentable_value_blanks() {
    let mut driver = Max6954::new(MockSpi::new());
    driver.set_digit_hex(Digit::D0, Plane::P0, 0x10, false).unwrap();
    driver.set_digit_hex(Digit::D0, Plane::P0, 0xFF, true).unwrap();
    let spi = driver.destroy();
    assert_eq!(spi.write_count(), 2);
    assert_eq!(spi.write_at(0), (0x20, 0x20));
    assert_eq!(spi.write_at(1), (0x20, 0x20 | 0x80));
}

#[test]
fn set_digit_ascii_transaction_bytes() {
    let mut driver = Max6954::new(MockSpi::new());
    driver.set_digit_ascii(Digit::D1, Plane::Both, 'A', false).unwrap();
    driver.set_digit_ascii(Digit::D1, Plane::Both, '\u{20AC}', true).unwrap();
    let spi = driver.destroy();
    assert_eq!(spi.write_count(), 2);
    assert_eq!(spi.write_at(0), (0x61, 0x41));
    assert_eq!(spi.write_at(1), (0x61, 0x20 | 0x80));
}

#[test]
fn unblank_writes_all_eight_digits_in_order() {
    let mut driver = Max6954::new(MockSpi::new());
    driver.unblank().unwrap();
    let spi = driver.destroy();
    assert_eq!(spi.write_count(), 8);
    for index in 0u8..8 {
        assert_eq!(spi.write_at(index as usize), (0x60 + index, 0x00));
    }
}

#[test]
fn unblank_stops_at_the_first_failure() {
    let mut driver = Max6954::new(MockSpi::failing_after(4));
    let result = driver.unblank();
    assert!(matches!(result, Err(Error::Spi(MockSpiError))));
    let spi = driver.destroy();
    assert_eq!(spi.write_count(), 4);
    for index in 0u8..4 {
        assert_eq!(spi.write_at(index as usize), (0x60 + index, 0x00));
    }
}

#[test]
fn configuration_flags_pack_as_documented() {
    let flags = ConfigFlags::empty().with(Configuration::GlobalBlink).with(
        Configuration::NotShutdown,
    );
    assert_eq!(flags.bits(), 0b0000_1001);
    assert!(flags.contains(Configuration::GlobalBlink));
    assert!(flags.contains(Configuration::NotShutdown));
    assert!(!flags.contains(Configuration::BlinkRate));
    let more = flags.union(ConfigFlags::empty().with(Configuration::BlinkPhase));
    assert_eq!(more.bits(), 0b1000_1001);
    assert_eq!(ConfigFlags::empty().bits(), 0);
}

#[test]
fn configuration_flag_masks() {
    assert_eq!(Configuration::BlinkPhase.mask(), 0x80);
    assert_eq!(Configuration::GlobalIntensity.mask(), 0x40);
    assert_eq!(Configuration::ClearData.mask(), 0x20);
    assert_eq!(Configuration::BlinkSync.mask(), 0x10);
    assert_eq!(Configuration::GlobalBlink.mask(), 0x08);
    assert_eq!(Configuration::BlinkRate.mask(), 0x04);
    assert_eq!(Configuration::NotShutdown.mask(), 0x01);
}

#[test]
fn set_configuration_writes_the_packed_byte() {
    let mut driver = Max6954::new(MockSpi::new());
    let flags = ConfigFlags::empty().with(Configuration::GlobalBlink).with(
        Configuration::NotShutdown,
    );
    driver.set_configuration(flags).unwrap();
    let spi = driver.destroy();
    assert_eq!(spi.write_count(), 1);
    assert_eq!(spi.write_at(0), (0x04, 0b0000_1001));
}

#[test]
fn digit_configuration_flags_pack_as_documented() {
    let digits = DigitFlags::empty().with(DigitConfiguration::D0).with(
        DigitConfiguration::D3,
    ).with(DigitConfiguration::D7);
    assert_eq!(digits.bits(), 0b1000_1001);
    assert!(digits.contains(DigitConfiguration::D3));
    assert!(!digits.contains(DigitConfiguration::D4));
    assert_eq!(DigitFlags::all().bits(), 0xFF);
    assert_eq!(DigitFlags::empty().bits(), 0);
}

#[test]
fn digit_configuration_flag_masks() {
    assert_eq!(DigitConfiguration::D0.mask(), 0x01);
    assert_eq!(DigitConfiguration::D1.mask(), 0x02);
    assert_eq!(DigitConfiguration::D2.mask(), 0x04);
    assert_eq!(DigitConfiguration::D3.mask(), 0x08);
    assert_eq!(DigitConfiguration::D4.mask(), 0x10);
    assert_eq!(DigitConfiguration::D5.mask(), 0x20);
    assert_eq!(DigitConfiguration::D6.mask(), 0x40);
    assert_eq!(DigitConfiguration::D7.mask(), 0x80);
}

#[test]
fn enable_decode_writes_the_packed_byte() {
    let mut driver = Max6954::new(MockSpi::new());
    let digits = DigitFlags::empty().with(DigitConfiguration::D0).with(
        DigitConfiguration::D3,
    ).with(DigitConfiguration::D7);
    driver.enable_decode(digits).unwrap();
    let spi = driver.destroy();
    assert_eq!(spi.write_count(), 1);
    assert_eq!(spi.write_at(0), (0x01, 0b1000_1001));
}

#[test]
fn transport_failure_is_surfaced_without_a_write() {
    let mut driver = Max6954::new(MockSpi::failing_after(0));
    let result = driver.write_register(Register::NoOp, 0x00);
    assert!(matches!(result, Err(Error::Spi(MockSpiError))));
    let spi = driver.destroy();
    assert_eq!(spi.write_count(), 0);
}

#[test]
fn new_and_destroy_round_trip_the_transport() {
    let spi = MockSpi::new();
    let driver = Max6954::new(spi);
    let spi = driver.destroy();
    assert_eq!(spi.write_count(), 0);
}
