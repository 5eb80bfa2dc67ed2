//! The chip's register map: every addressable register with its one-byte
//! address.

use vstd::prelude::*;

verus! {

/// All available registers.
///
/// The map is partitioned into command registers (no-op, decode mode, global
/// intensity, scan limit, configuration, GPIO, port configuration, display
/// test), key-mask/debounce and key-pressed registers, per-digit intensity
/// registers, and 48 digit-data registers (16 digits in each of planes P0,
/// P1, and both planes at once).
#[derive(Clone, Copy, Debug, PartialEq, Eq, Structural)]
pub enum Register {
    NoOp,
    /// Enable/disable the font map, set per digit.
    ///
    /// When a digit's bit is set, register data written to it is decoded
    /// through the font; when unset, the 7-segment segments are controlled
    /// directly.
    DecodeMode,
    /// Global intensity, 0x00-0x0F.
    GlobalIntensity,
    ScanLimit,
    /// Packed [`crate::Configuration`] flags.
    Configuration,
    GpioData,
    PortConfiguration,
    DisplayTest,
    /// Write: KEY_A mask; read: KEY_A debounce.
    KeyAMaskDebounce,
    /// Write: KEY_B mask; read: KEY_B debounce.
    KeyBMaskDebounce,
    /// Write: KEY_C mask; read: KEY_C debounce.
    KeyCMaskDebounce,
    /// Write: KEY_D mask; read: KEY_D debounce.
    KeyDMaskDebounce,
    /// Write: digit type; read: KEY_A pressed.
    KeyAPressedDigitType,
    /// Read only.
    KeyBPressed,
    /// Read only.
    KeyCPressed,
    /// Read only.
    KeyDPressed,
    Intensity10,
    Intensity32,
    Intensity54,
    Intensity76,
    Intensity10a,
    Intensity32a,
    Intensity54a,
    Intensity76a,
    D0P0,
    D1P0,
    D2P0,
    D3P0,
    D4P0,
    D5P0,
    D6P0,
    D7P0,
    D0aP0,
    D1aP0,
    D2aP0,
    D3aP0,
    D4aP0,
    D5aP0,
    D6aP0,
    D7aP0,
    D0P1,
    D1P1,
    D2P1,
    D3P1,
    D4P1,
    D5P1,
    D6P1,
    D7P1,
    D0aP1,
    D1aP1,
    D2aP1,
    D3aP1,
    D4aP1,
    D5aP1,
    D6aP1,
    D7aP1,
    D0P0P1,
    D1P0P1,
    D2P0P1,
    D3P0P1,
    D4P0P1,
    D5P0P1,
    D6P0P1,
    D7P0P1,
    D0aP0P1,
    D1aP0P1,
    D2aP0P1,
    D3aP0P1,
    D4aP0P1,
    D5aP0P1,
    D6aP0P1,
    D7aP0P1,
}

impl Register {
    /// The register's one-byte bus address, as the datasheet lists it.
    pub open spec fn spec_addr(self) -> u8 {
        match self {
            Register::NoOp => 0x00,
            Register::DecodeMode => 0x01,
            Register::GlobalIntensity => 0x02,
            Register::ScanLimit => 0x03,
            Register::Configuration => 0x04,
            Register::GpioData => 0x05,
            Register::PortConfiguration => 0x06,
            Register::DisplayTest => 0x07,
            Register::KeyAMaskDebounce => 0x08,
            Register::KeyBMaskDebounce => 0x09,
            Register::KeyCMaskDebounce => 0x0A,
            Register::KeyDMaskDebounce => 0x0B,
            Register::KeyAPressedDigitType => 0x0C,
            Register::KeyBPressed => 0x0D,
            Register::KeyCPressed => 0x0E,
            Register::KeyDPressed => 0x0F,
            Register::Intensity10 => 0x10,
            Register::Intensity32 => 0x11,
            Register::Intensity54 => 0x12,
            Register::Intensity76 => 0x13,
            Register::Intensity10a => 0x14,
            Register::Intensity32a => 0x15,
            Register::Intensity54a => 0x16,
            Register::Intensity76a => 0x17,
            Register::D0P0 => 0x20,
            Register::D1P0 => 0x21,
            Register::D2P0 => 0x22,
            Register::D3P0 => 0x23,
            Register::D4P0 => 0x24,
            Register::D5P0 => 0x25,
            Register::D6P0 => 0x26,
            Register::D7P0 => 0x27,
            Register::D0aP0 => 0x28,
            Register::D1aP0 => 0x29,
            Register::D2aP0 => 0x2A,
            Register::D3aP0 => 0x2B,
            Register::D4aP0 => 0x2C,
            Register::D5aP0 => 0x2D,
            Register::D6aP0 => 0x2E,
            Register::D7aP0 => 0x2F,
            Register::D0P1 => 0x40,
            Register::D1P1 => 0x41,
            Register::D2P1 => 0x42,
            Register::D3P1 => 0x43,
            Register::D4P1 => 0x44,
            Register::D5P1 => 0x45,
            Register::D6P1 => 0x46,
            Register::D7P1 => 0x47,
            Register::D0aP1 => 0x48,
            Register::D1aP1 => 0x49,
            Register::D2aP1 => 0x4A,
            Register::D3aP1 => 0x4B,
            Register::D4aP1 => 0x4C,
            Register::D5aP1 => 0x4D,
            Register::D6aP1 => 0x4E,
            Register::D7aP1 => 0x4F,
            Register::D0P0P1 => 0x60,
            Register::D1P0P1 => 0x61,
            Register::D2P0P1 => 0x62,
            Register::D3P0P1 => 0x63,
            Register::D4P0P1 => 0x64,
            Register::D5P0P1 => 0x65,
            Register::D6P0P1 => 0x66,
            Register::D7P0P1 => 0x67,
            Register::D0aP0P1 => 0x68,
            Register::D1aP0P1 => 0x69,
            Register::D2aP0P1 => 0x6A,
            Register::D3aP0P1 => 0x6B,
            Register::D4aP0P1 => 0x6C,
            Register::D5aP0P1 => 0x6D,
            Register::D6aP0P1 => 0x6E,
            Register::D7aP0P1 => 0x6F,
        }
    }

    /// A register holds digit data exactly when its address lies in one of
    /// the three plane blocks (P0 at 0x20-0x2F, P1 at 0x40-0x4F, both planes
    /// at 0x60-0x6F).
    pub open spec fn is_digit_data(self) -> bool {
        ||| 0x20 <= self.spec_addr() <= 0x2F
        ||| 0x40 <= self.spec_addr() <= 0x4F
        ||| 0x60 <= self.spec_addr() <= 0x6F
    }

    /// The register's one-byte bus address.
    pub fn addr(self) -> (a: u8)
        ensures
            a == self.spec_addr(),
    {
        match self {
            Register::NoOp => 0x00,
            Register::DecodeMode => 0x01,
            Register::GlobalIntensity => 0x02,
            Register::ScanLimit => 0x03,
            Register::Configuration => 0x04,
            Register::GpioData => 0x05,
            Register::PortConfiguration => 0x06,
            Register::DisplayTest => 0x07,
            Register::KeyAMaskDebounce => 0x08,
            Register::KeyBMaskDebounce => 0x09,
            Register::KeyCMaskDebounce => 0x0A,
            Register::KeyDMaskDebounce => 0x0B,
            Register::KeyAPressedDigitType => 0x0C,
            Register::KeyBPressed => 0x0D,
            Register::KeyCPressed => 0x0E,
            Register::KeyDPressed => 0x0F,
            Register::Intensity10 => 0x10,
            Register::Intensity32 => 0x11,
            Register::Intensity54 => 0x12,
            Register::Intensity76 => 0x13,
            Register::Intensity10a => 0x14,
            Register::Intensity32a => 0x15,
            Register::Intensity54a => 0x16,
            Register::Intensity76a => 0x17,
            Register::D0P0 => 0x20,
            Register::D1P0 => 0x21,
            Register::D2P0 => 0x22,
            Register::D3P0 => 0x23,
            Register::D4P0 => 0x24,
            Register::D5P0 => 0x25,
            Register::D6P0 => 0x26,
            Register::D7P0 => 0x27,
            Register::D0aP0 => 0x28,
            Register::D1aP0 => 0x29,
            Register::D2aP0 => 0x2A,
            Register::D3aP0 => 0x2B,
            Register::D4aP0 => 0x2C,
            Register::D5aP0 => 0x2D,
            Register::D6aP0 => 0x2E,
            Register::D7aP0 => 0x2F,
            Register::D0P1 => 0x40,
            Register::D1P1 => 0x41,
            Register::D2P1 => 0x42,
            Register::D3P1 => 0x43,
            Register::D4P1 => 0x44,
            Register::D5P1 => 0x45,
            Register::D6P1 => 0x46,
            Register::D7P1 => 0x47,
            Register::D0aP1 => 0x48,
            Register::D1aP1 => 0x49,
            Register::D2aP1 => 0x4A,
            Register::D3aP1 => 0x4B,
            Register::D4aP1 => 0x4C,
            Register::D5aP1 => 0x4D,
            Register::D6aP1 => 0x4E,
            Register::D7aP1 => 0x4F,
            Register::D0P0P1 => 0x60,
            Register::D1P0P1 => 0x61,
            Register::D2P0P1 => 0x62,
            Register::D3P0P1 => 0x63,
            Register::D4P0P1 => 0x64,
            Register::D5P0P1 => 0x65,
            Register::D6P0P1 => 0x66,
            Register::D7P0P1 => 0x67,
            Register::D0aP0P1 => 0x68,
            Register::D1aP0P1 => 0x69,
            Register::D2aP0P1 => 0x6A,
            Register::D3aP0P1 => 0x6B,
            Register::D4aP0P1 => 0x6C,
            Register::D5aP0P1 => 0x6D,
            Register::D6aP0P1 => 0x6E,
            Register::D7aP0P1 => 0x6F,
        }
    }
}

} // verus!
