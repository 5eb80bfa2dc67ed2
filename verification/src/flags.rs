//! Bit-flag models: the global configuration word and the per-digit
//! decode-enable word.

use vstd::prelude::*;

verus! {

/// Named bits of the configuration register.
///
/// The bit at 0b0000_0010 is unused by the chip and deliberately carries no
/// name here.
#[derive(Clone, Copy, Debug, PartialEq, Eq, Structural)]
pub enum Configuration {
    /// Current phase of the blink timing (read only - writes are ignored).
    ///
    /// Plane 1 blink phase reads 0, plane 0 blink phase reads 1.
    BlinkPhase,
    /// Global rather than digit-by-digit intensity.
    GlobalIntensity,
    /// Clear digit data for both planes (transient bit).
    ClearData,
    /// Reset blink timing on the chip-select falling edge (transient bit).
    BlinkSync,
    /// Enable the blink function globally.
    GlobalBlink,
    /// Blink rate: 0.5 Hz when set, 1 Hz otherwise, at a 4 MHz oscillator.
    BlinkRate,
    /// Disables shutdown when set.
    NotShutdown,
}

impl Configuration {
    /// The flag's bit in the packed configuration byte.
    pub open spec fn spec_mask(self) -> u8 {
        match self {
            Configuration::BlinkPhase => 0x80,
            Configuration::GlobalIntensity => 0x40,
            Configuration::ClearData => 0x20,
            Configuration::BlinkSync => 0x10,
            Configuration::GlobalBlink => 0x08,
            Configuration::BlinkRate => 0x04,
            Configuration::NotShutdown => 0x01,
        }
    }

    /// The flag's bit in the packed configuration byte.
    pub fn mask(self) -> (m: u8)
        ensures
            m == self.spec_mask(),
    {
        match self {
            Configuration::BlinkPhase => 0x80,
            Configuration::GlobalIntensity => 0x40,
            Configuration::ClearData => 0x20,
            Configuration::BlinkSync => 0x10,
            Configuration::GlobalBlink => 0x08,
            Configuration::BlinkRate => 0x04,
            Configuration::NotShutdown => 0x01,
        }
    }
}

/// Named bits of the decode-enable register, one per digit `D0`-`D7`.
///
/// A set bit selects font decoding for the digit's data; a clear bit leaves
/// the digit under raw segment control (meaningful in 7-segment mode only).
#[derive(Clone, Copy, Debug, PartialEq, Eq, Structural)]
pub enum DigitConfiguration {
    D0,
    D1,
    D2,
    D3,
    D4,
    D5,
    D6,
    D7,
}

impl DigitConfiguration {
    /// The digit's bit in the packed decode-enable byte.
    pub open spec fn spec_mask(self) -> u8 {
        match self {
            DigitConfiguration::D0 => 0x01,
            DigitConfiguration::D1 => 0x02,
            DigitConfiguration::D2 => 0x04,
            DigitConfiguration::D3 => 0x08,
            DigitConfiguration::D4 => 0x10,
            DigitConfiguration::D5 => 0x20,
            DigitConfiguration::D6 => 0x40,
            DigitConfiguration::D7 => 0x80,
        }
    }

    /// The digit's bit in the packed decode-enable byte.
    pub fn mask(self) -> (m: u8)
        ensures
            m == self.spec_mask(),
    {
        match self {
            DigitConfiguration::D0 => 0x01,
            DigitConfiguration::D1 => 0x02,
            DigitConfiguration::D2 => 0x04,
            DigitConfiguration::D3 => 0x08,
            DigitConfiguration::D4 => 0x10,
            DigitConfiguration::D5 => 0x20,
            DigitConfiguration::D6 => 0x40,
            DigitConfiguration::D7 => 0x80,
        }
    }
}

/// A combination of [`Configuration`] flags, packed into one byte.
#[derive(Clone, Copy, Debug, PartialEq, Eq, Structural)]
pub struct ConfigFlags {
    bits: u8,
}

impl ConfigFlags {
    /// The packed byte.
    pub closed spec fn spec_bits(self) -> u8 {
        self.bits
    }

    /// No flag set.
    pub fn empty() -> (r: ConfigFlags)
        ensures
            r.spec_bits() == 0,
    {
        ConfigFlags { bits: 0 }
    }

    /// The combination extended by one flag.
    pub fn with(self, flag: Configuration) -> (r: ConfigFlags)
        ensures
            r.spec_bits() == self.spec_bits() | flag.spec_mask(),
    {
        ConfigFlags { bits: self.bits | flag.mask() }
    }

    /// The union of two combinations.
    pub fn union(self, other: ConfigFlags) -> (r: ConfigFlags)
        ensures
            r.spec_bits() == self.spec_bits() | other.spec_bits(),
    {
        ConfigFlags { bits: self.bits | other.bits }
    }

    /// Whether the combination holds a flag.
    pub fn contains(self, flag: Configuration) -> (r: bool)
        ensures
            r == ((self.spec_bits() & flag.spec_mask()) != 0),
    {
        self.bits & flag.mask() != 0
    }

    /// The packed byte, as the configuration register takes it.
    pub fn bits(self) -> (r: u8)
        ensures
            r == self.spec_bits(),
    {
        self.bits
    }
}

/// A combination of [`DigitConfiguration`] flags, packed into one byte.
#[derive(Clone, Copy, Debug, PartialEq, Eq, Structural)]
pub struct DigitFlags {
    bits: u8,
}

impl DigitFlags {
    /// The packed byte.
    pub closed spec fn spec_bits(self) -> u8 {
        self.bits
    }

    /// No digit selected.
    pub fn empty() -> (r: DigitFlags)
        ensures
            r.spec_bits() == 0,
    {
        DigitFlags { bits: 0 }
    }

    /// All eight digits selected.
    pub fn all() -> (r: DigitFlags)
        ensures
            r.spec_bits() == 0xFF,
    {
        DigitFlags { bits: 0xFF }
    }

    /// The selection extended by one digit.
    pub fn with(self, flag: DigitConfiguration) -> (r: DigitFlags)
        ensures
            r.spec_bits() == self.spec_bits() | flag.spec_mask(),
    {
        DigitFlags { bits: self.bits | flag.mask() }
    }

    /// The union of two selections.
    pub fn union(self, other: DigitFlags) -> (r: DigitFlags)
        ensures
            r.spec_bits() == self.spec_bits() | other.spec_bits(),
    {
        DigitFlags { bits: self.bits | other.bits }
    }

    /// Whether the selection holds a digit.
    pub fn contains(self, flag: DigitConfiguration) -> (r: bool)
        ensures
            r == ((self.spec_bits() & flag.spec_mask()) != 0),
    {
        self.bits & flag.mask() != 0
    }

    /// The packed byte, as the decode-mode register takes it.
    pub fn bits(self) -> (r: u8)
        ensures
            r == self.spec_bits(),
    {
        self.bits
    }
}

} // verus!
