//! Register-level driver for the MAX6954 multi-digit LED display controller.
//!
//! The driver translates display intents (show this character on this digit,
//! in this data plane, with this decimal point state) into single-register
//! write transactions over an exclusively owned serial transport, and
//! provides the chip's register map, bit-flag configuration words, and
//! glyph-to-segment font tables.

mod digit;
mod flags;
mod font;
mod registers;
mod transport;

pub use digit::Digit;
pub use digit::Plane;
pub use digit::lemma_register_addr;
pub use digit::lemma_register_covers;
pub use digit::lemma_register_image_is_digit_data;
pub use digit::lemma_register_injective;
pub use digit::lemma_register_is_digit_data;
pub use digit::spec_index;
pub use digit::spec_register;
pub use flags::ConfigFlags;
pub use flags::Configuration;
pub use flags::DigitConfiguration;
pub use flags::DigitFlags;
pub use font::AsciiFont;
pub use font::HexFont;
pub use font::Segments;
pub use font::ascii_code;
pub use font::hex_char_code;
pub use font::hex_code;
pub use font::segment7font::Segment7;
pub use font::segment7font::lemma_symbol_case_insensitive;
pub use font::segment7font::spec_symbol;
pub use registers::Register;
pub use transport::MockSpi;
pub use transport::MockSpiError;
pub use transport::Transport;

use vstd::prelude::*;

verus! {

/// The driver's single error kind: a transport failure, carrying the
/// transport's own failure detail unchanged.
#[derive(Clone, Copy, Debug)]
pub enum Error<SPI> {
    Spi(SPI),
}

/// A digit-data byte with the decimal-point bit applied: `dp` sets bit 7 on
/// top of the decoded value.
pub open spec fn spec_with_dp(value: u8, dp: bool) -> u8 {
    if dp {
        value | 0x80
    } else {
        value
    }
}

/// Applies the decimal-point bit: `dp` sets bit 7 on top of a decoded font
/// byte.
pub fn with_dp(value: u8, dp: bool) -> (r: u8)
    ensures
        r == spec_with_dp(value, dp),
{
    if dp {
        value | 0x80
    } else {
        value
    }
}

/// The (address, data) pairs that a completed unblank operation issues, cut
/// off after the first `n` of its 8 writes: 0x00 to each of the digit-data
/// registers for both planes, in ascending digit order.
pub open spec fn spec_unblank_writes(n: int) -> Seq<(u8, u8)> {
    Seq::new(n as nat, |i: int| (((0x60 + i) as u8, 0u8)))
}

/// The driver facade: exclusive owner of one transport handle, with no other
/// state.
///
/// Every operation issues a single immediate register write and surfaces a
/// transport failure at once, without retrying.
pub struct Max6954<SPI> {
    spi: SPI,
}

impl<SPI: Transport> Max6954<SPI> {
    /// The owned transport handle.
    pub closed spec fn spec_spi(&self) -> SPI {
        self.spi
    }

    /// The transactions completed on the owned transport, in order.
    pub open spec fn log(&self) -> Seq<(u8, u8)> {
        self.spec_spi().writes()
    }

    /// Takes ownership of the transport handle.
    pub fn new(spi: SPI) -> (r: Self)
        ensures
            r.spec_spi() == spi,
    {
        Self { spi }
    }

    /// Releases the transport handle.
    pub fn destroy(self) -> (r: SPI)
        ensures
            r == self.spec_spi(),
    {
        self.spi
    }

    /// Issues one two-byte write transaction `[address, data]`.
    ///
    /// A transport failure is propagated as [`Error::Spi`] without retry, and
    /// nothing is recorded for the failed transaction.
    pub fn write_register(&mut self, address: Register, data: u8) -> (r: Result<
        (),
        Error<SPI::Failure>,
    >)
        ensures
            r is Ok ==> final(self).log() == old(self).log().push((address.spec_addr(), data)),
            r is Err ==> final(self).log() == old(self).log(),
    {
        match self.spi.write(address.addr(), data) {
            Ok(()) => Ok(()),
            Err(e) => Err(Error::Spi(e)),
        }
    }

    /// Writes a raw byte to the digit's data register in `plane`, for use
    /// when decoding is disabled and the caller controls segments directly.
    pub fn set_digit_raw(&mut self, digit: Digit, plane: Plane, data: u8) -> (r: Result<
        (),
        Error<SPI::Failure>,
    >)
        ensures
            r is Ok ==> final(self).log() == old(self).log().push(
                (spec_register(digit, plane).spec_addr(), data),
            ),
            r is Err ==> final(self).log() == old(self).log(),
    {
        let reg = digit.register(plane);
        self.write_register(reg, data)
    }

    /// Writes the packed configuration byte to [`Register::Configuration`].
    pub fn set_configuration(&mut self, config: ConfigFlags) -> (r: Result<
        (),
        Error<SPI::Failure>,
    >)
        ensures
            r is Ok ==> final(self).log() == old(self).log().push(
                (Register::Configuration.spec_addr(), config.spec_bits()),
            ),
            r is Err ==> final(self).log() == old(self).log(),
    {
        let bits = config.bits();
        self.write_register(Register::Configuration, bits)
    }

    /// Writes the packed decode-enable byte to [`Register::DecodeMode`].
    ///
    /// Digits not in the selection display raw segment data instead of
    /// font-decoded data (7-segment mode only).
    pub fn enable_decode(&mut self, digits: DigitFlags) -> (r: Result<(), Error<SPI::Failure>>)
        ensures
            r is Ok ==> final(self).log() == old(self).log().push(
                (Register::DecodeMode.spec_addr(), digits.spec_bits()),
            ),
            r is Err ==> final(self).log() == old(self).log(),
    {
        let bits = digits.bits();
        self.write_register(Register::DecodeMode, bits)
    }

    /// Unblanks all digits by writing 0x00 to the both-planes data registers
    /// of `D0`-`D7`, once each, in ascending digit order.
    ///
    /// The registers hold 0b0010_0000 after startup, which blanks all digits.
    /// Because each write goes through the both-planes address, the paired
    /// auxiliary digit (`D0a`-`D7a`) is unblanked by the hardware as well,
    /// without an extra write.
    ///
    /// The 8 writes are not atomic: on the first transport failure the
    /// remaining writes are abandoned and the error is returned, leaving the
    /// digits already written unblanked and the rest untouched.
    pub fn unblank(&mut self) -> (r: Result<(), Error<SPI::Failure>>)
        ensures
            r is Ok ==> final(self).log() == old(self).log() + spec_unblank_writes(8),
            r is Err ==> exists|k: int|
                0 <= k < 8 && final(self).log() == old(self).log() + spec_unblank_writes(k),
    {
        let mut i: u8 = 0;
        while i < 8
            invariant
                i <= 8,
                self.log() == old(self).log() + spec_unblank_writes(i as int),
            decreases 8 - i,
        {
            let d = Digit::new(i).unwrap();
            let reg = d.register(Plane::Both);
            proof {
                digit::lemma_register_addr(d, Plane::Both);
            }
            match self.write_register(reg, 0x00) {
                Ok(()) => {}
                Err(e) => {
                    return Err(e);
                }
            }
            proof {
                assert(old(self).log() + spec_unblank_writes(i as int + 1) =~= (old(self).log()
                    + spec_unblank_writes(i as int)).push(((0x60 + i) as u8, 0u8)));
            }
            i = i + 1;
        }
        Ok(())
    }

    /// Decodes `value` through the hexadecimal font and writes the result,
    /// with the decimal-point bit applied, to the digit's data register in
    /// `plane`.
    ///
    /// Values that no single hexadecimal digit can represent are converted
    /// to blank. Decoding has to be enabled for the digit (see
    /// [`Max6954::enable_decode`]) for correct display.
    pub fn set_digit_hex(&mut self, digit: Digit, plane: Plane, value: u8, dp: bool) -> (r: Result<
        (),
        Error<SPI::Failure>,
    >)
        ensures
            r is Ok ==> final(self).log() == old(self).log().push(
                (spec_register(digit, plane).spec_addr(), spec_with_dp(hex_code(value), dp)),
            ),
            r is Err ==> final(self).log() == old(self).log(),
    {
        let code = HexFont::from_u8(value).value();
        let data = with_dp(code, dp);
        let reg = digit.register(plane);
        self.write_register(reg, data)
    }

    /// Decodes `value` through the ASCII font and writes the result, with
    /// the decimal-point bit applied, to the digit's data register in
    /// `plane`.
    ///
    /// Non-ASCII characters are converted to blank. Decoding has to be
    /// enabled for the digit (see [`Max6954::enable_decode`]) for correct
    /// display.
    pub fn set_digit_ascii(&mut self, digit: Digit, plane: Plane, value: char, dp: bool) -> (r:
        Result<(), Error<SPI::Failure>>)
        ensures
            r is Ok ==> final(self).log() == old(self).log().push(
                (spec_register(digit, plane).spec_addr(), spec_with_dp(ascii_code(value), dp)),
            ),
            r is Err ==> final(self).log() == old(self).log(),
    {
        let code = AsciiFont::from_char(value).value();
        let data = with_dp(code, dp);
        let reg = digit.register(plane);
        self.write_register(reg, data)
    }
}

} // verus!
