//! Digit positions, data planes, and the (digit, plane) to register
//! resolution table.

use vstd::prelude::*;

use crate::registers::Register;

verus! {

/// Addressable digit positions.
///
/// `D0`-`D7` are usable in all display modes; `D0a`-`D7a` are the auxiliary
/// positions available in 7-segment mode only.
#[derive(Clone, Copy, Debug, PartialEq, Eq, Structural)]
pub enum Digit {
    D0,
    D1,
    D2,
    D3,
    D4,
    D5,
    D6,
    D7,
    D0a,
    D1a,
    D2a,
    D3a,
    D4a,
    D5a,
    D6a,
    D7a,
}

/// Display data planes.
///
/// Each digit has a data register in plane 0 and in plane 1; a write can
/// target either plane alone or both at the same address. When
/// [`crate::Configuration::GlobalBlink`] is enabled, the chip alternates the
/// visible content between plane 0 and plane 1.
#[derive(Clone, Copy, Debug, PartialEq, Eq, Structural)]
pub enum Plane {
    P0,
    P1,
    Both,
}

impl Plane {
    /// First address of this plane's block of digit-data registers.
    pub open spec fn spec_base(self) -> u8 {
        match self {
            Plane::P0 => 0x20,
            Plane::P1 => 0x40,
            Plane::Both => 0x60,
        }
    }
}

/// Offset of a digit within a plane's block of digit-data registers:
/// `D0`-`D7` occupy the first eight addresses, `D0a`-`D7a` the next eight.
pub open spec fn spec_index(d: Digit) -> u8 {
    match d {
        Digit::D0 => 0x0,
        Digit::D1 => 0x1,
        Digit::D2 => 0x2,
        Digit::D3 => 0x3,
        Digit::D4 => 0x4,
        Digit::D5 => 0x5,
        Digit::D6 => 0x6,
        Digit::D7 => 0x7,
        Digit::D0a => 0x8,
        Digit::D1a => 0x9,
        Digit::D2a => 0xA,
        Digit::D3a => 0xB,
        Digit::D4a => 0xC,
        Digit::D5a => 0xD,
        Digit::D6a => 0xE,
        Digit::D7a => 0xF,
    }
}

/// The digit-data register that a write through `plane` to `digit` reaches.
pub open spec fn spec_register(d: Digit, p: Plane) -> Register {
    match (p, d) {
        (Plane::P0, Digit::D0) => Register::D0P0,
        (Plane::P0, Digit::D1) => Register::D1P0,
        (Plane::P0, Digit::D2) => Register::D2P0,
        (Plane::P0, Digit::D3) => Register::D3P0,
        (Plane::P0, Digit::D4) => Register::D4P0,
        (Plane::P0, Digit::D5) => Register::D5P0,
        (Plane::P0, Digit::D6) => Register::D6P0,
        (Plane::P0, Digit::D7) => Register::D7P0,
        (Plane::P0, Digit::D0a) => Register::D0aP0,
        (Plane::P0, Digit::D1a) => Register::D1aP0,
        (Plane::P0, Digit::D2a) => Register::D2aP0,
        (Plane::P0, Digit::D3a) => Register::D3aP0,
        (Plane::P0, Digit::D4a) => Register::D4aP0,
        (Plane::P0, Digit::D5a) => Register::D5aP0,
        (Plane::P0, Digit::D6a) => Register::D6aP0,
        (Plane::P0, Digit::D7a) => Register::D7aP0,
        (Plane::P1, Digit::D0) => Register::D0P1,
        (Plane::P1, Digit::D1) => Register::D1P1,
        (Plane::P1, Digit::D2) => Register::D2P1,
        (Plane::P1, Digit::D3) => Register::D3P1,
        (Plane::P1, Digit::D4) => Register::D4P1,
        (Plane::P1, Digit::D5) => Register::D5P1,
        (Plane::P1, Digit::D6) => Register::D6P1,
        (Plane::P1, Digit::D7) => Register::D7P1,
        (Plane::P1, Digit::D0a) => Register::D0aP1,
        (Plane::P1, Digit::D1a) => Register::D1aP1,
        (Plane::P1, Digit::D2a) => Register::D2aP1,
        (Plane::P1, Digit::D3a) => Register::D3aP1,
        (Plane::P1, Digit::D4a) => Register::D4aP1,
        (Plane::P1, Digit::D5a) => Register::D5aP1,
        (Plane::P1, Digit::D6a) => Register::D6aP1,
        (Plane::P1, Digit::D7a) => Register::D7aP1,
        (Plane::Both, Digit::D0) => Register::D0P0P1,
        (Plane::Both, Digit::D1) => Register::D1P0P1,
        (Plane::Both, Digit::D2) => Register::D2P0P1,
        (Plane::Both, Digit::D3) => Register::D3P0P1,
        (Plane::Both, Digit::D4) => Register::D4P0P1,
        (Plane::Both, Digit::D5) => Register::D5P0P1,
        (Plane::Both, Digit::D6) => Register::D6P0P1,
        (Plane::Both, Digit::D7) => Register::D7P0P1,
        (Plane::Both, Digit::D0a) => Register::D0aP0P1,
        (Plane::Both, Digit::D1a) => Register::D1aP0P1,
        (Plane::Both, Digit::D2a) => Register::D2aP0P1,
        (Plane::Both, Digit::D3a) => Register::D3aP0P1,
        (Plane::Both, Digit::D4a) => Register::D4aP0P1,
        (Plane::Both, Digit::D5a) => Register::D5aP0P1,
        (Plane::Both, Digit::D6a) => Register::D6aP0P1,
        (Plane::Both, Digit::D7a) => Register::D7aP0P1,
    }
}

impl Digit {
    /// The digit-data register holding this digit's content in `plane`.
    pub fn register(&self, plane: Plane) -> (r: Register)
        ensures
            r == spec_register(*self, plane),
    {
        match (plane, self) {
            (Plane::P0, Digit::D0) => Register::D0P0,
            (Plane::P0, Digit::D1) => Register::D1P0,
            (Plane::P0, Digit::D2) => Register::D2P0,
            (Plane::P0, Digit::D3) => Register::D3P0,
            (Plane::P0, Digit::D4) => Register::D4P0,
            (Plane::P0, Digit::D5) => Register::D5P0,
            (Plane::P0, Digit::D6) => Register::D6P0,
            (Plane::P0, Digit::D7) => Register::D7P0,
            (Plane::P0, Digit::D0a) => Register::D0aP0,
            (Plane::P0, Digit::D1a) => Register::D1aP0,
            (Plane::P0, Digit::D2a) => Register::D2aP0,
            (Plane::P0, Digit::D3a) => Register::D3aP0,
            (Plane::P0, Digit::D4a) => Register::D4aP0,
            (Plane::P0, Digit::D5a) => Register::D5aP0,
            (Plane::P0, Digit::D6a) => Register::D6aP0,
            (Plane::P0, Digit::D7a) => Register::D7aP0,
            (Plane::P1, Digit::D0) => Register::D0P1,
            (Plane::P1, Digit::D1) => Register::D1P1,
            (Plane::P1, Digit::D2) => Register::D2P1,
            (Plane::P1, Digit::D3) => Register::D3P1,
            (Plane::P1, Digit::D4) => Register::D4P1,
            (Plane::P1, Digit::D5) => Register::D5P1,
            (Plane::P1, Digit::D6) => Register::D6P1,
            (Plane::P1, Digit::D7) => Register::D7P1,
            (Plane::P1, Digit::D0a) => Register::D0aP1,
            (Plane::P1, Digit::D1a) => Register::D1aP1,
            (Plane::P1, Digit::D2a) => Register::D2aP1,
            (Plane::P1, Digit::D3a) => Register::D3aP1,
            (Plane::P1, Digit::D4a) => Register::D4aP1,
            (Plane::P1, Digit::D5a) => Register::D5aP1,
            (Plane::P1, Digit::D6a) => Register::D6aP1,
            (Plane::P1, Digit::D7a) => Register::D7aP1,
            (Plane::Both, Digit::D0) => Register::D0P0P1,
            (Plane::Both, Digit::D1) => Register::D1P0P1,
            (Plane::Both, Digit::D2) => Register::D2P0P1,
            (Plane::Both, Digit::D3) => Register::D3P0P1,
            (Plane::Both, Digit::D4) => Register::D4P0P1,
            (Plane::Both, Digit::D5) => Register::D5P0P1,
            (Plane::Both, Digit::D6) => Register::D6P0P1,
            (Plane::Both, Digit::D7) => Register::D7P0P1,
            (Plane::Both, Digit::D0a) => Register::D0aP0P1,
            (Plane::Both, Digit::D1a) => Register::D1aP0P1,
            (Plane::Both, Digit::D2a) => Register::D2aP0P1,
            (Plane::Both, Digit::D3a) => Register::D3aP0P1,
            (Plane::Both, Digit::D4a) => Register::D4aP0P1,
            (Plane::Both, Digit::D5a) => Register::D5aP0P1,
            (Plane::Both, Digit::D6a) => Register::D6aP0P1,
            (Plane::Both, Digit::D7a) => Register::D7aP0P1,
        }
    }

    /// Constructs one of the primary digits `D0`-`D7`.
    ///
    /// Indices above 7 yield `None`.
    pub fn new(index: u8) -> (r: Option<Digit>)
        ensures
            r is Some <==> index <= 7,
            r matches Some(d) ==> spec_index(d) == index,
    {
        match index {
            0 => Some(Digit::D0),
            1 => Some(Digit::D1),
            2 => Some(Digit::D2),
            3 => Some(Digit::D3),
            4 => Some(Digit::D4),
            5 => Some(Digit::D5),
            6 => Some(Digit::D6),
            7 => Some(Digit::D7),
            _ => None,
        }
    }

    /// Constructs one of the auxiliary digits `D0a`-`D7a`.
    ///
    /// Indices above 7 yield `None`.
    pub fn new_a(index: u8) -> (r: Option<Digit>)
        ensures
            r is Some <==> index <= 7,
            r matches Some(d) ==> spec_index(d) == index + 8,
    {
        match index {
            0 => Some(Digit::D0a),
            1 => Some(Digit::D1a),
            2 => Some(Digit::D2a),
            3 => Some(Digit::D3a),
            4 => Some(Digit::D4a),
            5 => Some(Digit::D5a),
            6 => Some(Digit::D6a),
            7 => Some(Digit::D7a),
            _ => None,
        }
    }
}

/// The resolution table follows the datasheet's arithmetic layout: each
/// digit-data register's address is its plane's block base plus the digit's
/// offset within the block.
pub proof fn lemma_register_addr(d: Digit, p: Plane)
    ensures
        spec_register(d, p).spec_addr() == p.spec_base() + spec_index(d),
{
}

/// Resolution is injective: no two distinct (digit, plane) pairs share a
/// digit-data register.
pub proof fn lemma_register_injective(d1: Digit, p1: Plane, d2: Digit, p2: Plane)
    requires
        spec_register(d1, p1) == spec_register(d2, p2),
    ensures
        d1 == d2 && p1 == p2,
{
    lemma_register_addr(d1, p1);
    lemma_register_addr(d2, p2);
}

/// Every resolved register is a digit-data register.
pub proof fn lemma_register_is_digit_data(d: Digit, p: Plane)
    ensures
        spec_register(d, p).is_digit_data(),
{
    lemma_register_addr(d, p);
}

/// Resolution covers the digit-data registers: every digit-data register is
/// reached from some (digit, plane) pair.
pub proof fn lemma_register_covers(r: Register)
    requires
        r.is_digit_data(),
    ensures
        exists|d: Digit, p: Plane| spec_register(d, p) == r,
{
    assert(spec_register(Digit::D0, Plane::P0) == Register::D0P0);
    assert(spec_register(Digit::D1, Plane::P0) == Register::D1P0);
    assert(spec_register(Digit::D2, Plane::P0) == Register::D2P0);
    assert(spec_register(Digit::D3, Plane::P0) == Register::D3P0);
    assert(spec_register(Digit::D4, Plane::P0) == Register::D4P0);
    assert(spec_register(Digit::D5, Plane::P0) == Register::D5P0);
    assert(spec_register(Digit::D6, Plane::P0) == Register::D6P0);
    assert(spec_register(Digit::D7, Plane::P0) == Register::D7P0);
    assert(spec_register(Digit::D0a, Plane::P0) == Register::D0aP0);
    assert(spec_register(Digit::D1a, Plane::P0) == Register::D1aP0);
    assert(spec_register(Digit::D2a, Plane::P0) == Register::D2aP0);
    assert(spec_register(Digit::D3a, Plane::P0) == Register::D3aP0);
    assert(spec_register(Digit::D4a, Plane::P0) == Register::D4aP0);
    assert(spec_register(Digit::D5a, Plane::P0) == Register::D5aP0);
    assert(spec_register(Digit::D6a, Plane::P0) == Register::D6aP0);
    assert(spec_register(Digit::D7a, Plane::P0) == Register::D7aP0);
    assert(spec_register(Digit::D0, Plane::P1) == Register::D0P1);
    assert(spec_register(Digit::D1, Plane::P1) == Register::D1P1);
    assert(spec_register(Digit::D2, Plane::P1) == Register::D2P1);
    assert(spec_register(Digit::D3, Plane::P1) == Register::D3P1);
    assert(spec_register(Digit::D4, Plane::P1) == Register::D4P1);
    assert(spec_register(Digit::D5, Plane::P1) == Register::D5P1);
    assert(spec_register(Digit::D6, Plane::P1) == Register::D6P1);
    assert(spec_register(Digit::D7, Plane::P1) == Register::D7P1);
    assert(spec_register(Digit::D0a, Plane::P1) == Register::D0aP1);
    assert(spec_register(Digit::D1a, Plane::P1) == Register::D1aP1);
    assert(spec_register(Digit::D2a, Plane::P1) == Register::D2aP1);
    assert(spec_register(Digit::D3a, Plane::P1) == Register::D3aP1);
    assert(spec_register(Digit::D4a, Plane::P1) == Register::D4aP1);
    assert(spec_register(Digit::D5a, Plane::P1) == Register::D5aP1);
    assert(spec_register(Digit::D6a, Plane::P1) == Register::D6aP1);
    assert(spec_register(Digit::D7a, Plane::P1) == Register::D7aP1);
    assert(spec_register(Digit::D0, Plane::Both) == Register::D0P0P1);
    assert(spec_register(Digit::D1, Plane::Both) == Register::D1P0P1);
    assert(spec_register(Digit::D2, Plane::Both) == Register::D2P0P1);
    assert(spec_register(Digit::D3, Plane::Both) == Register::D3P0P1);
    assert(spec_register(Digit::D4, Plane::Both) == Register::D4P0P1);
    assert(spec_register(Digit::D5, Plane::Both) == Register::D5P0P1);
    assert(spec_register(Digit::D6, Plane::Both) == Register::D6P0P1);
    assert(spec_register(Digit::D7, Plane::Both) == Register::D7P0P1);
    assert(spec_register(Digit::D0a, Plane::Both) == Register::D0aP0P1);
    assert(spec_register(Digit::D1a, Plane::Both) == Register::D1aP0P1);
    assert(spec_register(Digit::D2a, Plane::Both) == Register::D2aP0P1);
    assert(spec_register(Digit::D3a, Plane::Both) == Register::D3aP0P1);
    assert(spec_register(Digit::D4a, Plane::Both) == Register::D4aP0P1);
    assert(spec_register(Digit::D5a, Plane::Both) == Register::D5aP0P1);
    assert(spec_register(Digit::D6a, Plane::Both) == Register::D6aP0P1);
    assert(spec_register(Digit::D7a, Plane::Both) == Register::D7aP0P1);
}

/// The image of resolution is exactly the digit-data register set: together
/// with injectivity, the 48 (digit, plane) pairs map one-to-one onto the 48
/// digit-data registers.
pub proof fn lemma_register_image_is_digit_data()
    ensures
        Set::<Register>::new(|r: Register| exists|d: Digit, p: Plane| spec_register(d, p) == r)
            =~= Set::<Register>::new(|r: Register| r.is_digit_data()),
{
    assert forall|r: Register| (exists|d: Digit, p: Plane|
        spec_register(d, p) == r) implies r.is_digit_data() by {
        let (d, p) = choose|d: Digit, p: Plane| spec_register(d, p) == r;
        lemma_register_is_digit_data(d, p);
    }
    assert forall|r: Register| r.is_digit_data() implies (exists|d: Digit, p: Plane|
        spec_register(d, p) == r) by {
        lemma_register_covers(r);
    }
}

} // verus!
