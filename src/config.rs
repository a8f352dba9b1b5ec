//! Register map of the XL9555 and the pin masks.
use vstd::prelude::*;

verus! {

/// Base of the 7-bit device address; the A2, A1, A0 inputs fill its low three bits.
pub const XL9555_BASE_ADDR: u8 = 0x20;

/// Input Port Register 0.
pub const XL9555_INPUT_PORT0_REG: u8 = 0;
/// Input Port Register 1.
pub const XL9555_INPUT_PORT1_REG: u8 = 1;
/// Output Port Register 0.
pub const XL9555_OUTPUT_PORT0_REG: u8 = 2;
/// Output Port Register 1.
pub const XL9555_OUTPUT_PORT1_REG: u8 = 3;
/// Polarity Inversion Port Register 0.
pub const XL9555_INVERSION_PORT0_REG: u8 = 4;
/// Polarity Inversion Port Register 1.
pub const XL9555_INVERSION_PORT1_REG: u8 = 5;
/// Configuration Port Register 0.
pub const XL9555_CONFIG_PORT0_REG: u8 = 6;
/// Configuration Port Register 1.
pub const XL9555_CONFIG_PORT1_REG: u8 = 7;

/// Pin 0 of port 0.
pub const P00: u16 = 0x0001;
/// Pin 1 of port 0.
pub const P01: u16 = 0x0002;
/// Pin 2 of port 0.
pub const P02: u16 = 0x0004;
/// Pin 3 of port 0.
pub const P03: u16 = 0x0008;
/// Pin 4 of port 0.
pub const P04: u16 = 0x0010;
/// Pin 5 of port 0.
pub const P05: u16 = 0x0020;
/// Pin 6 of port 0.
pub const P06: u16 = 0x0040;
/// Pin 7 of port 0.
pub const P07: u16 = 0x0080;
/// Pin 0 of port 1.
pub const P10: u16 = 0x0100;
/// Pin 1 of port 1.
pub const P11: u16 = 0x0200;
/// Pin 2 of port 1.
pub const P12: u16 = 0x0400;
/// Pin 3 of port 1.
pub const P13: u16 = 0x0800;
/// Pin 4 of port 1.
pub const P14: u16 = 0x1000;
/// Pin 5 of port 1.
pub const P15: u16 = 0x2000;
/// Pin 6 of port 1.
pub const P16: u16 = 0x4000;
/// Pin 7 of port 1.
pub const P17: u16 = 0x8000;

/// A mask of expander pins: bit `i` is pin `i` of port 0, bit `8 + i` pin `i` of
/// port 1. Masks combine with [`Pin::union`] or `|`.
#[derive(Clone, Copy, Debug, PartialEq, Eq, Structural)]
pub struct Pin {
    pub bits: u16,
}

impl Pin {
    /// The raw mask.
    pub open spec fn view(self) -> u16 {
        self.bits
    }

    /// The mask with exactly the bits of `bits`, named pins or not.
    pub fn from_bits_retain(bits: u16) -> (r: Pin)
        ensures
            r@ == bits,
    {
        Pin { bits }
    }

    /// The raw mask.
    pub fn bits(self) -> (r: u16)
        ensures
            r == self@,
    {
        self.bits
    }

    /// The pins of both masks.
    pub fn union(self, other: Pin) -> (r: Pin)
        ensures
            r@ == self@ | other@,
    {
        Pin { bits: self.bits | other.bits }
    }
}

impl core::ops::BitOr for Pin {
    type Output = Pin;

    fn bitor(self, other: Pin) -> (r: Pin)
        ensures
            r@ == self@ | other@,
    {
        self.union(other)
    }
}

impl vstd::std_specs::ops::BitOrSpecImpl for Pin {
    open spec fn obeys_bitor_spec() -> bool {
        true
    }

    open spec fn bitor_req(self, other: Pin) -> bool {
        true
    }

    open spec fn bitor_spec(self, other: Pin) -> Pin {
        Pin { bits: self.bits | other.bits }
    }
}

/// `m` has exactly one bit set.
pub open spec fn is_single_bit(m: u16) -> bool {
    m != 0 && m & ((m - 1) as u16) == 0
}

/// The sixteen named pins.
pub open spec fn is_named_pin(m: u16) -> bool {
    m == P00 || m == P01 || m == P02 || m == P03 || m == P04 || m == P05 || m == P06 || m == P07 || m == P10 || m == P11 || m == P12 || m == P13 || m == P14 || m == P15 || m == P16 || m == P17
}

proof fn lemma_named_pin_masks(m: u16, n: u16)
    by (bit_vector)
    requires
        m == P00 || m == P01 || m == P02 || m == P03 || m == P04 || m == P05 || m == P06 || m == P07 || m == P10 || m == P11 || m == P12 || m == P13 || m == P14 || m == P15 || m == P16 || m == P17,
        n == P00 || n == P01 || n == P02 || n == P03 || n == P04 || n == P05 || n == P06 || n == P07 || n == P10 || n == P11 || n == P12 || n == P13 || n == P14 || n == P15 || n == P16 || n == P17,
    ensures
        m != 0 && m & ((m - 1) as u16) == 0,
        m != n ==> m & n == 0,
{
}

proof fn lemma_named_pins_cover()
    by (bit_vector)
    ensures
        P00 | P01 | P02 | P03 | P04 | P05 | P06 | P07 | P10 | P11 | P12 | P13 | P14 | P15 | P16 | P17 == 0xffffu16,
{
}

/// Each named pin is a single bit, two different named pins share no bit, and
/// together they cover all sixteen bits.
pub proof fn lemma_pin_bits(m: u16, n: u16)
    requires
        is_named_pin(m),
        is_named_pin(n),
    ensures
        is_single_bit(m),
        m != n ==> m & n == 0,
        P00 | P01 | P02 | P03 | P04 | P05 | P06 | P07 | P10 | P11 | P12 | P13 | P14 | P15 | P16 | P17 == 0xffffu16,
{
    lemma_named_pin_masks(m, n);
    lemma_named_pins_cover();
}

} // verus!
