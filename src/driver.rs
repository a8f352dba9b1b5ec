//! The XL9555 driver: raw register-pair access and the pin operations built on it.
use crate::bus::{I2cBus, Transfer};
use crate::config::{
    is_single_bit, Pin, XL9555_BASE_ADDR, XL9555_CONFIG_PORT0_REG, XL9555_INPUT_PORT0_REG,
    XL9555_OUTPUT_PORT0_REG,
};
use vstd::prelude::*;

verus! {

/// The 7-bit device address selected by the A2, A1, A0 inputs.
pub open spec fn device_address(a1: bool, a2: bool, a0: bool) -> u8 {
    (XL9555_BASE_ADDR + (if a2 { 4int } else { 0 }) + (if a1 { 2int } else { 0 }) + (if a0 {
        1int
    } else {
        0
    })) as u8
}

/// Index of the port byte that a pin mask addresses: masks up to `0x0080` address
/// port 0, all larger masks port 1.
pub open spec fn port_of(mask: u16) -> int {
    if mask <= 0x0080 {
        0
    } else {
        1
    }
}

/// The bits of the addressed port byte that a pin mask selects.
pub open spec fn port_bits(mask: u16) -> u8 {
    if mask <= 0x0080 {
        mask as u8
    } else {
        (mask >> 8u16) as u8
    }
}

/// A port byte with the bits of `bits` set (`value`) or cleared, the others kept.
pub open spec fn drive_bits(byte: u8, bits: u8, value: bool) -> u8 {
    if value {
        byte | bits
    } else {
        byte & !bits
    }
}

/// A register pair after the pins of `mask` are driven to `value`.
pub open spec fn with_pins(regs: Seq<u8>, mask: u16, value: bool) -> Seq<u8> {
    regs.update(port_of(mask), drive_bits(regs[port_of(mask)], port_bits(mask), value))
}

/// Whether any pin of `mask` is high in a register pair.
pub open spec fn pins_level(regs: Seq<u8>, mask: u16) -> bool {
    regs[port_of(mask)] & port_bits(mask) != 0
}

/// The 16 pin levels of a register pair: port 1 in the high byte, port 0 in the low one.
pub open spec fn pair_value(regs: Seq<u8>) -> u16 {
    ((regs[1] as u16) << 8u16) | (regs[0] as u16)
}

/// Index of the port byte that a pin mask addresses.
pub fn port_index(mask: u16) -> (r: usize)
    ensures
        r == port_of(mask),
{
    if mask <= 0x0080 {
        0
    } else {
        1
    }
}

/// The bits of the addressed port byte that a pin mask selects.
pub fn port_mask(mask: u16) -> (r: u8)
    ensures
        r == port_bits(mask),
{
    if mask <= 0x0080 {
        mask as u8
    } else {
        (mask >> 8) as u8
    }
}

/// Drives the pins of `mask` to `value` in a register pair, keeping every other bit.
pub fn write_pins(regs: [u8; 2], mask: u16, value: bool) -> (r: [u8; 2])
    ensures
        r@ == with_pins(regs@, mask, value),
{
    let mut out = regs;
    let i = port_index(mask);
    let bits = port_mask(mask);
    if value {
        out[i] = out[i] | bits;
    } else {
        out[i] = out[i] & !bits;
    }
    assert(out@ =~= with_pins(regs@, mask, value));
    out
}

/// Whether any pin of `mask` is high in a register pair.
pub fn read_pins(regs: [u8; 2], mask: u16) -> (r: bool)
    ensures
        r == pins_level(regs@, mask),
{
    regs[port_index(mask)] & port_mask(mask) != 0
}

/// The 16 pin levels of a register pair as one value.
pub fn combine_ports(regs: [u8; 2]) -> (r: u16)
    ensures
        r == pair_value(regs@),
{
    ((regs[1] as u16) << 8) | (regs[0] as u16)
}

/// A one-bit mask selects a nonzero bit of the byte it addresses.
proof fn lemma_single_bit_port(m: u16)
    by (bit_vector)
    requires
        is_single_bit(m),
    ensures
        (if m <= 0x0080 { m as u8 } else { (m >> 8u16) as u8 }) != 0,
{
}

/// Setting or clearing nonzero `bits` of a byte.
proof fn lemma_drive_byte(b: u8, bits: u8)
    by (bit_vector)
    requires
        bits != 0,
    ensures
        (b | bits) & bits != 0,
        (b & !bits) & bits == 0,
        (b | bits) & !bits == b & !bits,
        (b & !bits) & !bits == b & !bits,
{
}

/// Read-modify-write of one pin: after a one-pin mask is driven to `value` in a
/// register pair, the pin reads back as `value`, the other bits of its byte are
/// unchanged, and so is the other byte.
pub proof fn lemma_write_then_read(regs: Seq<u8>, mask: u16, value: bool)
    requires
        regs.len() == 2,
        is_single_bit(mask),
    ensures
        pins_level(with_pins(regs, mask, value), mask) == value,
        with_pins(regs, mask, value)[port_of(mask)] & !port_bits(mask) == regs[port_of(mask)]
            & !port_bits(mask),
        with_pins(regs, mask, value)[1 - port_of(mask)] == regs[1 - port_of(mask)],
        with_pins(regs, mask, value).len() == 2,
{
    lemma_single_bit_port(mask);
    lemma_drive_byte(regs[port_of(mask)], port_bits(mask));
}

/// The value read from a register pair is `(in1 << 8) | in0`, and it determines
/// both bytes: it is `v` exactly when the pair holds `v`'s low and high byte.
pub proof fn lemma_pair_value(in0: u8, in1: u8, v: u16)
    ensures
        pair_value(seq![in0, in1]) == (in1 as int) * 256 + (in0 as int),
        pair_value(seq![in0, in1]) == v <==> (in0 == v as u8 && in1 == (v >> 8u16) as u8),
{
    let r = pair_value(seq![in0, in1]);
    assert(r == ((in1 as u16) << 8u16) | (in0 as u16));
    assert(((in1 as u16) << 8u16) | (in0 as u16) == (in1 as int) * 256 + (in0 as int)) by (bit_vector);
    assert((((in1 as u16) << 8u16) | (in0 as u16) == v) <==> (in0 == v as u8 && in1 == (v >> 8u16) as u8))
        by (bit_vector);
}

/// An XL9555 on an I2C bus, owning the bus handle.
pub struct XL9555<B> {
    i2c: B,
    dev_addr: u8,
}

impl<B: I2cBus> XL9555<B> {
    /// The device's 7-bit address.
    pub closed spec fn address(&self) -> u8 {
        self.dev_addr
    }

    /// Every transaction the owned bus has carried, oldest first.
    pub closed spec fn transfers(&self) -> Seq<Transfer<B::Error>> {
        self.i2c.carried()
    }

    /// `after` is `before` and one two-byte read of the pair at `reg` on this device.
    pub open spec fn read_logged(
        &self,
        before: Seq<Transfer<B::Error>>,
        after: Seq<Transfer<B::Error>>,
        reg: u8,
    ) -> bool {
        &&& after.len() == before.len() + 1
        &&& after.drop_last() == before
        &&& after.last().is_pair_read(self.address(), reg)
    }

    /// `after` is `before` and the transactions of a read-modify-write that drives
    /// the pins of `mask` to `value`: a read of the output pair and, only when that
    /// read succeeded, one write of the updated pair.
    pub open spec fn set_logged(
        &self,
        before: Seq<Transfer<B::Error>>,
        after: Seq<Transfer<B::Error>>,
        mask: u16,
        value: bool,
    ) -> bool {
        let read = after[before.len() as int];
        &&& after.len() > before.len()
        &&& after.subrange(0, before.len() as int) == before
        &&& read.is_pair_read(self.address(), XL9555_OUTPUT_PORT0_REG)
        &&& if read.ok() {
            &&& after.len() == before.len() + 2
            &&& after.last().is_pair_write(
                self.address(),
                XL9555_OUTPUT_PORT0_REG,
                with_pins(read.input(), mask, value),
            )
        } else {
            after.len() == before.len() + 1
        }
    }

    /// Creates the driver for the device selected by the address inputs and checks
    /// that it answers with one read of the input port pair. The bus's error, if
    /// that read fails, is returned as it came.
    pub fn init(i2c: B, pins: (bool, bool, bool)) -> (r: Result<Self, B::Error>)
        ensures
            r matches Ok(d) ==> {
                &&& d.address() == device_address(pins.0, pins.1, pins.2)
                &&& d.read_logged(i2c.carried(), d.transfers(), XL9555_INPUT_PORT0_REG)
                &&& d.transfers().last().ok()
            },
    {
        let (a1, a2, a0) = pins;
        let a2_bit: u8 = if a2 { 4 } else { 0 };
        let a1_bit: u8 = if a1 { 2 } else { 0 };
        let a0_bit: u8 = if a0 { 1 } else { 0 };
        let mut xl9555 = XL9555 { i2c, dev_addr: XL9555_BASE_ADDR + a2_bit + a1_bit + a0_bit };
        let ghost before = xl9555.transfers();
        let mut buffer = [0u8; 2];
        let res = xl9555.read_byte(XL9555_INPUT_PORT0_REG, &mut buffer);
        match res {
            Ok(()) => {
                assert(xl9555.transfers().drop_last() =~= before);
                Ok(xl9555)
            },
            Err(e) => Err(e),
        }
    }

    /// Reads the register pair that starts at `reg` into `buffer`.
    fn read_byte(&mut self, reg_addr: u8, buffer: &mut [u8; 2]) -> (r: Result<(), B::Error>)
        ensures
            final(self).address() == old(self).address(),
            final(self).transfers() == old(self).transfers().push(
                Transfer::WriteRead {
                    address: old(self).address(),
                    out: seq![reg_addr],
                    input: final(buffer)@,
                    result: r,
                },
            ),
    {
        let write_buffer = [reg_addr];
        assert(write_buffer@ =~= seq![reg_addr]);
        self.i2c.write_read(self.dev_addr, &write_buffer, buffer)
    }

    /// Writes `buffer` to the register pair that starts at `reg`.
    fn write_byte(&mut self, reg_addr: u8, buffer: &[u8; 2]) -> (r: Result<(), B::Error>)
        ensures
            final(self).address() == old(self).address(),
            final(self).transfers() == old(self).transfers().push(
                Transfer::Write {
                    address: old(self).address(),
                    out: seq![reg_addr, buffer[0], buffer[1]],
                    result: r,
                },
            ),
    {
        let write_buffer = [reg_addr, buffer[0], buffer[1]];
        self.i2c.write(self.dev_addr, &write_buffer)
    }

    /// Sets the direction of all sixteen pins at once: a `1` bit makes its pin an
    /// input, a `0` bit an output. One write of the configuration pair, no read;
    /// the result is the bus's.
    pub fn xl9555_ioconfig(&mut self, value: u16) -> (r: Result<(), B::Error>)
        ensures
            final(self).address() == old(self).address(),
            final(self).transfers() == old(self).transfers().push(
                Transfer::Write {
                    address: old(self).address(),
                    out: seq![XL9555_CONFIG_PORT0_REG, (value & 0xff) as u8, (value >> 8u16) as u8],
                    result: r,
                },
            ),
    {
        let buffer: [u8; 2] = [value as u8, (value >> 8) as u8];
        assert((value & 0xff) as u8 == value as u8) by (bit_vector);
        self.write_byte(XL9555_CONFIG_PORT0_REG, &buffer)
    }

    /// Drives the pins of `pin` to `value` by read-modify-write of the output port
    /// pair: the pair is read, the pins' bits set or cleared, and the pair written
    /// back. When the read fails nothing is written. The result is the bus's
    /// result for the last transaction.
    pub fn set_value(&mut self, pin: Pin, value: bool) -> (r: Result<(), B::Error>)
        ensures
            final(self).address() == old(self).address(),
            old(self).set_logged(old(self).transfers(), final(self).transfers(), pin@, value),
            r == final(self).transfers().last().result(),
    {
        let mask = pin.bits();
        let mut buffer = [0u8; 2];
        let ghost before = self.transfers();
        match self.read_byte(XL9555_OUTPUT_PORT0_REG, &mut buffer) {
            Ok(()) => {},
            Err(e) => {
                assert(self.transfers().subrange(0, before.len() as int) =~= before);
                return Err(e);
            },
        }
        let ghost read_log = self.transfers();
        let updated = write_pins(buffer, mask, value);
        let r = self.write_byte(XL9555_OUTPUT_PORT0_REG, &updated);
        assert(self.transfers().subrange(0, before.len() as int) =~= before);
        assert(self.transfers()[before.len() as int] == read_log[before.len() as int]);
        assert(seq![XL9555_OUTPUT_PORT0_REG, updated[0], updated[1]] =~= seq![XL9555_OUTPUT_PORT0_REG] + updated@);
        r
    }

    /// Reads the level of the pins of `pin` from the input port pair: whether any
    /// of them is high. A bus error is returned as it came.
    pub fn read_value(&mut self, pin: Pin) -> (r: Result<bool, B::Error>)
        ensures
            final(self).address() == old(self).address(),
            old(self).read_logged(old(self).transfers(), final(self).transfers(), XL9555_INPUT_PORT0_REG),
            match r {
                Ok(level) => final(self).transfers().last().ok() && level == pins_level(
                    final(self).transfers().last().input(),
                    pin@,
                ),
                Err(e) => final(self).transfers().last().result() == Err::<(), B::Error>(e),
            },
    {
        let mut buffer = [0u8; 2];
        let ghost before = self.transfers();
        let r = self.read_byte(XL9555_INPUT_PORT0_REG, &mut buffer);
        assert(self.transfers().drop_last() =~= before);
        match r {
            Ok(()) => Ok(read_pins(buffer, pin.bits())),
            Err(e) => Err(e),
        }
    }

    /// Reads the levels of all sixteen pins: port 1 in the high byte, port 0 in the
    /// low one. A bus error is returned as it came.
    pub fn read_all_value(&mut self) -> (r: Result<u16, B::Error>)
        ensures
            final(self).address() == old(self).address(),
            old(self).read_logged(old(self).transfers(), final(self).transfers(), XL9555_INPUT_PORT0_REG),
            match r {
                Ok(v) => final(self).transfers().last().ok() && v == pair_value(
                    final(self).transfers().last().input(),
                ),
                Err(e) => final(self).transfers().last().result() == Err::<(), B::Error>(e),
            },
    {
        let mut buffer = [0u8; 2];
        let ghost before = self.transfers();
        let r = self.read_byte(XL9555_INPUT_PORT0_REG, &mut buffer);
        assert(self.transfers().drop_last() =~= before);
        match r {
            Ok(()) => Ok(combine_ports(buffer)),
            Err(e) => Err(e),
        }
    }
}

} // verus!
