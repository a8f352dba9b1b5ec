//! The I2C capability that the driver consumes, and the record of what passed
//! over it.
use vstd::prelude::*;

verus! {

/// A blocking I2C controller with 7-bit addressing.
///
/// An implementation keeps, as its view [`I2cBus::carried`], the history of the
/// transactions it carried, and each call appends exactly the transaction it
/// was asked for, with the bytes handed in, the bytes handed back and the
/// result it returns.
pub trait I2cBus {
    type Error;

    /// Every transaction carried so far, oldest first.
    ///
    /// The default, an empty history, lets an implementation that is compiled
    /// but not verified leave the view out; one that is verified defines it, since
    /// the default cannot meet the contracts below.
    open spec fn carried(&self) -> Seq<Transfer<Self::Error>> {
        Seq::empty()
    }

    /// Writes `write` to the device at `address`, then reads enough bytes to
    /// fill `read`, in one transaction.
    fn write_read(&mut self, address: u8, write: &[u8], read: &mut [u8; 2]) -> (r: Result<(), Self::Error>)
        ensures
            final(self).carried() == old(self).carried().push(
                Transfer::WriteRead { address, out: write@, input: final(read)@, result: r },
            ),
    ;

    /// Writes `write` to the device at `address` in one transaction.
    fn write(&mut self, address: u8, write: &[u8]) -> (r: Result<(), Self::Error>)
        ensures
            final(self).carried() == old(self).carried().push(
                Transfer::Write { address, out: write@, result: r },
            ),
    ;
}

/// One bus transaction.
pub ghost enum Transfer<E> {
    /// `out` written, then `input` read back; `result` is what the bus returned.
    WriteRead { address: u8, out: Seq<u8>, input: Seq<u8>, result: Result<(), E> },
    /// `out` written; `result` is what the bus returned.
    Write { address: u8, out: Seq<u8>, result: Result<(), E> },
}

impl<E> Transfer<E> {
    /// What the bus returned for this transaction.
    pub open spec fn result(self) -> Result<(), E> {
        match self {
            Transfer::WriteRead { result, .. } => result,
            Transfer::Write { result, .. } => result,
        }
    }

    /// Whether the bus reported success for this transaction.
    pub open spec fn ok(self) -> bool {
        self.result() is Ok
    }

    /// The bytes that came back; empty for a plain write.
    pub open spec fn input(self) -> Seq<u8> {
        match self {
            Transfer::WriteRead { input, .. } => input,
            Transfer::Write { .. } => Seq::empty(),
        }
    }

    /// This is a two-byte read of the register pair at `reg` from the device at `address`.
    pub open spec fn is_pair_read(self, address: u8, reg: u8) -> bool {
        match self {
            Transfer::WriteRead { address: a, out, input, .. } => a == address && out == seq![reg]
                && input.len() == 2,
            Transfer::Write { .. } => false,
        }
    }

    /// This is a write of `bytes` to the register pair at `reg` of the device at `address`.
    pub open spec fn is_pair_write(self, address: u8, reg: u8, bytes: Seq<u8>) -> bool {
        match self {
            Transfer::Write { address: a, out, .. } => a == address && out == seq![reg] + bytes,
            Transfer::WriteRead { .. } => false,
        }
    }
}

} // verus!
