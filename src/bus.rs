use vstd::prelude::*;

verus! {

/// One transaction on a register-addressed bus, as a transport records it.
pub enum BusOp {
    /// A single-byte register write; `acked` says whether the device accepted it.
    WriteRegister { register: u8, value: u8, acked: bool },
    /// A single-byte register read; `byte` is the byte read, or `None` on failure.
    ReadRegister { register: u8, byte: Option<u8> },
    /// A raw write of `bytes`; a one-byte write selects the register that
    /// the next raw read starts from.
    Write { bytes: Seq<u8>, acked: bool },
    /// A raw bulk read of `len` consecutive bytes; `reply` holds them, or is
    /// `None` on failure.
    Read { len: nat, reply: Option<Seq<u8>> },
}

/// A transport that reads and writes the byte registers of one device.
///
/// Each operation appends exactly one record to the transport's history, and
/// reports through its result whether the bus carried it out.
pub trait RegisterBus {
    type Error;

    /// Every transaction issued on this transport so far, oldest first.
    ///
    /// This history exists for proofs only; a verified transport defines it.
    /// The default, an always-empty history, contradicts every `ensures`
    /// below: it only lets transports written outside verified code compile,
    /// and nothing proved over `RegisterBus` holds of a transport that keeps it.
    closed spec fn transactions(&self) -> Seq<BusOp> {
        Seq::empty()
    }

    /// Writes `value` to `register`.
    fn smbus_write_byte_data(&mut self, register: u8, value: u8) -> (r: Result<(), Self::Error>)
        ensures
            final(self).transactions() == old(self).transactions().push(
                BusOp::WriteRegister { register, value, acked: r is Ok },
            ),
    ;

    /// Reads the byte held in `register`.
    fn smbus_read_byte_data(&mut self, register: u8) -> (r: Result<u8, Self::Error>)
        ensures
            final(self).transactions() == old(self).transactions().push(
                BusOp::ReadRegister {
                    register,
                    byte: match r {
                        Ok(v) => Some(v),
                        Err(_) => None,
                    },
                },
            ),
    ;

    /// Sends `data` to the device as one transaction.
    fn write(&mut self, data: &[u8]) -> (r: Result<(), Self::Error>)
        ensures
            final(self).transactions() == old(self).transactions().push(
                BusOp::Write { bytes: data@, acked: r is Ok },
            ),
    ;

    /// Fills `data` from the device in one transaction.
    fn read(&mut self, data: &mut [u8]) -> (r: Result<(), Self::Error>)
        ensures
            final(data)@.len() == old(data)@.len(),
            final(self).transactions() == old(self).transactions().push(
                BusOp::Read {
                    len: old(data)@.len(),
                    reply: if r is Ok {
                        Some(final(data)@)
                    } else {
                        None
                    },
                },
            ),
    ;
}

} // verus!
