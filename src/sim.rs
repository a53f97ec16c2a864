use vstd::prelude::*;

use crate::bus::{BusOp, RegisterBus};

verus! {

/// A transaction as the simulated device saw it.
#[derive(Clone, Debug, PartialEq, Eq)]
pub enum SimEvent {
    RegisterWrite(u8, u8),
    RegisterRead(u8),
    Write(Vec<u8>),
    Read(usize),
}

/// The simulated device refused a transaction.
#[derive(Clone, Copy, Debug, PartialEq, Eq, Structural)]
pub struct SimError {
    /// Position of the refused transaction, counting from zero.
    pub index: usize,
}

/// A device with 256 byte registers behind an in-memory transport.
///
/// A one-byte raw write selects a register; further bytes of the same write
/// go to consecutive registers, and a raw read starts at the selected
/// register. Addresses wrap at 256. One chosen transaction can be made to fail.
pub struct SimulatedBus {
    registers: Vec<u8>,
    pointer: u8,
    fail_on: Option<usize>,
    events: Vec<SimEvent>,
    log: Ghost<Seq<BusOp>>,
}

/// A copy of `data`.
fn copy_bytes(data: &[u8]) -> (r: Vec<u8>)
    ensures
        r@ == data@,
{
    let mut r: Vec<u8> = Vec::new();
    let mut i: usize = 0;
    while i < data.len()
        invariant
            i <= data@.len(),
            r@ == data@.take(i as int),
        decreases data@.len() - i,
    {
        r.push(data[i]);
        i = i + 1;
        assert(r@ =~= data@.take(i as int));
    }
    assert(r@ =~= data@);
    r
}

impl SimulatedBus {
    pub closed spec fn wf(&self) -> bool {
        self.registers@.len() == 256
    }

    /// The register that the next raw read starts from.
    pub closed spec fn pointer_spec(&self) -> u8 {
        self.pointer
    }

    /// Every register keeps its value from `other`.
    pub open spec fn same_registers(&self, other: &SimulatedBus) -> bool {
        forall|a: u8| self.register_spec(a) == other.register_spec(a)
    }

    /// The transactions the device has seen, oldest first.
    pub closed spec fn events_spec(&self) -> Seq<SimEvent> {
        self.events@
    }

    /// The position of the transaction that is made to fail, if any.
    pub closed spec fn fail_on_spec(&self) -> Option<usize> {
        self.fail_on
    }

    /// The next transaction is the one made to fail.
    pub open spec fn refuses_spec(&self) -> bool {
        match self.fail_on_spec() {
            Some(i) => i == self.events_spec().len(),
            None => false,
        }
    }

    /// A transaction left the event list, the failure setting and the
    /// history as they were, but for one new entry each.
    pub open spec fn one_more_event(&self, old: &SimulatedBus) -> bool {
        &&& self.events_spec().len() == old.events_spec().len() + 1
        &&& self.events_spec().drop_last() == old.events_spec()
        &&& self.fail_on_spec() == old.fail_on_spec()
    }

    /// The value held in `register`.
    pub closed spec fn register_spec(&self, register: u8) -> u8 {
        self.registers@[register as int]
    }

    /// A device whose registers all hold zero, with an empty history.
    pub fn new() -> (r: SimulatedBus)
        ensures
            r.wf(),
            r.transactions() == Seq::<BusOp>::empty(),
            r.events_spec() == Seq::<SimEvent>::empty(),
            r.fail_on_spec() is None,
            r.pointer_spec() == 0,
            forall|a: u8| r.register_spec(a) == 0,
    {
        SimulatedBus {
            registers: vec![0u8; 256],
            pointer: 0,
            fail_on: None,
            events: Vec::new(),
            log: Ghost(Seq::empty()),
        }
    }

    /// Sets a register directly, as the device itself would; not a transaction.
    pub fn set_register(&mut self, register: u8, value: u8)
        requires
            old(self).wf(),
        ensures
            final(self).wf(),
            final(self).transactions() == old(self).transactions(),
            final(self).events_spec() == old(self).events_spec(),
            final(self).fail_on_spec() == old(self).fail_on_spec(),
            final(self).pointer_spec() == old(self).pointer_spec(),
            forall|a: u8|
                final(self).register_spec(a) == if a == register {
                    value
                } else {
                    old(self).register_spec(a)
                },
    {
        self.registers.set(register as usize, value);
    }

    /// The value held in `register`; not a transaction.
    pub fn register(&self, register: u8) -> (r: u8)
        requires
            self.wf(),
        ensures
            r == self.register_spec(register),
    {
        self.registers[register as usize]
    }

    /// Makes the transaction at position `index` (counting from zero, over
    /// the whole history) fail.
    pub fn fail_on(&mut self, index: usize)
        ensures
            final(self).wf() == old(self).wf(),
            final(self).transactions() == old(self).transactions(),
            final(self).events_spec() == old(self).events_spec(),
            final(self).fail_on_spec() == Some(index),
            final(self).pointer_spec() == old(self).pointer_spec(),
            forall|a: u8| final(self).register_spec(a) == old(self).register_spec(a),
    {
        self.fail_on = Some(index);
    }

    /// The transactions the device has seen, oldest first.
    pub fn events(&self) -> (r: &[SimEvent])
        ensures
            r@ == self.events_spec(),
    {
        self.events.as_slice()
    }

    fn refuses_next(&self) -> (r: bool)
        ensures
            r == self.refuses_spec(),
    {
        match self.fail_on {
            Some(i) => i == self.events.len(),
            None => false,
        }
    }
}

impl RegisterBus for SimulatedBus {
    type Error = SimError;

    closed spec fn transactions(&self) -> Seq<BusOp> {
        self.log@
    }

    /// Sets `register` to `value`, unless this transaction is made to fail.
    fn smbus_write_byte_data(&mut self, register: u8, value: u8) -> (r: Result<(), SimError>)
        ensures
            final(self).wf() == old(self).wf(),
            final(self).pointer_spec() == old(self).pointer_spec(),
            final(self).one_more_event(old(self)),
            final(self).events_spec().last() == SimEvent::RegisterWrite(register, value),
            r is Ok <==> !old(self).refuses_spec(),
            r is Err ==> final(self).same_registers(old(self)),
            r is Ok && old(self).wf() ==> forall|a: u8|
                final(self).register_spec(a) == if a == register {
                    value
                } else {
                    old(self).register_spec(a)
                },
    {
        let index = self.events.len();
        let refused = self.refuses_next();
        self.events.push(SimEvent::RegisterWrite(register, value));
        assert(self.events@.drop_last() =~= old(self).events@);
        if refused {
            self.log = Ghost(self.log@.push(BusOp::WriteRegister { register, value, acked: false }));
            return Err(SimError { index });
        }
        if self.registers.len() == 256 {
            self.registers.set(register as usize, value);
        }
        self.log = Ghost(self.log@.push(BusOp::WriteRegister { register, value, acked: true }));
        Ok(())
    }

    /// Returns the value of `register`, unless this transaction is made to fail.
    fn smbus_read_byte_data(&mut self, register: u8) -> (r: Result<u8, SimError>)
        ensures
            final(self).wf() == old(self).wf(),
            final(self).pointer_spec() == old(self).pointer_spec(),
            final(self).same_registers(old(self)),
            final(self).one_more_event(old(self)),
            final(self).events_spec().last() == SimEvent::RegisterRead(register),
            r is Ok <==> old(self).wf() && !old(self).refuses_spec(),
            r is Ok ==> r->Ok_0 == old(self).register_spec(register),
    {
        let index = self.events.len();
        let refused = self.refuses_next();
        self.events.push(SimEvent::RegisterRead(register));
        assert(self.events@.drop_last() =~= old(self).events@);
        if refused || self.registers.len() != 256 {
            self.log = Ghost(self.log@.push(BusOp::ReadRegister { register, byte: None }));
            return Err(SimError { index });
        }
        let v = self.registers[register as usize];
        self.log = Ghost(self.log@.push(BusOp::ReadRegister { register, byte: Some(v) }));
        Ok(v)
    }

    /// Selects the register `data[0]` and writes the further bytes to the
    /// registers that follow it, unless this transaction is made to fail.
    fn write(&mut self, data: &[u8]) -> (r: Result<(), SimError>)
        ensures
            final(self).wf() == old(self).wf(),
            final(self).one_more_event(old(self)),
            final(self).events_spec().last() is Write,
            r is Ok <==> !old(self).refuses_spec(),
            r is Err || data@.len() == 0 ==> final(self).same_registers(old(self))
                && final(self).pointer_spec() == old(self).pointer_spec(),
            r is Ok && old(self).wf() && data@.len() > 0 ==> final(self).pointer_spec() == data@[0],
            r is Ok && old(self).wf() && data@.len() == 1 ==> final(self).same_registers(old(self)),
            r is Ok && old(self).wf() && data@.len() <= 257 ==> forall|k: int|
                1 <= k < data@.len() ==> final(self).register_spec(
                    ((data@[0] + k - 1) % 256) as u8,
                ) == #[trigger] data@[k],
    {
        let index = self.events.len();
        let refused = self.refuses_next();
        self.events.push(SimEvent::Write(copy_bytes(data)));
        assert(self.events@.drop_last() =~= old(self).events@);
        if refused {
            self.log = Ghost(self.log@.push(BusOp::Write { bytes: data@, acked: false }));
            return Err(SimError { index });
        }
        if data.len() > 0 && self.registers.len() == 256 {
            let ghost log = self.log@;
            let ghost start = self.registers@;
            let ghost ev = self.events@;
            let mut address: u8 = data[0];
            let mut i: usize = 1;
            while i < data.len()
                invariant
                    self.log@ == log,
                    self.events@ == ev,
                    self.fail_on == old(self).fail_on,
                    self.pointer == old(self).pointer,
                    1 <= i <= data@.len(),
                    self.registers@.len() == 256,
                    address as int == (data@[0] + i - 1) % 256,
                    data@.len() == 1 ==> self.registers@ == start,
                    data@.len() <= 257 ==> forall|k: int|
                        1 <= k < i ==> self.registers@[(data@[0] + k - 1) % 256] == #[trigger] data@[k],
                decreases data@.len() - i,
            {
                let ghost prev = self.registers@;
                self.registers.set(address as usize, data[i]);
                assert forall|k: int| 1 <= k < i && data@.len() <= 257 implies (data@[0] + k - 1)
                    % 256 != address as int && prev[(data@[0] + k - 1) % 256] == #[trigger] data@[k] by {
                    assert(0 < i - k < 256);
                }
                address = address.wrapping_add(1);
                i = i + 1;
            }
            self.pointer = data[0];
        }
        self.log = Ghost(self.log@.push(BusOp::Write { bytes: data@, acked: true }));
        Ok(())
    }

    /// Fills `data` from consecutive registers, starting at the selected
    /// one, unless this transaction is made to fail; the selection moves past
    /// the bytes read.
    fn read(&mut self, data: &mut [u8]) -> (r: Result<(), SimError>)
        ensures
            final(self).wf() == old(self).wf(),
            final(self).same_registers(old(self)),
            final(self).one_more_event(old(self)),
            final(self).events_spec().last() == SimEvent::Read(old(data)@.len() as usize),
            r is Ok <==> old(self).wf() && !old(self).refuses_spec(),
            r is Ok ==> forall|i: int|
                0 <= i < old(data)@.len() ==> final(data)@[i] == old(self).register_spec(
                    ((old(self).pointer_spec() + i) % 256) as u8,
                ),
    {
        let index = self.events.len();
        let refused = self.refuses_next();
        self.events.push(SimEvent::Read(data.len()));
        assert(self.events@.drop_last() =~= old(self).events@);
        if refused || self.registers.len() != 256 {
            self.log = Ghost(self.log@.push(BusOp::Read { len: data@.len(), reply: None }));
            return Err(SimError { index });
        }
        let ghost len = data@.len();
        let ghost log = self.log@;
        let ghost ev = self.events@;
        let mut address: u8 = self.pointer;
        let mut i: usize = 0;
        while i < data.len()
            invariant
                self.log@ == log,
                self.events@ == ev,
                self.fail_on == old(self).fail_on,
                self.registers@ == old(self).registers@,
                self.pointer == old(self).pointer,
                data@.len() == len,
                self.registers@.len() == 256,
                i <= len,
                address as int == (self.pointer + i) % 256,
                forall|j: int| 0 <= j < i ==> data@[j] == self.registers@[(self.pointer + j) % 256],
            decreases data@.len() - i,
        {
            data[i] = self.registers[address as usize];
            address = address.wrapping_add(1);
            i = i + 1;
        }
        self.pointer = address;
        self.log = Ghost(self.log@.push(BusOp::Read { len: data@.len(), reply: Some(data@) }));
        Ok(())
    }
}

} // verus!
