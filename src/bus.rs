//! What the driver needs from its surroundings: a two-wire bus that writes
//! and reads bytes at a seven-bit address, and digital output lines. Each
//! exposes, as a model, the operations it has been sent and how each ended.
use vstd::prelude::*;

use crate::regs::{hi, lo, OV5640_ADDR};

verus! {

/// One operation a bus was sent, with what it returned.
pub enum BusEvent<E> {
    /// A write of `bytes` to `address`.
    Write { address: u8, bytes: Seq<u8>, result: Result<(), E> },
    /// A read from `address` that left `data` in the buffer.
    Read { address: u8, data: Seq<u8>, result: Result<(), E> },
}

impl<E> BusEvent<E> {
    /// What the bus returned for this operation.
    pub open spec fn outcome(self) -> Result<(), E> {
        match self {
            BusEvent::Write { result, .. } => result,
            BusEvent::Read { result, .. } => result,
        }
    }
}

/// The operations a bus has been sent, oldest first.
pub type SentLog<E> = Seq<BusEvent<E>>;

/// The levels a line has been driven to, oldest first, each with whether
/// driving it succeeded.
pub type DrivenLog = Seq<(bool, bool)>;

/// A two-wire control bus, as the host's bus driver provides it.
pub trait I2cBus {
    type Error;

    /// The operations this bus has been sent, oldest first.
    spec fn sent(&self) -> SentLog<Self::Error>;

    /// Writes `bytes` to the device at `address` in one transaction.
    fn write(&mut self, address: u8, bytes: &[u8]) -> (r: Result<(), Self::Error>)
        ensures
            final(self).sent() == old(self).sent().push(
                BusEvent::Write { address, bytes: bytes@, result: r },
            ),
    ;

    /// Reads `buffer.len()` bytes from the device at `address` into `buffer`.
    fn read(&mut self, address: u8, buffer: &mut [u8]) -> (r: Result<(), Self::Error>)
        ensures
            final(buffer)@.len() == old(buffer)@.len(),
            final(self).sent() == old(self).sent().push(
                BusEvent::Read { address, data: final(buffer)@, result: r },
            ),
    ;
}

/// A digital output line.
pub trait OutputLine {
    type Error;

    /// The levels this line has been driven to, oldest first, each with
    /// whether driving it succeeded.
    spec fn driven(&self) -> DrivenLog;

    fn set_low(&mut self) -> (r: Result<(), Self::Error>)
        ensures
            final(self).driven() == old(self).driven().push((false, r is Ok)),
    ;

    fn set_high(&mut self) -> (r: Result<(), Self::Error>)
        ensures
            final(self).driven() == old(self).driven().push((true, r is Ok)),
    ;
}

/// The register address as sent on the bus, high byte first.
pub open spec fn address_frame(reg: u16) -> Seq<u8> {
    seq![hi(reg), lo(reg)]
}

/// The bytes of a register write: the address, high byte first, then the value.
pub open spec fn write_frame(reg: u16, val: u8) -> Seq<u8> {
    seq![hi(reg), lo(reg), val]
}

/// The bus write that stores `val` in register `reg`, ending with `result`.
pub open spec fn reg_write_event<E>(reg: u16, val: u8, result: Result<(), E>) -> BusEvent<E> {
    BusEvent::Write { address: OV5640_ADDR, bytes: write_frame(reg, val), result }
}

/// The bus write that points the sensor at register `reg` before a read.
pub open spec fn reg_select_event<E>(reg: u16, result: Result<(), E>) -> BusEvent<E> {
    BusEvent::Write { address: OV5640_ADDR, bytes: address_frame(reg), result }
}

/// `new` is `old` with more events after it.
pub open spec fn extends<T>(new: Seq<T>, old: Seq<T>) -> bool {
    old.len() <= new.len() && new.take(old.len() as int) == old
}

/// The events that `new` holds after those of `old`.
pub open spec fn added<T>(new: Seq<T>, old: Seq<T>) -> Seq<T> {
    new.skip(old.len() as int)
}

/// A record extends itself, with nothing added.
pub proof fn lemma_added_none<T>(s: Seq<T>)
    ensures
        extends(s, s),
        added(s, s) == Seq::<T>::empty(),
{
    assert(s.take(s.len() as int) =~= s);
    assert(added(s, s) =~= Seq::<T>::empty());
}

/// Appending one event to a record that extends `base` adds it to what was added.
pub proof fn lemma_added_push<T>(base: Seq<T>, s: Seq<T>, ev: T)
    requires
        extends(s, base),
    ensures
        extends(s.push(ev), base),
        added(s.push(ev), base) == added(s, base).push(ev),
{
    assert(s.push(ev).take(base.len() as int) =~= base);
    assert(added(s.push(ev), base) =~= added(s, base).push(ev));
}

/// What was added over two steps splits at the record between them.
pub proof fn lemma_added_split<T>(base: Seq<T>, mid: Seq<T>, last: Seq<T>)
    requires
        extends(mid, base),
        extends(last, mid),
    ensures
        extends(last, base),
        added(last, base).take(mid.len() - base.len()) == added(mid, base),
        added(last, base).skip(mid.len() - base.len()) == added(last, mid),
{
    assert(last.take(base.len() as int) =~= base) by {
        assert forall|i: int| 0 <= i < base.len() implies last[i] == base[i] by {
            assert(last.take(mid.len() as int)[i] == mid[i]);
            assert(mid.take(base.len() as int)[i] == base[i]);
        }
    }
    assert(added(last, base).take(mid.len() - base.len()) =~= added(mid, base)) by {
        assert forall|i: int| 0 <= i < mid.len() - base.len() implies #[trigger] last[base.len() + i] == mid[base.len() + i] by {
            assert(last.take(mid.len() as int)[base.len() + i] == mid[base.len() + i]);
        }
    }
    assert(added(last, base).skip(mid.len() - base.len()) =~= added(last, mid));
}

} // verus!
