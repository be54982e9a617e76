//! The sensor driver: register reads and writes framed on the bus, the two
//! control lines, and the start-up sequence.
use vstd::prelude::*;

use crate::bus::{
    added, address_frame, extends, lemma_added_none, lemma_added_push, lemma_added_split,
    reg_select_event, reg_write_event, write_frame, BusEvent, I2cBus, OutputLine,
};
use crate::format::{Format, Resolution};
use crate::regs::{
    high_byte, low_byte, OV5640_ADDR, OV5640_ID, OV5640_REG_FORMAT_00,
    OV5640_REG_ISP_FORMAT_MUX_CTRL, OV5640_REG_ID,
};
use crate::tables::{baseline_table, initial_settings, resolution_settings, resolution_table};

verus! {

/// Why an operation of the driver failed.
#[derive(Debug)]
pub enum SccbError<E> {
    /// The bus reported this error.
    I2c(E),
    /// The identity register held this value instead of the sensor's identity.
    InvalidId(u8),
    /// A control line could not be driven.
    Gpio,
}

/// What a driver operation returns for a bus result: success, or the bus's
/// own error unchanged.
pub open spec fn lifted<T, E>(b: Result<(), E>, v: T) -> Result<T, SccbError<E>> {
    match b {
        Ok(()) => Ok(v),
        Err(e) => Err(SccbError::I2c(e)),
    }
}

/// `t` is what a write of `val` to register `reg` sends, and `r` what it
/// returns: one bus write, whose result is passed on.
pub open spec fn write_outcome<E>(t: Seq<BusEvent<E>>, reg: u16, val: u8, r: Result<(), SccbError<E>>) -> bool {
    &&& t.len() == 1
    &&& t[0] == reg_write_event(reg, val, t[0].outcome())
    &&& r == lifted(t[0].outcome(), ())
}

/// `t` is what a read of register `reg` sends, and `r` what it returns: a
/// write of the address; if that failed, its error and nothing more; else a
/// read of one byte, and that byte or the read's error.
pub open spec fn read_outcome<E>(t: Seq<BusEvent<E>>, reg: u16, r: Result<u8, SccbError<E>>) -> bool {
    &&& 1 <= t.len() <= 2
    &&& t[0] == reg_select_event(reg, t[0].outcome())
    &&& t.len() == 1 <==> t[0].outcome() is Err
    &&& t.len() == 1 ==> r == lifted(t[0].outcome(), 0u8)
    &&& t.len() == 2 ==> match t[1] {
        BusEvent::Read { address, data, result } => {
            &&& address == OV5640_ADDR
            &&& data.len() == 1
            &&& r == lifted(result, data[0])
        },
        _ => false,
    }
}

/// `t` is what writing the table `w` in order sends, stopping at the first
/// failure, and `r` what it returns: every write but the last succeeded; if
/// the last failed, its error is returned, else all of `w` was written.
pub open spec fn table_outcome<E>(t: Seq<BusEvent<E>>, w: Seq<(u16, u8)>, r: Result<(), SccbError<E>>) -> bool {
    &&& t.len() <= w.len()
    &&& forall|i: int| 0 <= i < t.len() ==> #[trigger] t[i] == reg_write_event(w[i].0, w[i].1, t[i].outcome())
    &&& forall|i: int| 0 <= i < t.len() - 1 ==> (#[trigger] t[i]).outcome() is Ok
    &&& r is Ok ==> t.len() == w.len() && (t.len() > 0 ==> t.last().outcome() is Ok)
    &&& r is Err ==> t.len() > 0 && r == lifted(t.last().outcome(), ())
}

/// The register writes of start-up: the baseline table, the resolution's
/// table, then the format control and format multiplexer registers.
pub open spec fn init_writes(format: Format, res: Resolution) -> Seq<(u16, u8)> {
    baseline_table() + resolution_table(res) + seq![
        (OV5640_REG_FORMAT_00, format.control_byte()),
        (OV5640_REG_ISP_FORMAT_MUX_CTRL, format.mux_byte()),
    ]
}

/// Start-up sent `t` and returned `r`, its identity read being the first `k`
/// operations of `t` and returning `id`.
pub open spec fn init_steps<E>(
    t: Seq<BusEvent<E>>,
    k: int,
    id: Result<u8, SccbError<E>>,
    format: Format,
    res: Resolution,
    r: Result<(), SccbError<E>>,
) -> bool {
    &&& 0 <= k <= t.len()
    &&& read_outcome(t.take(k), OV5640_REG_ID, id)
    &&& match id {
        Err(e) => k == t.len() && r == Err::<(), SccbError<E>>(e),
        Ok(v) => if v != OV5640_ID {
            k == t.len() && r == Err::<(), SccbError<E>>(SccbError::InvalidId(v))
        } else {
            table_outcome(t.skip(k), init_writes(format, res), r)
        },
    }
}

/// `t` is what start-up sends and `r` what it returns: the identity read;
/// on its failure, or a wrong identity, nothing more; else the writes of
/// `init_writes` in order, stopping at the first failure.
pub open spec fn init_outcome<E>(t: Seq<BusEvent<E>>, format: Format, res: Resolution, r: Result<(), SccbError<E>>) -> bool {
    exists|k: int, id: Result<u8, SccbError<E>>| #[trigger] init_steps(t, k, id, format, res, r)
}

/// When start-up sent more than the identity read, that read succeeded and
/// found the sensor's identity, and the rest is the start-up writes in order.
proof fn lemma_identity_passed<E>(t: Seq<BusEvent<E>>, format: Format, res: Resolution, r: Result<(), SccbError<E>>)
    requires
        init_outcome(t, format, res, r),
        t.len() > 2,
    ensures
        table_outcome(t.skip(2), init_writes(format, res), r),
{
    let (k, id) = choose|k: int, id: Result<u8, SccbError<E>>| #[trigger] init_steps(t, k, id, format, res, r);
    assert(t.take(k).len() <= 2);
}

/// A sensor that answers the identity read with a value other than its
/// identity makes start-up fail with that value, and nothing is written.
pub proof fn lemma_init_rejects_identity<E>(
    t: Seq<BusEvent<E>>,
    format: Format,
    res: Resolution,
    r: Result<(), SccbError<E>>,
    v: u8,
)
    requires
        init_outcome(t, format, res, r),
        t.len() >= 2,
        t[0] == reg_select_event::<E>(OV5640_REG_ID, Ok(())),
        t[1] == (BusEvent::<E>::Read { address: OV5640_ADDR, data: seq![v], result: Ok(()) }),
        v != OV5640_ID,
    ensures
        r == Err::<(), SccbError<E>>(SccbError::InvalidId(v)),
        t.len() == 2,
{
    let (k, id) = choose|k: int, id: Result<u8, SccbError<E>>| #[trigger] init_steps(t, k, id, format, res, r);
    assert(t.take(k)[0] == t[0]);
    assert(k == 2);
    assert(t.take(k)[1] == t[1]);
}

/// When the write at position `k` of the start-up writes fails with `e`,
/// start-up returns that error, after exactly the `k` writes before it
/// succeeded, and nothing is sent after it.
pub proof fn lemma_init_stops_at_failed_write<E>(
    t: Seq<BusEvent<E>>,
    format: Format,
    res: Resolution,
    r: Result<(), SccbError<E>>,
    k: int,
    e: E,
)
    requires
        init_outcome(t, format, res, r),
        0 <= k,
        2 + k < t.len(),
        t[2 + k] == reg_write_event(init_writes(format, res)[k].0, init_writes(format, res)[k].1, Err::<(), E>(e)),
    ensures
        r == Err::<(), SccbError<E>>(SccbError::I2c(e)),
        t.len() == k + 3,
        forall|j: int|
            0 <= j < k ==> #[trigger] t[2 + j] == reg_write_event(
                init_writes(format, res)[j].0,
                init_writes(format, res)[j].1,
                t[2 + j].outcome(),
            ) && t[2 + j].outcome() is Ok,
{
    lemma_identity_passed(t, format, res, r);
    let w = init_writes(format, res);
    let rest = t.skip(2);
    assert(rest[k] == t[2 + k]);
    assert(rest[k].outcome() == Err::<(), E>(e));
    assert(k == rest.len() - 1);
    assert forall|j: int| 0 <= j < k implies #[trigger] t[2 + j] == reg_write_event(w[j].0, w[j].1, t[2 + j].outcome())
        && t[2 + j].outcome() is Ok by {
        assert(rest[j] == t[2 + j]);
        assert(rest[j].outcome() is Ok);
    }
}

/// The driver. It owns the bus and the power-down and reset lines.
pub struct Ov5640<I2C, PWDN, RST> {
    i2c: I2C,
    pwdn: PWDN,
    rst: RST,
}

impl<I2C: I2cBus, PWDN: OutputLine, RST: OutputLine> Ov5640<I2C, PWDN, RST> {
    /// The bus the driver owns.
    pub closed spec fn bus(&self) -> I2C {
        self.i2c
    }

    /// The power-down line the driver owns.
    pub closed spec fn power_down_line(&self) -> PWDN {
        self.pwdn
    }

    /// The reset line the driver owns.
    pub closed spec fn reset_line(&self) -> RST {
        self.rst
    }

    /// Takes ownership of the bus and the two lines; nothing is sent.
    pub fn new(i2c: I2C, pwdn: PWDN, rst: RST) -> (r: Self)
        ensures
            r.bus() == i2c,
            r.power_down_line() == pwdn,
            r.reset_line() == rst,
    {
        Ov5640 { i2c, pwdn, rst }
    }

    /// Stores `val` in register `reg`: one bus write of the address, high
    /// byte first, and the value.
    fn write_reg(&mut self, reg: u16, val: u8) -> (r: Result<(), SccbError<I2C::Error>>)
        ensures
            extends(final(self).bus().sent(), old(self).bus().sent()),
            write_outcome(added(final(self).bus().sent(), old(self).bus().sent()), reg, val, r),
            final(self).power_down_line() == old(self).power_down_line(),
            final(self).reset_line() == old(self).reset_line(),
    {
        let ghost start = self.i2c.sent();
        let frame: [u8; 3] = [high_byte(reg), low_byte(reg), val];
        let res = self.i2c.write(OV5640_ADDR, &frame);
        assert(frame@ =~= write_frame(reg, val));
        proof {
            lemma_added_none(start);
            lemma_added_push(start, start, self.i2c.sent().last());
            assert(self.i2c.sent() == start.push(self.i2c.sent().last()));
        }
        match res {
            Ok(()) => Ok(()),
            Err(e) => Err(SccbError::I2c(e)),
        }
    }

    /// Reads register `reg`: a bus write of the address, high byte first,
    /// then, if it succeeded, a bus read of one byte.
    fn read_reg(&mut self, reg: u16) -> (r: Result<u8, SccbError<I2C::Error>>)
        ensures
            extends(final(self).bus().sent(), old(self).bus().sent()),
            read_outcome(added(final(self).bus().sent(), old(self).bus().sent()), reg, r),
            final(self).power_down_line() == old(self).power_down_line(),
            final(self).reset_line() == old(self).reset_line(),
    {
        let ghost start = self.i2c.sent();
        proof {
            lemma_added_none(start);
        }
        let frame: [u8; 2] = [high_byte(reg), low_byte(reg)];
        let res = self.i2c.write(OV5640_ADDR, &frame);
        assert(frame@ =~= address_frame(reg));
        let ghost select = self.i2c.sent().last();
        proof {
            lemma_added_push(start, start, select);
            assert(self.i2c.sent() == start.push(select));
        }
        if let Err(e) = res {
            assert(added(self.i2c.sent(), start) =~= seq![select]);
            return Err(SccbError::I2c(e));
        }
        let ghost mid = self.i2c.sent();
        let mut buf: [u8; 1] = [0];
        let res = self.i2c.read(OV5640_ADDR, &mut buf);
        let ghost fetch = self.i2c.sent().last();
        proof {
            lemma_added_push(start, mid, fetch);
            assert(self.i2c.sent() == mid.push(fetch));
        }
        assert(added(self.i2c.sent(), start) =~= seq![select, fetch]);
        match res {
            Ok(()) => Ok(buf[0]),
            Err(e) => Err(SccbError::I2c(e)),
        }
    }

    /// Writes the entries of `table` in order, stopping at the first failure.
    fn write_table(&mut self, table: &Vec<(u16, u8)>) -> (r: Result<(), SccbError<I2C::Error>>)
        ensures
            extends(final(self).bus().sent(), old(self).bus().sent()),
            table_outcome(added(final(self).bus().sent(), old(self).bus().sent()), table@, r),
            final(self).power_down_line() == old(self).power_down_line(),
            final(self).reset_line() == old(self).reset_line(),
    {
        let ghost start = self.i2c.sent();
        proof {
            lemma_added_none(start);
        }
        let mut i: usize = 0;
        while i < table.len()
            invariant
                i <= table@.len(),
                start == old(self).bus().sent(),
                self.pwdn == old(self).power_down_line(),
                self.rst == old(self).reset_line(),
                extends(self.i2c.sent(), start),
                added(self.i2c.sent(), start).len() == i,
                forall|j: int|
                    0 <= j < i ==> #[trigger] added(self.i2c.sent(), start)[j] == reg_write_event(
                        table@[j].0,
                        table@[j].1,
                        added(self.i2c.sent(), start)[j].outcome(),
                    ) && added(self.i2c.sent(), start)[j].outcome() is Ok,
            decreases table@.len() - i,
        {
            let (reg, val) = table[i];
            let ghost before = self.i2c.sent();
            let res = self.write_reg(reg, val);
            let ghost ev = added(self.i2c.sent(), before)[0];
            proof {
                assert(self.i2c.sent() =~= before.push(ev));
                lemma_added_push(start, before, ev);
                let t = added(self.i2c.sent(), start);
                assert(t[i as int] == ev);
                assert forall|j: int| 0 <= j < i implies #[trigger] t[j] == added(before, start)[j] by {}
            }
            if let Err(e) = res {
                return Err(e);
            }
            i += 1;
        }
        Ok(())
    }

    /// Checks the sensor's identity, then writes the baseline table, the
    /// table of `resolution`, and the two format registers for `format`.
    ///
    /// It stops at the first failure and undoes nothing: the sensor keeps what
    /// the writes before the failure set. The driver keeps no state of its own
    /// across calls, so `init` may be called again; whether the sensor needs a
    /// reset first is the caller's decision.
    pub fn init(&mut self, format: Format, resolution: Resolution) -> (r: Result<(), SccbError<I2C::Error>>)
        ensures
            extends(final(self).bus().sent(), old(self).bus().sent()),
            init_outcome(added(final(self).bus().sent(), old(self).bus().sent()), format, resolution, r),
            final(self).power_down_line() == old(self).power_down_line(),
            final(self).reset_line() == old(self).reset_line(),
    {
        let ghost start = self.i2c.sent();
        let slave_id = self.read_reg(OV5640_REG_ID);
        let ghost mid = self.i2c.sent();
        let ghost id = slave_id;
        let ghost k = mid.len() - start.len();
        proof {
            assert(added(mid, start).take(k) =~= added(mid, start));
        }
        let v = match slave_id {
            Ok(v) => v,
            Err(e) => {
                assert(init_steps(added(mid, start), k, id, format, resolution, Err::<(), SccbError<I2C::Error>>(e)));
                return Err(e);
            },
        };
        if v != OV5640_ID {
            assert(init_steps(
                added(mid, start),
                k,
                id,
                format,
                resolution,
                Err::<(), SccbError<I2C::Error>>(SccbError::InvalidId(v)),
            ));
            return Err(SccbError::InvalidId(v));
        }
        let mut writes = initial_settings();
        let mut rest = resolution_settings(&resolution);
        writes.append(&mut rest);
        writes.push((OV5640_REG_FORMAT_00, format.format_bits()));
        writes.push((OV5640_REG_ISP_FORMAT_MUX_CTRL, format.mux_bits()));
        assert(writes@ =~= init_writes(format, resolution));
        let r = self.write_table(&writes);
        proof {
            lemma_added_split(start, mid, self.i2c.sent());
            assert(init_steps(added(self.i2c.sent(), start), k, id, format, resolution, r));
        }
        r
    }

    /// Drives the reset line high when `on`, low otherwise.
    pub fn set_rst(&mut self, on: bool) -> (r: Result<(), SccbError<I2C::Error>>)
        ensures
            final(self).reset_line().driven() == old(self).reset_line().driven().push((on, r is Ok)),
            r is Err ==> r == Err::<(), SccbError<I2C::Error>>(SccbError::Gpio),
            final(self).bus() == old(self).bus(),
            final(self).power_down_line() == old(self).power_down_line(),
    {
        let res = if on {
            self.rst.set_high()
        } else {
            self.rst.set_low()
        };
        match res {
            Ok(()) => Ok(()),
            Err(_) => Err(SccbError::Gpio),
        }
    }

    /// Drives the power-down line high when `on`, low otherwise.
    pub fn set_pwdn(&mut self, on: bool) -> (r: Result<(), SccbError<I2C::Error>>)
        ensures
            final(self).power_down_line().driven() == old(self).power_down_line().driven().push((on, r is Ok)),
            r is Err ==> r == Err::<(), SccbError<I2C::Error>>(SccbError::Gpio),
            final(self).bus() == old(self).bus(),
            final(self).reset_line() == old(self).reset_line(),
    {
        let res = if on {
            self.pwdn.set_high()
        } else {
            self.pwdn.set_low()
        };
        match res {
            Ok(()) => Ok(()),
            Err(_) => Err(SccbError::Gpio),
        }
    }

    /// Gives the bus and the two lines back to the caller.
    pub fn free(self) -> (r: (I2C, PWDN, RST))
        ensures
            r == (self.bus(), self.power_down_line(), self.reset_line()),
    {
        (self.i2c, self.pwdn, self.rst)
    }
}

} // verus!
