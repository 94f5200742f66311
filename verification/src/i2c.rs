//! The bus handle: the timings it carries, the register program that brings
//! the peripheral up, and the transactions it offers.

use crate::config::{Config, Pull};
use crate::error::Error;
use crate::plan::{read_bytes, read_plan, write_bytes, write_plan, write_read_plan, Condition, Step};
use crate::timings::{clock_supported, Duty, Mode, Timings};
use crate::transfer::{Action, Machine, Transfer};
use vstd::prelude::*;

verus! {

/// One step of setting the peripheral up.
#[derive(Clone, Copy, Debug, PartialEq, Eq, Structural)]
pub enum Setup {
    /// Switch on the clock of the peripheral.
    EnableClock,
    /// Reset the peripheral.
    Reset,
    /// Make the clock line pin an open-drain alternate function output with
    /// this pull.
    SclPin(Pull),
    /// Make the data line pin an open-drain alternate function output with
    /// this pull.
    SdaPin(Pull),
    /// Write the peripheral enable bit of the control register.
    Enable(bool),
    /// Write the input clock, in megahertz, to the frequency field.
    Frequency(u8),
    /// Write speed selection, duty cycle and divisor to the clock control
    /// register.
    ClockControl { f_s: bool, duty: bool, ccr: u32 },
    /// Write the rise time register.
    RiseTime(u8),
}

impl Setup {
    /// Whether the step writes one of the three registers that set the bus
    /// clock.
    pub open spec fn sets_clock(self) -> bool {
        self is Frequency || self is ClockControl || self is RiseTime
    }
}

/// The writes that put timings into the three clock registers.
pub open spec fn clock_writes(timings: Timings) -> Seq<Setup> {
    seq![
        Setup::Frequency(timings.freq),
        Setup::ClockControl {
            f_s: timings.mode == Mode::Fast,
            duty: timings.duty == Duty::Duty16_9,
            ccr: timings.ccr,
        },
        Setup::RiseTime(timings.trise),
    ]
}

/// What making a handle does to the hardware: clock on, reset, both pins
/// configured, then the timings written with the peripheral disabled, and
/// the peripheral enabled last.
pub open spec fn bring_up(config: Config, timings: Timings) -> Seq<Setup> {
    seq![
        Setup::EnableClock,
        Setup::Reset,
        Setup::SclPin(
            if config.scl_pullup {
                Pull::Up
            } else {
                Pull::Floating
            },
        ),
        Setup::SdaPin(
            if config.sda_pullup {
                Pull::Up
            } else {
                Pull::Floating
            },
        ),
        Setup::Enable(false),
    ] + clock_writes(timings) + seq![Setup::Enable(true)]
}

/// The handle as a mathematical value.
pub struct I2cView {
    pub config: Config,
    pub timings: Timings,
}

impl I2cView {
    /// The write that the handle starts.
    pub open spec fn write(self, addr: u8, bytes: Seq<u8>) -> Machine {
        Machine::start(write_plan(addr, bytes))
    }

    /// The read that the handle starts.
    pub open spec fn read(self, addr: u8, len: nat) -> Machine {
        Machine::start(read_plan(addr, len))
    }

    /// The write followed by a read that the handle starts.
    pub open spec fn write_read(self, addr: u8, bytes: Seq<u8>, len: nat) -> Machine {
        Machine::start(write_read_plan(addr, bytes, len))
    }
}

/// A master on the bus. It carries the timings that were last programmed.
pub struct I2c {
    config: Config,
    timings: Timings,
}

impl View for I2c {
    type V = I2cView;

    closed spec fn view(&self) -> I2cView {
        I2cView { config: self.config, timings: self.timings }
    }
}

impl I2c {
    #[verifier::type_invariant]
    spec fn timings_hold(self) -> bool {
        self.timings.wf()
    }

    fn program(timings: &Timings, setup: &mut Vec<Setup>)
        ensures
            final(setup)@ == old(setup)@ + clock_writes(*timings),
    {
        setup.push(Setup::Frequency(timings.freq));
        setup.push(
            Setup::ClockControl {
                f_s: timings.mode.f_s(),
                duty: timings.duty.duty(),
                ccr: timings.ccr,
            },
        );
        setup.push(Setup::RiseTime(timings.trise));
        assert(setup@ =~= old(setup)@ + clock_writes(*timings));
    }

    /// Makes a handle for a peripheral that runs from an input clock of
    /// `i2cclk` hertz, to drive the bus at `freq` hertz. Returns the handle
    /// and what has to be done to the hardware, in this order, before the
    /// first transaction.
    pub fn new(i2cclk: u32, freq: u32, config: Config) -> (made: (I2c, Vec<Setup>))
        requires
            clock_supported(i2cclk),
            freq > 0,
        ensures
            made.0@.config == config,
            made.0@.timings == Timings::derive(i2cclk, freq, Duty::Duty2_1),
            made.1@ == bring_up(config, made.0@.timings),
    {
        let timings = Timings::new(i2cclk, freq);
        let mut setup: Vec<Setup> = Vec::new();
        setup.push(Setup::EnableClock);
        setup.push(Setup::Reset);
        setup.push(Setup::SclPin(Pull::from_pullup(config.scl_pullup)));
        setup.push(Setup::SdaPin(Pull::from_pullup(config.sda_pullup)));
        setup.push(Setup::Enable(false));
        Self::program(&timings, &mut setup);
        setup.push(Setup::Enable(true));
        assert(setup@ =~= bring_up(config, timings));
        (I2c { config, timings }, setup)
    }

    /// The pin biasing chosen when the handle was made.
    pub fn config(&self) -> (config: Config)
        ensures
            config == self@.config,
    {
        self.config
    }

    /// The timings that were last programmed.
    pub fn timings(&self) -> (timings: Timings)
        ensures
            timings == self@.timings,
            timings.wf(),
    {
        proof {
            use_type_invariant(self);
        }
        self.timings
    }

    /// Takes a new bus frequency: derives the timings anew from the input
    /// clock and `freq`, and returns the writes that program them. Only the
    /// three clock registers are written; the enable bit is left as it is.
    /// No transaction may be under way.
    pub fn set_config(&mut self, i2cclk: u32, freq: u32) -> (writes: Vec<Setup>)
        requires
            clock_supported(i2cclk),
            freq > 0,
        ensures
            final(self)@.timings == Timings::derive(i2cclk, freq, Duty::Duty2_1),
            final(self)@.config == old(self)@.config,
            writes@ == clock_writes(final(self)@.timings),
            forall|i: int| 0 <= i < writes@.len() ==> (#[trigger] writes@[i]).sets_clock(),
    {
        let timings = Timings::new(i2cclk, freq);
        let mut writes: Vec<Setup> = Vec::new();
        Self::program(&timings, &mut writes);
        self.timings = timings;
        writes
    }

    /// Starts a read of `len` bytes from the device at `addr`. With `len`
    /// zero the transfer is over before it begins, with an overrun, and asks
    /// for no register access.
    pub fn blocking_read(&self, addr: u8, len: usize) -> (transfer: Transfer)
        ensures
            transfer@ == self@.read(addr, len as nat),
            len == 0 ==> transfer@.action() == Action::Finish(Err(Error::Overrun)),
    {
        let mut steps: Vec<Step> = Vec::new();
        read_bytes(&mut steps, addr, len);
        assert(steps@ =~= read_plan(addr, len as nat));
        Transfer::new(steps)
    }

    /// Starts a write of `bytes` to the device at `addr`.
    pub fn blocking_write(&self, addr: u8, bytes: &[u8]) -> (transfer: Transfer)
        ensures
            transfer@ == self@.write(addr, bytes@),
    {
        let mut steps: Vec<Step> = Vec::new();
        write_bytes(&mut steps, addr, bytes);
        steps.push(Step::Stop);
        steps.push(Step::Await(Condition::Stopped));
        assert(steps@ =~= write_plan(addr, bytes@));
        Transfer::new(steps)
    }

    /// Starts a write of `bytes` to the device at `addr` that goes over into
    /// a read of `len` bytes with a repeated START, without a STOP between
    /// the two.
    pub fn blocking_write_read(&self, addr: u8, bytes: &[u8], len: usize) -> (transfer: Transfer)
        ensures
            transfer@ == self@.write_read(addr, bytes@, len as nat),
    {
        let mut steps: Vec<Step> = Vec::new();
        write_bytes(&mut steps, addr, bytes);
        read_bytes(&mut steps, addr, len);
        assert(steps@ =~= write_read_plan(addr, bytes@, len as nat));
        Transfer::new(steps)
    }
}

/// The transactions that a handle starts do not depend on its timings or
/// its pin biasing: two handles, or one handle before and after it was given
/// a new bus frequency, start the same transfers.
pub proof fn sequencing_ignores_timings(
    one: I2cView,
    other: I2cView,
    addr: u8,
    bytes: Seq<u8>,
    len: nat,
)
    ensures
        one.write(addr, bytes) == other.write(addr, bytes),
        one.read(addr, len) == other.read(addr, len),
        one.write_read(addr, bytes, len) == other.write_read(addr, bytes, len),
{
}

} // verus!
