//! Clock timing derivation: from the peripheral's input clock and the wanted
//! bus frequency to the values of the frequency, clock control and rise time
//! registers.

use vstd::prelude::*;

verus! {

/// Highest bus frequency, in hertz, that is driven in standard mode.
pub const STANDARD_MODE_LIMIT: u32 = 100_000;

/// Speed regime of the bus clock.
#[derive(Clone, Copy, Debug, PartialEq, Eq, Structural)]
pub enum Mode {
    Fast,
    Standard,
}

impl Mode {
    /// Value of the speed selection bit of the clock control register: set
    /// for fast mode, clear for standard mode.
    pub fn f_s(&self) -> (bit: bool)
        ensures
            bit == (*self == Mode::Fast),
    {
        match self {
            Mode::Fast => true,
            Mode::Standard => false,
        }
    }
}

/// Ratio of the low to the high phase of the bus clock in fast mode.
#[derive(Clone, Copy, Debug, PartialEq, Eq, Structural)]
pub enum Duty {
    Duty2_1,
    Duty16_9,
}

impl Duty {
    /// Value of the duty cycle bit of the clock control register: set for
    /// 16:9, clear for 2:1.
    pub fn duty(&self) -> (bit: bool)
        ensures
            bit == (*self == Duty::Duty16_9),
    {
        match self {
            Duty::Duty2_1 => false,
            Duty::Duty16_9 => true,
        }
    }

    /// Number of clock control periods that make up one bus clock period in
    /// fast mode: 3 for 2:1 (one high, two low), 25 for 16:9.
    pub open spec fn periods(self) -> int {
        match self {
            Duty::Duty2_1 => 3,
            Duty::Duty16_9 => 25,
        }
    }
}

/// The register values that set the bus clock. They are always computed
/// together, from one clock and one bus frequency.
#[derive(Clone, Copy, Debug, PartialEq, Eq, Structural)]
pub struct Timings {
    /// Peripheral input clock in whole megahertz.
    pub freq: u8,
    pub mode: Mode,
    /// Maximum rise time, in ticks of the input clock, plus one.
    pub trise: u8,
    /// Clock control divisor.
    pub ccr: u32,
    pub duty: Duty,
}

/// The input clock in whole megahertz.
pub open spec fn divisor(clock: u32) -> int {
    clock as int / 1_000_000
}

/// Whether the peripheral can run from this input clock: between 2 and 50
/// whole megahertz.
pub open spec fn clock_supported(clock: u32) -> bool {
    2 <= divisor(clock) <= 50
}

/// The larger of two integers.
pub open spec fn at_least(floor: int, value: int) -> int {
    if value < floor {
        floor
    } else {
        value
    }
}

/// Rise time register value for an input clock and a bus frequency.
pub open spec fn rise_time(clock: u32, speed: u32) -> int {
    if speed <= STANDARD_MODE_LIMIT {
        divisor(clock) + 1
    } else {
        divisor(clock) * 300 / 1000 + 1
    }
}

/// Clock control divisor for an input clock and a bus frequency, with `duty`
/// as the duty cycle in fast mode.
pub open spec fn clock_control(clock: u32, speed: u32, duty: Duty) -> int
    recommends
        speed > 0,
{
    if speed <= STANDARD_MODE_LIMIT {
        at_least(4, clock as int / (speed as int * 2))
    } else {
        at_least(1, clock as int / (speed as int * duty.periods()))
    }
}

impl Timings {
    /// The timings for an input clock and a bus frequency, both in hertz,
    /// with `duty` as the duty cycle in fast mode. Up to the standard mode
    /// limit the duty cycle is always 2:1.
    pub open spec fn derive(clock: u32, speed: u32, duty: Duty) -> Timings
        recommends
            clock_supported(clock),
            speed > 0,
    {
        Timings {
            freq: divisor(clock) as u8,
            mode: if speed <= STANDARD_MODE_LIMIT {
                Mode::Standard
            } else {
                Mode::Fast
            },
            trise: rise_time(clock, speed) as u8,
            ccr: clock_control(clock, speed, duty) as u32,
            duty: if speed <= STANDARD_MODE_LIMIT {
                Duty::Duty2_1
            } else {
                duty
            },
        }
    }

    /// What holds of every derived value: the input clock is within the
    /// supported range, and the divisor is at least 4 in standard mode, where
    /// the duty cycle is 2:1, and at least 1 in fast mode.
    pub open spec fn wf(&self) -> bool {
        &&& 2 <= self.freq <= 50
        &&& 1 <= self.trise <= self.freq + 1
        &&& self.mode == Mode::Standard ==> self.duty == Duty::Duty2_1 && self.ccr >= 4
        &&& self.mode == Mode::Fast ==> self.ccr >= 1
    }

    /// Whether the peripheral can run from an input clock of `i2cclk` hertz.
    /// Timings are derived for such a clock only.
    pub fn supports(i2cclk: u32) -> (supported: bool)
        ensures
            supported == clock_supported(i2cclk),
    {
        let freq: u32 = i2cclk / 1_000_000;
        freq >= 2 && freq <= 50
    }

    /// Derives the timings with the 2:1 duty cycle in fast mode.
    pub fn new(i2cclk: u32, speed: u32) -> (timings: Timings)
        requires
            clock_supported(i2cclk),
            speed > 0,
        ensures
            timings == Timings::derive(i2cclk, speed, Duty::Duty2_1),
            timings.wf(),
            timings.freq == divisor(i2cclk),
            timings.trise == rise_time(i2cclk, speed),
            timings.duty == Duty::Duty2_1,
            speed <= STANDARD_MODE_LIMIT ==> timings.mode == Mode::Standard && timings.ccr >= 4
                && timings.ccr == at_least(4, i2cclk as int / (speed as int * 2)),
            speed > STANDARD_MODE_LIMIT ==> timings.mode == Mode::Fast && timings.ccr >= 1
                && timings.ccr == at_least(1, i2cclk as int / (speed as int * 3)),
    {
        Timings::with_duty(i2cclk, speed, Duty::Duty2_1)
    }

    /// Derives the timings with a chosen duty cycle in fast mode. The 16:9
    /// divisor is computed by the same rule as the 2:1 divisor, with 25
    /// periods in place of 3; it has not been tried on hardware.
    pub fn with_duty(i2cclk: u32, speed: u32, duty: Duty) -> (timings: Timings)
        requires
            clock_supported(i2cclk),
            speed > 0,
        ensures
            timings == Timings::derive(i2cclk, speed, duty),
            timings.wf(),
            timings.freq == divisor(i2cclk),
            timings.trise == rise_time(i2cclk, speed),
            timings.ccr == clock_control(i2cclk, speed, duty),
            speed <= STANDARD_MODE_LIMIT ==> timings.mode == Mode::Standard && timings.duty
                == Duty::Duty2_1 && timings.ccr >= 4,
            speed > STANDARD_MODE_LIMIT ==> timings.mode == Mode::Fast && timings.duty == duty
                && timings.ccr >= 1,
    {
        let freq: u32 = i2cclk / 1_000_000;
        let standard: bool = speed <= STANDARD_MODE_LIMIT;
        let trise: u32 = if standard {
            freq + 1
        } else {
            (freq * 300) / 1000 + 1
        };
        let clock: u64 = i2cclk as u64;
        let periods: u64 = if standard {
            2
        } else {
            match duty {
                Duty::Duty2_1 => 3,
                Duty::Duty16_9 => 25,
            }
        };
        let floor: u64 = if standard {
            4
        } else {
            1
        };
        let cycle: u64 = speed as u64 * periods;
        let quotient: u64 = clock / cycle;
        assert(quotient <= clock) by (nonlinear_arith)
            requires
                quotient as int == clock as int / cycle as int,
                cycle >= 1,
        ;
        let ccr: u64 = if quotient < floor {
            floor
        } else {
            quotient
        };
        Timings {
            freq: freq as u8,
            mode: if standard {
                Mode::Standard
            } else {
                Mode::Fast
            },
            trise: trise as u8,
            ccr: ccr as u32,
            duty: if standard {
                Duty::Duty2_1
            } else {
                duty
            },
        }
    }
}

} // verus!
