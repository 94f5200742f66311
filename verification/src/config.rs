//! What is chosen once, when the bus handle is made.

use vstd::prelude::*;

verus! {

/// Biasing of the two bus lines.
#[non_exhaustive]
#[derive(Clone, Copy, Debug)]
pub struct Config {
    /// Pull the data line up inside the chip.
    pub sda_pullup: bool,
    /// Pull the clock line up inside the chip.
    pub scl_pullup: bool,
}

impl Default for Config {
    fn default() -> (config: Self)
        ensures
            !config.sda_pullup,
            !config.scl_pullup,
    {
        Self { sda_pullup: false, scl_pullup: false }
    }
}

/// Pull mode of a pin.
#[derive(Clone, Copy, Debug, PartialEq, Eq, Structural)]
pub enum Pull {
    /// No pull: the line floats unless something outside the chip holds it.
    Floating,
    Up,
}

impl Pull {
    /// The pull mode for a line that is, or is not, to be pulled up.
    pub fn from_pullup(pullup: bool) -> (pull: Pull)
        ensures
            pull == (if pullup {
                Pull::Up
            } else {
                Pull::Floating
            }),
    {
        match pullup {
            true => Pull::Up,
            false => Pull::Floating,
        }
    }
}

/// State that outlives a transaction, apart from the timings: there is none.
pub struct State {}

impl State {
    /// The one value of the type.
    pub fn new() -> (state: Self)
        ensures
            state == (State {  }),
    {
        Self {  }
    }
}

} // verus!
