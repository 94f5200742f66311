//! Protocol core of a blocking, master-mode driver for a two-wire serial bus
//! peripheral with 7-bit addressing.
//!
//! The crate holds everything the driver decides: the clock timing
//! derivation, the error flag monitor, and the sequencer that orders START,
//! address, data and STOP. It never touches a register itself. A transaction
//! is a [`Transfer`]: it names the next register access as an [`Action`], and
//! is told what the access returned as an [`Event`]. The caller that owns the
//! peripheral performs the accesses, and may poll for as long as it likes.

pub mod completion;
pub mod config;
pub mod error;
pub mod i2c;
pub mod order;
pub mod plan;
pub mod polling;
pub mod status;
pub mod timings;
pub mod transfer;

pub use crate::config::{Config, Pull, State};
pub use crate::error::{Error, ErrorKind, NoAcknowledgeSource};
pub use crate::i2c::{I2c, I2cView, Setup};
pub use crate::plan::{Condition, Step};
pub use crate::status::{check_and_clear_error_flags, Checked, Flag, Status};
pub use crate::timings::{Duty, Mode, Timings};
pub use crate::transfer::{Action, Event, Machine, Poll, Transfer};
