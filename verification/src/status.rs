//! The error flag monitor: one look at the status register, which reports at
//! most one error and says which flag to clear.

use crate::error::Error;
use vstd::prelude::*;

verus! {

/// One read of the status register: the progress bits and the error flags
/// that the driver looks at.
#[derive(Clone, Copy, Debug, PartialEq, Eq, Structural)]
pub struct Status {
    /// A START condition was generated.
    pub start: bool,
    /// The address was sent and acknowledged.
    pub addr: bool,
    /// Byte transfer finished.
    pub btf: bool,
    /// The data register holds a received byte.
    pub rxne: bool,
    /// The data register is empty and takes the next byte to send.
    pub txe: bool,
    /// Bus error.
    pub berr: bool,
    /// Arbitration lost.
    pub arlo: bool,
    /// Acknowledge failure.
    pub af: bool,
    /// Overrun or underrun.
    pub ovr: bool,
    /// Packet error check mismatch in reception.
    pub pecerr: bool,
    /// Timeout.
    pub timeout: bool,
}

/// The flags of the status register that software clears.
#[derive(Clone, Copy, Debug, PartialEq, Eq, Structural)]
pub enum Flag {
    Timeout,
    PecErr,
    Ovr,
    Af,
    Arlo,
    Berr,
}

impl Flag {
    /// Whether the flag is raised in a status.
    pub open spec fn is_set(self, status: Status) -> bool {
        match self {
            Flag::Timeout => status.timeout,
            Flag::PecErr => status.pecerr,
            Flag::Ovr => status.ovr,
            Flag::Af => status.af,
            Flag::Arlo => status.arlo,
            Flag::Berr => status.berr,
        }
    }

    /// Place of the flag in the order in which the monitor looks at them; the
    /// lowest is looked at first.
    pub open spec fn rank(self) -> int {
        match self {
            Flag::Timeout => 0,
            Flag::PecErr => 1,
            Flag::Ovr => 2,
            Flag::Af => 3,
            Flag::Arlo => 4,
            Flag::Berr => 5,
        }
    }

    /// The failure that the flag stands for. The bus error flag is known to
    /// be raised without cause and stands for none.
    pub open spec fn signals(self) -> Option<Error> {
        match self {
            Flag::Timeout => Some(Error::Timeout),
            Flag::PecErr => Some(Error::Crc),
            Flag::Ovr => Some(Error::Overrun),
            Flag::Af => Some(Error::Nack),
            Flag::Arlo => Some(Error::Arbitration),
            Flag::Berr => None,
        }
    }

    /// The failure that the flag stands for, if any.
    pub fn error(&self) -> (error: Option<Error>)
        ensures
            error == self.signals(),
    {
        match *self {
            Flag::Timeout => Some(Error::Timeout),
            Flag::PecErr => Some(Error::Crc),
            Flag::Ovr => Some(Error::Overrun),
            Flag::Af => Some(Error::Nack),
            Flag::Arlo => Some(Error::Arbitration),
            Flag::Berr => None,
        }
    }
}

impl Status {
    /// The status with every bit clear.
    pub open spec fn idle() -> Status {
        Status {
            start: false,
            addr: false,
            btf: false,
            rxne: false,
            txe: false,
            berr: false,
            arlo: false,
            af: false,
            ovr: false,
            pecerr: false,
            timeout: false,
        }
    }

    /// A status with every bit clear.
    pub fn new() -> (status: Status)
        ensures
            status == Status::idle(),
    {
        Status {
            start: false,
            addr: false,
            btf: false,
            rxne: false,
            txe: false,
            berr: false,
            arlo: false,
            af: false,
            ovr: false,
            pecerr: false,
            timeout: false,
        }
    }

    /// The status with one flag cleared and every other bit as it was.
    pub open spec fn without(self, flag: Flag) -> Status {
        match flag {
            Flag::Timeout => Status { timeout: false, ..self },
            Flag::PecErr => Status { pecerr: false, ..self },
            Flag::Ovr => Status { ovr: false, ..self },
            Flag::Af => Status { af: false, ..self },
            Flag::Arlo => Status { arlo: false, ..self },
            Flag::Berr => Status { berr: false, ..self },
        }
    }

    /// What the status register holds once the flag that one pass of the
    /// monitor names has been cleared.
    pub open spec fn after(self, clear: Option<Flag>) -> Status {
        match clear {
            Some(flag) => self.without(flag),
            None => self,
        }
    }

    /// The flag that one pass of the monitor clears: the first raised one in
    /// the monitor's order, with the bus error flag last.
    pub open spec fn pending(self) -> Option<Flag> {
        if self.timeout {
            Some(Flag::Timeout)
        } else if self.pecerr {
            Some(Flag::PecErr)
        } else if self.ovr {
            Some(Flag::Ovr)
        } else if self.af {
            Some(Flag::Af)
        } else if self.arlo {
            Some(Flag::Arlo)
        } else if self.berr {
            Some(Flag::Berr)
        } else {
            None
        }
    }

    /// What one pass of the monitor reports: the failure behind the pending
    /// flag, or else the status as it was read.
    pub open spec fn verdict(self) -> Result<Status, Error> {
        match self.pending() {
            Some(flag) => match flag.signals() {
                Some(error) => Err(error),
                None => Ok(self),
            },
            None => Ok(self),
        }
    }

    /// Clears one flag in this copy of the status.
    pub fn clear(&mut self, flag: Flag)
        ensures
            *final(self) == old(self).without(flag),
    {
        match flag {
            Flag::Timeout => {
                self.timeout = false;
            },
            Flag::PecErr => {
                self.pecerr = false;
            },
            Flag::Ovr => {
                self.ovr = false;
            },
            Flag::Af => {
                self.af = false;
            },
            Flag::Arlo => {
                self.arlo = false;
            },
            Flag::Berr => {
                self.berr = false;
            },
        }
    }
}

/// What one pass of the error flag monitor decided.
#[derive(Clone, Copy, Debug, PartialEq, Eq)]
pub struct Checked {
    /// The failure found, or the status as it was read, for the caller to
    /// test progress bits from the same read.
    pub status: Result<Status, Error>,
    /// The flag to clear in the status register, if any.
    pub clear: Option<Flag>,
}

/// One pass of the error flag monitor over a status that was just read.
///
/// The first raised flag among timeout, packet error, overrun, acknowledge
/// failure and arbitration loss is reported as its failure and is the one
/// flag to clear; every other flag stays for the next pass. With none of them
/// raised the status itself is returned, and a raised bus error flag is to be
/// cleared without being reported.
pub fn check_and_clear_error_flags(sr1: Status) -> (checked: Checked)
    ensures
        checked.clear == sr1.pending(),
        checked.status == sr1.verdict(),
        checked.status is Err <==> (sr1.timeout || sr1.pecerr || sr1.ovr || sr1.af || sr1.arlo),
        checked.status matches Err(error) ==> checked.clear matches Some(flag) && flag.signals()
            == Some(error) && flag.is_set(sr1),
        checked.status matches Ok(seen) ==> seen == sr1 && (checked.clear == if sr1.berr {
            Some(Flag::Berr)
        } else {
            None
        }),
        forall|flag: Flag|
            Some(flag) != checked.clear ==> #[trigger] flag.is_set(sr1.after(checked.clear))
                == flag.is_set(sr1),
{
    if sr1.timeout {
        return Checked { status: Err(Error::Timeout), clear: Some(Flag::Timeout) };
    }
    if sr1.pecerr {
        return Checked { status: Err(Error::Crc), clear: Some(Flag::PecErr) };
    }
    if sr1.ovr {
        return Checked { status: Err(Error::Overrun), clear: Some(Flag::Ovr) };
    }
    if sr1.af {
        return Checked { status: Err(Error::Nack), clear: Some(Flag::Af) };
    }
    if sr1.arlo {
        return Checked { status: Err(Error::Arbitration), clear: Some(Flag::Arlo) };
    }
    if sr1.berr {
        return Checked { status: Ok(sr1), clear: Some(Flag::Berr) };
    }
    Checked { status: Ok(sr1), clear: None }
}

/// The monitor clears the raised flag that comes first in its order: no flag
/// that is looked at earlier is raised, and with no flag named none is
/// raised.
pub proof fn pending_comes_first(status: Status, other: Flag)
    ensures
        status.pending() matches Some(flag) ==> flag.is_set(status) && (other.is_set(status)
            ==> flag.rank() <= other.rank()),
        status.pending() is None ==> !other.is_set(status),
{
}

/// One pass of the monitor changes nothing in the status register but the
/// one flag it names: the progress bits and every other flag stay as they
/// were, and the named flag is clear afterwards.
pub proof fn monitor_clears_one_flag(status: Status, other: Flag)
    ensures
        ({
            let clear = status.pending();
            let left = status.after(clear);
            &&& left.start == status.start
            &&& left.addr == status.addr
            &&& left.btf == status.btf
            &&& left.rxne == status.rxne
            &&& left.txe == status.txe
            &&& Some(other) != clear ==> other.is_set(left) == other.is_set(status)
            &&& clear matches Some(flag) ==> !flag.is_set(left)
        }),
{
}

/// A failure flag that was raised together with the one just reported is
/// still raised at the next pass, which then reports a failure again. The bus
/// error flag is never reported: with no failure flag raised it is cleared
/// and the pass after that finds nothing.
pub proof fn unreported_flags_wait(status: Status, other: Flag)
    ensures
        ({
            let left = status.after(status.pending());
            &&& (status.verdict() is Err && other.is_set(status) && Some(other) != status.pending()
                && other != Flag::Berr) ==> other.is_set(left) && left.verdict() is Err
            &&& status.verdict() is Ok ==> left.pending() is None && left.verdict() == Ok::<
                Status,
                Error,
            >(left)
        }),
{
}

} // verus!
