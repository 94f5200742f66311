//! The failures that a transaction can end with.

use vstd::prelude::*;

verus! {

/// Why a transaction failed.
#[derive(Clone, Copy, Debug, PartialEq, Eq, Structural)]
pub enum Error {
    /// Protocol violation on the bus. Kept for callers; the sequencer never
    /// raises it.
    Bus,
    /// Another master won the bus.
    Arbitration,
    /// An address or data byte was not acknowledged.
    Nack,
    /// The hardware timeout flag was raised.
    Timeout,
    /// Packet error check mismatch.
    Crc,
    /// Receiver overrun, or a read into an empty buffer.
    Overrun,
    /// Kept for callers; the sequencer never raises it.
    ZeroLengthTransfer,
}

/// Which byte went unacknowledged, as far as it is known.
#[derive(Clone, Copy, Debug, PartialEq, Eq, Structural)]
pub enum NoAcknowledgeSource {
    Address,
    Data,
    Unknown,
}

/// The classes of failure that generic bus users tell apart.
#[derive(Clone, Copy, Debug, PartialEq, Eq, Structural)]
pub enum ErrorKind {
    Bus,
    ArbitrationLoss,
    NoAcknowledge(NoAcknowledgeSource),
    Overrun,
    Other,
}

impl Error {
    /// The class of each failure. The peripheral raises one flag for an
    /// unacknowledged address and an unacknowledged data byte alike, so the
    /// source of a `Nack` is unknown.
    pub open spec fn class(self) -> ErrorKind {
        match self {
            Error::Bus => ErrorKind::Bus,
            Error::Arbitration => ErrorKind::ArbitrationLoss,
            Error::Nack => ErrorKind::NoAcknowledge(NoAcknowledgeSource::Unknown),
            Error::Overrun => ErrorKind::Overrun,
            Error::Timeout | Error::Crc | Error::ZeroLengthTransfer => ErrorKind::Other,
        }
    }

    /// The class of this failure.
    pub fn kind(&self) -> (kind: ErrorKind)
        ensures
            kind == self.class(),
            kind == ErrorKind::Other <==> (*self == Error::Timeout || *self == Error::Crc || *self
                == Error::ZeroLengthTransfer),
    {
        match *self {
            Error::Bus => ErrorKind::Bus,
            Error::Arbitration => ErrorKind::ArbitrationLoss,
            Error::Nack => ErrorKind::NoAcknowledge(NoAcknowledgeSource::Unknown),
            Error::Timeout => ErrorKind::Other,
            Error::Crc => ErrorKind::Other,
            Error::Overrun => ErrorKind::Overrun,
            Error::ZeroLengthTransfer => ErrorKind::Other,
        }
    }
}

} // verus!
