//! The plan of a transaction: the bus steps in their order, each wait for the
//! hardware written down as a step of its own.

use crate::error::Error;
use crate::status::Status;
use vstd::prelude::*;

verus! {

/// What a busy-poll waits for.
#[derive(Clone, Copy, Debug, PartialEq, Eq, Structural)]
pub enum Condition {
    /// The START condition was generated.
    Started,
    /// The peripheral is master and the bus is busy.
    Master,
    /// The address was acknowledged.
    Addressed,
    /// The data register takes the next byte.
    TxEmpty,
    /// The byte went out.
    Transferred,
    /// The data register holds a received byte.
    RxNotEmpty,
    /// The STOP request is no longer pending in the control register.
    Stopped,
}

impl Condition {
    /// Whether the condition is read off a second register, after the status
    /// register was checked for errors: the secondary status for `Master`,
    /// the control register for `Stopped`.
    pub open spec fn probed(self) -> bool {
        self == Condition::Master || self == Condition::Stopped
    }

    /// Whether a status shows the condition. The probed conditions are not in
    /// the status register.
    pub open spec fn seen_in(self, status: Status) -> bool {
        match self {
            Condition::Started => status.start,
            Condition::Addressed => status.addr,
            Condition::TxEmpty => status.txe,
            Condition::Transferred => status.btf,
            Condition::RxNotEmpty => status.rxne,
            Condition::Master | Condition::Stopped => false,
        }
    }

    /// Whether the condition is read off a second register.
    pub fn is_probed(&self) -> (probed: bool)
        ensures
            probed == self.probed(),
    {
        match *self {
            Condition::Master | Condition::Stopped => true,
            _ => false,
        }
    }

    /// Whether a status shows the condition.
    pub fn shown_by(&self, status: &Status) -> (shown: bool)
        ensures
            shown == self.seen_in(*status),
    {
        match *self {
            Condition::Started => status.start,
            Condition::Addressed => status.addr,
            Condition::TxEmpty => status.txe,
            Condition::Transferred => status.btf,
            Condition::RxNotEmpty => status.rxne,
            Condition::Master | Condition::Stopped => false,
        }
    }
}

/// One step of a transaction.
#[derive(Clone, Copy, Debug, PartialEq, Eq, Structural)]
pub enum Step {
    /// Request a START condition; with `ack`, enable acknowledging too.
    Start { ack: bool },
    /// Busy-poll until the condition holds, asking the error flag monitor
    /// first at every turn.
    Await(Condition),
    /// Write a byte, address or payload, to the data register.
    Send(u8),
    /// Read the secondary status register, which releases the latch that the
    /// acknowledged address set.
    ClearAddr,
    /// Take a received byte out of the data register.
    Receive,
    /// Disable acknowledging and request STOP.
    NackStop,
    /// Request a STOP condition.
    Stop,
    /// End the transaction with this failure.
    Fail(Error),
}

/// The byte that opens a transaction: the low seven bits of the address
/// shifted left by one, with the direction in bit 0, clear to write and set
/// to read.
pub open spec fn address_byte(addr: u8, read: bool) -> u8 {
    ((addr as int % 128) * 2 + if read {
        1int
    } else {
        0int
    }) as u8
}

/// The steps that bring the bus from START to the acknowledged address.
pub open spec fn address_steps(addr: u8, read: bool) -> Seq<Step> {
    seq![
        Step::Start { ack: read },
        Step::Await(Condition::Started),
        Step::Await(Condition::Master),
        Step::Send(address_byte(addr, read)),
        Step::Await(Condition::Addressed),
        Step::ClearAddr,
    ]
}

/// The steps that send one payload byte.
pub open spec fn send_byte_steps(byte: u8) -> Seq<Step> {
    seq![Step::Await(Condition::TxEmpty), Step::Send(byte), Step::Await(Condition::Transferred)]
}

/// The steps that send a payload, byte by byte.
pub open spec fn send_steps(bytes: Seq<u8>) -> Seq<Step>
    decreases bytes.len(),
{
    if bytes.len() == 0 {
        Seq::empty()
    } else {
        send_steps(bytes.drop_last()) + send_byte_steps(bytes.last())
    }
}

/// The steps that receive one byte.
pub open spec fn recv_byte_steps() -> Seq<Step> {
    seq![Step::Await(Condition::RxNotEmpty), Step::Receive]
}

/// The steps that receive `count` bytes, each of them acknowledged.
pub open spec fn recv_steps(count: nat) -> Seq<Step>
    decreases count,
{
    if count == 0 {
        Seq::empty()
    } else {
        recv_steps((count - 1) as nat) + recv_byte_steps()
    }
}

/// The write phase: START, the address with the direction bit clear, then
/// the payload. No STOP.
pub open spec fn write_phase(addr: u8, bytes: Seq<u8>) -> Seq<Step> {
    address_steps(addr, false) + send_steps(bytes)
}

/// A write: the write phase, then STOP and the wait for it.
pub open spec fn write_plan(addr: u8, bytes: Seq<u8>) -> Seq<Step> {
    write_phase(addr, bytes) + seq![Step::Stop, Step::Await(Condition::Stopped)]
}

/// A read of `len` bytes. With nothing to read into, the plan is to fail with
/// an overrun before anything is done on the bus. Otherwise: START with
/// acknowledging enabled, the address with the direction bit set, all bytes
/// but the last, then acknowledging off and STOP requested, and only then the
/// last byte and the wait for the STOP.
pub open spec fn read_plan(addr: u8, len: nat) -> Seq<Step> {
    if len == 0 {
        seq![Step::Fail(Error::Overrun)]
    } else {
        address_steps(addr, true) + recv_steps((len - 1) as nat) + seq![Step::NackStop]
            + recv_byte_steps() + seq![Step::Await(Condition::Stopped)]
    }
}

/// A write followed by a read without a STOP in between: the write phase,
/// then the read, whose START is a repeated one.
pub open spec fn write_read_plan(addr: u8, bytes: Seq<u8>, len: nat) -> Seq<Step> {
    write_phase(addr, bytes) + read_plan(addr, len)
}

/// Computes the byte that opens a transaction.
pub fn address(addr: u8, read: bool) -> (byte: u8)
    ensures
        byte == address_byte(addr, read),
        byte % 2 == (if read {
            1int
        } else {
            0int
        }),
        byte / 2 == addr % 128,
{
    let shifted: u8 = (addr % 128) * 2;
    if read {
        shifted + 1
    } else {
        shifted
    }
}

/// Appends the steps from START to the acknowledged address.
pub fn open_transfer(steps: &mut Vec<Step>, addr: u8, read: bool)
    ensures
        final(steps)@ == old(steps)@ + address_steps(addr, read),
{
    steps.push(Step::Start { ack: read });
    steps.push(Step::Await(Condition::Started));
    steps.push(Step::Await(Condition::Master));
    steps.push(Step::Send(address(addr, read)));
    steps.push(Step::Await(Condition::Addressed));
    steps.push(Step::ClearAddr);
    assert(steps@ =~= old(steps)@ + address_steps(addr, read));
}

/// Appends the steps that send one payload byte.
pub fn send_byte(steps: &mut Vec<Step>, byte: u8)
    ensures
        final(steps)@ == old(steps)@ + send_byte_steps(byte),
{
    steps.push(Step::Await(Condition::TxEmpty));
    steps.push(Step::Send(byte));
    steps.push(Step::Await(Condition::Transferred));
    assert(steps@ =~= old(steps)@ + send_byte_steps(byte));
}

/// Appends the steps that receive one byte.
pub fn recv_byte(steps: &mut Vec<Step>)
    ensures
        final(steps)@ == old(steps)@ + recv_byte_steps(),
{
    steps.push(Step::Await(Condition::RxNotEmpty));
    steps.push(Step::Receive);
    assert(steps@ =~= old(steps)@ + recv_byte_steps());
}

/// Appends the write phase: START, address, payload.
pub fn write_bytes(steps: &mut Vec<Step>, addr: u8, bytes: &[u8])
    ensures
        final(steps)@ == old(steps)@ + write_phase(addr, bytes@),
{
    open_transfer(steps, addr, false);
    let ghost opened = steps@;
    let mut sent: usize = 0;
    while sent < bytes.len()
        invariant
            sent <= bytes.len(),
            steps@ == opened + send_steps(bytes@.take(sent as int)),
        decreases bytes.len() - sent,
    {
        let ghost before = steps@;
        send_byte(steps, bytes[sent]);
        proof {
            let next = bytes@.take(sent + 1);
            assert(next.drop_last() =~= bytes@.take(sent as int));
            assert(steps@ =~= opened + send_steps(next));
        }
        sent = sent + 1;
    }
    proof {
        assert(bytes@.take(sent as int) =~= bytes@);
        assert(steps@ =~= old(steps)@ + write_phase(addr, bytes@));
    }
}

/// Appends the steps that receive `count` acknowledged bytes.
pub fn recv_bytes(steps: &mut Vec<Step>, count: usize)
    ensures
        final(steps)@ == old(steps)@ + recv_steps(count as nat),
{
    let mut taken: usize = 0;
    while taken < count
        invariant
            taken <= count,
            steps@ == old(steps)@ + recv_steps(taken as nat),
        decreases count - taken,
    {
        recv_byte(steps);
        proof {
            assert(steps@ =~= old(steps)@ + recv_steps((taken + 1) as nat));
        }
        taken = taken + 1;
    }
}

/// Appends the plan of a read of `len` bytes.
pub fn read_bytes(steps: &mut Vec<Step>, addr: u8, len: usize)
    ensures
        final(steps)@ == old(steps)@ + read_plan(addr, len as nat),
{
    if len == 0 {
        steps.push(Step::Fail(Error::Overrun));
        assert(steps@ =~= old(steps)@ + read_plan(addr, len as nat));
    } else {
        open_transfer(steps, addr, true);
        recv_bytes(steps, len - 1);
        steps.push(Step::NackStop);
        recv_byte(steps);
        steps.push(Step::Await(Condition::Stopped));
        assert(steps@ =~= old(steps)@ + read_plan(addr, len as nat));
    }
}

} // verus!
