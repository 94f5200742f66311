//! The busy-polls: what one turn does, that a failure seen by the error
//! flag monitor ends the transaction at once, and that nothing else does.

use crate::completion::{counts_add, failures, receives, run_counts_receives};
use crate::error::Error;
use crate::order::{
    effects, effects_of_push, over_stays_over, plan_effects, plan_effects_add, run_follows_plan,
    run_in_two_parts,
};
use crate::plan::{
    address_byte, address_steps, read_plan, write_plan, write_read_plan, Condition, Step,
};
use crate::status::{Flag, Status};
use crate::transfer::{Action, Event, Machine, Poll};
use vstd::prelude::*;

verus! {

/// A turn of a busy-poll that meets no raised flag. For a condition that is
/// probed, the register that shows it is read next. A condition that the
/// status shows is met: the cursor moves on. With a condition that it does
/// not show, the sequencer is where it was before the turn, and polls again.
pub proof fn clean_turn(m: Machine, status: Status)
    requires
        m.action() == Action::ReadStatus,
        status.pending() is None,
    ensures
        ({
            let cond = m.steps[m.cursor]->Await_0;
            let turned = m.next(Event::Status(status));
            &&& m.steps[m.cursor] is Await
            &&& cond.probed() ==> turned == Machine { poll: Poll::Probe, ..m } && turned.action()
                == if cond == Condition::Master {
                Action::ReadSecondary
            } else {
                Action::ReadControl
            }
            &&& !cond.probed() && cond.seen_in(status) ==> turned == m.pass()
            &&& !cond.probed() && !cond.seen_in(status) ==> turned == m
        }),
{
}

/// The end of a turn for a probed condition. The wait for the bus ends when
/// the peripheral is master and the bus is busy; the wait for the STOP ends
/// when the STOP bit reads clear. Otherwise the poll takes another turn,
/// which begins with the status register again.
pub proof fn probe_turn(m: Machine, msl: bool, busy: bool, stop: bool)
    requires
        m.outcome() is None,
        m.steps[m.cursor] is Await,
        m.poll == Poll::Probe,
    ensures
        m.action() == Action::ReadSecondary ==> m.next(Event::Secondary { msl, busy }) == if msl
            && busy {
            m.pass()
        } else {
            m.again()
        },
        m.action() == Action::ReadControl ==> m.next(Event::Control { stop }) == if stop {
            m.again()
        } else {
            m.pass()
        },
        m.again().action() == Action::ReadStatus,
{
}

/// A raised bus error flag is cleared and never reported. When the status
/// holds no failure but the bus error flag, the flag is cleared next, and
/// after that the sequencer is where the same status without the flag would
/// have taken it.
pub proof fn bus_error_is_silent(m: Machine, status: Status)
    requires
        m.action() == Action::ReadStatus,
        status.verdict() is Ok,
        status.berr,
    ensures
        m.next(Event::Status(status)).action() == Action::ClearFlag(Flag::Berr),
        m.next(Event::Status(status)).next(Event::Done) == m.next(
            Event::Status(status.without(Flag::Berr)),
        ),
{
}

/// Every busy-poll ends the transaction on the first failure that the error
/// flag monitor reports. Whatever is awaited, when the status that a poll
/// reads holds a failure, the flag of that failure is cleared, the
/// transaction is over with that failure, and no access follows: no retry,
/// no STOP, no further byte. The cursor and the bytes received stay as they
/// were.
pub proof fn failure_ends_run(m: Machine, status: Status, rest: Seq<Event>)
    requires
        m.action() == Action::ReadStatus,
        status.verdict() is Err,
    ensures
        ({
            let error = status.verdict()->Err_0;
            let flag = status.pending()->Some_0;
            let clearing = m.next(Event::Status(status));
            let over = clearing.next(Event::Done);
            &&& status.pending() is Some
            &&& flag.signals() == Some(error)
            &&& clearing.action() == Action::ClearFlag(flag)
            &&& over.outcome() == Some(Err::<(), Error>(error))
            &&& over.cursor == m.cursor
            &&& over.received == m.received
            &&& over.run(rest) == over
            &&& over.trace(rest) == Seq::<Action>::empty()
            &&& m.run(seq![Event::Status(status), Event::Done] + rest) == over
            &&& m.trace(seq![Event::Status(status), Event::Done] + rest) == seq![
                Action::ReadStatus,
                Action::ClearFlag(flag),
            ]
        }),
{
    let clearing = m.next(Event::Status(status));
    let over = clearing.next(Event::Done);
    let flag = status.pending()->Some_0;
    let two = seq![Event::Status(status), Event::Done];
    over_stays_over(over, rest);
    run_in_two_parts(m, two, rest);
    reveal_with_fuel(Machine::run, 3);
    reveal_with_fuel(Machine::trace, 3);
    assert(m.run(two) == over);
    assert(m.trace(two) =~= seq![Action::ReadStatus, Action::ClearFlag(flag)]);
    assert(m.trace(two + rest) =~= seq![Action::ReadStatus, Action::ClearFlag(flag)]);
}

/// An address that is not acknowledged ends the transaction with `Nack`
/// before any data byte. Take a plan with an address phase at step `at`, and
/// a run that has come to poll for the acknowledge of that address. If the
/// status then shows the acknowledge failure, and no failure that the
/// monitor looks at before it, the transaction ends with `Nack`, whatever
/// events follow, and all it ever did on the bus is what the steps before
/// the address phase did, the START and the address byte.
pub proof fn address_nack_aborts(
    steps: Seq<Step>,
    at: int,
    addr: u8,
    read: bool,
    before: Seq<Event>,
    status: Status,
    after: Seq<Event>,
)
    requires
        0 <= at,
        at + 6 <= steps.len(),
        steps.subrange(at, at + 6) == address_steps(addr, read),
        Machine::start(steps).run(before).cursor == at + 4,
        Machine::start(steps).run(before).action() == Action::ReadStatus,
        status.af,
        !status.timeout,
        !status.pecerr,
        !status.ovr,
    ensures
        ({
            let events = before + (seq![Event::Status(status), Event::Done] + after);
            let start = Machine::start(steps);
            &&& start.run(events).outcome() == Some(Err::<(), Error>(Error::Nack))
            &&& start.run(events).received == start.run(before).received
            &&& effects(start.trace(events)) == plan_effects(steps.take(at)) + seq![
                Action::Start { ack: read },
                Action::WriteData(address_byte(addr, read)),
            ]
        }),
{
    let start = Machine::start(steps);
    let polling = start.run(before);
    let tail = seq![Event::Status(status), Event::Done] + after;
    run_follows_plan(start, before);
    failure_ends_run(polling, status, after);
    run_in_two_parts(start, before, tail);
    let polls = seq![Action::ReadStatus, Action::ClearFlag(Flag::Af)];
    assert(start.trace(before + tail) == start.trace(before) + polls);
    assert(effects(start.trace(before) + polls) == effects(start.trace(before))) by {
        effects_of_push(start.trace(before), Action::ReadStatus);
        effects_of_push(start.trace(before).push(Action::ReadStatus), Action::ClearFlag(Flag::Af));
        assert(start.trace(before) + polls =~= start.trace(before).push(Action::ReadStatus).push(
            Action::ClearFlag(Flag::Af),
        ));
    }
    let opening = steps.subrange(at, at + 4);
    assert(steps.subrange(0, at + 4) =~= steps.take(at) + opening);
    plan_effects_add(steps.take(at), opening);
    assert(plan_effects(opening) =~= seq![
        Action::Start { ack: read },
        Action::WriteData(address_byte(addr, read)),
    ]) by {
        let phase = address_steps(addr, read);
        assert(forall|i: int| 0 <= i < 4 ==> opening[i] == steps.subrange(at, at + 6)[i]);
        assert(opening =~= phase.take(4));
        reveal_with_fuel(plan_effects, 6);
    }
}

/// The same for the three transactions that a handle starts, at their first
/// address: when a write, a read of at least one byte, or a write followed
/// by a read polls for the acknowledge of its first address and the status
/// shows the acknowledge failure, and no failure that the monitor looks at
/// before it, the transaction ends with `Nack`. START and the address byte
/// are all that it ever put on the bus, and it has received nothing.
pub proof fn first_address_nack_aborts(
    addr: u8,
    bytes: Seq<u8>,
    len: nat,
    before: Seq<Event>,
    status: Status,
    after: Seq<Event>,
)
    requires
        status.af,
        !status.timeout,
        !status.pecerr,
        !status.ovr,
    ensures
        ({
            let events = before + (seq![Event::Status(status), Event::Done] + after);
            let write = Machine::start(write_plan(addr, bytes));
            let read = Machine::start(read_plan(addr, len));
            let write_read = Machine::start(write_read_plan(addr, bytes, len));
            &&& (write.run(before).cursor == 4 && write.run(before).action()
                == Action::ReadStatus) ==> {
                &&& write.run(events).outcome() == Some(Err::<(), Error>(Error::Nack))
                &&& effects(write.trace(events)) == seq![
                    Action::Start { ack: false },
                    Action::WriteData(address_byte(addr, false)),
                ]
            }
            &&& (len > 0 && read.run(before).cursor == 4 && read.run(before).action()
                == Action::ReadStatus) ==> {
                &&& read.run(events).outcome() == Some(Err::<(), Error>(Error::Nack))
                &&& read.run(events).received.len() == 0
                &&& effects(read.trace(events)) == seq![
                    Action::Start { ack: true },
                    Action::WriteData(address_byte(addr, true)),
                ]
            }
            &&& (write_read.run(before).cursor == 4 && write_read.run(before).action()
                == Action::ReadStatus) ==> {
                &&& write_read.run(events).outcome() == Some(Err::<(), Error>(Error::Nack))
                &&& write_read.run(events).received.len() == 0
                &&& effects(write_read.trace(events)) == seq![
                    Action::Start { ack: false },
                    Action::WriteData(address_byte(addr, false)),
                ]
            }
        }),
{
    let write = write_plan(addr, bytes);
    let read = read_plan(addr, len);
    let write_read = write_read_plan(addr, bytes, len);
    assert(plan_effects(Seq::<Step>::empty()) == Seq::<Action>::empty());
    if Machine::start(write).run(before).cursor == 4 && Machine::start(write).run(before).action()
        == Action::ReadStatus {
        assert(write.subrange(0, 6) =~= address_steps(addr, false));
        assert(write.take(0) =~= Seq::<Step>::empty());
        address_nack_aborts(write, 0, addr, false, before, status, after);
    }
    if len > 0 && Machine::start(read).run(before).cursor == 4 && Machine::start(read).run(
        before,
    ).action() == Action::ReadStatus {
        assert(read.subrange(0, 6) =~= address_steps(addr, true));
        assert(read.take(0) =~= Seq::<Step>::empty());
        address_nack_aborts(read, 0, addr, true, before, status, after);
        run_follows_plan(Machine::start(read), before);
        run_counts_receives(Machine::start(read), before);
        assert(read.subrange(0, 4) =~= address_steps(addr, true).take(4));
        assert(receives(address_steps(addr, true).take(4)) == 0) by {
            reveal_with_fuel(receives, 5);
        }
    }
    if Machine::start(write_read).run(before).cursor == 4 && Machine::start(write_read).run(
        before,
    ).action() == Action::ReadStatus {
        assert(write_read.subrange(0, 6) =~= address_steps(addr, false));
        assert(write_read.take(0) =~= Seq::<Step>::empty());
        address_nack_aborts(write_read, 0, addr, false, before, status, after);
        run_follows_plan(Machine::start(write_read), before);
        run_counts_receives(Machine::start(write_read), before);
        assert(write_read.subrange(0, 4) =~= address_steps(addr, false).take(4));
        assert(receives(address_steps(addr, false).take(4)) == 0) by {
            reveal_with_fuel(receives, 5);
        }
    }
}

/// A read into an empty buffer is over before it begins, with `Overrun`:
/// whatever events are fed to it, it asks for no register access.
pub proof fn empty_read_does_nothing(addr: u8, events: Seq<Event>)
    ensures
        Machine::start(read_plan(addr, 0)).outcome() == Some(Err::<(), Error>(Error::Overrun)),
        Machine::start(read_plan(addr, 0)).action() == Action::Finish(Err(Error::Overrun)),
        Machine::start(read_plan(addr, 0)).run(events) == Machine::start(read_plan(addr, 0)),
        Machine::start(read_plan(addr, 0)).trace(events) == Seq::<Action>::empty(),
{
    over_stays_over(Machine::start(read_plan(addr, 0)), events);
}

/// Whether no status among the events holds a failure.
pub open spec fn without_failure(events: Seq<Event>) -> bool {
    forall|i: int|
        0 <= i < events.len() ==> (#[trigger] events[i] matches Event::Status(status)
            ==> status.verdict() is Ok)
}

proof fn calm_run(m: Machine, events: Seq<Event>)
    requires
        m.failure is None,
        m.poll matches Poll::Clear { flag, .. } ==> flag == Flag::Berr,
        without_failure(events),
    ensures
        m.run(events).failure is None,
        m.run(events).poll matches Poll::Clear { flag, .. } ==> flag == Flag::Berr,
    decreases events.len(),
{
    if events.len() > 0 {
        let earlier = events.drop_last();
        assert(forall|i: int| 0 <= i < earlier.len() ==> earlier[i] == events[i]);
        assert(events.last() == events[events.len() - 1]);
        calm_run(m, earlier);
    }
}

/// A busy-poll fails only when the status register shows a failure: as long
/// as no status read holds one, no failure ends the transaction, and it can
/// only end well or with a failure that the plan holds.
pub proof fn no_failure_without_flag(steps: Seq<Step>, events: Seq<Event>)
    requires
        without_failure(events),
    ensures
        Machine::start(steps).run(events).failure is None,
        failures(steps) == 0 ==> !(Machine::start(steps).run(events).outcome() matches Some(
            Err(_),
        )),
{
    let m = Machine::start(steps);
    calm_run(m, events);
    run_follows_plan(m, events);
    let cursor = m.run(events).cursor;
    if failures(steps) == 0 && cursor < steps.len() {
        counts_add(steps.take(cursor + 1), steps.skip(cursor + 1));
        assert(steps.take(cursor + 1) + steps.skip(cursor + 1) =~= steps);
        assert(steps.take(cursor + 1).last() == steps[cursor]);
    }
}

} // verus!
