//! What a transfer receives, and that it gets done: a plan carried out to
//! its end has received as many bytes as it asked for, and a device that is
//! ready at once lets every plan come to its end.

use crate::error::Error;
use crate::order::{
    accesses_follow_plan, effects, plan_effects, read_effects, read_order, run_follows_plan,
    run_in_two_parts, step_follows_plan, write_order, write_phase_effects, write_read_order,
};
use crate::plan::{
    address_steps, read_plan, recv_byte_steps, recv_steps, send_byte_steps, send_steps,
    write_phase, write_plan, write_read_plan, Condition, Step,
};
use crate::status::Status;
use crate::transfer::{Action, Event, Machine, Poll};
use vstd::prelude::*;

verus! {

/// The number of steps of a plan that take a byte from the data register.
pub open spec fn receives(steps: Seq<Step>) -> nat
    decreases steps.len(),
{
    if steps.len() == 0 {
        0
    } else {
        receives(steps.drop_last()) + if steps.last() is Receive {
            1nat
        } else {
            0nat
        }
    }
}

/// The number of steps of a plan that are a planned failure.
pub open spec fn failures(steps: Seq<Step>) -> nat
    decreases steps.len(),
{
    if steps.len() == 0 {
        0
    } else {
        failures(steps.drop_last()) + if steps.last() is Fail {
            1nat
        } else {
            0nat
        }
    }
}

/// Both counts add up over two plans run one after the other.
pub proof fn counts_add(first: Seq<Step>, second: Seq<Step>)
    ensures
        receives(first + second) == receives(first) + receives(second),
        failures(first + second) == failures(first) + failures(second),
    decreases second.len(),
{
    if second.len() == 0 {
        assert(first + second =~= first);
    } else {
        counts_add(first, second.drop_last());
        assert((first + second).drop_last() =~= first + second.drop_last());
        assert((first + second).last() == second.last());
    }
}

proof fn counts_in_send(bytes: Seq<u8>)
    ensures
        receives(send_steps(bytes)) == 0,
        failures(send_steps(bytes)) == 0,
    decreases bytes.len(),
{
    if bytes.len() > 0 {
        let one = send_byte_steps(bytes.last());
        counts_in_send(bytes.drop_last());
        counts_add(send_steps(bytes.drop_last()), one);
        assert(receives(one) == 0 && failures(one) == 0) by {
            reveal_with_fuel(receives, 4);
            reveal_with_fuel(failures, 4);
        }
    }
}

proof fn counts_in_recv(count: nat)
    ensures
        receives(recv_steps(count)) == count,
        failures(recv_steps(count)) == 0,
    decreases count,
{
    if count > 0 {
        let one = recv_byte_steps();
        counts_in_recv((count - 1) as nat);
        counts_add(recv_steps((count - 1) as nat), one);
        assert(receives(one) == 1 && failures(one) == 0) by {
            reveal_with_fuel(receives, 3);
            reveal_with_fuel(failures, 3);
        }
    }
}

/// A write receives nothing and a read, alone or after a write phase,
/// receives as many bytes as were asked for. A write has no planned failure,
/// and a read has one only if it is a read of nothing.
pub proof fn plan_counts(addr: u8, bytes: Seq<u8>, len: nat)
    ensures
        receives(write_plan(addr, bytes)) == 0,
        receives(read_plan(addr, len)) == len,
        receives(write_read_plan(addr, bytes, len)) == len,
        failures(write_plan(addr, bytes)) == 0,
        failures(read_plan(addr, len)) == if len == 0 {
            1nat
        } else {
            0nat
        },
        failures(write_read_plan(addr, bytes, len)) == failures(read_plan(addr, len)),
{
    let tail = seq![Step::Stop, Step::Await(Condition::Stopped)];
    let nack = seq![Step::NackStop];
    let last = recv_byte_steps();
    let wait = seq![Step::Await(Condition::Stopped)];
    assert forall|read: bool|
        receives(#[trigger] address_steps(addr, read)) == 0 && failures(
            address_steps(addr, read),
        ) == 0 by {
        reveal_with_fuel(receives, 8);
        reveal_with_fuel(failures, 8);
    }
    assert(receives(tail) == 0 && failures(tail) == 0 && receives(nack) == 0 && failures(nack)
        == 0 && receives(last) == 1 && failures(last) == 0 && receives(wait) == 0 && failures(
        wait,
    ) == 0) by {
        reveal_with_fuel(receives, 3);
        reveal_with_fuel(failures, 3);
    }
    counts_in_send(bytes);
    counts_add(address_steps(addr, false), send_steps(bytes));
    counts_add(write_phase(addr, bytes), tail);
    counts_add(write_phase(addr, bytes), read_plan(addr, len));
    if len == 0 {
        reveal_with_fuel(receives, 2);
        reveal_with_fuel(failures, 2);
    } else {
        let head = address_steps(addr, true);
        let body = recv_steps((len - 1) as nat);
        counts_in_recv((len - 1) as nat);
        counts_add(head, body);
        counts_add(head + body, nack);
        counts_add(head + body + nack, last);
        counts_add(head + body + nack + last, wait);
    }
}

/// Every receiving step that the cursor passes adds one byte to those
/// received, and nothing else adds or removes any.
pub proof fn run_counts_receives(m: Machine, events: Seq<Event>)
    requires
        m.wf(),
    ensures
        m.run(events).received.len() == m.received.len() + receives(
            m.steps.subrange(m.cursor, m.run(events).cursor),
        ),
        m.received.is_prefix_of(m.run(events).received),
    decreases events.len(),
{
    if events.len() == 0 {
        assert(m.steps.subrange(m.cursor, m.cursor) =~= Seq::<Step>::empty());
    } else {
        let earlier = events.drop_last();
        let before = m.run(earlier);
        let after = before.next(events.last());
        run_counts_receives(m, earlier);
        run_follows_plan(m, earlier);
        step_follows_plan(before, events.last());
        if after.cursor == before.cursor + 1 {
            let passed = m.steps.subrange(m.cursor, after.cursor);
            assert(passed.drop_last() =~= m.steps.subrange(m.cursor, before.cursor));
            assert(passed.last() == m.steps[before.cursor]);
        }
    }
}

proof fn received_within(steps: Seq<Step>, events: Seq<Event>)
    ensures
        Machine::start(steps).run(events).received.len() <= receives(steps),
        Machine::start(steps).run(events).outcome() == Some(Ok::<(), Error>(()))
            ==> Machine::start(steps).run(events).received.len() == receives(steps),
{
    let m = Machine::start(steps);
    let cursor = m.run(events).cursor;
    run_counts_receives(m, events);
    run_follows_plan(m, events);
    counts_add(steps.subrange(0, cursor), steps.subrange(cursor, steps.len() as int));
    assert(steps.subrange(0, cursor) + steps.subrange(cursor, steps.len() as int) =~= steps);
    if cursor == steps.len() {
        assert(steps.subrange(0, cursor) =~= steps);
    }
}

/// A read that ended well has received exactly as many bytes as were asked
/// for, alone or after a write phase, and a write has received none.
pub proof fn completed_read_is_full(addr: u8, bytes: Seq<u8>, len: nat, events: Seq<Event>)
    ensures
        ({
            let read = Machine::start(read_plan(addr, len)).run(events);
            let write_read = Machine::start(write_read_plan(addr, bytes, len)).run(events);
            let write = Machine::start(write_plan(addr, bytes)).run(events);
            &&& read.received.len() <= len
            &&& write_read.received.len() <= len
            &&& write.received.len() == 0
            &&& read.outcome() == Some(Ok::<(), Error>(())) ==> read.received.len() == len
            &&& write_read.outcome() == Some(Ok::<(), Error>(())) ==> write_read.received.len()
                == len
        }),
{
    plan_counts(addr, bytes, len);
    received_within(read_plan(addr, len), events);
    received_within(write_read_plan(addr, bytes, len), events);
    received_within(write_plan(addr, bytes), events);
}

/// The bytes that the data register returned in the course of a series of
/// events: for each event in turn, its byte if a read of the data register
/// was due and the event answers it.
pub open spec fn data_read(m: Machine, events: Seq<Event>) -> Seq<u8>
    decreases events.len(),
{
    if events.len() == 0 {
        Seq::empty()
    } else {
        let earlier = data_read(m, events.drop_last());
        if m.run(events.drop_last()).action() == Action::ReadData && events.last() is Data {
            earlier.push(events.last()->Data_0)
        } else {
            earlier
        }
    }
}

/// What a transfer has received is what the data register returned, byte by
/// byte in the order of the reads, and nothing else.
pub proof fn received_is_data_read(m: Machine, events: Seq<Event>)
    ensures
        m.run(events).received == m.received + data_read(m, events),
    decreases events.len(),
{
    if events.len() == 0 {
        assert(m.received + data_read(m, events) =~= m.received);
    } else {
        received_is_data_read(m, events.drop_last());
        assert(m.run(events).received =~= m.received + data_read(m, events));
    }
}

/// The status that shows one condition and nothing else.
pub open spec fn showing(cond: Condition) -> Status {
    match cond {
        Condition::Started => Status { start: true, ..Status::idle() },
        Condition::Addressed => Status { addr: true, ..Status::idle() },
        Condition::TxEmpty => Status { txe: true, ..Status::idle() },
        Condition::Transferred => Status { btf: true, ..Status::idle() },
        Condition::RxNotEmpty => Status { rxne: true, ..Status::idle() },
        Condition::Master | Condition::Stopped => Status::idle(),
    }
}

/// What a device that is ready at once answers in the course of one step:
/// every wait is over at its first turn, and a read of the data register
/// returns `byte`.
pub open spec fn prompt_answers(step: Step, byte: u8) -> Seq<Event> {
    match step {
        Step::Await(cond) => if cond == Condition::Master {
            seq![Event::Status(Status::idle()), Event::Secondary { msl: true, busy: true }]
        } else if cond == Condition::Stopped {
            seq![Event::Status(Status::idle()), Event::Control { stop: false }]
        } else {
            seq![Event::Status(showing(cond))]
        },
        Step::Receive => seq![Event::Data(byte)],
        Step::Fail(_) => Seq::empty(),
        _ => seq![Event::Done],
    }
}

/// What a device that is ready at once answers in the course of a plan, when
/// the bytes that it sends are `data`.
pub open spec fn prompt_script(steps: Seq<Step>, data: Seq<u8>) -> Seq<Event>
    decreases steps.len(),
{
    if steps.len() == 0 {
        Seq::empty()
    } else {
        prompt_script(steps.drop_last(), data) + prompt_answers(
            steps.last(),
            data[receives(steps.drop_last()) as int],
        )
    }
}

proof fn prompt_step(m: Machine, byte: u8)
    requires
        m.wf(),
        m.cursor < m.steps.len(),
        m.poll == Poll::Check,
        m.failure is None,
        !(m.steps[m.cursor] is Fail),
    ensures
        m.run(prompt_answers(m.steps[m.cursor], byte)) == if m.steps[m.cursor] is Receive {
            Machine { received: m.received.push(byte), ..m.pass() }
        } else {
            m.pass()
        },
{
    reveal_with_fuel(Machine::run, 3);
}

proof fn prompt_prefix(steps: Seq<Step>, data: Seq<u8>, done: int)
    requires
        0 <= done <= steps.len(),
        failures(steps.take(done)) == 0,
        receives(steps.take(done)) <= data.len(),
    ensures
        Machine::start(steps).run(prompt_script(steps.take(done), data)) == (Machine {
            steps,
            cursor: done,
            poll: Poll::Check,
            received: data.take(receives(steps.take(done)) as int),
            failure: None,
        }),
    decreases done,
{
    let start = Machine::start(steps);
    if done == 0 {
        assert(data.take(0) =~= Seq::<u8>::empty());
    } else {
        let earlier = steps.take(done - 1);
        let step = steps[done - 1];
        assert(steps.take(done).drop_last() =~= earlier);
        assert(steps.take(done).last() == step);
        prompt_prefix(steps, data, done - 1);
        let at = start.run(prompt_script(earlier, data));
        let byte = data[receives(earlier) as int];
        run_in_two_parts(start, prompt_script(earlier, data), prompt_answers(step, byte));
        prompt_step(at, byte);
        if step is Receive {
            assert(data.take(receives(earlier) as int).push(byte) =~= data.take(
                receives(steps.take(done)) as int,
            ));
        }
    }
}

/// A device that is ready at once and raises no flag gets every plan done
/// that holds no planned failure: the transaction ends well, what was
/// received is what the device sent, and the accesses that acted on the bus
/// are the effects of the whole plan.
pub proof fn ready_device_completes(steps: Seq<Step>, data: Seq<u8>)
    requires
        failures(steps) == 0,
        data.len() == receives(steps),
    ensures
        ({
            let start = Machine::start(steps);
            let script = prompt_script(steps, data);
            &&& start.run(script).outcome() == Some(Ok::<(), Error>(()))
            &&& start.run(script).received == data
            &&& effects(start.trace(script)) == plan_effects(steps)
        }),
{
    assert(steps.take(steps.len() as int) =~= steps);
    assert(data.take(data.len() as int) =~= data);
    prompt_prefix(steps, data, steps.len() as int);
    accesses_follow_plan(steps, prompt_script(steps, data));
}

/// With a device that is ready at once and raises no flag, each of the three
/// transactions ends well. The write has put START, the address, the payload
/// and STOP on the bus, in this order. The read of at least one byte has
/// received the bytes that the device sent, the last of them after
/// acknowledging was switched off and STOP requested. The write followed by a
/// read has done both, with a second START and no STOP between them.
pub proof fn ready_device_is_served(addr: u8, bytes: Seq<u8>, data: Seq<u8>)
    requires
        data.len() > 0,
    ensures
        ({
            let write = Machine::start(write_plan(addr, bytes));
            let read = Machine::start(read_plan(addr, data.len()));
            let both = Machine::start(write_read_plan(addr, bytes, data.len()));
            let write_script = prompt_script(write_plan(addr, bytes), Seq::empty());
            let read_script = prompt_script(read_plan(addr, data.len()), data);
            let both_script = prompt_script(write_read_plan(addr, bytes, data.len()), data);
            &&& write.run(write_script).outcome() == Some(Ok::<(), Error>(()))
            &&& effects(write.trace(write_script)) == write_phase_effects(addr, bytes) + seq![
                Action::Stop,
            ]
            &&& read.run(read_script).outcome() == Some(Ok::<(), Error>(()))
            &&& read.run(read_script).received == data
            &&& effects(read.trace(read_script)) == read_effects(addr, data.len())
            &&& both.run(both_script).outcome() == Some(Ok::<(), Error>(()))
            &&& both.run(both_script).received == data
            &&& effects(both.trace(both_script)) == write_phase_effects(addr, bytes)
                + read_effects(addr, data.len())
        }),
{
    plan_counts(addr, bytes, data.len());
    ready_device_completes(write_plan(addr, bytes), Seq::empty());
    ready_device_completes(read_plan(addr, data.len()), data);
    ready_device_completes(write_read_plan(addr, bytes, data.len()), data);
    write_order(addr, bytes);
    read_order(addr, data.len());
    write_read_order(addr, bytes, data.len());
}

} // verus!
