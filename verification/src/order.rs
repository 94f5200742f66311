//! The order of things on the bus: which accesses a run of the sequencer
//! makes apart from polling, and that they follow the plan, whatever the
//! hardware answers and however long it lets the driver poll.

use crate::error::Error;
use crate::plan::{
    address_byte, address_steps, read_plan, recv_byte_steps, recv_steps, send_byte_steps,
    send_steps, write_phase, write_plan, write_read_plan, Condition, Step,
};
use crate::transfer::{Action, Event, Machine};
use vstd::prelude::*;

verus! {

impl Step {
    /// The access by which a step acts on the bus or takes data from it. A
    /// wait has none, and neither has a planned failure.
    pub open spec fn effect(self) -> Option<Action> {
        match self {
            Step::Start { ack } => Some(Action::Start { ack }),
            Step::Send(byte) => Some(Action::WriteData(byte)),
            Step::ClearAddr => Some(Action::ClearAddr),
            Step::Receive => Some(Action::ReadData),
            Step::NackStop => Some(Action::NackStop),
            Step::Stop => Some(Action::Stop),
            Step::Await(_) | Step::Fail(_) => None,
        }
    }
}

/// The accesses among `actions` that act on the bus or take data from it,
/// in their order: what is left when the reads and flag clears of the
/// busy-polls are taken out.
pub open spec fn effects(actions: Seq<Action>) -> Seq<Action> {
    actions.filter(|action: Action| action.is_effect())
}

/// The effects of the steps of a plan, in their order.
pub open spec fn plan_effects(steps: Seq<Step>) -> Seq<Action>
    decreases steps.len(),
{
    if steps.len() == 0 {
        Seq::empty()
    } else {
        let earlier = plan_effects(steps.drop_last());
        match steps.last().effect() {
            Some(action) => earlier.push(action),
            None => earlier,
        }
    }
}

/// One write to the data register for each byte of a payload.
pub open spec fn sent(bytes: Seq<u8>) -> Seq<Action> {
    Seq::new(bytes.len(), |i: int| Action::WriteData(bytes[i]))
}

/// `count` reads of the data register.
pub open spec fn taken(count: nat) -> Seq<Action> {
    Seq::new(count, |i: int| Action::ReadData)
}

/// What the write phase does on the bus: START without acknowledging, the
/// address with the direction bit clear, the release of the address latch,
/// then the payload.
pub open spec fn write_phase_effects(addr: u8, bytes: Seq<u8>) -> Seq<Action> {
    seq![
        Action::Start { ack: false },
        Action::WriteData(address_byte(addr, false)),
        Action::ClearAddr,
    ] + sent(bytes)
}

/// What a read of `len` bytes does on the bus: nothing with `len` zero;
/// otherwise START with acknowledging, the address with the direction bit
/// set, the release of the address latch, all bytes but one, then
/// acknowledging off with STOP, and the last byte after that.
pub open spec fn read_effects(addr: u8, len: nat) -> Seq<Action> {
    if len == 0 {
        Seq::empty()
    } else {
        seq![
            Action::Start { ack: true },
            Action::WriteData(address_byte(addr, true)),
            Action::ClearAddr,
        ] + taken((len - 1) as nat) + seq![Action::NackStop, Action::ReadData]
    }
}

/// Adding an access at the end adds it to the effects if it is one, and
/// leaves them as they are if it is not.
pub proof fn effects_of_push(actions: Seq<Action>, action: Action)
    ensures
        effects(actions.push(action)) == if action.is_effect() {
            effects(actions).push(action)
        } else {
            effects(actions)
        },
{
    reveal(Seq::filter);
    assert(actions.push(action).drop_last() =~= actions);
}

/// The effects of two plans run one after the other are the effects of the
/// first followed by those of the second.
pub proof fn plan_effects_add(first: Seq<Step>, second: Seq<Step>)
    ensures
        plan_effects(first + second) == plan_effects(first) + plan_effects(second),
    decreases second.len(),
{
    if second.len() == 0 {
        assert(first + second =~= first);
        assert(plan_effects(first) + plan_effects(second) =~= plan_effects(first));
    } else {
        plan_effects_add(first, second.drop_last());
        assert((first + second).drop_last() =~= first + second.drop_last());
        assert((first + second).last() == second.last());
        assert(plan_effects(first + second) =~= plan_effects(first) + plan_effects(second));
    }
}

proof fn plan_effects_of_one(step: Step)
    ensures
        plan_effects(seq![step]) == match step.effect() {
            Some(action) => seq![action],
            None => Seq::empty(),
        },
{
    assert(plan_effects(seq![step].drop_last()) =~= Seq::<Action>::empty());
    assert(plan_effects(seq![step]) =~= match step.effect() {
        Some(action) => seq![action],
        None => Seq::empty(),
    });
}

proof fn address_effects(addr: u8, read: bool)
    ensures
        plan_effects(address_steps(addr, read)) == seq![
            Action::Start { ack: read },
            Action::WriteData(address_byte(addr, read)),
            Action::ClearAddr,
        ],
{
    let s = address_steps(addr, read);
    reveal_with_fuel(plan_effects, 8);
    assert(plan_effects(s) =~= seq![
        Action::Start { ack: read },
        Action::WriteData(address_byte(addr, read)),
        Action::ClearAddr,
    ]);
}

proof fn send_effects(bytes: Seq<u8>)
    ensures
        plan_effects(send_steps(bytes)) == sent(bytes),
    decreases bytes.len(),
{
    if bytes.len() == 0 {
        assert(plan_effects(send_steps(bytes)) =~= sent(bytes));
    } else {
        send_effects(bytes.drop_last());
        plan_effects_add(send_steps(bytes.drop_last()), send_byte_steps(bytes.last()));
        let one = send_byte_steps(bytes.last());
        reveal_with_fuel(plan_effects, 4);
        assert(plan_effects(one) =~= seq![Action::WriteData(bytes.last())]);
        assert(plan_effects(send_steps(bytes)) =~= sent(bytes));
    }
}

proof fn recv_byte_effects()
    ensures
        plan_effects(recv_byte_steps()) == seq![Action::ReadData],
{
    let one = recv_byte_steps();
    reveal_with_fuel(plan_effects, 3);
    assert(plan_effects(one) =~= seq![Action::ReadData]);
}

proof fn recv_effects(count: nat)
    ensures
        plan_effects(recv_steps(count)) == taken(count),
    decreases count,
{
    if count == 0 {
        assert(plan_effects(recv_steps(count)) =~= taken(count));
    } else {
        recv_effects((count - 1) as nat);
        plan_effects_add(recv_steps((count - 1) as nat), recv_byte_steps());
        recv_byte_effects();
        assert(plan_effects(recv_steps(count)) =~= taken(count));
    }
}

/// On the bus the write phase does what `write_phase_effects` lists.
pub proof fn write_phase_order(addr: u8, bytes: Seq<u8>)
    ensures
        plan_effects(write_phase(addr, bytes)) == write_phase_effects(addr, bytes),
{
    plan_effects_add(address_steps(addr, false), send_steps(bytes));
    address_effects(addr, false);
    send_effects(bytes);
}

/// On the bus a write does the write phase and then requests STOP, once.
pub proof fn write_order(addr: u8, bytes: Seq<u8>)
    ensures
        plan_effects(write_plan(addr, bytes)) == write_phase_effects(addr, bytes) + seq![
            Action::Stop,
        ],
{
    let tail = seq![Step::Stop, Step::Await(Condition::Stopped)];
    plan_effects_add(write_phase(addr, bytes), tail);
    write_phase_order(addr, bytes);
    reveal_with_fuel(plan_effects, 3);
    assert(plan_effects(tail) =~= seq![Action::Stop]);
}

/// On the bus a read does what `read_effects` lists. In particular
/// acknowledging is switched off and STOP requested before the last byte is
/// taken, and after all the others.
pub proof fn read_order(addr: u8, len: nat)
    ensures
        plan_effects(read_plan(addr, len)) == read_effects(addr, len),
{
    if len == 0 {
        plan_effects_of_one(Step::Fail(Error::Overrun));
    } else {
        let head = address_steps(addr, true);
        let body = recv_steps((len - 1) as nat);
        let nack = seq![Step::NackStop];
        let last = recv_byte_steps();
        let wait = seq![Step::Await(Condition::Stopped)];
        plan_effects_add(head, body);
        plan_effects_add(head + body, nack);
        plan_effects_add(head + body + nack, last);
        plan_effects_add(head + body + nack + last, wait);
        address_effects(addr, true);
        recv_effects((len - 1) as nat);
        plan_effects_of_one(Step::NackStop);
        recv_byte_effects();
        plan_effects_of_one(Step::Await(Condition::Stopped));
        assert(plan_effects(read_plan(addr, len)) =~= read_effects(addr, len));
    }
}

/// On the bus a write followed by a read does the write phase and then the
/// read, with no STOP between them.
pub proof fn write_read_order(addr: u8, bytes: Seq<u8>, len: nat)
    ensures
        plan_effects(write_read_plan(addr, bytes, len)) == write_phase_effects(addr, bytes)
            + read_effects(addr, len),
{
    plan_effects_add(write_phase(addr, bytes), read_plan(addr, len));
    write_phase_order(addr, bytes);
    read_order(addr, len);
}

/// One event moves the cursor by at most one step and never changes the
/// plan. An access that acts on the bus is the effect of the step at the
/// cursor, and is made once: its answer moves the cursor past the step. The
/// cursor leaves a step without an effect only by way of other accesses.
pub proof fn step_follows_plan(m: Machine, event: Event)
    requires
        m.wf(),
    ensures
        m.next(event).wf(),
        m.next(event).steps == m.steps,
        !m.action().answered_by(event) ==> m.next(event) == m,
        m.action().answered_by(event) && m.action().is_effect() ==> m.next(event).cursor
            == m.cursor + 1 && m.steps[m.cursor].effect() == Some(m.action()),
        m.action().answered_by(event) && !m.action().is_effect() ==> m.next(event).cursor
            == m.cursor || (m.next(event).cursor == m.cursor + 1 && m.steps[m.cursor].effect()
            is None),
{
}

/// A transaction that is over stays over: no event changes it, and no access
/// is made any more.
pub proof fn over_stays_over(m: Machine, events: Seq<Event>)
    requires
        m.outcome() is Some,
    ensures
        m.run(events) == m,
        m.trace(events) == Seq::<Action>::empty(),
    decreases events.len(),
{
    if events.len() > 0 {
        over_stays_over(m, events.drop_last());
    }
}

/// Feeding one series of events and then another is feeding the two in a
/// row, and the accesses made are those of the first run followed by those
/// of the second.
pub proof fn run_in_two_parts(m: Machine, first: Seq<Event>, second: Seq<Event>)
    ensures
        m.run(first + second) == m.run(first).run(second),
        m.trace(first + second) == m.trace(first) + m.run(first).trace(second),
    decreases second.len(),
{
    if second.len() == 0 {
        assert(first + second =~= first);
        assert(m.trace(first) + m.run(first).trace(second) =~= m.trace(first));
    } else {
        run_in_two_parts(m, first, second.drop_last());
        assert((first + second).drop_last() =~= first + second.drop_last());
        assert((first + second).last() == second.last());
        assert(m.trace(first + second) =~= m.trace(first) + m.run(first).trace(second));
    }
}

/// Over any series of events the accesses that act on the bus are the effects
/// of the steps that the cursor has passed, in the order of the plan, each
/// made once. How many turns the busy-polls took has no part in it.
pub proof fn run_follows_plan(m: Machine, events: Seq<Event>)
    requires
        m.wf(),
    ensures
        m.run(events).wf(),
        m.run(events).steps == m.steps,
        m.cursor <= m.run(events).cursor,
        effects(m.trace(events)) == plan_effects(
            m.steps.subrange(m.cursor, m.run(events).cursor),
        ),
    decreases events.len(),
{
    if events.len() == 0 {
        reveal(Seq::filter);
        assert(m.steps.subrange(m.cursor, m.cursor) =~= Seq::<Step>::empty());
    } else {
        let earlier = events.drop_last();
        let before = m.run(earlier);
        let after = before.next(events.last());
        run_follows_plan(m, earlier);
        step_follows_plan(before, events.last());
        effects_of_push(m.trace(earlier), before.action());
        if after.cursor == before.cursor + 1 {
            let passed = m.steps.subrange(m.cursor, after.cursor);
            assert(passed.drop_last() =~= m.steps.subrange(m.cursor, before.cursor));
            assert(passed.last() == m.steps[before.cursor]);
        }
    }
}

/// From the beginning of a plan, the accesses that act on the bus are at
/// every moment a prefix of the plan's effects: nothing is left out, nothing
/// is done twice, nothing is done out of order. When the transaction has
/// ended well, they are all of the plan's effects.
pub proof fn accesses_follow_plan(steps: Seq<Step>, events: Seq<Event>)
    ensures
        effects(Machine::start(steps).trace(events)).is_prefix_of(plan_effects(steps)),
        Machine::start(steps).run(events).outcome() == Some(Ok::<(), Error>(())) ==> effects(
            Machine::start(steps).trace(events),
        ) == plan_effects(steps),
{
    let m = Machine::start(steps);
    run_follows_plan(m, events);
    let cursor = m.run(events).cursor;
    plan_effects_add(steps.subrange(0, cursor), steps.subrange(cursor, steps.len() as int));
    assert(steps.subrange(0, cursor) + steps.subrange(cursor, steps.len() as int) =~= steps);
    if cursor == steps.len() {
        assert(steps.subrange(0, cursor) =~= steps);
    }
}

} // verus!
