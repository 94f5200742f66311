//! The bus sequencer. A [`Transfer`] walks the plan of one transaction: at
//! every moment it names one register access, and it moves on when it is
//! told what that access returned.

use crate::error::Error;
use crate::plan::{Condition, Step};
use crate::status::{check_and_clear_error_flags, Flag, Status};
use vstd::prelude::*;

verus! {

/// The next thing to do with the peripheral's registers.
#[derive(Clone, Copy, Debug, PartialEq, Eq)]
pub enum Action {
    /// Set START in the control register; with `ack`, set ACK as well.
    Start { ack: bool },
    /// Read the status register; answered by [`Event::Status`].
    ReadStatus,
    /// Clear this one flag in the status register.
    ClearFlag(Flag),
    /// Read the secondary status register; answered by [`Event::Secondary`].
    ReadSecondary,
    /// Read the control register; answered by [`Event::Control`].
    ReadControl,
    /// Write this byte to the data register.
    WriteData(u8),
    /// Read the secondary status register and drop the value: the read
    /// itself releases the address latch.
    ClearAddr,
    /// Read the data register; answered by [`Event::Data`].
    ReadData,
    /// Clear ACK and set STOP in the control register.
    NackStop,
    /// Set STOP in the control register.
    Stop,
    /// Nothing: the transaction is over, with this result.
    Finish(Result<(), Error>),
}

/// What a register access returned.
#[derive(Clone, Copy, Debug, PartialEq, Eq)]
pub enum Event {
    /// The access was made and returned nothing to look at.
    Done,
    /// The status register as read.
    Status(Status),
    /// Two bits of the secondary status register: master mode and bus busy.
    Secondary { msl: bool, busy: bool },
    /// The STOP bit of the control register.
    Control { stop: bool },
    /// The byte read from the data register.
    Data(u8),
}

/// Where one turn of a busy-poll stands.
#[derive(Clone, Copy, Debug, PartialEq, Eq, Structural)]
pub enum Poll {
    /// About to read the status register.
    Check,
    /// About to clear the flag that the monitor named. `met` keeps what the
    /// same status read showed of the awaited condition.
    Clear { flag: Flag, met: bool },
    /// About to read the register that shows a probed condition.
    Probe,
}

impl Action {
    /// Whether an event is what this access returns.
    pub open spec fn answered_by(self, event: Event) -> bool {
        match self {
            Action::ReadStatus => event is Status,
            Action::ReadSecondary => event is Secondary,
            Action::ReadControl => event is Control,
            Action::ReadData => event is Data,
            Action::Finish(_) => false,
            _ => event is Done,
        }
    }

    /// Whether the access acts on the bus or takes data from it, as opposed
    /// to the reads and flag clears of a busy-poll.
    pub open spec fn is_effect(self) -> bool {
        match self {
            Action::Start { .. }
            | Action::WriteData(_)
            | Action::ClearAddr
            | Action::ReadData
            | Action::NackStop
            | Action::Stop => true,
            _ => false,
        }
    }

    /// Whether an event is what this access returns.
    pub fn takes(&self, event: &Event) -> (fits: bool)
        ensures
            fits == self.answered_by(*event),
    {
        match *self {
            Action::ReadStatus => match *event {
                Event::Status(_) => true,
                _ => false,
            },
            Action::ReadSecondary => match *event {
                Event::Secondary { .. } => true,
                _ => false,
            },
            Action::ReadControl => match *event {
                Event::Control { .. } => true,
                _ => false,
            },
            Action::ReadData => match *event {
                Event::Data(_) => true,
                _ => false,
            },
            Action::Finish(_) => false,
            _ => match *event {
                Event::Done => true,
                _ => false,
            },
        }
    }
}

/// The sequencer as a mathematical value.
pub struct Machine {
    /// The plan.
    pub steps: Seq<Step>,
    /// Index of the step in progress; the length of the plan once all of it
    /// is done.
    pub cursor: int,
    /// Where the busy-poll in progress stands.
    pub poll: Poll,
    /// The bytes received so far.
    pub received: Seq<u8>,
    /// The failure that ended the transaction, if one did.
    pub failure: Option<Error>,
}

impl Machine {
    /// The sequencer at the beginning of a plan.
    pub open spec fn start(steps: Seq<Step>) -> Machine {
        Machine { steps, cursor: 0, poll: Poll::Check, received: Seq::empty(), failure: None }
    }

    /// The cursor is within the plan or just behind it.
    pub open spec fn wf(self) -> bool {
        0 <= self.cursor <= self.steps.len()
    }

    /// How the transaction ended, if it has: with the failure that a
    /// busy-poll met or that the plan holds at the cursor, or well, with the
    /// whole plan done.
    pub open spec fn outcome(self) -> Option<Result<(), Error>> {
        if let Some(error) = self.failure {
            Some(Err(error))
        } else if self.cursor >= self.steps.len() {
            Some(Ok(()))
        } else if let Step::Fail(error) = self.steps[self.cursor] {
            Some(Err(error))
        } else {
            None
        }
    }

    /// The register access that is due.
    pub open spec fn action(self) -> Action {
        match self.outcome() {
            Some(result) => Action::Finish(result),
            None => match self.steps[self.cursor] {
                Step::Start { ack } => Action::Start { ack },
                Step::Await(cond) => match self.poll {
                    Poll::Check => Action::ReadStatus,
                    Poll::Clear { flag, .. } => Action::ClearFlag(flag),
                    Poll::Probe => if cond == Condition::Master {
                        Action::ReadSecondary
                    } else {
                        Action::ReadControl
                    },
                },
                Step::Send(byte) => Action::WriteData(byte),
                Step::ClearAddr => Action::ClearAddr,
                Step::Receive => Action::ReadData,
                Step::NackStop => Action::NackStop,
                Step::Stop => Action::Stop,
                Step::Fail(error) => Action::Finish(Err(error)),
            },
        }
    }

    /// The step in progress is done: on to the next one.
    pub open spec fn pass(self) -> Machine {
        Machine { cursor: self.cursor + 1, poll: Poll::Check, ..self }
    }

    /// The busy-poll takes another turn.
    pub open spec fn again(self) -> Machine {
        Machine { poll: Poll::Check, ..self }
    }

    /// The end of an error check that found no failure: a probed condition
    /// is looked up next, another is decided by what the status showed.
    pub open spec fn settle(self, cond: Condition, met: bool) -> Machine {
        if cond.probed() {
            Machine { poll: Poll::Probe, ..self }
        } else if met {
            self.pass()
        } else {
            self.again()
        }
    }

    /// One move of a busy-poll for `cond`. A turn reads the status and puts
    /// it before the error flag monitor. If the monitor names a flag, the
    /// flag is cleared next; if the flag stands for a failure, the
    /// transaction ends with it, right after the flag was cleared. Only a
    /// turn without a failure looks at the condition, in the status just read
    /// or in the register that is probed for it.
    pub open spec fn wait(self, cond: Condition, event: Event) -> Machine {
        match self.poll {
            Poll::Check => match event {
                Event::Status(status) => {
                    let met = status.verdict() is Ok && cond.seen_in(status);
                    match status.pending() {
                        Some(flag) => Machine { poll: Poll::Clear { flag, met }, ..self },
                        None => self.settle(cond, met),
                    }
                },
                _ => self,
            },
            Poll::Clear { flag, met } => match flag.signals() {
                Some(error) => Machine { failure: Some(error), poll: Poll::Check, ..self },
                None => self.settle(cond, met),
            },
            Poll::Probe => match event {
                Event::Secondary { msl, busy } => if msl && busy {
                    self.pass()
                } else {
                    self.again()
                },
                Event::Control { stop } => if stop {
                    self.again()
                } else {
                    self.pass()
                },
                _ => self,
            },
        }
    }

    /// The sequencer after an event. An event that does not answer the
    /// access that was due changes nothing, and nothing changes once the
    /// transaction is over.
    pub open spec fn next(self, event: Event) -> Machine {
        if !self.action().answered_by(event) {
            self
        } else {
            match self.steps[self.cursor] {
                Step::Await(cond) => self.wait(cond, event),
                Step::Receive => match event {
                    Event::Data(byte) => Machine {
                        received: self.received.push(byte),
                        ..self.pass()
                    },
                    _ => self,
                },
                Step::Fail(_) => self,
                _ => self.pass(),
            }
        }
    }

    /// The sequencer after a series of events.
    pub open spec fn run(self, events: Seq<Event>) -> Machine
        decreases events.len(),
    {
        if events.len() == 0 {
            self
        } else {
            self.run(events.drop_last()).next(events.last())
        }
    }

    /// The accesses made in the course of a series of events: for each event
    /// in turn, the access that was due, if the event answers it.
    pub open spec fn trace(self, events: Seq<Event>) -> Seq<Action>
        decreases events.len(),
    {
        if events.len() == 0 {
            Seq::empty()
        } else {
            let earlier = self.trace(events.drop_last());
            let due = self.run(events.drop_last()).action();
            if due.answered_by(events.last()) {
                earlier.push(due)
            } else {
                earlier
            }
        }
    }
}

/// The sequencer of one transaction.
pub struct Transfer {
    steps: Vec<Step>,
    cursor: usize,
    poll: Poll,
    received: Vec<u8>,
    failure: Option<Error>,
}

impl View for Transfer {
    type V = Machine;

    closed spec fn view(&self) -> Machine {
        Machine {
            steps: self.steps@,
            cursor: self.cursor as int,
            poll: self.poll,
            received: self.received@,
            failure: self.failure,
        }
    }
}

impl Transfer {
    /// A sequencer at the beginning of a plan.
    pub fn new(steps: Vec<Step>) -> (transfer: Transfer)
        ensures
            transfer@ == Machine::start(steps@),
            transfer@.wf(),
    {
        Transfer { steps, cursor: 0, poll: Poll::Check, received: Vec::new(), failure: None }
    }

    /// The plan.
    pub fn steps(&self) -> (steps: &Vec<Step>)
        ensures
            steps@ == self@.steps,
    {
        &self.steps
    }

    /// The bytes received so far, in the order in which they came.
    pub fn received(&self) -> (bytes: &Vec<u8>)
        ensures
            bytes@ == self@.received,
    {
        &self.received
    }

    /// How the transaction ended, or `None` while it is under way.
    pub fn outcome(&self) -> (outcome: Option<Result<(), Error>>)
        ensures
            outcome == self@.outcome(),
    {
        if let Some(error) = self.failure {
            Some(Err(error))
        } else if self.cursor >= self.steps.len() {
            Some(Ok(()))
        } else if let Step::Fail(error) = self.steps[self.cursor] {
            Some(Err(error))
        } else {
            None
        }
    }

    /// The register access that is due. Once the transaction is over it is
    /// `Finish`, with the result.
    pub fn action(&self) -> (action: Action)
        ensures
            action == self@.action(),
    {
        match self.outcome() {
            Some(result) => Action::Finish(result),
            None => match self.steps[self.cursor] {
                Step::Start { ack } => Action::Start { ack },
                Step::Await(cond) => match self.poll {
                    Poll::Check => Action::ReadStatus,
                    Poll::Clear { flag, .. } => Action::ClearFlag(flag),
                    Poll::Probe => match cond {
                        Condition::Master => Action::ReadSecondary,
                        _ => Action::ReadControl,
                    },
                },
                Step::Send(byte) => Action::WriteData(byte),
                Step::ClearAddr => Action::ClearAddr,
                Step::Receive => Action::ReadData,
                Step::NackStop => Action::NackStop,
                Step::Stop => Action::Stop,
                Step::Fail(error) => Action::Finish(Err(error)),
            },
        }
    }

    fn pass(&mut self)
        requires
            old(self).cursor < old(self).steps.len(),
        ensures
            final(self)@ == old(self)@.pass(),
    {
        self.cursor = self.cursor + 1;
        self.poll = Poll::Check;
    }

    fn settle(&mut self, cond: Condition, met: bool)
        requires
            old(self).cursor < old(self).steps.len(),
        ensures
            final(self)@ == old(self)@.settle(cond, met),
    {
        if cond.is_probed() {
            self.poll = Poll::Probe;
        } else if met {
            self.pass();
        } else {
            self.poll = Poll::Check;
        }
    }

    fn wait(&mut self, cond: Condition, event: Event)
        requires
            old(self).cursor < old(self).steps.len(),
            old(self)@.action().answered_by(event),
            old(self).steps[old(self).cursor as int] == Step::Await(cond),
        ensures
            final(self)@ == old(self)@.wait(cond, event),
    {
        match self.poll {
            Poll::Check => {
                if let Event::Status(status) = event {
                    let checked = check_and_clear_error_flags(status);
                    let met: bool = match checked.status {
                        Ok(seen) => cond.shown_by(&seen),
                        Err(_) => false,
                    };
                    match checked.clear {
                        Some(flag) => {
                            self.poll = Poll::Clear { flag, met };
                        },
                        None => {
                            self.settle(cond, met);
                        },
                    }
                }
            },
            Poll::Clear { flag, met } => {
                match flag.error() {
                    Some(error) => {
                        self.failure = Some(error);
                        self.poll = Poll::Check;
                    },
                    None => {
                        self.settle(cond, met);
                    },
                }
            },
            Poll::Probe => {
                match event {
                    Event::Secondary { msl, busy } => {
                        if msl && busy {
                            self.pass();
                        } else {
                            self.poll = Poll::Check;
                        }
                    },
                    Event::Control { stop } => {
                        if stop {
                            self.poll = Poll::Check;
                        } else {
                            self.pass();
                        }
                    },
                    _ => {},
                }
            },
        }
    }

    /// Takes what the access that was due returned, and moves on.
    pub fn advance(&mut self, event: Event)
        ensures
            final(self)@ == old(self)@.next(event),
            old(self)@.wf() ==> final(self)@.wf(),
    {
        let due = self.action();
        if !due.takes(&event) {
            return ;
        }
        match self.steps[self.cursor] {
            Step::Await(cond) => {
                self.wait(cond, event);
            },
            Step::Receive => {
                if let Event::Data(byte) = event {
                    self.received.push(byte);
                    self.pass();
                }
            },
            Step::Fail(_) => {},
            _ => {
                self.pass();
            },
        }
    }

    /// Replays a recorded series of events: feeds them in turn, and returns
    /// the accesses that they answered.
    pub fn run(&mut self, events: &[Event]) -> (actions: Vec<Action>)
        ensures
            final(self)@ == old(self)@.run(events@),
            actions@ == old(self)@.trace(events@),
            old(self)@.wf() ==> final(self)@.wf(),
    {
        let mut actions: Vec<Action> = Vec::new();
        let mut fed: usize = 0;
        while fed < events.len()
            invariant
                fed <= events.len(),
                self@ == old(self)@.run(events@.take(fed as int)),
                actions@ == old(self)@.trace(events@.take(fed as int)),
                old(self)@.wf() ==> self@.wf(),
            decreases events.len() - fed,
        {
            let due = self.action();
            if due.takes(&events[fed]) {
                actions.push(due);
            }
            self.advance(events[fed]);
            proof {
                assert(events@.take(fed + 1).drop_last() =~= events@.take(fed as int));
            }
            fed = fed + 1;
        }
        proof {
            assert(events@.take(fed as int) =~= events@);
        }
        actions
    }
}

} // verus!
