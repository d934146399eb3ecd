//! The coordinator: the three tasks of the oven and the slots they wait in.
//!
//! An edge on the door line asks for one check of the door after a settle
//! delay. The check samples the line and switches the heater. The heater's
//! task shows one frame and asks to be run again until the run is over.
//!
//! Each task has one slot. A request for a task whose slot is taken is
//! dropped: the task that is already waiting will do the work.

use crate::color::{Rgb, LED_NUM};
use crate::door::{door_state, OvenDoor, State};
use crate::heater::{
    blank_frame, lemma_full_cycle, lemma_steps_within_cycle, Heater, HeaterModel, CYCLE_LENGTH,
};
use crate::slots::{Slots, Spawn, Task};
use vstd::prelude::*;

verus! {

/// The two delays of the oven, in milliseconds.
#[derive(Debug, Clone, Copy, PartialEq, Eq, Structural)]
pub struct Timing {
    /// From an edge on the door line to the check of the door.
    pub settle_ms: u32,
    /// From one frame of the animation to the next.
    pub frame_ms: u32,
}

impl Default for Timing {
    /// A settle delay of 100 ms and 10 ms between frames.
    fn default() -> (timing: Timing)
        ensures
            timing == (Timing { settle_ms: 100, frame_ms: 10 }),
    {
        Timing { settle_ms: 100, frame_ms: 10 }
    }
}

/// What can happen to the oven.
#[derive(Debug, Clone, Copy, PartialEq, Eq)]
pub enum Event {
    /// The door line raised its edge interrupt.
    Edge,
    /// The dispatcher runs the door check. The sample of the line was taken
    /// now: `Some(true)` for a low line, `None` for a failed read.
    CheckDue(Option<bool>),
    /// The dispatcher runs the heater's task.
    RunDue,
}

/// What the application has to do after an event.
#[derive(Debug, Clone, Copy, PartialEq, Eq)]
pub struct Actions {
    /// Clear the pending-interrupt flag of the door line.
    pub clear_interrupt: bool,
    /// The door's state as just sampled, to report.
    pub report: Option<State>,
    /// Transmit the heater's frame to the LEDs.
    pub write_frame: bool,
    /// Hand this request to the dispatcher.
    pub spawn: Option<Spawn>,
}

impl Actions {
    /// Nothing to do.
    pub open spec fn none() -> Actions {
        Actions { clear_interrupt: false, report: None, write_frame: false, spawn: None }
    }
}

/// What a replayed sequence of events amounted to.
#[derive(Debug, Clone, Copy, PartialEq, Eq)]
pub struct Tally {
    /// Edge interrupts.
    pub edges: usize,
    /// Door checks that ran.
    pub checks: usize,
    /// Frames that went out to the LEDs.
    pub frames: usize,
}

/// The oven as a value: the heater, the delays, and which tasks are waiting
/// in their slots.
pub struct OvenModel {
    pub heater: HeaterModel,
    pub timing: Timing,
    /// A door check has been asked for and has not run yet.
    pub check_pending: bool,
    /// A step of the animation has been asked for and has not run yet.
    pub run_pending: bool,
}

impl OvenModel {
    /// The heater is well formed.
    pub open spec fn wf(self) -> bool {
        self.heater.wf()
    }

    /// The oven at start: heater off at the start of its cycle, no check
    /// waiting, and one step of the animation asked for, which will blank
    /// the LEDs.
    pub open spec fn initial(timing: Timing) -> OvenModel {
        OvenModel {
            heater: HeaterModel { enabled: false, step: 0, frame: blank_frame() },
            timing,
            check_pending: false,
            run_pending: true,
        }
    }

    /// The oven after an edge interrupt: a check is waiting, whether or not
    /// one was waiting before.
    pub open spec fn on_edge(self) -> OvenModel {
        OvenModel { check_pending: true, ..self }
    }

    /// The oven after the door check has run on the sample `low`. With no
    /// check waiting nothing runs. Else the slot is free again and the heater
    /// is switched as the door stands; a closed door also sees to it that the
    /// animation is waiting to run.
    pub open spec fn on_check(self, low: Option<bool>) -> OvenModel {
        if !self.check_pending {
            self
        } else {
            let closed = door_state(low) == State::Closed;
            OvenModel {
                heater: self.heater.enable(closed),
                check_pending: false,
                run_pending: self.run_pending || closed,
                ..self
            }
        }
    }

    /// The oven after the heater's task has run. With no step waiting nothing
    /// runs. Else the heater takes one step, and the task waits again unless
    /// that step ended the run.
    pub open spec fn on_run(self) -> OvenModel {
        if !self.run_pending {
            self
        } else {
            OvenModel { heater: self.heater.advance(), run_pending: !self.heater.done(), ..self }
        }
    }

    /// The oven after `event`.
    pub open spec fn react(self, event: Event) -> OvenModel {
        match event {
            Event::Edge => self.on_edge(),
            Event::CheckDue(low) => self.on_check(low),
            Event::RunDue => self.on_run(),
        }
    }

    /// What an edge interrupt asks for: always to clear the line's flag, and
    /// a door check after the settle delay unless one is waiting already.
    pub open spec fn edge_actions(self) -> Actions {
        Actions {
            clear_interrupt: true,
            report: None,
            write_frame: false,
            spawn: if self.check_pending {
                None
            } else {
                Some(Spawn::After(Task::CheckDoor, self.timing.settle_ms))
            },
        }
    }

    /// What the door check asks for: to report the door's state, and, where
    /// the door is closed and no step of the animation is waiting, to run
    /// the animation at once.
    pub open spec fn check_actions(self, low: Option<bool>) -> Actions {
        if !self.check_pending {
            Actions::none()
        } else {
            Actions {
                clear_interrupt: false,
                report: Some(door_state(low)),
                write_frame: false,
                spawn: if door_state(low) == State::Closed && !self.run_pending {
                    Some(Spawn::Now(Task::RunOven))
                } else {
                    None
                },
            }
        }
    }

    /// What the heater's task asks for: to transmit the frame, and to be run
    /// again after the frame delay unless the run is over.
    pub open spec fn run_actions(self) -> Actions {
        if !self.run_pending {
            Actions::none()
        } else {
            Actions {
                clear_interrupt: false,
                report: None,
                write_frame: true,
                spawn: if self.heater.done() {
                    None
                } else {
                    Some(Spawn::After(Task::RunOven, self.timing.frame_ms))
                },
            }
        }
    }

    /// What the application has to do after `event`.
    pub open spec fn actions(self, event: Event) -> Actions {
        match event {
            Event::Edge => self.edge_actions(),
            Event::CheckDue(low) => self.check_actions(low),
            Event::RunDue => self.run_actions(),
        }
    }

    /// The oven after the events of `events`, in their order.
    pub open spec fn run(self, events: Seq<Event>) -> OvenModel
        decreases events.len(),
    {
        if events.len() == 0 {
            self
        } else {
            self.run(events.drop_last()).react(events.last())
        }
    }

    /// How often the door check does its work in the course of `events`: the
    /// number of `CheckDue` events that find a check waiting.
    pub open spec fn checks_run(self, events: Seq<Event>) -> nat
        decreases events.len(),
    {
        if events.len() == 0 {
            0
        } else {
            let before = self.run(events.drop_last());
            let now: nat = if events.last() is CheckDue && before.check_pending {
                1
            } else {
                0
            };
            self.checks_run(events.drop_last()) + now
        }
    }

    /// How many frames are transmitted in the course of `events`: the number
    /// of `RunDue` events that find a step waiting.
    pub open spec fn frames_written(self, events: Seq<Event>) -> nat
        decreases events.len(),
    {
        if events.len() == 0 {
            0
        } else {
            let before = self.run(events.drop_last());
            let now: nat = if events.last() is RunDue && before.run_pending {
                1
            } else {
                0
            };
            self.frames_written(events.drop_last()) + now
        }
    }
}

/// The number of edge interrupts among `events`.
pub open spec fn edges(events: Seq<Event>) -> nat
    decreases events.len(),
{
    if events.len() == 0 {
        0
    } else {
        let now: nat = if events.last() is Edge {
            1
        } else {
            0
        };
        edges(events.drop_last()) + now
    }
}

/// `n` events in a row that run the heater's task.
pub open spec fn ticks(n: nat) -> Seq<Event> {
    Seq::new(n, |i: int| Event::RunDue)
}

/// The oven: door, heater, and the slots of the two spawned tasks.
pub struct Oven<Pin> {
    door: OvenDoor<Pin>,
    heater: Heater,
    timing: Timing,
    slots: Slots,
}

impl<Pin> View for Oven<Pin> {
    type V = OvenModel;

    closed spec fn view(&self) -> OvenModel {
        OvenModel {
            heater: self.heater@,
            timing: self.timing,
            check_pending: self.slots.holds(Task::CheckDoor),
            run_pending: self.slots.holds(Task::RunOven),
        }
    }
}

impl<Pin> Oven<Pin> {
    /// The door line.
    pub closed spec fn line(&self) -> Pin {
        self.door.line()
    }

    /// Sets the oven up around the door line `pin`. `low` is a sample of the
    /// line, taken to report where the door stands. It does not switch the
    /// heater: only a check after an edge does.
    ///
    /// The application reports the state and spawns the heater's task, which
    /// blanks the LEDs.
    pub fn init(pin: Pin, timing: Timing, low: Option<bool>) -> (started: (Self, Actions))
        ensures
            started.0@ == OvenModel::initial(timing),
            started.0.line() == pin,
            started.1 == (Actions {
                clear_interrupt: false,
                report: Some(door_state(low)),
                write_frame: false,
                spawn: Some(Spawn::Now(Task::RunOven)),
            }),
    {
        // Setup the Oven door
        let door = OvenDoor::new(pin);

        // Setup the Oven heater (Neopixel array)
        let heater = Heater::new();

        let report = Some(door.state(low));

        let mut slots = Slots::new();
        let spawn = match slots.request(Task::RunOven) {
            Ok(()) => Some(Spawn::Now(Task::RunOven)),
            Err(_) => None,
        };
        let oven = Oven { door, heater, timing, slots };
        (oven, Actions { clear_interrupt: false, report, write_frame: false, spawn })
    }

    /// The task bound to the edge interrupt of the door line.
    pub fn on_door_event(&mut self) -> (acts: Actions)
        ensures
            final(self)@ == old(self)@.on_edge(),
            acts == old(self)@.edge_actions(),
            final(self).line() == old(self).line(),
    {
        let spawn = match self.slots.request(Task::CheckDoor) {
            Ok(()) => Some(Spawn::After(Task::CheckDoor, self.timing.settle_ms)),
            Err(_) => None,
        };
        Actions { clear_interrupt: true, report: None, write_frame: false, spawn }
    }

    /// The debounced check of the door, on a sample of the line taken now.
    pub fn check_door(&mut self, low: Option<bool>) -> (acts: Actions)
        ensures
            final(self)@ == old(self)@.on_check(low),
            acts == old(self)@.check_actions(low),
            final(self).line() == old(self).line(),
    {
        if !self.slots.start(Task::CheckDoor) {
            return Actions { clear_interrupt: false, report: None, write_frame: false, spawn: None };
        }
        let state = self.door.state(low);
        let spawn = match state {
            State::Open => {
                self.heater.enable(false);
                None
            },
            State::Closed => {
                self.heater.enable(true);
                match self.slots.request(Task::RunOven) {
                    Ok(()) => Some(Spawn::Now(Task::RunOven)),
                    Err(_) => None,
                }
            },
        };
        Actions { clear_interrupt: false, report: Some(state), write_frame: false, spawn }
    }

    /// The heater's task: one frame of the animation.
    pub fn run_oven(&mut self) -> (acts: Actions)
        ensures
            final(self)@ == old(self)@.on_run(),
            acts == old(self)@.run_actions(),
            final(self).line() == old(self).line(),
    {
        if !self.slots.start(Task::RunOven) {
            return Actions { clear_interrupt: false, report: None, write_frame: false, spawn: None };
        }
        let done = self.heater.rainbow();
        let spawn = if done {
            None
        } else {
            match self.slots.request(Task::RunOven) {
                Ok(()) => Some(Spawn::After(Task::RunOven, self.timing.frame_ms)),
                Err(_) => None,
            }
        };
        Actions { clear_interrupt: false, report: None, write_frame: true, spawn }
    }

    /// Runs the task that `event` stands for.
    pub fn handle(&mut self, event: Event) -> (acts: Actions)
        ensures
            final(self)@ == old(self)@.react(event),
            acts == old(self)@.actions(event),
            final(self).line() == old(self).line(),
    {
        match event {
            Event::Edge => self.on_door_event(),
            Event::CheckDue(low) => self.check_door(low),
            Event::RunDue => self.run_oven(),
        }
    }

    /// Runs the tasks that `events` stand for, one after the other, and
    /// counts what happened.
    pub fn replay(&mut self, events: &[Event]) -> (tally: Tally)
        ensures
            final(self)@ == old(self)@.run(events@),
            tally.edges == edges(events@),
            tally.checks == old(self)@.checks_run(events@),
            tally.frames == old(self)@.frames_written(events@),
            final(self).line() == old(self).line(),
    {
        let mut tally = Tally { edges: 0, checks: 0, frames: 0 };
        let ghost start = self@;
        let ghost line = self.line();
        for i in 0..events.len()
            invariant
                self@ == start.run(events@.take(i as int)),
                self.line() == line,
                tally.edges == edges(events@.take(i as int)),
                tally.checks == start.checks_run(events@.take(i as int)),
                tally.frames == start.frames_written(events@.take(i as int)),
                tally.edges <= i,
                tally.checks <= i,
                tally.frames <= i,
        {
            assert(events@.take(i + 1).drop_last() =~= events@.take(i as int));
            let acts = self.handle(events[i]);
            match events[i] {
                Event::Edge => {
                    tally.edges = tally.edges + 1;
                },
                Event::CheckDue(_) => {
                    if acts.report.is_some() {
                        tally.checks = tally.checks + 1;
                    }
                },
                Event::RunDue => {
                    if acts.write_frame {
                        tally.frames = tally.frames + 1;
                    }
                },
            }
        }
        assert(events@.take(events.len() as int) =~= events@);
        tally
    }

    /// Whether `task` is waiting in its slot.
    pub fn is_pending(&self, task: Task) -> (pending: bool)
        ensures
            pending == match task {
                Task::CheckDoor => self@.check_pending,
                Task::RunOven => self@.run_pending,
            },
    {
        self.slots.is_pending(task)
    }

    /// The door, to sample its line.
    pub fn door(&self) -> (door: &OvenDoor<Pin>)
        ensures
            door.line() == self.line(),
    {
        &self.door
    }

    /// The door, to clear the pending interrupt of its line.
    pub fn door_mut(&mut self) -> (door: &mut OvenDoor<Pin>)
        ensures
            door.line() == old(self).line(),
            final(self).line() == final(door).line(),
            final(self)@ == old(self)@,
    {
        &mut self.door
    }

    /// The heater, to read its frame.
    pub fn heater(&self) -> (heater: &Heater)
        ensures
            heater@ == self@.heater,
    {
        &self.heater
    }

    /// The frame that the LEDs are to show.
    pub fn frame(&self) -> (frame: &[Rgb; LED_NUM])
        ensures
            frame@ == self@.heater.frame,
    {
        self.heater.frame()
    }
}

/// Every event keeps the oven well formed.
pub proof fn lemma_react_wf(m: OvenModel, event: Event)
    requires
        m.wf(),
    ensures
        m.react(event).wf(),
{
}

/// An edge that arrives while a check is waiting is absorbed: it asks for no
/// further check and leaves the oven as it is. So two edges within the
/// settle delay leave the oven as one does.
pub proof fn lemma_edge_absorbed(m: OvenModel)
    ensures
        m.check_pending ==> m.on_edge() == m && m.edge_actions().spawn is None,
        m.on_edge().on_edge() == m.on_edge(),
        m.on_edge().edge_actions().spawn is None,
        m.edge_actions().clear_interrupt,
{
}

/// The door check runs no more often than the line has raised its interrupt.
/// Counted exactly: the checks run, and the one still waiting at the end if
/// there is one, are at most the edges and the check that was waiting at the
/// start.
pub proof fn lemma_checks_bounded_by_edges(m: OvenModel, events: Seq<Event>)
    ensures
        m.checks_run(events) + (if m.run(events).check_pending { 1nat } else { 0 })
            <= edges(events) + (if m.check_pending { 1nat } else { 0 }),
        !m.check_pending ==> m.checks_run(events) <= edges(events),
    decreases events.len(),
{
    if events.len() > 0 {
        lemma_checks_bounded_by_edges(m, events.drop_last());
    }
}

/// While a check is waiting, edges alone run no check and ask for none.
pub proof fn lemma_edges_while_pending(m: OvenModel, events: Seq<Event>)
    requires
        m.check_pending,
        forall|i: int| 0 <= i < events.len() ==> events[i] is Edge,
    ensures
        m.run(events) == m,
        m.checks_run(events) == 0,
    decreases events.len(),
{
    if events.len() > 0 {
        lemma_edges_while_pending(m, events.drop_last());
    }
}

/// The check acts on the sample that it is handed when it runs, and on
/// nothing that the line did before: a definite low switches the heater off,
/// anything else switches it on and has the animation waiting.
pub proof fn lemma_check_follows_sample(m: OvenModel, low: Option<bool>)
    requires
        m.check_pending,
    ensures
        m.on_check(low).heater.enabled <==> low != Some(true),
        m.check_actions(low).report == Some(door_state(low)),
        !m.on_check(low).check_pending,
        low != Some(true) ==> m.on_check(low).run_pending,
        low == Some(true) ==> m.on_check(low).run_pending == m.run_pending,
        m.on_check(low).on_check(low) == m.on_check(low),
{
}

/// At most one step of the animation is in flight: while one is waiting, the
/// door check asks for no other.
pub proof fn lemma_no_overlapping_run(m: OvenModel, low: Option<bool>)
    requires
        m.run_pending,
    ensures
        m.check_actions(low).spawn is None,
        m.on_check(low).run_pending,
{
}

/// A run of the animation, once started, is a chain of exactly as many
/// frames as the cycle has steps left. After `n` of them, the heater has
/// taken `n` steps and `n` frames have gone out; the chain is still waiting
/// to go on before the cycle's last step and has come to rest after it, with
/// the heater switched off.
pub proof fn lemma_run_chain(m: OvenModel, n: nat)
    requires
        m.wf(),
        m.run_pending,
        m.heater.enabled,
        m.heater.step + n <= CYCLE_LENGTH,
    ensures
        m.run(ticks(n)).heater == m.heater.advance_by(n),
        m.run(ticks(n)).run_pending <==> m.heater.step + n < CYCLE_LENGTH,
        m.run(ticks(n)).check_pending == m.check_pending,
        m.run(ticks(n)).heater.enabled <==> m.heater.step + n < CYCLE_LENGTH,
        m.frames_written(ticks(n)) == n,
    decreases n,
{
    if n > 0 {
        let before = (n - 1) as nat;
        lemma_run_chain(m, before);
        lemma_steps_within_cycle(m.heater, before);
        assert(ticks(n).drop_last() =~= ticks(before));
    }
}

/// A door that is found open stops the animation at its next step: that step
/// shows the blank frame and asks for no further one, however few steps the
/// run has taken.
pub proof fn lemma_open_door_halts(m: OvenModel)
    requires
        m.check_pending,
        m.run_pending,
    ensures
        ({
            let opened = m.on_check(Some(true));
            &&& !opened.heater.enabled
            &&& opened.run_actions().write_frame
            &&& opened.run_actions().spawn is None
            &&& opened.on_run().heater.frame == blank_frame()
            &&& opened.on_run().heater.step == m.heater.step
            &&& !opened.on_run().run_pending
        }),
{
}

/// Events that follow one another can be taken in two parts: the oven
/// after both is the oven after the second part, begun where the first part
/// left it, and what happened is the sum of what happened in each.
pub proof fn lemma_run_in_parts(m: OvenModel, first: Seq<Event>, second: Seq<Event>)
    ensures
        m.run(first + second) == m.run(first).run(second),
        edges(first + second) == edges(first) + edges(second),
        m.checks_run(first + second) == m.checks_run(first) + m.run(first).checks_run(second),
        m.frames_written(first + second) == m.frames_written(first) + m.run(first).frames_written(
            second,
        ),
    decreases second.len(),
{
    if second.len() == 0 {
        assert(first + second =~= first);
    } else {
        lemma_run_in_parts(m, first, second.drop_last());
        assert((first + second).drop_last() =~= first + second.drop_last());
    }
}

/// A single event does what its task does.
pub proof fn lemma_run_single(m: OvenModel, event: Event)
    ensures
        m.run(seq![event]) == m.react(event),
        edges(seq![event]) == (if event is Edge { 1nat } else { 0 }),
        m.checks_run(seq![event]) == (if event is CheckDue && m.check_pending { 1nat } else { 0 }),
        m.frames_written(seq![event]) == (if event is RunDue && m.run_pending { 1nat } else { 0 }),
{
    let nothing = seq![event].drop_last();
    assert(nothing =~= Seq::<Event>::empty());
    assert(m.run(nothing) == m);
    assert(edges(nothing) == 0);
    assert(m.checks_run(nothing) == 0);
    assert(m.frames_written(nothing) == 0);
}

/// Runs of the heater's task are no edges and run no check.
pub proof fn lemma_ticks_hold_no_edge(m: OvenModel, n: nat)
    ensures
        edges(ticks(n)) == 0,
        m.checks_run(ticks(n)) == 0,
    decreases n,
{
    if n > 0 {
        lemma_ticks_hold_no_edge(m, (n - 1) as nat);
        assert(ticks(n).drop_last() =~= ticks((n - 1) as nat));
    }
}

/// One closing of the door gives one turn of the wheel. An oven at rest at
/// the start of the cycle takes an edge, then the check that finds the door
/// closed, then as many runs of the heater's task as the cycle has steps.
/// The check has run once, every step has shown its frame, and the oven is at
/// rest again with the heater off: a further run of the task does nothing.
pub proof fn lemma_closed_door_turns_wheel_once(m: OvenModel, low: Option<bool>)
    requires
        m.wf(),
        !m.check_pending,
        !m.run_pending,
        m.heater.step == 0,
        low != Some(true),
    ensures
        ({
            let events = seq![Event::Edge, Event::CheckDue(low)] + ticks(CYCLE_LENGTH as nat);
            let rest = m.run(events);
            &&& edges(events) == 1
            &&& m.checks_run(events) == 1
            &&& m.frames_written(events) == CYCLE_LENGTH
            &&& !rest.check_pending
            &&& !rest.run_pending
            &&& !rest.heater.enabled
            &&& rest.heater.step == 0
            &&& rest.on_run() == rest
            &&& rest.run_actions() == Actions::none()
        }),
{
    let edge = seq![Event::Edge];
    let check = seq![Event::CheckDue(low)];
    let turn = ticks(CYCLE_LENGTH as nat);
    assert(seq![Event::Edge, Event::CheckDue(low)] =~= edge + check);

    lemma_run_single(m, Event::Edge);
    lemma_run_single(m.on_edge(), Event::CheckDue(low));
    lemma_run_in_parts(m, edge, check);
    let closed = m.on_edge().on_check(low);
    lemma_run_in_parts(m, edge + check, turn);
    lemma_run_chain(closed, CYCLE_LENGTH as nat);
    lemma_full_cycle(closed.heater);
    lemma_ticks_hold_no_edge(closed, CYCLE_LENGTH as nat);
}

} // verus!
