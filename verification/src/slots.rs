//! The dispatcher's slots: each task can wait to be run once, not twice.

use vstd::prelude::*;

verus! {

/// A task that the dispatcher can be asked to run.
#[derive(Debug, Clone, Copy, PartialEq, Eq, Structural)]
pub enum Task {
    /// The debounced check of the door.
    CheckDoor,
    /// One step of the heater's animation.
    RunOven,
}

/// A request to the dispatcher to run a task once.
#[derive(Debug, Clone, Copy, PartialEq, Eq, Structural)]
pub enum Spawn {
    /// Run the task at once.
    Now(Task),
    /// Run the task after so many milliseconds.
    After(Task, u32),
}

/// Why a request was dropped: the task is waiting already. This is no fault.
/// The task that waits will do what the request was made for.
#[derive(Debug, Clone, Copy, PartialEq, Eq, Structural)]
pub struct AlreadyPending;

/// Which tasks are waiting to be run.
pub struct Slots {
    check_door: bool,
    run_oven: bool,
}

impl Slots {
    /// Whether `task` is waiting.
    pub closed spec fn holds(&self, task: Task) -> bool {
        match task {
            Task::CheckDoor => self.check_door,
            Task::RunOven => self.run_oven,
        }
    }

    /// Slots in which nothing waits.
    pub fn new() -> (slots: Slots)
        ensures
            forall|task: Task| !slots.holds(task),
    {
        Slots { check_door: false, run_oven: false }
    }

    /// Asks for `task` to be run. The request is granted if the task's slot
    /// is free, and dropped if the task is waiting already. Either way the
    /// task is waiting afterwards, and no other task is touched.
    pub fn request(&mut self, task: Task) -> (granted: Result<(), AlreadyPending>)
        ensures
            granted is Ok <==> !old(self).holds(task),
            final(self).holds(task),
            forall|other: Task| other != task ==> final(self).holds(other) == old(self).holds(other),
    {
        let taken = self.is_pending(task);
        match task {
            Task::CheckDoor => {
                self.check_door = true;
            },
            Task::RunOven => {
                self.run_oven = true;
            },
        }
        if taken {
            Err(AlreadyPending)
        } else {
            Ok(())
        }
    }

    /// The dispatcher starts `task`: its slot is free from now on, so that
    /// the task can ask for itself again while it runs. Returns whether the
    /// task had been waiting. If not, it was never asked for and must not run.
    pub fn start(&mut self, task: Task) -> (waiting: bool)
        ensures
            waiting == old(self).holds(task),
            !final(self).holds(task),
            forall|other: Task| other != task ==> final(self).holds(other) == old(self).holds(other),
    {
        let waiting = self.is_pending(task);
        match task {
            Task::CheckDoor => {
                self.check_door = false;
            },
            Task::RunOven => {
                self.run_oven = false;
            },
        }
        waiting
    }

    /// Whether `task` is waiting.
    pub fn is_pending(&self, task: Task) -> (pending: bool)
        ensures
            pending == self.holds(task),
    {
        match task {
            Task::CheckDoor => self.check_door,
            Task::RunOven => self.run_oven,
        }
    }
}

} // verus!
