//! The door monitor: the sensor line and the reading of it.

use vstd::prelude::*;

verus! {

/// Position of the oven door.
#[derive(Debug, Clone, Copy, PartialEq, Eq, Structural)]
pub enum State {
    Open,
    Closed,
}

/// The position that one sample of the door line stands for.
///
/// `low` is the answer of the line to "are you low?", `None` where the read
/// failed. The line is pulled up and the switch pulls it down when the door
/// opens, so only a definite low means `Open`. A high line, an unconnected
/// one and a failed read all mean `Closed`.
pub open spec fn door_state(low: Option<bool>) -> State {
    if low == Some(true) {
        State::Open
    } else {
        State::Closed
    }
}

/// The oven door: owner of the sensor line `Pin`.
///
/// The door keeps no history. Its state is whatever the latest sample of the
/// line says, so the methods that report it take that sample.
pub struct OvenDoor<Pin> {
    /// Default closed
    pin: Pin,
}

impl<Pin> OvenDoor<Pin> {
    /// The line that the door owns.
    pub closed spec fn line(&self) -> Pin {
        self.pin
    }

    /// A door around its sensor line.
    pub fn new(pin: Pin) -> (door: Self)
        ensures
            door.line() == pin,
    {
        OvenDoor { pin }
    }

    /// The door's state according to the sample `low`.
    pub fn state(&self, low: Option<bool>) -> (state: State)
        ensures
            state == door_state(low),
    {
        if self.is_open(low) {
            State::Open
        } else {
            State::Closed
        }
    }

    /// Whether the sample `low` shows the door open.
    pub fn is_open(&self, low: Option<bool>) -> (open: bool)
        ensures
            open <==> low == Some(true),
            open <==> door_state(low) == State::Open,
    {
        match low {
            Some(is_low) => is_low,
            None => false,
        }
    }

    /// The line, to sample it.
    pub fn pin(&self) -> (pin: &Pin)
        ensures
            *pin == self.line(),
    {
        &self.pin
    }

    /// The line, to clear its pending interrupt.
    pub fn pin_mut(&mut self) -> (pin: &mut Pin)
        ensures
            *pin == old(self).line(),
            final(self).line() == *final(pin),
    {
        &mut self.pin
    }
}

} // verus!
