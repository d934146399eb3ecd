//! The heater element: a colour wheel that turns once across the LED strip.

use crate::color::{gamma_color, gamma_frame, hsv_color, hsv_to_rgb, Rgb, LED_NUM};
use vstd::prelude::*;

verus! {

/// Number of frames in one turn of the colour wheel.
pub const CYCLE_LENGTH: usize = 1024;

/// Saturation of every colour on the wheel.
pub const SATURATION: u8 = 255;

/// Brightness of every colour on the wheel, out of 255.
pub const VALUE: u8 = 100;

/// Hue of LED `led` at step `step` of the wheel.
pub open spec fn hue_at(led: int, step: int) -> int {
    (led * 3 + step) % 256
}

/// Colour of LED `led` at step `step`, before gamma correction.
pub open spec fn wheel_color(led: int, step: int) -> Rgb {
    hsv_color(hue_at(led, step) as u8, SATURATION, VALUE)
}

/// The frame that is shown at step `step`: the wheel's colours, gamma corrected.
pub open spec fn lit_frame(step: int) -> Seq<Rgb> {
    Seq::new(LED_NUM as nat, |led: int| gamma_color(wheel_color(led, step)))
}

/// The frame with every LED off.
pub open spec fn blank_frame() -> Seq<Rgb> {
    Seq::new(LED_NUM as nat, |led: int| Rgb::off())
}

/// The heater as a value: the switch, the place in the cycle, and the frame
/// that was computed last.
pub struct HeaterModel {
    pub enabled: bool,
    pub step: nat,
    pub frame: Seq<Rgb>,
}

impl HeaterModel {
    /// The step lies within the cycle, and the frame has one colour per LED.
    pub open spec fn wf(self) -> bool {
        self.step < CYCLE_LENGTH && self.frame.len() == LED_NUM
    }

    /// The heater after `enable(flag)`: only the switch changes.
    pub open spec fn enable(self, flag: bool) -> HeaterModel {
        HeaterModel { enabled: flag, ..self }
    }

    /// The frame that the next step computes: blank while the heater is
    /// off, else the wheel at the current step.
    pub open spec fn next_frame(self) -> Seq<Rgb> {
        if self.enabled {
            lit_frame(self.step as int)
        } else {
            blank_frame()
        }
    }

    /// Whether the next step ends the run: the heater is off, or the step is
    /// the last of the cycle.
    pub open spec fn done(self) -> bool {
        !self.enabled || self.step + 1 == CYCLE_LENGTH
    }

    /// The heater after the next step. A disabled heater keeps its place. An
    /// enabled one moves on by one step, and the step that wraps to zero
    /// switches it off.
    pub open spec fn advance(self) -> HeaterModel {
        if !self.enabled {
            HeaterModel { frame: self.next_frame(), ..self }
        } else if self.step + 1 == CYCLE_LENGTH {
            HeaterModel { enabled: false, step: 0, frame: self.next_frame() }
        } else {
            HeaterModel { enabled: true, step: self.step + 1, frame: self.next_frame() }
        }
    }

    /// The heater after `n` steps in a row.
    pub open spec fn advance_by(self, n: nat) -> HeaterModel
        decreases n,
    {
        if n == 0 {
            self
        } else {
            self.advance_by((n - 1) as nat).advance()
        }
    }
}

/// Hue of LED `led` at step `step`.
pub fn hue(led: usize, step: usize) -> (h: u8)
    ensures
        h == hue_at(led as int, step as int),
{
    let turn: usize = (led % 256) * 3 + step % 256;
    (turn % 256) as u8
}

/// Heater element
pub struct Heater {
    run: bool,
    step: usize,
    frame: [Rgb; LED_NUM],
}

impl View for Heater {
    type V = HeaterModel;

    closed spec fn view(&self) -> HeaterModel {
        HeaterModel { enabled: self.run, step: self.step as nat, frame: self.frame@ }
    }
}

impl Heater {
    /// Holds of every heater: the step lies within the cycle.
    #[verifier::type_invariant]
    pub open spec fn inv(&self) -> bool {
        self@.wf()
    }

    /// A heater that is off, at the start of the cycle, showing nothing.
    pub fn new() -> (heater: Self)
        ensures
            heater@ == (HeaterModel { enabled: false, step: 0, frame: blank_frame() }),
    {
        let heater = Heater { run: false, step: 0, frame: [Rgb::off(); LED_NUM] };
        assert(heater.frame@ =~= blank_frame());
        heater
    }

    /// Switches the animation on or off. The step keeps its place, and
    /// nothing is shown before the next call of `rainbow`.
    pub fn enable(&mut self, enable: bool)
        ensures
            final(self)@ == old(self)@.enable(enable),
    {
        proof {
            use_type_invariant(&*self);
        }
        self.run = enable;
    }

    /// Computes the next frame and moves on by one step. Returns whether the
    /// run is over, in which case the caller stops calling.
    pub fn rainbow(&mut self) -> (done: bool)
        ensures
            final(self)@ == old(self)@.advance(),
            done == old(self)@.done(),
    {
        proof {
            use_type_invariant(&*self);
        }
        let mut data = [Rgb::off(); LED_NUM];

        if !self.run {
            assert(data@ =~= blank_frame());
            self.frame = data;
            return true;
        }
        let j = self.step;

        for i in 0..LED_NUM
            invariant
                j < CYCLE_LENGTH,
                forall|k: int| 0 <= k < i ==> #[trigger] data@[k] == wheel_color(k, j as int),
        {
            // rainbow cycle using HSV, where hue goes through all colors in circle
            // value sets the brightness
            data[i] = hsv_to_rgb(hue(i, j), SATURATION, VALUE);
        }
        let lit = gamma_frame(&data);
        assert(lit@ =~= lit_frame(j as int));
        self.frame = lit;

        if j + 1 == CYCLE_LENGTH {
            self.step = 0;
            self.run = false;
            true
        } else {
            self.step = j + 1;
            false
        }
    }

    /// Whether the animation is switched on.
    pub fn enabled(&self) -> (enabled: bool)
        ensures
            enabled == self@.enabled,
    {
        self.run
    }

    /// The step that the next frame is computed for.
    pub fn step(&self) -> (step: usize)
        ensures
            step == self@.step,
            step < CYCLE_LENGTH,
    {
        proof {
            use_type_invariant(self);
        }
        self.step
    }

    /// The frame that the last call of `rainbow` computed, for transmission.
    pub fn frame(&self) -> (frame: &[Rgb; LED_NUM])
        ensures
            frame@ == self@.frame,
    {
        &self.frame
    }
}

/// The hue is a level from 0 to 255 and comes round again every 256 steps.
pub proof fn lemma_hue_periodic(led: int, step: int)
    ensures
        0 <= hue_at(led, step) < 256,
        hue_at(led, step + 256) == hue_at(led, step),
        wheel_color(led, step + 256) == wheel_color(led, step),
{
}

/// The colour of an LED depends on its place and on the step only through
/// `led * 3 + step` modulo 256: two places and steps that agree in it have
/// the same hue and the same colour, before and after gamma correction.
pub proof fn lemma_same_hue_same_color(led_a: int, step_a: int, led_b: int, step_b: int)
    requires
        (led_a * 3 + step_a) % 256 == (led_b * 3 + step_b) % 256,
    ensures
        hue_at(led_a, step_a) == hue_at(led_b, step_b),
        wheel_color(led_a, step_a) == wheel_color(led_b, step_b),
        gamma_color(wheel_color(led_a, step_a)) == gamma_color(wheel_color(led_b, step_b)),
{
}

/// A step keeps the heater well formed.
pub proof fn lemma_advance_wf(h: HeaterModel)
    requires
        h.wf(),
    ensures
        h.advance().wf(),
        h.enable(true).wf(),
        h.enable(false).wf(),
{
}

/// Once the heater is switched off, the very next step shows a frame of
/// eight LEDs that are off and ends the run, wherever in the cycle the heater
/// stands; and the heater keeps that place.
pub proof fn lemma_disabled_step_blanks(h: HeaterModel)
    ensures
        h.enable(false).done(),
        h.enable(false).advance().frame == blank_frame(),
        h.enable(false).advance().frame.len() == LED_NUM,
        forall|led: int|
            0 <= led < LED_NUM ==> #[trigger] h.enable(false).advance().frame[led] == (Rgb {
                r: 0,
                g: 0,
                b: 0,
            }),
        h.enable(false).advance().step == h.step,
        !h.enable(false).advance().enabled,
{
}

/// While an enabled heater has not reached the end of its cycle, `n` steps
/// move it on by `n`, leave it enabled, and the step that follows is the one
/// that ends the run exactly when it is the last of the cycle.
pub proof fn lemma_steps_within_cycle(h: HeaterModel, n: nat)
    requires
        h.wf(),
        h.enabled,
        h.step + n < CYCLE_LENGTH,
    ensures
        h.advance_by(n).enabled,
        h.advance_by(n).step == h.step + n,
        h.advance_by(n).done() <==> h.step + n + 1 == CYCLE_LENGTH,
        n > 0 ==> h.advance_by(n).frame == lit_frame(h.step + n - 1),
    decreases n,
{
    if n > 0 {
        lemma_steps_within_cycle(h, (n - 1) as nat);
    }
}

/// One run is one cycle. From the start of the cycle an enabled heater
/// reports "not done" for 1023 steps in a row and "done" at the 1024th, after
/// which it is switched off and back at the start.
pub proof fn lemma_full_cycle(h: HeaterModel)
    requires
        h.wf(),
        h.enabled,
        h.step == 0,
    ensures
        forall|k: nat| k < CYCLE_LENGTH - 1 ==> !(#[trigger] h.advance_by(k)).done(),
        h.advance_by((CYCLE_LENGTH - 1) as nat).done(),
        !h.advance_by(CYCLE_LENGTH as nat).enabled,
        h.advance_by(CYCLE_LENGTH as nat).step == 0,
{
    assert forall|k: nat| k < CYCLE_LENGTH - 1 implies !(#[trigger] h.advance_by(k)).done() by {
        lemma_steps_within_cycle(h, k);
    }
    lemma_steps_within_cycle(h, (CYCLE_LENGTH - 1) as nat);
    assert(h.advance_by(CYCLE_LENGTH as nat) == h.advance_by((CYCLE_LENGTH - 1) as nat).advance());
}

} // verus!
