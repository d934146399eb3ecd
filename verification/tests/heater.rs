use smart_leds::hsv::{hsv2rgb, Hsv};
use smart_leds::{gamma, RGB8};
use spisen::color::{Rgb, LED_NUM};
use spisen::heater::{hue, CYCLE_LENGTH, SATURATION, VALUE};
use spisen::Heater;

fn rgb(r: u8, g: u8, b: u8) -> Rgb {
    Rgb { r, g, b }
}

const BLANK: [Rgb; 8] = [Rgb { r: 0, g: 0, b: 0 }; 8];

/// An enabled heater that has taken `steps` steps from the start.
fn heater_at(steps: usize) -> Heater {
    let mut heater = Heater::new();
    heater.enable(true);
    for _ in 0..steps {
        assert!(!heater.rainbow());
    }
    heater
}

/// The frame for `step`, worked out with `smart_leds` itself.
fn frame_by_smart_leds(step: usize) -> Vec<Rgb> {
    let raw: Vec<RGB8> = (0..8usize)
        .map(|led| hsv2rgb(Hsv { hue: ((led * 3 + step) % 256) as u8, sat: 255, val: 100 }))
        .collect();
    gamma(raw.into_iter()).map(|c| rgb(c.r, c.g, c.b)).collect()
}

#[test]
fn constants_are_those_of_the_strip_and_the_wheel() {
    assert_eq!(LED_NUM, 8);
    assert_eq!(CYCLE_LENGTH, 1024);
    assert_eq!(SATURATION, 255);
    assert_eq!(VALUE, 100);
    assert_eq!(Rgb::off(), rgb(0, 0, 0));
}

#[test]
fn new_heater_is_off_at_the_start() {
    let heater = Heater::new();
    assert!(!heater.enabled());
    assert_eq!(heater.step(), 0);
    assert_eq!(*heater.frame(), BLANK);
}

#[test]
fn enable_switches_without_stepping() {
    let mut heater = Heater::new();
    heater.enable(true);
    assert!(heater.enabled());
    assert_eq!(heater.step(), 0);
    assert_eq!(*heater.frame(), BLANK);
    heater.enable(false);
    assert!(!heater.enabled());
    assert_eq!(heater.step(), 0);
}

#[test]
fn disabled_heater_shows_blank_and_is_done() {
    let mut heater = Heater::new();
    assert!(heater.rainbow());
    assert_eq!(*heater.frame(), BLANK);
    assert_eq!(heater.step(), 0);
    assert!(heater.rainbow());
    assert_eq!(heater.step(), 0);
}

#[test]
fn hue_is_three_per_led_plus_step_modulo_256() {
    assert_eq!(hue(0, 0), 0);
    assert_eq!(hue(1, 0), 3);
    assert_eq!(hue(7, 0), 21);
    assert_eq!(hue(0, 255), 255);
    assert_eq!(hue(1, 255), 2);
    assert_eq!(hue(0, 256), 0);
    assert_eq!(hue(7, 1023), 20);
    assert_eq!(hue(5, 700), 203);
}

#[test]
fn hue_takes_any_arguments() {
    assert_eq!(hue(usize::MAX, usize::MAX), ((usize::MAX % 256) * 3 + usize::MAX % 256) as u8);
    assert_eq!(hue(256, 512), 0);
    assert_eq!(hue(257, 513), 4);
}

#[test]
fn hue_is_periodic_in_the_step() {
    for led in 0..8 {
        for step in 0..768 {
            assert_eq!(hue(led, step), hue(led, step + 256));
        }
    }
}

#[test]
fn first_frame_is_red_shading_to_orange() {
    let mut heater = Heater::new();
    heater.enable(true);
    assert!(!heater.rainbow());
    let expected = [
        rgb(19, 0, 0),
        rgb(19, 0, 0),
        rgb(19, 0, 0),
        rgb(19, 0, 0),
        rgb(19, 1, 0),
        rgb(19, 1, 0),
        rgb(19, 2, 0),
        rgb(19, 3, 0),
    ];
    assert_eq!(*heater.frame(), expected);
    assert_eq!(heater.step(), 1);
}

#[test]
fn frame_at_step_60_is_green_with_fading_red() {
    let mut heater = heater_at(60);
    assert!(!heater.rainbow());
    let expected = [
        rgb(4, 19, 0),
        rgb(3, 19, 0),
        rgb(2, 19, 0),
        rgb(1, 19, 0),
        rgb(1, 19, 0),
        rgb(0, 19, 0),
        rgb(0, 19, 0),
        rgb(0, 19, 0),
    ];
    assert_eq!(*heater.frame(), expected);
}

#[test]
fn frame_at_step_700_is_blue_with_rising_red() {
    let mut heater = heater_at(700);
    assert!(!heater.rainbow());
    let expected = [
        rgb(2, 0, 19),
        rgb(3, 0, 19),
        rgb(4, 0, 19),
        rgb(5, 0, 19),
        rgb(7, 0, 19),
        rgb(9, 0, 19),
        rgb(11, 0, 19),
        rgb(14, 0, 19),
    ];
    assert_eq!(*heater.frame(), expected);
}

#[test]
fn frame_is_not_the_uncorrected_colour() {
    // Before gamma correction the first LED of the first frame is (100, 0, 0),
    // and hue, saturation and value are (0, 255, 100).
    let mut heater = Heater::new();
    heater.enable(true);
    heater.rainbow();
    assert_ne!(heater.frame()[0], rgb(100, 0, 0));
    assert_ne!(heater.frame()[0], rgb(0, 255, 100));
    assert_eq!(heater.frame()[0], rgb(19, 0, 0));
}

#[test]
fn every_frame_of_the_cycle_agrees_with_smart_leds() {
    let mut heater = Heater::new();
    heater.enable(true);
    for step in 0..1024 {
        heater.rainbow();
        assert_eq!(heater.frame().to_vec(), frame_by_smart_leds(step), "step {}", step);
    }
}

#[test]
fn frames_repeat_every_256_steps() {
    let mut heater = Heater::new();
    heater.enable(true);
    let mut frames: Vec<[Rgb; 8]> = Vec::new();
    for _ in 0..1024 {
        heater.rainbow();
        frames.push(*heater.frame());
    }
    for step in 0..768 {
        assert_eq!(frames[step], frames[step + 256]);
    }
    assert_ne!(frames[0], frames[128]);
}

#[test]
fn leds_with_the_same_hue_have_the_same_colour() {
    // LED 1 at step 0 and LED 0 at step 3 both have hue 3.
    let mut heater = Heater::new();
    heater.enable(true);
    heater.rainbow();
    let at_step_0 = *heater.frame();
    heater.rainbow();
    heater.rainbow();
    heater.rainbow();
    let at_step_3 = *heater.frame();
    for led in 1..8 {
        assert_eq!(at_step_0[led], at_step_3[led - 1]);
    }
}

#[test]
fn step_once_1024_times() {
    let mut heater = Heater::new();
    heater.enable(true);
    for call in 1..=1023 {
        assert!(!heater.rainbow(), "call {}", call);
        assert!(heater.enabled());
        assert_eq!(heater.step(), call);
    }
    assert!(heater.rainbow());
    assert!(!heater.enabled());
    assert_eq!(heater.step(), 0);
}

#[test]
fn last_step_of_the_cycle_still_shows_its_colours() {
    let mut heater = heater_at(1023);
    assert!(heater.rainbow());
    assert_eq!(heater.frame().to_vec(), frame_by_smart_leds(1023));
    assert_ne!(*heater.frame(), BLANK);
}

#[test]
fn step_after_the_cycle_is_blank_and_done() {
    let mut heater = heater_at(1023);
    assert!(heater.rainbow());
    assert!(heater.rainbow());
    assert_eq!(*heater.frame(), BLANK);
    assert_eq!(heater.step(), 0);
}

#[test]
fn disable_blanks_at_the_very_next_step_from_any_step() {
    for steps in [0usize, 1, 2, 255, 256, 500, 1022, 1023] {
        let mut heater = heater_at(steps);
        heater.enable(false);
        assert!(heater.rainbow(), "after {} steps", steps);
        assert_eq!(*heater.frame(), BLANK);
        assert!(!heater.enabled());
        assert_eq!(heater.step(), steps);
    }
}

#[test]
fn enabling_again_goes_on_where_the_heater_stood() {
    let mut heater = heater_at(500);
    heater.enable(false);
    assert!(heater.rainbow());
    heater.enable(true);
    assert!(!heater.rainbow());
    assert_eq!(heater.frame().to_vec(), frame_by_smart_leds(500));
    assert_eq!(heater.step(), 501);
    let mut calls = 1;
    while !heater.rainbow() {
        calls += 1;
    }
    assert_eq!(calls + 1, 1024 - 500);
    assert_eq!(heater.step(), 0);
}
