use spisen::door::State;
use spisen::OvenDoor;

/// A line for the door to own: it counts how often its flag was cleared.
struct Line {
    cleared: u32,
}

#[test]
fn low_line_means_open() {
    let door = OvenDoor::new(());
    assert!(door.is_open(Some(true)));
    assert_eq!(door.state(Some(true)), State::Open);
}

#[test]
fn high_line_means_closed() {
    let door = OvenDoor::new(());
    assert!(!door.is_open(Some(false)));
    assert_eq!(door.state(Some(false)), State::Closed);
}

#[test]
fn failed_read_means_closed() {
    let door = OvenDoor::new(());
    assert!(!door.is_open(None));
    assert_eq!(door.state(None), State::Closed);
}

#[test]
fn state_follows_each_sample_and_keeps_no_history() {
    let door = OvenDoor::new(());
    assert_eq!(door.state(Some(true)), State::Open);
    assert_eq!(door.state(Some(false)), State::Closed);
    assert_eq!(door.state(Some(true)), State::Open);
    assert_eq!(door.state(None), State::Closed);
}

#[test]
fn door_hands_out_the_line_it_was_given() {
    let mut door = OvenDoor::new(Line { cleared: 3 });
    assert_eq!(door.pin().cleared, 3);
    door.pin_mut().cleared += 1;
    door.pin_mut().cleared += 1;
    assert_eq!(door.pin().cleared, 5);
}

#[test]
fn state_prints_as_its_name() {
    assert_eq!(format!("{:?}", State::Open), "Open");
    assert_eq!(format!("{:?}", State::Closed), "Closed");
}
