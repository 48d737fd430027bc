use seven_segment::console::{displaying_line, unimplemented_line};
use seven_segment::display::encode;
use seven_segment::segment::Segments;
use seven_segment::sequencer::{Action, DisplayLoop, TICK_MS};

fn log_of(actions: &[Action; 3]) -> String {
    match &actions[0] {
        Action::Log(line) => line.clone(),
        other => panic!("the first action is {:?}", other),
    }
}

fn levels_of(actions: &[Action; 3]) -> Segments {
    match &actions[1] {
        Action::Drive(segments) => *segments,
        other => panic!("the second action is {:?}", other),
    }
}

#[test]
fn first_tick_shows_zero() {
    let mut state = DisplayLoop::new();
    let actions = state.tick();
    assert_eq!(log_of(&actions), "Displaying number: 0");
    assert_eq!(
        levels_of(&actions),
        Segments { a: true, b: true, c: true, d: true, e: true, f: true, g: false }
    );
    assert_eq!(state.display().segments(), levels_of(&actions));
}

#[test]
fn second_tick_shows_one() {
    let mut state = DisplayLoop::new();
    let _ = state.tick();
    let actions = state.tick();
    assert_eq!(log_of(&actions), "Displaying number: 1");
    assert_eq!(
        levels_of(&actions),
        Segments { a: false, b: true, c: true, d: false, e: false, f: false, g: false }
    );
    assert_eq!(state.display().segments(), levels_of(&actions));
}

#[test]
fn tick_after_nine_shows_zero_again() {
    let mut state = DisplayLoop::new();
    let mut last = state.tick();
    for _ in 1..10 {
        last = state.tick();
    }
    assert_eq!(log_of(&last), "Displaying number: 9");
    assert_eq!(
        levels_of(&last),
        Segments { a: true, b: true, c: true, d: false, e: false, f: true, g: true }
    );
    assert_eq!(state.current_digit(), 0);
    let next = state.tick();
    assert_eq!(log_of(&next), "Displaying number: 0");
    assert_eq!(
        levels_of(&next),
        Segments { a: true, b: true, c: true, d: true, e: true, f: true, g: false }
    );
}

#[test]
fn a_tick_logs_then_drives_then_waits() {
    let mut state = DisplayLoop::new();
    for _ in 0..3 {
        let _ = state.tick();
    }
    let actions = state.tick();
    assert_eq!(
        actions,
        [
            Action::Log(String::from("Displaying number: 3")),
            Action::Drive(Segments {
                a: true,
                b: true,
                c: true,
                d: true,
                e: false,
                f: false,
                g: true
            }),
            Action::Wait(1000),
        ]
    );
}

#[test]
fn ten_ticks_show_each_digit_once_in_order() {
    let mut state = DisplayLoop::new();
    let mut shown = Vec::new();
    for _ in 0..10 {
        shown.push(state.current_digit());
        let _ = state.tick();
    }
    assert_eq!(shown, vec![0, 1, 2, 3, 4, 5, 6, 7, 8, 9]);
    assert_eq!(state.current_digit(), 0);
}

#[test]
fn the_counter_is_back_only_after_ten_ticks() {
    let mut state = DisplayLoop::new();
    for _ in 0..4 {
        let _ = state.tick();
    }
    let start = state.current_digit();
    assert_eq!(start, 4);
    for _ in 1..10 {
        let _ = state.tick();
        assert_ne!(state.current_digit(), start);
    }
    let _ = state.tick();
    assert_eq!(state.current_digit(), start);
}

#[test]
fn every_tick_matches_the_encoder_and_the_log() {
    let mut state = DisplayLoop::new();
    for n in 0..35 {
        let expected: i8 = n % 10;
        assert_eq!(state.current_digit(), expected);
        let actions = state.tick();
        assert_eq!(Some(levels_of(&actions)), encode(expected));
        assert_eq!(log_of(&actions), format!("Displaying number: {}", expected));
        assert_eq!(actions[2], Action::Wait(TICK_MS));
        assert_eq!(state.display().segments(), levels_of(&actions));
        assert_eq!(state.current_digit(), (expected + 1) % 10);
    }
}

#[test]
fn a_new_loop_is_about_to_show_zero_on_a_dark_display() {
    let state = DisplayLoop::new();
    assert_eq!(state.current_digit(), 0);
    assert_eq!(
        state.display().segments(),
        Segments { a: false, b: false, c: false, d: false, e: false, f: false, g: false }
    );
}

#[test]
fn the_tick_period_is_one_second() {
    assert_eq!(TICK_MS, 1000);
}

#[test]
fn displaying_line_of_each_digit() {
    assert_eq!(displaying_line(0), "Displaying number: 0");
    assert_eq!(displaying_line(1), "Displaying number: 1");
    assert_eq!(displaying_line(7), "Displaying number: 7");
    assert_eq!(displaying_line(9), "Displaying number: 9");
}

#[test]
fn displaying_line_of_longer_numbers() {
    assert_eq!(displaying_line(10), "Displaying number: 10");
    assert_eq!(displaying_line(100), "Displaying number: 100");
    assert_eq!(displaying_line(127), "Displaying number: 127");
    assert_eq!(displaying_line(-1), "Displaying number: -1");
    assert_eq!(displaying_line(-40), "Displaying number: -40");
    assert_eq!(displaying_line(-128), "Displaying number: -128");
}

#[test]
fn displaying_line_of_every_number() {
    for num in i8::MIN..=i8::MAX {
        assert_eq!(displaying_line(num), format!("Displaying number: {}", num));
    }
}

#[test]
fn unimplemented_line_text() {
    assert_eq!(unimplemented_line(), "Unimplemented");
}
