//! Scenario tests for the animation and state engine.

use keybubbles::bubble::{Bubble, Color};
use keybubbles::layout::KeyboardLayout;
use keybubbles::model::{message_for_key, Message, Model, RunningState};
use keybubbles::sound::get_semitone_for_key;

#[test]
fn bubble_radius_is_non_decreasing() {
    let mut b = Bubble::new(5, 7, Color::Rgb(1, 2, 3), 0, 10, 1);
    let mut last_radius: u64 = b.circle.radius;
    for _ in 0..20 {
        let before = b;
        let sampled = b.tick_and_return_circle();
        assert!(b.circle.radius >= last_radius);
        last_radius = b.circle.radius;
        if before.finished() {
            assert!(sampled.is_none());
            assert_eq!(b, before);
        }
    }
}

#[test]
fn bubble_finishes_on_eleventh_advance() {
    // max_radius 10, speed 1: radii 1, 2, ..., 10, 11; the bubble finishes
    // exactly on the call that reaches radius 11, and that call still
    // returns the 11-radius circle.
    let mut b = Bubble::new(0, 0, Color::Rgb(0, 0, 0), 0, 10, 1);
    for i in 1..=10u64 {
        let sampled = b.tick_and_return_circle();
        let circle = sampled.expect("an animating bubble yields its circle");
        assert_eq!(circle.radius, i);
        assert!(!b.finished());
    }
    let sampled = b.tick_and_return_circle();
    let circle = sampled.expect("the finishing tick still yields a circle");
    assert_eq!(circle.radius, 11);
    assert!(b.finished());

    let after = b.tick_and_return_circle();
    assert!(after.is_none());
    assert_eq!(b.circle.radius, 11);
    assert!(b.finished());
}

#[test]
fn bubble_keeps_position_and_color() {
    let mut b = Bubble::new(40, 12, Color::Rgb(9, 8, 7), 0, 3, 2);
    let circle = b.tick_and_return_circle().unwrap();
    assert_eq!(circle.x, 40);
    assert_eq!(circle.y, 12);
    assert_eq!(circle.color, Color::Rgb(9, 8, 7));
}

#[test]
fn qwerty_layout_positions() {
    let layout = KeyboardLayout::create_keyboard_layout();
    assert_eq!(layout.len(), 36);
    assert_eq!(layout.row_count(), 4);
    assert_eq!(layout.column_count(), 10);

    assert_eq!(layout.position_of('z'), Some((0, 0)));
    assert_eq!(layout.position_of('m'), Some((0, 6)));
    assert_eq!(layout.position_of('a'), Some((1, 0)));
    assert_eq!(layout.position_of('l'), Some((1, 8)));
    assert_eq!(layout.position_of('q'), Some((2, 0)));
    assert_eq!(layout.position_of('p'), Some((2, 9)));
    assert_eq!(layout.position_of('1'), Some((3, 0)));
    assert_eq!(layout.position_of('0'), Some((3, 9)));

    assert_eq!(layout.position_of('!'), None);
    assert_eq!(layout.position_of(' '), None);
    assert_eq!(layout.position_of('Q'), None);
}

#[test]
fn qwerty_positions_lie_within_extent() {
    let layout = KeyboardLayout::create_keyboard_layout();
    let rows = layout.row_count();
    let cols = layout.column_count();
    for ch in 'a'..='z' {
        if let Some((row, col)) = layout.position_of(ch) {
            assert!(row < rows);
            assert!(col < cols);
        }
    }
    for ch in '0'..='9' {
        let (row, col) = layout.position_of(ch).expect("every digit is mapped");
        assert!(row < rows);
        assert!(col < cols);
    }
}

#[test]
fn geometry_for_even_terminal() {
    let m = Model::new((80, 24), 100, 1);
    assert_eq!(m.button_size, (8, 6));
    assert_eq!(m.keyboard_height, 24);
    assert_eq!(m.empty_space_height, 0);
}

#[test]
fn geometry_invariant_with_remainder() {
    // 83 x 25 does not divide evenly; floor division leaves a remainder
    // that goes to the empty band, uncorrected.
    let m = Model::new((83, 25), 100, 1);
    assert_eq!(m.button_size, (8, 6));
    assert_eq!(m.keyboard_height, 4 * 6);
    assert!(10 * m.button_size.0 <= 83);
    assert_eq!(m.empty_space_height, 25 - 24);
}

#[test]
fn quit_is_idempotent() {
    let mut m = Model::new((80, 24), 100, 1);
    assert!(matches!(m.state, RunningState::Running));
    m.update(Message::Quit);
    assert!(matches!(m.state, RunningState::Quitting));
    assert!(m.is_quitting());
    m.update(Message::Quit);
    assert!(matches!(m.state, RunningState::Quitting));
    assert_eq!(m.bubbles.len(), 0);
}

#[test]
fn unmapped_key_is_a_silent_noop() {
    let mut m = Model::new((80, 24), 100, 1);
    m.update(Message::KeyPressed('a'));
    assert_eq!(m.bubbles.len(), 1);
    m.update(Message::KeyPressed('!'));
    m.update(Message::KeyPressed(' '));
    assert_eq!(m.bubbles.len(), 1);
    assert!(matches!(m.state, RunningState::Running));
}

#[test]
fn single_key_layout_scenario() {
    // Terminal 80 x 24 and a layout holding only 'a' at (0, 0): the button
    // is the whole terminal, and pressing 'a' spawns one bubble at its
    // center (40, 12).  With max radius 10 and speed 3 the bubble is gone
    // after ceil(10 / 3) = 4 render ticks.
    let rows = vec![vec!['a']];
    let layout = KeyboardLayout::from_rows(&rows);
    let mut m = Model::with_layout(layout, (80, 24), 10, 3);
    assert_eq!(m.button_size, (80, 24));

    m.update(Message::KeyPressed('a'));
    assert_eq!(m.bubbles.len(), 1);
    assert_eq!(m.bubbles[0].circle.x, 40);
    assert_eq!(m.bubbles[0].circle.y, 12);
    assert_eq!(m.bubbles[0].circle.radius, 0);

    for tick in 1..=4u64 {
        assert_eq!(m.bubbles.len(), 1, "still alive before tick {tick}");
        let circles = m.render_tick();
        assert_eq!(circles.len(), 1);
        assert_eq!(circles[0].radius, 3 * tick);
    }
    assert_eq!(m.bubbles.len(), 0, "removed after the tick that finished it");
    assert_eq!(m.render_tick().len(), 0);
}

#[test]
fn control_q_quits_before_any_press() {
    // Pressing control+Q immediately at startup, before any other key,
    // quits without a KeyPressed event for 'q' being applied.
    let mut m = Model::new((80, 24), 100, 1);
    let msg = message_for_key('q', true);
    assert_eq!(msg, Message::Quit);
    m.update(msg);
    assert!(m.is_quitting());
    assert_eq!(m.bubbles.len(), 0);
}

#[test]
fn control_c_quits_and_plain_keys_do_not() {
    assert_eq!(message_for_key('c', true), Message::Quit);
    assert_eq!(message_for_key('q', false), Message::KeyPressed('q'));
    assert_eq!(message_for_key('c', false), Message::KeyPressed('c'));
    assert_eq!(message_for_key('x', true), Message::KeyPressed('x'));
}

#[test]
fn hundred_presses_between_ticks_all_rendered() {
    // 100 rapid presses between two render ticks: every one must be
    // reflected at the next render, none silently dropped.
    let keys = ['a', 's', 'd', 'f', 'g', 'h', 'j', 'k', 'l', 'q'];
    let mut m = Model::new((80, 24), 100, 1);
    m.render_tick();
    for i in 0..100usize {
        m.update(Message::KeyPressed(keys[i % keys.len()]));
    }
    assert_eq!(m.bubbles.len(), 100);
    let circles = m.render_tick();
    assert_eq!(circles.len(), 100);
    assert_eq!(m.bubbles.len(), 100);
}

#[test]
fn render_removes_only_finished_bubbles() {
    let mut m = Model::new((80, 24), 2, 1);
    m.update(Message::KeyPressed('a'));
    m.render_tick(); // 'a' at radius 1
    m.update(Message::KeyPressed('s'));
    m.render_tick(); // 'a' at 2, 's' at 1
    assert_eq!(m.bubbles.len(), 2);
    let circles = m.render_tick(); // 'a' reaches 3 > 2: painted once more, then removed
    assert_eq!(circles.len(), 2);
    assert_eq!(m.bubbles.len(), 1);
    assert_eq!(m.bubbles[0].circle.radius, 2);
}

#[test]
fn bubbles_inherit_model_configuration() {
    let mut m = Model::new((80, 24), 42, 7);
    m.update(Message::KeyPressed('h'));
    assert_eq!(m.bubbles.len(), 1);
    let b = &m.bubbles[0];
    assert_eq!(b.size_max, 42);
    assert_eq!(b.speed, 7);
    assert_eq!(b.circle.radius, 0);
    assert!(!b.finished());
}

#[test]
fn semitone_table_matches_fixed_mapping() {
    assert_eq!(get_semitone_for_key('q'), Some(-9));
    assert_eq!(get_semitone_for_key('2'), Some(-8));
    assert_eq!(get_semitone_for_key('y'), Some(0));
    assert_eq!(get_semitone_for_key('p'), Some(7));
    assert_eq!(get_semitone_for_key('['), Some(8));
    assert_eq!(get_semitone_for_key('='), Some(9));
    assert_eq!(get_semitone_for_key('z'), Some(-10));
    assert_eq!(get_semitone_for_key('h'), Some(-2));
    assert_eq!(get_semitone_for_key('x'), None);
    assert_eq!(get_semitone_for_key('a'), None);
    assert_eq!(get_semitone_for_key('8'), None);
}
