use rusty_todo::focus::{FocusController, FocusTarget, Vertical};

fn ring(inputs: usize, start: usize) -> FocusController {
    match FocusController::new(inputs, start) {
        Some(ring) => ring,
        None => panic!("no position {} among {} inputs", start, inputs),
    }
}

#[test]
fn scenario_three_advances_come_round() {
    let mut focus = ring(2, 1);
    assert_eq!(focus.current(), 1);
    assert_eq!(focus.inputs(), 2);
    focus.advance();
    assert_eq!(focus.current(), 2);
    focus.advance();
    assert_eq!(focus.current(), 0);
    focus.advance();
    assert_eq!(focus.current(), 1);
}

#[test]
fn advance_comes_round_from_every_position() {
    for inputs in 0..4usize {
        for start in 0..=inputs {
            let mut focus = ring(inputs, start);
            for step in 1..=(inputs + 1) {
                focus.advance();
                assert_eq!(focus.current(), (start + step) % (inputs + 1));
            }
            assert_eq!(focus.current(), start);
        }
    }
}

#[test]
fn retreat_goes_back_round_the_ring() {
    let mut focus = ring(2, 1);
    focus.retreat();
    assert_eq!(focus.current(), 0);
    focus.retreat();
    assert_eq!(focus.current(), 2);
    focus.retreat();
    assert_eq!(focus.current(), 1);
}

#[test]
fn advance_and_retreat_cancel() {
    for start in 0..=2usize {
        let mut focus = ring(2, start);
        focus.advance();
        focus.retreat();
        assert_eq!(focus.current(), start);
        focus.retreat();
        focus.advance();
        assert_eq!(focus.current(), start);
    }
}

#[test]
fn new_refuses_a_position_beyond_the_list() {
    assert!(FocusController::new(2, 3).is_none());
    assert!(FocusController::new(0, 1).is_none());
    assert!(FocusController::new(2, 2).is_some());
    assert!(FocusController::new(0, 0).is_some());
    assert!(FocusController::new(usize::MAX, usize::MAX).is_some());
}

#[test]
fn ring_of_the_largest_size_still_turns() {
    let mut focus = ring(usize::MAX, usize::MAX);
    focus.advance();
    assert_eq!(focus.current(), 0);
    focus.retreat();
    assert_eq!(focus.current(), usize::MAX);
}

#[test]
fn target_names_the_input_or_the_list() {
    assert_eq!(ring(2, 0).target(), FocusTarget::Input(0));
    assert_eq!(ring(2, 1).target(), FocusTarget::Input(1));
    assert_eq!(ring(2, 2).target(), FocusTarget::List);
    assert!(ring(2, 2).on_list());
    assert!(!ring(2, 1).on_list());
    assert_eq!(ring(0, 0).target(), FocusTarget::List);
}

#[test]
fn focus_on_takes_known_positions_only() {
    let mut focus = ring(2, 1);
    assert!(focus.focus_on(2));
    assert_eq!(focus.current(), 2);
    assert!(!focus.focus_on(3));
    assert_eq!(focus.current(), 2);
    assert!(focus.focus_on(0));
    assert_eq!(focus.current(), 0);
}

#[test]
fn down_from_the_first_input_goes_to_a_list_with_items() {
    let mut focus = ring(2, 0);
    assert_eq!(focus.down(true), Vertical::Focus);
    assert_eq!(focus.current(), 2);
}

#[test]
fn down_from_the_first_input_stays_before_an_empty_list() {
    let mut focus = ring(2, 0);
    assert_eq!(focus.down(false), Vertical::Ignored);
    assert_eq!(focus.current(), 0);
}

#[test]
fn down_elsewhere_is_left_to_the_list_or_ignored() {
    let mut focus = ring(2, 1);
    assert_eq!(focus.down(true), Vertical::Ignored);
    assert_eq!(focus.current(), 1);
    let mut focus = ring(2, 2);
    assert_eq!(focus.down(true), Vertical::Cursor);
    assert_eq!(focus.current(), 2);
    assert_eq!(focus.down(false), Vertical::Cursor);
    assert_eq!(focus.current(), 2);
    let mut focus = ring(0, 0);
    assert_eq!(focus.down(true), Vertical::Cursor);
    assert_eq!(focus.current(), 0);
}

#[test]
fn up_at_the_first_item_goes_to_the_preceding_input() {
    let mut focus = ring(2, 2);
    assert_eq!(focus.up(true, true), Vertical::Focus);
    assert_eq!(focus.current(), 1);
    let mut focus = ring(1, 1);
    assert_eq!(focus.up(true, true), Vertical::Focus);
    assert_eq!(focus.current(), 0);
}

#[test]
fn up_further_down_the_list_is_left_to_the_list() {
    let mut focus = ring(2, 2);
    assert_eq!(focus.up(true, false), Vertical::Cursor);
    assert_eq!(focus.current(), 2);
    assert_eq!(focus.up(false, false), Vertical::Cursor);
    assert_eq!(focus.current(), 2);
    let mut focus = ring(2, 0);
    assert_eq!(focus.up(true, false), Vertical::Ignored);
    assert_eq!(focus.current(), 0);
    let mut focus = ring(0, 0);
    assert_eq!(focus.up(true, true), Vertical::Cursor);
    assert_eq!(focus.current(), 0);
}
