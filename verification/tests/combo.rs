use rmk::combo::{Combo, ComboConfig, ComboDefinition, KeyAction, MatrixPosition, PositionComboConfig};
use rmk::event::{KeyPos, KeyboardEvent, KeyboardEventPos};

const NO: KeyAction = KeyAction(0);
const A: KeyAction = KeyAction(4);
const B: KeyAction = KeyAction(5);
const C: KeyAction = KeyAction(6);

fn pos(row: u8, col: u8) -> KeyboardEventPos {
    KeyboardEventPos::Key(KeyPos { row, col })
}

#[test]
fn empty_output_combo_still_triggers_so_releases_are_consumed() {
    let mut combo = Combo::new(ComboConfig::new(vec![A, B], NO, None));

    assert!(combo.update(&A, KeyboardEvent::key(0, 0, true), 0));
    assert!(combo.update(&B, KeyboardEvent::key(0, 1, true), 0));
    assert!(combo.is_all_pressed());

    let output = combo.trigger();
    assert_eq!(output, NO, "empty-output combo still emits nothing");
    assert!(combo.is_triggered(), "a KC_NO combo must trigger so the release path consumes the releases");
}

#[test]
fn position_combo_tracks_duplicate_actions_by_coordinate() {
    let mut combo = Combo::new_positions(PositionComboConfig::new(
        vec![MatrixPosition { row: 0, col: 0 }, MatrixPosition { row: 0, col: 1 }],
        B,
        None,
    ));

    assert!(combo.update(&A, KeyboardEvent::key(0, 0, true), 0));
    assert!(!combo.is_all_pressed());
    assert!(combo.update(&A, KeyboardEvent::key(0, 1, true), 1));
    assert!(combo.is_all_pressed(), "unscoped position matching ignores layer changes");
}

#[test]
fn position_combo_layer_scope_gates_recording() {
    let mut combo = Combo::new_positions(PositionComboConfig::new(vec![MatrixPosition { row: 0, col: 0 }], B, Some(0)));

    assert!(!combo.update(&A, KeyboardEvent::key(0, 0, true), 1));
    assert!(!combo.is_all_pressed());
    assert!(combo.update(&A, KeyboardEvent::key(0, 0, true), 0));
    assert!(combo.is_all_pressed());
}

#[test]
fn a_foreign_press_resets_an_incomplete_combo() {
    let mut combo = Combo::new(ComboConfig::new(vec![A, B, C], KeyAction(9), None));
    assert!(combo.update(&A, KeyboardEvent::key(0, 0, true), 0));
    assert_eq!(combo.keys_pressed(), 1);
    assert!(!combo.update(&KeyAction(30), KeyboardEvent::key(3, 3, true), 0));
    assert_eq!(combo.keys_pressed(), 0);
    // Releases and encoder events do not record anything.
    assert!(!combo.update(&A, KeyboardEvent::key(0, 0, false), 0));
    assert_eq!(combo.keys_pressed(), 0);
}

#[test]
fn releasing_every_input_of_a_fired_combo_resets_it() {
    let mut combo = Combo::new(ComboConfig::new(vec![A, B], KeyAction(9), None));
    combo.update(&A, KeyboardEvent::key(0, 0, true), 0);
    combo.update(&B, KeyboardEvent::key(0, 1, true), 0);
    assert_eq!(combo.trigger(), KeyAction(9));
    assert!(!combo.update_released(&A, pos(0, 0)));
    assert!(combo.is_triggered());
    // Pressing a released input again while the chord is held re-asserts it.
    assert!(combo.reassert_if_triggered(&A, pos(0, 0)));
    assert_eq!(combo.keys_pressed(), 2);
    assert!(!combo.update_released(&A, pos(0, 0)));
    assert!(combo.update_released(&B, pos(0, 1)));
    assert!(!combo.is_triggered());
    assert_eq!(combo.keys_pressed(), 0);
}

#[test]
fn triggering_an_incomplete_combo_does_not_fire_it() {
    let mut combo = Combo::new(ComboConfig::new(vec![A, B], KeyAction(9), None));
    combo.update(&A, KeyboardEvent::key(0, 0, true), 0);
    assert_eq!(combo.trigger(), KeyAction(9));
    assert!(!combo.is_triggered());
    assert!(!combo.reassert_if_triggered(&A, pos(0, 0)));
    combo.reset();
    assert_eq!(combo.keys_pressed(), 0);
}

#[test]
fn inputs_are_found_by_action_or_position() {
    let actions = ComboDefinition::Actions(ComboConfig::new(vec![A, B, A], NO, None));
    assert_eq!(Combo::definition_input_index(&actions, &A, pos(9, 9)), Some(0));
    assert_eq!(Combo::definition_input_index(&actions, &B, pos(9, 9)), Some(1));
    assert_eq!(Combo::definition_input_index(&actions, &C, pos(9, 9)), None);
    let positions = ComboDefinition::Positions(PositionComboConfig::new(
        vec![MatrixPosition { row: 1, col: 2 }],
        NO,
        None,
    ));
    assert!(Combo::definition_contains_input(&positions, &C, pos(1, 2)));
    assert!(!Combo::definition_contains_input(&positions, &C, KeyboardEventPos::RotaryEncoder(0)));
    let combo = Combo::from_definition(positions);
    assert_eq!(combo.size(), 1);
    assert!(combo.legacy_config().is_none());
    assert_eq!(combo.definition().layer(), None);
}

#[test]
fn the_empty_combo_never_records() {
    let mut combo = Combo::empty();
    assert_eq!(combo.size(), 0);
    assert!(!combo.update(&NO, KeyboardEvent::key(0, 0, true), 0));
    assert!(!combo.is_all_pressed());
    assert_eq!(combo.output(), NO);
    assert_eq!(combo.legacy_config().map(|c| c.actions.len()), Some(0));
    assert!(!combo.contains_input(&A, pos(0, 0)));
}
