use game_input::actions::{
    binding_of, default_input_map, Button, InputActions, InputBinding, Key,
};
use game_input::pause::{input_to_game_actions, was_just_pressed, InGameState, WorldActionPresses};
use game_input::selection::{interact, select_at, Position, SelectionChange};

#[test]
fn default_map_binds_keys_then_mouse() {
    let m = default_input_map();
    assert_eq!(m.len(), 8);
    assert_eq!(m[0], (InputActions::TogglePause, InputBinding::Keyboard(Key::Space)));
    assert_eq!(m[1], (InputActions::CameraMoveNorth, InputBinding::Keyboard(Key::W)));
    assert_eq!(m[4], (InputActions::CameraMoveEast, InputBinding::Keyboard(Key::D)));
    assert_eq!(m[6], (InputActions::CameraZoomOut, InputBinding::Keyboard(Key::X)));
    assert_eq!(m[7], (InputActions::Interact, InputBinding::Mouse(Button::Left)));
    for (a, b) in m.iter() {
        assert_eq!(binding_of(*a), Some(*b));
    }
}

#[test]
fn pause_and_resume_have_no_binding() {
    assert_eq!(binding_of(InputActions::Pause), None);
    assert_eq!(binding_of(InputActions::Resume), None);
    assert_eq!(binding_of(InputActions::CameraZoomIn), Some(InputBinding::Keyboard(Key::Z)));
}

#[test]
fn just_pressed_lookup() {
    let jp = vec![InputActions::CameraMoveWest, InputActions::Interact];
    assert!(was_just_pressed(&jp, InputActions::Interact));
    assert!(!was_just_pressed(&jp, InputActions::Pause));
    assert!(!was_just_pressed(&Vec::new(), InputActions::Interact));
}

#[test]
fn toggle_pauses_a_running_game() {
    let r = input_to_game_actions(&vec![InputActions::TogglePause], InGameState::Running);
    assert_eq!(r, WorldActionPresses { pause: true, resume: false });
}

#[test]
fn toggle_resumes_a_paused_game() {
    let r = input_to_game_actions(&vec![InputActions::TogglePause], InGameState::Paused);
    assert_eq!(r, WorldActionPresses { pause: false, resume: true });
}

#[test]
fn direct_pause_and_resume_ignore_state() {
    let r = input_to_game_actions(&vec![InputActions::Pause], InGameState::Paused);
    assert_eq!(r, WorldActionPresses { pause: true, resume: false });
    let r = input_to_game_actions(&vec![InputActions::Resume], InGameState::Running);
    assert_eq!(r, WorldActionPresses { pause: false, resume: true });
    let r = input_to_game_actions(
        &vec![InputActions::Pause, InputActions::Resume],
        InGameState::Running,
    );
    assert_eq!(r, WorldActionPresses { pause: true, resume: true });
}

#[test]
fn other_actions_ask_nothing() {
    let jp = vec![InputActions::CameraMoveNorth, InputActions::Interact];
    for state in [InGameState::Running, InGameState::Paused] {
        let r = input_to_game_actions(&jp, state);
        assert_eq!(r, WorldActionPresses { pause: false, resume: false });
    }
    let r = input_to_game_actions(&Vec::new(), InGameState::Running);
    assert_eq!(r, WorldActionPresses { pause: false, resume: false });
}

fn entities() -> Vec<(u64, Position)> {
    vec![
        (1, Position { x: 0, y: 0 }),
        (2, Position { x: 3, y: -2 }),
        (3, Position { x: 3, y: -2 }),
        (4, Position { x: -2, y: 3 }),
    ]
}

#[test]
fn click_selects_entities_on_the_tile() {
    let r = select_at(Position { x: 3, y: -2 }, &entities());
    assert_eq!(
        r,
        vec![
            SelectionChange { entity: 1, selected: false },
            SelectionChange { entity: 2, selected: true },
            SelectionChange { entity: 3, selected: true },
            SelectionChange { entity: 4, selected: false },
        ]
    );
}

#[test]
fn click_on_empty_tile_deselects_all() {
    let r = select_at(Position { x: 9, y: 9 }, &entities());
    assert_eq!(r.len(), 4);
    assert!(r.iter().all(|c| !c.selected));
    assert!(select_at(Position { x: 0, y: 0 }, &Vec::new()).is_empty());
}

#[test]
fn interact_selects_when_click_reaches_map() {
    let jp = vec![InputActions::Interact];
    let r = interact(&jp, false, Some(Position { x: 0, y: 0 }), &entities());
    assert_eq!(r.len(), 4);
    assert_eq!(r[0], SelectionChange { entity: 1, selected: true });
    assert_eq!(r[1], SelectionChange { entity: 2, selected: false });
}

#[test]
fn interact_ignored_over_ui_or_off_map() {
    let jp = vec![InputActions::Interact];
    assert!(interact(&jp, true, Some(Position { x: 0, y: 0 }), &entities()).is_empty());
    assert!(interact(&jp, false, None, &entities()).is_empty());
    let other = vec![InputActions::TogglePause];
    assert!(interact(&other, false, Some(Position { x: 0, y: 0 }), &entities()).is_empty());
}

#[test]
fn interact_extreme_coordinates() {
    let sel = vec![(u64::MAX, Position { x: i32::MIN, y: i32::MAX })];
    let r = interact(
        &vec![InputActions::Interact],
        false,
        Some(Position { x: i32::MIN, y: i32::MAX }),
        &sel,
    );
    assert_eq!(r, vec![SelectionChange { entity: u64::MAX, selected: true }]);
}
