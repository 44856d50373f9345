use vstd::prelude::*;

verus! {

/// The abstract input actions that raw key and mouse events are bound to.
#[derive(PartialEq, Eq, Structural, Clone, Copy, Debug, Hash)]
pub enum InputActions {
    Pause,
    Resume,
    TogglePause,
    CameraMoveNorth,
    CameraMoveSouth,
    CameraMoveWest,
    CameraMoveEast,
    CameraZoomIn,
    CameraZoomOut,
    /// Generic left click interact.
    Interact,
}

/// The keyboard keys that the default bindings use.
#[derive(PartialEq, Eq, Structural, Clone, Copy, Debug, Hash)]
pub enum Key {
    Space,
    W,
    S,
    A,
    D,
    Z,
    X,
}

/// The mouse buttons that a binding can name.
#[derive(PartialEq, Eq, Structural, Clone, Copy, Debug, Hash)]
pub enum Button {
    Left,
    Right,
    Middle,
}

/// A raw input that an action can be bound to.
#[derive(PartialEq, Eq, Structural, Clone, Copy, Debug, Hash)]
pub enum InputBinding {
    Keyboard(Key),
    Mouse(Button),
}

/// The input that each action is bound to by default; `Pause` and `Resume`
/// have no default binding and are reached through `TogglePause`.
pub open spec fn default_binding(a: InputActions) -> Option<InputBinding> {
    match a {
        InputActions::Pause => None,
        InputActions::Resume => None,
        InputActions::TogglePause => Some(InputBinding::Keyboard(Key::Space)),
        InputActions::CameraMoveNorth => Some(InputBinding::Keyboard(Key::W)),
        InputActions::CameraMoveSouth => Some(InputBinding::Keyboard(Key::S)),
        InputActions::CameraMoveWest => Some(InputBinding::Keyboard(Key::A)),
        InputActions::CameraMoveEast => Some(InputBinding::Keyboard(Key::D)),
        InputActions::CameraZoomIn => Some(InputBinding::Keyboard(Key::Z)),
        InputActions::CameraZoomOut => Some(InputBinding::Keyboard(Key::X)),
        InputActions::Interact => Some(InputBinding::Mouse(Button::Left)),
    }
}

/// The default input map, in the order in which its entries are registered:
/// the keyboard bindings first, then the mouse binding for `Interact`.
pub open spec fn default_input_map_spec() -> Seq<(InputActions, InputBinding)> {
    seq![
        (InputActions::TogglePause, InputBinding::Keyboard(Key::Space)),
        (InputActions::CameraMoveNorth, InputBinding::Keyboard(Key::W)),
        (InputActions::CameraMoveSouth, InputBinding::Keyboard(Key::S)),
        (InputActions::CameraMoveWest, InputBinding::Keyboard(Key::A)),
        (InputActions::CameraMoveEast, InputBinding::Keyboard(Key::D)),
        (InputActions::CameraZoomIn, InputBinding::Keyboard(Key::Z)),
        (InputActions::CameraZoomOut, InputBinding::Keyboard(Key::X)),
        (InputActions::Interact, InputBinding::Mouse(Button::Left)),
    ]
}

/// The binding of one action in the default input map.
pub fn binding_of(a: InputActions) -> (r: Option<InputBinding>)
    ensures
        r == default_binding(a),
{
    match a {
        InputActions::Pause => None,
        InputActions::Resume => None,
        InputActions::TogglePause => Some(InputBinding::Keyboard(Key::Space)),
        InputActions::CameraMoveNorth => Some(InputBinding::Keyboard(Key::W)),
        InputActions::CameraMoveSouth => Some(InputBinding::Keyboard(Key::S)),
        InputActions::CameraMoveWest => Some(InputBinding::Keyboard(Key::A)),
        InputActions::CameraMoveEast => Some(InputBinding::Keyboard(Key::D)),
        InputActions::CameraZoomIn => Some(InputBinding::Keyboard(Key::Z)),
        InputActions::CameraZoomOut => Some(InputBinding::Keyboard(Key::X)),
        InputActions::Interact => Some(InputBinding::Mouse(Button::Left)),
    }
}

/// Builds the default input map: one entry per bound action.
pub fn default_input_map() -> (r: Vec<(InputActions, InputBinding)>)
    ensures
        r@ == default_input_map_spec(),
{
    let mut m: Vec<(InputActions, InputBinding)> = Vec::new();
    m.push((InputActions::TogglePause, InputBinding::Keyboard(Key::Space)));
    m.push((InputActions::CameraMoveNorth, InputBinding::Keyboard(Key::W)));
    m.push((InputActions::CameraMoveSouth, InputBinding::Keyboard(Key::S)));
    m.push((InputActions::CameraMoveWest, InputBinding::Keyboard(Key::A)));
    m.push((InputActions::CameraMoveEast, InputBinding::Keyboard(Key::D)));
    m.push((InputActions::CameraZoomIn, InputBinding::Keyboard(Key::Z)));
    m.push((InputActions::CameraZoomOut, InputBinding::Keyboard(Key::X)));
    m.push((InputActions::Interact, InputBinding::Mouse(Button::Left)));
    assert(m@ =~= default_input_map_spec());
    m
}

/// The default input map agrees with the per-action bindings: every entry
/// holds the default binding of its action, every action with a default
/// binding has an entry, and no action has two entries.
pub proof fn lemma_default_input_map_agrees()
    ensures
        forall|i: int|
            0 <= i < default_input_map_spec().len() ==> default_binding(
                #[trigger] default_input_map_spec()[i].0,
            ) == Some(default_input_map_spec()[i].1),
        forall|a: InputActions|
            (#[trigger] default_binding(a)).is_some() ==> exists|i: int|
                0 <= i < default_input_map_spec().len() && default_input_map_spec()[i].0 == a,
        forall|i: int, j: int|
            0 <= i < j < default_input_map_spec().len() ==> #[trigger] default_input_map_spec()[i].0
                != #[trigger] default_input_map_spec()[j].0,
{
    let m = default_input_map_spec();
    assert forall|a: InputActions| (#[trigger] default_binding(a)).is_some() implies exists|i: int|
        0 <= i < m.len() && m[i].0 == a by {
        match a {
            InputActions::TogglePause => assert(m[0].0 == a),
            InputActions::CameraMoveNorth => assert(m[1].0 == a),
            InputActions::CameraMoveSouth => assert(m[2].0 == a),
            InputActions::CameraMoveWest => assert(m[3].0 == a),
            InputActions::CameraMoveEast => assert(m[4].0 == a),
            InputActions::CameraZoomIn => assert(m[5].0 == a),
            InputActions::CameraZoomOut => assert(m[6].0 == a),
            InputActions::Interact => assert(m[7].0 == a),
            _ => {},
        }
    }
}

} // verus!
