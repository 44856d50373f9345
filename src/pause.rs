use vstd::prelude::*;

use crate::actions::InputActions;

verus! {

/// Whether the game in progress is running or paused.
#[derive(PartialEq, Eq, Structural, Clone, Copy, Debug, Hash)]
pub enum InGameState {
    Running,
    Paused,
}

/// The world actions to press in one frame.
#[derive(PartialEq, Eq, Structural, Clone, Copy, Debug, Hash)]
pub struct WorldActionPresses {
    pub pause: bool,
    pub resume: bool,
}

/// Whether `a` is among the actions pressed in this frame.
pub open spec fn pressed(just_pressed: Seq<InputActions>, a: InputActions) -> bool {
    just_pressed.contains(a)
}

/// Pause is asked for directly, or by the toggle while the game runs.
pub open spec fn wants_pause(just_pressed: Seq<InputActions>, state: InGameState) -> bool {
    pressed(just_pressed, InputActions::Pause) || (pressed(just_pressed, InputActions::TogglePause)
        && state == InGameState::Running)
}

/// Resume is asked for directly, or by the toggle while the game is paused.
pub open spec fn wants_resume(just_pressed: Seq<InputActions>, state: InGameState) -> bool {
    pressed(just_pressed, InputActions::Resume) || (pressed(
        just_pressed,
        InputActions::TogglePause,
    ) && state == InGameState::Paused)
}

/// Whether `a` occurs in `just_pressed`.
pub fn was_just_pressed(just_pressed: &Vec<InputActions>, a: InputActions) -> (r: bool)
    ensures
        r == pressed(just_pressed@, a),
{
    let mut i: usize = 0;
    while i < just_pressed.len()
        invariant
            0 <= i <= just_pressed@.len(),
            forall|k: int| 0 <= k < i ==> just_pressed@[k] != a,
        decreases just_pressed@.len() - i,
    {
        if just_pressed[i] == a {
            assert(just_pressed@[i as int] == a);
            return true;
        }
        i = i + 1;
    }
    false
}

/// Turns the input actions pressed in this frame into pause and resume
/// requests for the world, given whether the game is running or paused.
pub fn input_to_game_actions(just_pressed: &Vec<InputActions>, state: InGameState) -> (r:
    WorldActionPresses)
    ensures
        r.pause == wants_pause(just_pressed@, state),
        r.resume == wants_resume(just_pressed@, state),
{
    let toggle = was_just_pressed(just_pressed, InputActions::TogglePause);
    let pause = was_just_pressed(just_pressed, InputActions::Pause) || (toggle && state
        == InGameState::Running);
    let resume = was_just_pressed(just_pressed, InputActions::Resume) || (toggle && state
        == InGameState::Paused);
    WorldActionPresses { pause, resume }
}

/// The toggle on its own flips the state: with neither `Pause` nor `Resume`
/// pressed, pressing `TogglePause` asks to pause a running game and to resume
/// a paused one, and never both.
pub proof fn lemma_toggle_flips(just_pressed: Seq<InputActions>, state: InGameState)
    requires
        pressed(just_pressed, InputActions::TogglePause),
        !pressed(just_pressed, InputActions::Pause),
        !pressed(just_pressed, InputActions::Resume),
    ensures
        wants_pause(just_pressed, state) == (state == InGameState::Running),
        wants_resume(just_pressed, state) == (state == InGameState::Paused),
        wants_pause(just_pressed, state) != wants_resume(just_pressed, state),
{
}

/// With none of `Pause`, `Resume` and `TogglePause` pressed, nothing is asked
/// of the world, whatever else was pressed.
pub proof fn lemma_other_actions_ask_nothing(just_pressed: Seq<InputActions>, state: InGameState)
    requires
        !pressed(just_pressed, InputActions::TogglePause),
        !pressed(just_pressed, InputActions::Pause),
        !pressed(just_pressed, InputActions::Resume),
    ensures
        !wants_pause(just_pressed, state),
        !wants_resume(just_pressed, state),
{
}

} // verus!
