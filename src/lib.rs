//! Input handling for the game: the set of input actions and their default
//! bindings, the decision that turns input actions into pause and resume
//! requests for the world, and the rule that turns a click on the map into
//! tile selection.
pub mod actions;
pub mod pause;
pub mod selection;
