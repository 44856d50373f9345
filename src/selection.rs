use vstd::prelude::*;

use crate::actions::InputActions;
use crate::pause::{pressed, was_just_pressed};

verus! {

/// Marks an entity that a click on its tile may select.
#[derive(PartialEq, Eq, Structural, Clone, Copy, Debug, Default, Hash)]
pub struct Selectable {}

/// Marks an entity that is selected.
#[derive(PartialEq, Eq, Structural, Clone, Copy, Debug, Default, Hash)]
pub struct Selected {}

/// Marks an entity whose selection is in progress.
#[derive(PartialEq, Eq, Structural, Clone, Copy, Debug, Default, Hash)]
pub struct Selecting {}

/// A tile of the map grid.
#[derive(PartialEq, Eq, Structural, Clone, Copy, Debug, Hash)]
pub struct Position {
    pub x: i32,
    pub y: i32,
}

/// What a click does to one selectable entity: it is selected when its tile
/// is the clicked one, and loses its selection otherwise.
#[derive(PartialEq, Eq, Structural, Clone, Copy, Debug, Hash)]
pub struct SelectionChange {
    pub entity: u64,
    pub selected: bool,
}

/// A click reaches the map when `Interact` was pressed in this frame and the
/// cursor is not over the user interface.
pub open spec fn interaction_reaches_map(
    just_pressed: Seq<InputActions>,
    ui_contains_cursor: bool,
) -> bool {
    pressed(just_pressed, InputActions::Interact) && !ui_contains_cursor
}

/// `changes` gives, entity by entity and in order, the selection that a click
/// on tile `cursor` leaves on the entities of `selectable`.
pub open spec fn selects_at(
    cursor: Position,
    selectable: Seq<(u64, Position)>,
    changes: Seq<SelectionChange>,
) -> bool {
    &&& changes.len() == selectable.len()
    &&& forall|i: int|
        0 <= i < selectable.len() ==> (#[trigger] changes[i]) == (SelectionChange {
            entity: selectable[i].0,
            selected: selectable[i].1 == cursor,
        })
}

/// The selection that a click on tile `cursor` leaves on each entity of
/// `selectable`, given as pairs of entity and tile.
pub fn select_at(cursor: Position, selectable: &Vec<(u64, Position)>) -> (r: Vec<SelectionChange>)
    ensures
        selects_at(cursor, selectable@, r@),
{
    let mut r: Vec<SelectionChange> = Vec::new();
    let mut i: usize = 0;
    while i < selectable.len()
        invariant
            0 <= i <= selectable@.len(),
            r@.len() == i,
            forall|k: int|
                0 <= k < i ==> (#[trigger] r@[k]) == (SelectionChange {
                    entity: selectable@[k].0,
                    selected: selectable@[k].1 == cursor,
                }),
        decreases selectable@.len() - i,
    {
        let (entity, position) = selectable[i];
        r.push(SelectionChange { entity, selected: position == cursor });
        i = i + 1;
    }
    r
}

/// Resolves one frame of interaction with the map. When `Interact` was
/// pressed, the cursor is not over the user interface and it points at tile
/// `cursor`, each selectable entity is selected or deselected by its tile;
/// otherwise no entity changes.
pub fn interact(
    just_pressed: &Vec<InputActions>,
    ui_contains_cursor: bool,
    cursor: Option<Position>,
    selectable: &Vec<(u64, Position)>,
) -> (r: Vec<SelectionChange>)
    ensures
        interaction_reaches_map(just_pressed@, ui_contains_cursor) && cursor.is_some()
            ==> selects_at(cursor.unwrap(), selectable@, r@),
        !(interaction_reaches_map(just_pressed@, ui_contains_cursor) && cursor.is_some())
            ==> r@.len() == 0,
{
    if was_just_pressed(just_pressed, InputActions::Interact) && !ui_contains_cursor {
        match cursor {
            Some(c) => select_at(c, selectable),
            None => Vec::new(),
        }
    } else {
        Vec::new()
    }
}

/// A click selects exactly the entities on the clicked tile: two entities on
/// one tile are both selected, and an entity on any other tile is not.
pub proof fn lemma_selected_iff_on_tile(
    cursor: Position,
    selectable: Seq<(u64, Position)>,
    changes: Seq<SelectionChange>,
    i: int,
    j: int,
)
    requires
        selects_at(cursor, selectable, changes),
        0 <= i < selectable.len(),
        0 <= j < selectable.len(),
    ensures
        changes[i].selected == (selectable[i].1 == cursor),
        changes[i].entity == selectable[i].0,
        selectable[i].1 == selectable[j].1 ==> changes[i].selected == changes[j].selected,
{
    assert(changes[i] == (SelectionChange { entity: selectable[i].0, selected: selectable[i].1 == cursor }));
    assert(changes[j] == (SelectionChange { entity: selectable[j].0, selected: selectable[j].1 == cursor }));
}

/// Clicking the same tile twice leaves the same selection: the changes are
/// fixed by the tile and the entities alone.
pub proof fn lemma_select_at_deterministic(
    cursor: Position,
    selectable: Seq<(u64, Position)>,
    first: Seq<SelectionChange>,
    second: Seq<SelectionChange>,
)
    requires
        selects_at(cursor, selectable, first),
        selects_at(cursor, selectable, second),
    ensures
        first == second,
{
    assert forall|i: int| 0 <= i < first.len() implies first[i] == second[i] by {
        assert(first[i] == second[i]);
    }
    assert(first =~= second);
}

} // verus!
