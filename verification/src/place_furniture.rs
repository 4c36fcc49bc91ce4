//! Choosing where in the home a piece of furniture goes.
use vstd::prelude::*;

verus! {

/// A place in the home that holds furniture.
#[derive(Clone, Copy, Debug, PartialEq, Eq, Structural)]
pub enum HomeFurnitureLocation {
    Left,
    Top,
    Right,
}

/// What the cursor of the furniture scene points at: a place, or the way out.
#[derive(Clone, Copy, Debug, PartialEq, Eq, Structural)]
pub enum PlaceSelection {
    Left,
    Top,
    Right,
    Exit,
}

/// Position of a selection in the cursor order Left, Top, Right, Exit.
pub open spec fn selection_index(s: PlaceSelection) -> int {
    match s {
        PlaceSelection::Left => 0,
        PlaceSelection::Top => 1,
        PlaceSelection::Right => 2,
        PlaceSelection::Exit => 3,
    }
}

/// The selection at position `i` of the cursor order.
pub open spec fn selection_at(i: int) -> PlaceSelection {
    if i == 0 {
        PlaceSelection::Left
    } else if i == 1 {
        PlaceSelection::Top
    } else if i == 2 {
        PlaceSelection::Right
    } else {
        PlaceSelection::Exit
    }
}

/// The selection `change` steps from `s` along the cursor order; stepping before the first
/// gives the last, stepping past the last gives the first.
pub open spec fn changed_selection(s: PlaceSelection, change: int) -> PlaceSelection {
    let i = selection_index(s) + change;
    if i < 0 {
        PlaceSelection::Exit
    } else if i >= 4 {
        PlaceSelection::Left
    } else {
        selection_at(i)
    }
}

/// One step forward and one step back return to the selection the cursor started on, and so
/// do one step back and one step forward.
pub proof fn lemma_change_step_inverse(s: PlaceSelection)
    ensures
        changed_selection(changed_selection(s, 1), -1) == s,
        changed_selection(changed_selection(s, -1), 1) == s,
{
}

/// Number of selections in the cursor order.
pub const SELECTION_COUNT: usize = 4;

fn select_array() -> (r: Vec<PlaceSelection>)
    ensures
        r.len() == SELECTION_COUNT,
        forall|i: int| 0 <= i < 4 ==> r[i] == selection_at(i),
{
    vec![PlaceSelection::Left, PlaceSelection::Top, PlaceSelection::Right, PlaceSelection::Exit]
}

impl PlaceSelection {
    /// The place selected, or none for the way out.
    pub fn to_location(&self) -> (r: Option<HomeFurnitureLocation>)
        ensures
            r == (match *self {
                PlaceSelection::Left => Some(HomeFurnitureLocation::Left),
                PlaceSelection::Top => Some(HomeFurnitureLocation::Top),
                PlaceSelection::Right => Some(HomeFurnitureLocation::Right),
                PlaceSelection::Exit => None,
            }),
    {
        match self {
            PlaceSelection::Left => Some(HomeFurnitureLocation::Left),
            PlaceSelection::Top => Some(HomeFurnitureLocation::Top),
            PlaceSelection::Right => Some(HomeFurnitureLocation::Right),
            PlaceSelection::Exit => None,
        }
    }

    /// The selection `change` steps along the cursor order; stepping before the first
    /// gives the last, stepping past the last gives the first.
    pub fn change(&self, change: isize) -> (r: Self)
        requires
            selection_index(*self) + change <= isize::MAX,
        ensures
            r == changed_selection(*self, change as int),
    {
        let select = select_array();
        let mut position: usize = 0;
        while position < SELECTION_COUNT && select[position] != *self
            invariant
                position <= SELECTION_COUNT,
                select.len() == SELECTION_COUNT,
                forall|i: int| 0 <= i < 4 ==> select[i] == selection_at(i),
                forall|i: int| 0 <= i < position ==> selection_at(i) != *self,
            decreases SELECTION_COUNT - position,
        {
            position = position + 1;
        }
        proof {
            let k = selection_index(*self);
            assert(0 <= k < 4 && selection_at(k) == *self);
            if position == SELECTION_COUNT {
                assert(selection_at(k) != *self);
            }
            assert(select[position as int] == *self);
            assert(selection_at(position as int) == *self);
            assert(position == k);
        }
        let current: isize = position as isize + change;
        assert(select[3] == selection_at(3) && select[0] == selection_at(0));
        if current < 0 {
            return select[SELECTION_COUNT - 1];
        }
        if current as usize >= SELECTION_COUNT {
            return select[0];
        }
        select[current as usize]
    }
}

} // verus!
