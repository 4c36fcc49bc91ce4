//! Opponents of the link-four mini game.
use vstd::prelude::*;

use crate::pet::PetDefinitionId;

verus! {

/// An opponent in the link-four mini game and how well it plays (0..100).
pub struct LinkFourOpponent {
    pub pet_def_id: PetDefinitionId,
    pub strength: i32,
}

impl LinkFourOpponent {
    pub fn new(pet: PetDefinitionId, strength: i32) -> (r: Self)
        ensures
            r.pet_def_id == pet,
            r.strength == strength,
    {
        LinkFourOpponent { pet_def_id: pet, strength }
    }
}

} // verus!
