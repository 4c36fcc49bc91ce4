//! Identifiers of pets.
use vstd::prelude::*;

verus! {

/// Identifies a pet kind in the pet definitions.
pub type PetDefinitionId = u16;

/// Identifies one pet among all pets ever born.
pub type UniquePetId = u64;

} // verus!
