//! The events that update a planet as its players see it.
use vstd::prelude::*;
use crate::planet_shared::dto::{Building, Resource, ResourceCalc};

verus! {

/// An update of a planet's resources or buildings; buildings are keyed by
/// the 128-bit value of their UUID.
#[derive(Clone, Debug, PartialEq, Eq)]
pub enum SharedPlanetEvent {
    UpdateResource { resource: Resource, calc: ResourceCalc },
    UpdateAvailableBuilding { key: u128, building: Building },
    RemoveAvailableBuilding { key: u128 },
    UpdateConstruction { key: u128, building: Building },
    RemoveConstruction { key: u128 },
    UpdateRunningBuilding { key: u128, building: Building },
    RemoveRunningBuilding { key: u128 },
}

} // verus!

verus! {

/// An update of the game's planet settings.
#[derive(Clone, Copy, Debug, PartialEq, Eq, Structural)]
pub enum SharedPlanetAdminEvent {
    NbPlanetUpdated(u8),
}

} // verus!
