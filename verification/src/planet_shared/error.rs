//! Why a planet refuses a command.
use vstd::prelude::*;
use crate::planet_shared::dto::Resource;
use crate::text::{owned, push_str};

verus! {

/// Why a planet command was refused.
#[derive(Clone, Copy, Debug, PartialEq, Eq, Structural)]
pub enum PlanetError {
    InvalidName,
    InvalidOwner,
    InvalidAdminId,
    InvalidCivilization,
    AvailableIdNotExists,
    ConstructionIdNotExists,
    CannotComputeTime,
    BuildingIdNotExists,
    NoTimeConfig,
    NoAppHost,
    NotEnoughResources(Resource),
    NotResources(Resource),
}

impl PlanetError {
    /// The error's message.
    pub open spec fn spec_message(self) -> Seq<char> {
        match self {
            PlanetError::InvalidOwner => "owner id is not a ModelKey"@,
            PlanetError::InvalidCivilization => "civilization id is not a ModelKey"@,
            PlanetError::InvalidAdminId => "admin id is not a ModelKey"@,
            PlanetError::AvailableIdNotExists => "id is not in available building to construct"@,
            PlanetError::ConstructionIdNotExists => "id is not in building being construct"@,
            PlanetError::CannotComputeTime => "time wasn't valid"@,
            PlanetError::BuildingIdNotExists => "id is not a building"@,
            PlanetError::NotEnoughResources(r) => "Not enough "@ + r.spec_name() + " (as least)"@,
            PlanetError::NotResources(r) => "Not known "@ + r.spec_name() + " (as least)"@,
            PlanetError::NoTimeConfig => "Time config not loaded"@,
            PlanetError::NoAppHost => "APP_HOST notr defined"@,
            PlanetError::InvalidName => "planet name must be at least 2 char long"@,
        }
    }

    /// The error's message, as `Display` writes it.
    pub fn message(&self) -> (r: String)
        ensures
            r@ == self.spec_message(),
    {
        match self {
            PlanetError::InvalidOwner => owned("owner id is not a ModelKey"),
            PlanetError::InvalidCivilization => owned("civilization id is not a ModelKey"),
            PlanetError::InvalidAdminId => owned("admin id is not a ModelKey"),
            PlanetError::AvailableIdNotExists => owned("id is not in available building to construct"),
            PlanetError::ConstructionIdNotExists => owned("id is not in building being construct"),
            PlanetError::CannotComputeTime => owned("time wasn't valid"),
            PlanetError::BuildingIdNotExists => owned("id is not a building"),
            PlanetError::NotEnoughResources(r) => {
                let mut s = owned("Not enough ");
                push_str(&mut s, r.name());
                push_str(&mut s, " (as least)");
                s
            },
            PlanetError::NotResources(r) => {
                let mut s = owned("Not known ");
                push_str(&mut s, r.name());
                push_str(&mut s, " (as least)");
                s
            },
            PlanetError::NoTimeConfig => owned("Time config not loaded"),
            PlanetError::NoAppHost => owned("APP_HOST notr defined"),
            PlanetError::InvalidName => owned("planet name must be at least 2 char long"),
        }
    }
}

/// Why a command on the planets' settings was refused.
#[derive(Clone, Copy, Debug, PartialEq, Eq, Structural)]
pub enum PlanetAdminError {
    SomeError,
}

impl PlanetAdminError {
    /// The error's message, as `Display` writes it.
    pub fn message(&self) -> (r: String)
        ensures
            r@ == "some error found"@,
    {
        owned("some error found")
    }
}

} // verus!
