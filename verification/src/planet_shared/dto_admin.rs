//! The game's planet settings as an administrator sees them.
use vstd::prelude::*;
use crate::planet_shared::event::SharedPlanetAdminEvent;

verus! {

/// The game's planet settings: how many planets a new player starts with.
#[derive(Clone, Copy, Debug, PartialEq, Eq)]
pub struct PlanetAdminDto {
    nb_planet: u8,
}

impl PlanetAdminDto {
    /// How many planets a new player starts with.
    pub closed spec fn spec_nb_planet(self) -> u8 {
        self.nb_planet
    }

    /// Settings where a new player starts with no planet.
    pub fn new() -> (r: PlanetAdminDto)
        ensures
            r.spec_nb_planet() == 0,
    {
        PlanetAdminDto { nb_planet: 0 }
    }

    /// Plays `event` on the settings.
    pub fn play_event(&mut self, event: &SharedPlanetAdminEvent)
        ensures
            final(self).spec_nb_planet() == match *event {
                SharedPlanetAdminEvent::NbPlanetUpdated(nb) => nb,
            },
    {
        match event {
            SharedPlanetAdminEvent::NbPlanetUpdated(nb) => {
                self.nb_planet = *nb;
            },
        }
    }

    /// How many planets a new player starts with.
    pub fn nb_planet(&self) -> (r: u8)
        ensures
            r == self.spec_nb_planet(),
    {
        self.nb_planet
    }
}

impl Default for PlanetAdminDto {
    /// Settings where a new player starts with no planet.
    fn default() -> (r: PlanetAdminDto)
        ensures
            r.spec_nb_planet() == 0,
    {
        PlanetAdminDto::new()
    }
}

} // verus!
