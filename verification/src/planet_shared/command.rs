//! The commands a player or a service sends to a planet.
use vstd::prelude::*;
use crate::time::TimeConfig;

verus! {

/// A command on a planet. The construction commands carry the game's time
/// configuration, needed to bring the stocks up to date; buildings are
/// keyed by the 128-bit value of their UUID.
#[derive(Clone, Debug, PartialEq, Eq)]
pub enum SharedPlanetCommand {
    Create { account_id: String, admin_id: String, time: TimeConfig },
    ChangeOwner { account_id: String },
    StartConstruction { key: u128, time_config: Option<TimeConfig> },
    CancelConstruction { key: u128, time_config: Option<TimeConfig> },
    FinnishConstruction { key: u128, time_config: Option<TimeConfig> },
    DestroyConstruction { key: u128, time_config: Option<TimeConfig> },
}

/// A command on the settings shared by the planets of a game.
#[derive(Clone, Copy, Debug, PartialEq, Eq, Structural)]
pub enum SharedPlanetAdminCommand {
    UpdateNbStartPlanet(u8),
    Create,
}

} // verus!
