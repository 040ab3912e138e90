//! What the planet service publishes.
use vstd::prelude::*;

verus! {

/// Name of the planets' public events.
pub const PUB_PLANET_EVENT: &'static str = "PUB_MONO_PLANET_EVENT";
/// Name of the planets' stream.
pub const PLANET_STREAM: &'static str = "mono_planet";
/// Kind used to derive planet keys.
pub const UUID_V8_KIND: &'static str = "PLANET";

/// A planet changed hands.
#[derive(Clone, Debug, PartialEq, Eq)]
pub enum PubPlanetEvent {
    NewOwner { old_account_id: Option<String>, account_id: String },
}

} // verus!
