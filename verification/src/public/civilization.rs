//! What the civilization service publishes.
use vstd::prelude::*;
use crate::time::TimeConfig;
use url::Url;

verus! {

/// Name of the civilizations' public events.
pub const PUB_MONO_CIVILIZATION_EVENT: &'static str = "PUB_MONO_CIVILIZATION_EVENT";
/// Name of the civilizations' stream.
pub const MONO_CIVILIZATION_STREAM: &'static str = "mono_civilization";
/// Kind used to derive civilization keys.
pub const UUID_V8_KIND: &'static str = "ACCOUNT";
/// Name of the civilization settings' stream.
pub const MONO_CIVILIZATION_ADMIN_STREAM: &'static str = "admin_civilization";
/// Kind used to derive civilization settings keys.
pub const UUID_ADMIN_V8_KIND: &'static str = "ACCOUNT_ADMIN";
/// Name of the civilization settings' public events.
pub const PUB_CONFIG_CIVILIZATION_EVENT: &'static str = "PUB_CONFIG_CIVILIZATION_EVENT";

/// A service of a game was added or removed.
#[derive(Clone, Debug, PartialEq, Eq)]
pub enum PubCivilizationAdminEvent {
    AddedService { name: String, game_host: Url, service_host: Url, balise: String, time: TimeConfig },
    RemovedService { name: String, game_host: Url, service_host: Url },
}

/// A civilization was created.
#[derive(Clone, Debug, PartialEq, Eq)]
pub enum PubCivilizationEvent {
    Created { game_host: Url, name: String, owner: String, user_id: String, time: TimeConfig },
}

} // verus!
