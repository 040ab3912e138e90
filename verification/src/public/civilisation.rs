//! What the civilisation service publishes: its settings and the
//! civilisations created, each under the host of its game.
use vstd::prelude::*;
use crate::time::TimeConfig;
use url::Host;

verus! {

/// Name of the civilisations' public events.
pub const PUB_MONO_CIVILISATION_EVENT: &'static str = "PUB_MONO_CIVILISATION_EVENT";
/// Name of the civilisations' stream.
pub const MONO_CIVILISATION_STREAM: &'static str = "mono_civilisation";
/// Kind used to derive civilisation keys.
pub const UUID_V8_KIND: &'static str = "ACCOUNT";
/// Name of the civilisation settings' public events.
pub const PUB_CONFIG_CIVILISATION_EVENT: &'static str = "PUB_CONFIG_CIVILISATION_EVENT";

/// A host name or address, carried through as it is.
#[verifier::external_type_specification]
#[verifier::external_body]
#[verifier::reject_recursive_types(S)]
pub struct ExHost<S>(Host<S>);

/// `Host::clone`, the derived clone of each variant's content: nothing is
/// stated of the copy, which for a generic `S` rests on `S::clone`.
pub assume_specification<S>[ <Host<S> as Clone>::clone ](h: &Host<S>) -> (r: Host<S>)
    where
        S: Clone,
;

/// A service of a game was added or removed.
#[derive(Clone, Debug, PartialEq, Eq)]
pub enum PubConfigCivEvent {
    AddService { game_host: Host, service_host: Host, time: TimeConfig },
    RemoveService { game_host: Host, service_host: Host },
}

/// A civilisation was created.
#[derive(Clone, Debug, PartialEq, Eq)]
pub enum PubCivilisationEvent {
    Created { game_host: Host, name: String, owner: String },
}

} // verus!
