//! The events of an account.
use vstd::prelude::*;
use crate::account_shared::Nation;
use crate::public::Component;

verus! {

/// An event only the account replays.
#[derive(Clone, Debug, PartialEq, Eq)]
pub enum PrvAccountEvent {
    NationUpdated(Nation),
    WorldAdded(Component),
    WorldRemoved(String),
}

/// An event other services listen to: an account was created.
#[derive(Clone, Debug, PartialEq, Eq)]
pub enum PubAccountEvent {
    Created { name: String, owner: String },
}

/// Any event of an account.
#[derive(Clone, Debug, PartialEq, Eq)]
pub enum AccountEvent {
    Private(PrvAccountEvent),
    Public(PubAccountEvent),
}

} // verus!
