//! What the account service shares with its clients.
use vstd::prelude::*;

pub mod command;
pub mod dto;
pub mod error;
pub mod event;

verus! {

/// Name of the accounts' state.
pub const ACCOUNT_STATE_NAME: &'static str = "MONO_ACCOUNT_STATE";

/// A player's nation.
#[derive(Clone, Debug, PartialEq, Eq)]
pub struct Nation {
    pub name: String,
    pub description: String,
}

impl Nation {
    /// A copy of the nation.
    pub fn duplicate(&self) -> (r: Nation)
        ensures
            r == *self,
    {
        Nation { name: self.name.clone(), description: self.description.clone() }
    }
}

} // verus!
