//! The commands on an account.
use vstd::prelude::*;
use crate::account_shared::Nation;
use crate::public::Component;

verus! {

/// A command on an account.
#[derive(Clone, Debug, PartialEq, Eq)]
pub enum AccountCommand {
    Create { name: String, owner: String },
    UpdateNation(Nation),
    AddWorld(Component),
    RemoveWorld(String),
}

} // verus!
