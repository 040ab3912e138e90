//! What the counter game shares with its clients: its commands, events and
//! errors, and the record of the last moves that its clients show.
use vstd::prelude::*;

pub mod command;
pub mod error;
pub mod event;
pub mod dto;

verus! {

/// The value a new counter starts with.
pub const START_VALUE: usize = 1337;

} // verus!
