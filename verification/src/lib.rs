//! The game logic of the horfimbor planet and account services: the
//! event-sourced states, the events they replay and the commands they
//! decide on, with their contracts.
use vstd::prelude::*;

pub mod time;
pub mod text;
pub mod outcome;
pub mod planet_state;
pub mod planet_admin;
pub mod public;
pub mod account_shared;
pub mod account_state;
pub mod template_shared;
pub mod mono_state;
pub mod ping_shared;
pub mod ping_state;
pub mod web;
pub mod visual;
pub mod consumers;
pub mod model_key;
pub mod planet_shared;



