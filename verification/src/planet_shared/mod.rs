//! What the planet service shares with its clients: the planet's
//! resources and buildings, the events that update them, the commands a
//! player sends and the errors they can meet.
pub mod dto;
pub mod event;
pub mod command;
pub mod error;
pub mod dto_admin;
