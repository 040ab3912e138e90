//! What the ping planet game shares with its clients: a planet counts the
//! pings it received.
use vstd::prelude::*;
use crate::text::owned;

verus! {

/// A shared event of a ping planet.
#[derive(Clone, Copy, Debug, PartialEq, Eq, Structural)]
pub enum SharedPlanetEvent {
    Created(usize),
    Pong(usize),
    Boom(usize),
}

/// A command on a ping planet.
#[derive(Clone, Debug, PartialEq, Eq)]
pub enum PlanetCommand {
    Create { account_id: String },
    ChangeOwner { account_id: String },
    Ping,
}

/// Why a ping planet refused a command.
#[derive(Clone, Copy, Debug, PartialEq, Eq, Structural)]
pub enum PlanetError {
    InvalidOwner,
}

impl PlanetError {
    /// The error's message, as `Display` writes it.
    pub fn message(&self) -> (r: String)
        ensures
            r@ == "owner id is not a modelkey"@,
    {
        owned("owner id is not a modelkey")
    }
}

/// A ping planet as its players see it: its count of pings.
#[derive(Clone, Copy, Debug, PartialEq, Eq, Default)]
pub struct PlanetDto {
    nb: u32,
}

impl PlanetDto {
    /// The count of pings.
    pub closed spec fn spec_nb(self) -> u32 {
        self.nb
    }

    /// `event` can be played: a pong does not overflow the count.
    pub open spec fn can_play(self, event: SharedPlanetEvent) -> bool {
        event matches SharedPlanetEvent::Pong(_) ==> self.spec_nb() < u32::MAX
    }

    /// The count once `event` is played: a pong adds one, a creation sets
    /// it to 100, a boom leaves it.
    pub open spec fn played(self, event: SharedPlanetEvent) -> u32 {
        match event {
            SharedPlanetEvent::Pong(_) => (self.spec_nb() + 1) as u32,
            SharedPlanetEvent::Created(_) => 100,
            SharedPlanetEvent::Boom(_) => self.spec_nb(),
        }
    }

    /// A planet with no ping.
    pub fn new() -> (r: PlanetDto)
        ensures
            r.spec_nb() == 0,
    {
        PlanetDto { nb: 0 }
    }

    /// Plays `event` on the planet.
    pub fn play_event(&mut self, event: &SharedPlanetEvent)
        requires
            old(self).can_play(*event),
        ensures
            final(self).spec_nb() == old(self).played(*event),
    {
        match event {
            SharedPlanetEvent::Pong(_) => {
                self.nb = self.nb + 1;
            },
            SharedPlanetEvent::Created(_) => {
                self.nb = 100;
            },
            SharedPlanetEvent::Boom(_) => {},
        }
    }

    /// The count of pings.
    pub fn nb(&self) -> (r: u32)
        ensures
            r == self.spec_nb(),
    {
        self.nb
    }
}

} // verus!
