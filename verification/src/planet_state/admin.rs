//! The state of the game's planet settings as the server holds it.
use vstd::prelude::*;
use crate::planet_shared::command::SharedPlanetAdminCommand;
use crate::planet_shared::dto_admin::PlanetAdminDto;
use crate::planet_shared::error::PlanetAdminError;
use crate::planet_shared::event::SharedPlanetAdminEvent;
use crate::outcome::result_seq;

verus! {

/// The state of the game's planet settings.
#[derive(Clone, Copy, Debug, PartialEq, Eq)]
pub struct PlanetAdminState {
    dto: PlanetAdminDto,
}

/// Any event of the planet settings.
#[derive(Clone, Copy, Debug, PartialEq, Eq, Structural)]
pub enum PlanetAdminEvent {
    Shared(SharedPlanetAdminEvent),
}

/// Any command on the planet settings.
#[derive(Clone, Copy, Debug, PartialEq, Eq, Structural)]
pub enum PlanetAdminCommand {
    Shared(SharedPlanetAdminCommand),
}

/// The events that answer `command`: the number of starting planets is set
/// to the one given, or to 1 when the settings are created.
pub open spec fn admin_events(command: PlanetAdminCommand) -> Seq<PlanetAdminEvent> {
    match command {
        PlanetAdminCommand::Shared(SharedPlanetAdminCommand::UpdateNbStartPlanet(nb)) => seq![
            PlanetAdminEvent::Shared(SharedPlanetAdminEvent::NbPlanetUpdated(nb)),
        ],
        PlanetAdminCommand::Shared(SharedPlanetAdminCommand::Create) => seq![
            PlanetAdminEvent::Shared(SharedPlanetAdminEvent::NbPlanetUpdated(1)),
        ],
    }
}

impl PlanetAdminState {
    /// The settings held.
    pub closed spec fn spec_dto(self) -> PlanetAdminDto {
        self.dto
    }

    /// Settings not created yet.
    pub fn new() -> (r: PlanetAdminState)
        ensures
            r.spec_dto().spec_nb_planet() == 0,
    {
        PlanetAdminState { dto: PlanetAdminDto::new() }
    }

    /// The settings held.
    pub fn dto(&self) -> (r: &PlanetAdminDto)
        ensures
            *r == self.spec_dto(),
    {
        &self.dto
    }

    /// Plays `event` on the state.
    pub fn play_event(&mut self, event: &PlanetAdminEvent)
        ensures
            final(self).spec_dto().spec_nb_planet() == match *event {
                PlanetAdminEvent::Shared(SharedPlanetAdminEvent::NbPlanetUpdated(nb)) => nb,
            },
    {
        match event {
            PlanetAdminEvent::Shared(e) => {
                self.dto.play_event(e);
            },
        }
    }

    /// The events that answer `command`; no command is refused.
    pub fn try_command(&self, command: PlanetAdminCommand) -> (r: Result<Vec<PlanetAdminEvent>, PlanetAdminError>)
        ensures
            result_seq(r) == Ok::<Seq<PlanetAdminEvent>, PlanetAdminError>(admin_events(command)),
    {
        let ev = match command {
            PlanetAdminCommand::Shared(SharedPlanetAdminCommand::UpdateNbStartPlanet(nb)) => {
                PlanetAdminEvent::Shared(SharedPlanetAdminEvent::NbPlanetUpdated(nb))
            },
            PlanetAdminCommand::Shared(SharedPlanetAdminCommand::Create) => {
                PlanetAdminEvent::Shared(SharedPlanetAdminEvent::NbPlanetUpdated(1))
            },
        };
        let r = vec![ev];
        proof {
            assert(r@ =~= admin_events(command));
        }
        Ok(r)
    }
}

impl Default for PlanetAdminState {
    /// Settings not created yet.
    fn default() -> (r: PlanetAdminState)
        ensures
            r.spec_dto().spec_nb_planet() == 0,
    {
        PlanetAdminState::new()
    }
}

} // verus!
