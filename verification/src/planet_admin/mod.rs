//! The settings of the planet service for a game: the game's clock and the
//! host that serves the game.
use vstd::prelude::*;
use crate::outcome::result_seq;
use crate::text::owned;
use crate::time::TimeConfig;
use url::Url;

verus! {

/// Name of the stream of the planet service's settings.
pub const PLANET_CONFIG_STATE_NAME: &'static str = "PLANET_CONFIG_STATE";

/// A URL, carried through as it is.
#[verifier::external_type_specification]
#[verifier::external_body]
pub struct ExUrl(Url);

/// `Url::clone`: the derived clone of the URL's serialization and indices,
/// a value equal to `u`.
pub assume_specification[ <Url as Clone>::clone ](u: &Url) -> (r: Url)
    ensures
        r == *u,
;

/// A command on the settings.
#[derive(Clone, Debug, PartialEq, Eq)]
pub enum PlanetAdminCommand {
    Setup(TimeConfig, Url),
}

/// Why a command on the settings was refused.
#[derive(Clone, Copy, Debug, PartialEq, Eq, Structural)]
pub enum PlanetAdminError {
    SomeError,
}

impl PlanetAdminError {
    /// The error's message, as `Display` writes it.
    pub fn message(&self) -> (r: String)
        ensures
            r@ == "some error found"@,
    {
        owned("some error found")
    }
}

/// An event of the settings.
#[derive(Clone, Debug, PartialEq, Eq)]
pub enum PlanetAdminEvent {
    Setup(TimeConfig, Url),
}

/// The settings: the game's clock and its host, once set up.
#[derive(Clone, Debug, PartialEq, Eq)]
pub struct PlanetAdminState {
    time: Option<TimeConfig>,
    game_hosts: Option<Url>,
}

impl PlanetAdminState {
    /// The game's clock, once set up.
    pub closed spec fn spec_time(self) -> Option<TimeConfig> {
        self.time
    }

    /// The game's host, once set up.
    pub closed spec fn spec_game_hosts(self) -> Option<Url> {
        self.game_hosts
    }

    /// Settings not set up yet.
    pub fn new() -> (r: PlanetAdminState)
        ensures
            r.spec_time() is None,
            r.spec_game_hosts() is None,
    {
        PlanetAdminState { time: None, game_hosts: None }
    }

    /// The game's clock, once set up.
    pub fn time(&self) -> (r: Option<TimeConfig>)
        ensures
            r == self.spec_time(),
    {
        self.time
    }

    /// The game's host, once set up.
    pub fn game_hosts(&self) -> (r: &Option<Url>)
        ensures
            *r == self.spec_game_hosts(),
    {
        &self.game_hosts
    }

    /// Plays `event`: the clock and the host are set to the event's.
    pub fn play_event(&mut self, event: &PlanetAdminEvent)
        ensures
            match *event {
                PlanetAdminEvent::Setup(time, host) => final(self).spec_time() == Some(time)
                    && final(self).spec_game_hosts() == Some(host),
            },
    {
        match event {
            PlanetAdminEvent::Setup(time, host) => {
                self.time = Some(*time);
                self.game_hosts = Some(host.clone());
            },
        }
    }

    /// The events that answer `command`: a setup is recorded as it came.
    pub fn try_command(&self, command: PlanetAdminCommand) -> (r: Result<Vec<PlanetAdminEvent>, PlanetAdminError>)
        ensures
            result_seq(r) == Ok::<Seq<PlanetAdminEvent>, PlanetAdminError>(
                match command {
                    PlanetAdminCommand::Setup(time, host) => seq![PlanetAdminEvent::Setup(time, host)],
                },
            ),
    {
        match command {
            PlanetAdminCommand::Setup(time, host) => {
                let ghost h = host;
                let r = vec![PlanetAdminEvent::Setup(time, host)];
                proof {
                    assert(r@ =~= seq![PlanetAdminEvent::Setup(time, h)]);
                }
                Ok(r)
            },
        }
    }
}

impl Default for PlanetAdminState {
    /// Settings not set up yet.
    fn default() -> (r: PlanetAdminState)
        ensures
            r.spec_time() is None,
            r.spec_game_hosts() is None,
    {
        PlanetAdminState::new()
    }
}

} // verus!
