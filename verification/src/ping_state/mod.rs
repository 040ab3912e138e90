//! A ping planet as the server holds it: the shared count, the owner and a
//! countdown to the planet's boom.
use vstd::prelude::*;
use crate::model_key::{
    default_model_key, default_model_key_text, model_key_or_default, model_key_or_default_of,
    model_key_text, parse_model_key,
};
use crate::outcome::result_seq;
use crate::ping_shared::{PlanetCommand, PlanetDto, PlanetError, SharedPlanetEvent};
use crate::public::planet::PubPlanetEvent;
use crate::time::now_epoch_secs;

verus! {

/// An event only the planet's own state replays.
#[derive(Clone, Copy, Debug, PartialEq, Eq, Structural)]
pub enum PrvPlanetEvent {
    LowerCountDown(usize),
}

/// Any event of a ping planet.
#[derive(Clone, Debug, PartialEq, Eq)]
pub enum PlanetEvent {
    Private(PrvPlanetEvent),
    Shared(SharedPlanetEvent),
    Public(PubPlanetEvent),
}

/// The state of a ping planet; the owner's key is held as its text.
#[derive(Clone, Debug, PartialEq, Eq)]
pub struct PlanetState {
    pub shared: PlanetDto,
    pub owner: String,
    pub countdown: usize,
}

/// The content of a ping planet's state.
pub struct PingView {
    pub nb: u32,
    pub owner: Seq<char>,
    pub countdown: usize,
}

impl View for PlanetState {
    type V = PingView;

    open spec fn view(&self) -> PingView {
        PingView { nb: self.shared.spec_nb(), owner: self.owner@, countdown: self.countdown }
    }
}

impl PingView {
    /// `event` can be played: a pong does not overflow the count, and the
    /// countdown is lowered only from above zero.
    pub open spec fn can_play(self, event: PlanetEvent) -> bool {
        match event {
            PlanetEvent::Shared(SharedPlanetEvent::Pong(_)) => self.nb < u32::MAX,
            PlanetEvent::Private(PrvPlanetEvent::LowerCountDown(_)) => self.countdown > 0,
            _ => true,
        }
    }

    /// The planet once `event` is played: a pong adds one to the count, a
    /// creation sets the count to 100 and the countdown to 25, a boom sets
    /// the countdown to 100, a lowering takes one from it, and a new
    /// owner's id is read as a key (the default key where it is not one).
    pub open spec fn played(self, event: PlanetEvent) -> PingView {
        match event {
            PlanetEvent::Shared(SharedPlanetEvent::Created(_)) => PingView { nb: 100, countdown: 25, ..self },
            PlanetEvent::Shared(SharedPlanetEvent::Pong(_)) => PingView { nb: (self.nb + 1) as u32, ..self },
            PlanetEvent::Shared(SharedPlanetEvent::Boom(_)) => PingView { countdown: 100, ..self },
            PlanetEvent::Private(PrvPlanetEvent::LowerCountDown(_)) => PingView {
                countdown: (self.countdown - 1) as usize,
                ..self
            },
            PlanetEvent::Public(PubPlanetEvent::NewOwner { account_id, .. }) => PingView {
                owner: model_key_or_default(account_id@),
                ..self
            },
        }
    }

    /// Every event of `events` can be played in turn.
    pub open spec fn can_replay(self, events: Seq<PlanetEvent>) -> bool
        decreases events.len(),
    {
        events.len() == 0 || (self.can_play(events[0]) && self.played(events[0]).can_replay(events.drop_first()))
    }

    /// The planet once `events` are played in order.
    pub open spec fn replayed(self, events: Seq<PlanetEvent>) -> PingView
        decreases events.len(),
    {
        if events.len() == 0 {
            self
        } else {
            self.played(events[0]).replayed(events.drop_first())
        }
    }

    /// What the planet answers to `command` at `timestamp` (Unix seconds):
    /// creation and change of owner need an id that is a key; a ping is
    /// answered by a pong, and, when the parities of the timestamp and of
    /// the count agree, by the boom if the countdown is at 1 and else by a
    /// lowering of the countdown.
    pub open spec fn decision(self, owner: String, command: PlanetCommand, timestamp: u64) -> Result<Seq<PlanetEvent>, PlanetError> {
        match command {
            PlanetCommand::Create { account_id } => if model_key_text(account_id@) is None {
                Err(PlanetError::InvalidOwner)
            } else {
                Ok(
                    seq![
                        PlanetEvent::Shared(SharedPlanetEvent::Created(0)),
                        PlanetEvent::Public(PubPlanetEvent::NewOwner { old_account_id: None, account_id }),
                    ],
                )
            },
            PlanetCommand::ChangeOwner { account_id } => if model_key_text(account_id@) is None {
                Err(PlanetError::InvalidOwner)
            } else {
                Ok(
                    seq![
                        PlanetEvent::Public(
                            PubPlanetEvent::NewOwner { old_account_id: Some(owner), account_id },
                        ),
                    ],
                )
            },
            PlanetCommand::Ping => {
                let pong = PlanetEvent::Shared(SharedPlanetEvent::Pong(0));
                if timestamp % 2 == (self.nb as u64) % 2 {
                    if self.countdown == 1 {
                        Ok(seq![pong, PlanetEvent::Shared(SharedPlanetEvent::Boom(0))])
                    } else {
                        Ok(seq![pong, PlanetEvent::Private(PrvPlanetEvent::LowerCountDown(0))])
                    }
                } else {
                    Ok(seq![pong])
                }
            },
        }
    }

}

impl PlanetState {
    /// A planet not created yet.
    pub fn new() -> (r: PlanetState)
        ensures
            r@ == (PingView { nb: 0, owner: default_model_key_text(), countdown: 0 }),
    {
        PlanetState { shared: PlanetDto::new(), owner: default_model_key(), countdown: 0 }
    }

    /// The owner's key, as text.
    pub fn owner(&self) -> (r: &String)
        ensures
            *r == self.owner,
    {
        &self.owner
    }

    /// The count of pings.
    pub fn nb(&self) -> (r: u64)
        ensures
            r == self.shared.spec_nb(),
    {
        self.shared.nb() as u64
    }

    /// The planet as its players see it.
    pub fn shared(&self) -> (r: &PlanetDto)
        ensures
            *r == self.shared,
    {
        &self.shared
    }

    /// Plays `event` on the planet.
    pub fn play_event(&mut self, event: &PlanetEvent)
        requires
            old(self)@.can_play(*event),
        ensures
            final(self)@ == old(self)@.played(*event),
    {
        match event {
            PlanetEvent::Shared(e) => {
                self.shared.play_event(e);
                match e {
                    SharedPlanetEvent::Created(_) => {
                        self.countdown = 25;
                    },
                    SharedPlanetEvent::Pong(_) => {},
                    SharedPlanetEvent::Boom(_) => {
                        self.countdown = 100;
                    },
                }
            },
            PlanetEvent::Private(PrvPlanetEvent::LowerCountDown(_)) => {
                self.countdown = self.countdown - 1;
            },
            PlanetEvent::Public(PubPlanetEvent::NewOwner { account_id, .. }) => {
                self.owner = model_key_or_default_of(account_id.as_str());
            },
        }
    }

    /// What the planet answers to `command` at `timestamp`.
    pub fn decide(&self, command: PlanetCommand, timestamp: u64) -> (r: Result<Vec<PlanetEvent>, PlanetError>)
        ensures
            result_seq(r) == self@.decision(self.owner, command, timestamp),
    {
        match command {
            PlanetCommand::Create { account_id } => {
                if parse_model_key(account_id.as_str()).is_none() {
                    return Err(PlanetError::InvalidOwner);
                }
                let ghost a = account_id;
                let r = vec![
                    PlanetEvent::Shared(SharedPlanetEvent::Created(0)),
                    PlanetEvent::Public(PubPlanetEvent::NewOwner { old_account_id: None, account_id }),
                ];
                proof {
                    assert(r@ =~= seq![
                        PlanetEvent::Shared(SharedPlanetEvent::Created(0)),
                        PlanetEvent::Public(PubPlanetEvent::NewOwner { old_account_id: None, account_id: a }),
                    ]);
                }
                Ok(r)
            },
            PlanetCommand::ChangeOwner { account_id } => {
                if parse_model_key(account_id.as_str()).is_none() {
                    return Err(PlanetError::InvalidOwner);
                }
                let ev = PlanetEvent::Public(
                    PubPlanetEvent::NewOwner { old_account_id: Some(self.owner.clone()), account_id },
                );
                let r = vec![ev];
                proof {
                    assert(r@ =~= seq![ev]);
                }
                Ok(r)
            },
            PlanetCommand::Ping => {
                let pong = PlanetEvent::Shared(SharedPlanetEvent::Pong(0));
                let mut r = vec![pong];
                if timestamp % 2 == self.nb() % 2 {
                    if self.countdown == 1 {
                        r.push(PlanetEvent::Shared(SharedPlanetEvent::Boom(0)));
                    } else {
                        r.push(PlanetEvent::Private(PrvPlanetEvent::LowerCountDown(0)));
                    }
                }
                proof {
                    assert(r@ =~= self@.decision(self.owner, command, timestamp)->Ok_0);
                }
                Ok(r)
            },
        }
    }

    /// What the planet answers to `command`: the clock is read (whole
    /// seconds since the Unix epoch, 0 where it is before the epoch) and
    /// the answer is `decide`'s at that reading.
    pub fn try_command(&self, command: PlanetCommand) -> (r: Result<Vec<PlanetEvent>, PlanetError>)
        ensures
            exists|timestamp: u64| result_seq(r) == #[trigger] self@.decision(self.owner, command, timestamp),
    {
        let timestamp = match now_epoch_secs() {
            Some(t) => t,
            None => 0,
        };
        self.decide(command, timestamp)
    }
}

impl Default for PlanetState {
    /// A planet not created yet.
    fn default() -> (r: PlanetState)
        ensures
            r@ == (PingView { nb: 0, owner: default_model_key_text(), countdown: 0 }),
    {
        PlanetState::new()
    }
}

} // verus!

verus! {

/// Pinging: on a planet whose countdown has started (at least 1), the
/// answer to a ping can be replayed while the count has room; it adds one
/// to the count and the countdown stays at least 1 (a boom restarts it).
pub proof fn law_ping(v: PingView, owner: String, timestamp: u64, evs: Seq<PlanetEvent>)
    requires
        v.countdown >= 1,
        v.nb < u32::MAX,
        v.decision(owner, PlanetCommand::Ping, timestamp) == Ok::<Seq<PlanetEvent>, PlanetError>(evs),
    ensures
        v.can_replay(evs),
        v.replayed(evs).nb == v.nb + 1,
        v.replayed(evs).countdown >= 1,
        v.replayed(evs).owner == v.owner,
{
    reveal_with_fuel(PingView::replayed, 3);
    reveal_with_fuel(PingView::can_replay, 3);
    if evs.len() == 2 {
        assert(evs.drop_first().drop_first().len() == 0);
    } else {
        assert(evs.drop_first().len() == 0);
    }
}

/// Creating: once an accepted creation is replayed, the planet counts 100,
/// its countdown is at 25 and it belongs to the account the command names.
pub proof fn law_ping_creation(v: PingView, owner: String, account_id: String, timestamp: u64, evs: Seq<PlanetEvent>)
    requires
        v.decision(owner, PlanetCommand::Create { account_id }, timestamp) == Ok::<Seq<PlanetEvent>, PlanetError>(evs),
    ensures
        v.can_replay(evs),
        v.replayed(evs).nb == 100,
        v.replayed(evs).countdown == 25,
        v.replayed(evs).owner == model_key_text(account_id@)->0,
{
    reveal_with_fuel(PingView::replayed, 3);
    reveal_with_fuel(PingView::can_replay, 3);
    assert(evs.drop_first().drop_first().len() == 0);
}


/// The countdown of a ping: a ping always adds one to the count. When the
/// parities of the timestamp and of the count differ the countdown stays;
/// when they agree, a countdown of 2 or more goes down by exactly one and
/// no boom comes, and a countdown of 1 booms and restarts at 100.
pub proof fn law_ping_countdown(v: PingView, owner: String, timestamp: u64)
    requires
        v.nb < u32::MAX,
        v.countdown >= 1,
    ensures
        ({
            let evs = v.decision(owner, PlanetCommand::Ping, timestamp)->Ok_0;
            let boom = PlanetEvent::Shared(SharedPlanetEvent::Boom(0));
            &&& v.decision(owner, PlanetCommand::Ping, timestamp) is Ok
            &&& v.can_replay(evs)
            &&& v.replayed(evs).nb == v.nb + 1
            &&& timestamp % 2 != (v.nb as u64) % 2 ==> v.replayed(evs).countdown == v.countdown && !evs.contains(boom)
            &&& timestamp % 2 == (v.nb as u64) % 2 && v.countdown >= 2 ==> v.replayed(evs).countdown == v.countdown - 1
                && !evs.contains(boom)
            &&& timestamp % 2 == (v.nb as u64) % 2 && v.countdown == 1 ==> v.replayed(evs).countdown == 100
                && evs.contains(boom)
        }),
{
    reveal_with_fuel(PingView::replayed, 3);
    reveal_with_fuel(PingView::can_replay, 3);
    let evs = v.decision(owner, PlanetCommand::Ping, timestamp)->Ok_0;
    let boom = PlanetEvent::Shared(SharedPlanetEvent::Boom(0));
    if timestamp % 2 == (v.nb as u64) % 2 {
        assert(evs.drop_first().drop_first().len() == 0);
        if v.countdown == 1 {
            assert(evs[1] == boom);
        } else {
            assert(evs[0] != boom && evs[1] != boom);
        }
    } else {
        assert(evs.drop_first().len() == 0);
        assert(evs[0] != boom);
    }
}


/// Creating and changing hands: accepted exactly when the account id is a
/// key.
pub proof fn law_ping_owner_acceptance(v: PingView, owner: String, account_id: String, timestamp: u64)
    ensures
        v.decision(owner, PlanetCommand::Create { account_id }, timestamp) is Ok <==> model_key_text(account_id@) is Some,
        v.decision(owner, PlanetCommand::ChangeOwner { account_id }, timestamp) is Ok <==> model_key_text(account_id@) is Some,
{
}

} // verus!
