//! The planet's state as the server holds it: the shared view of the
//! planet, its owner and the key of the game's settings; the commands it
//! decides on and the events it replays.
use vstd::prelude::*;

pub mod admin;

use std::collections::HashMap;
use crate::model_key::{
    default_model_key, default_model_key_text, model_key_or_default, model_key_or_default_of,
    model_key_text, new_uuid_v4, parse_model_key, is_uuid_v4,
};
use crate::outcome::{
    collect, lemma_collect_at, lemma_collect_done, lemma_prepend_twice, prepend_ok, result_seq,
};
use crate::planet_shared::command::SharedPlanetCommand;
use crate::planet_shared::dto::{
    Building, PlanetDto, PlanetDtoView, Production, Resource, ResourceCalc, ResourceMap,
};
use crate::planet_shared::error::PlanetError;
use crate::planet_shared::event::SharedPlanetEvent;
use crate::text::owned;
use crate::time::{TimeConfig, in_i64, now_millis, trunc_div};

verus! {

/// An event only the planet's own state replays.
#[derive(Clone, Debug, PartialEq, Eq)]
pub enum PrvPlanetEvent {
    /// The key (as text) of the game's planet settings.
    PlanetAdminSet(String),
}

/// An event other services listen to: the planet changed hands.
#[derive(Clone, Debug, PartialEq, Eq)]
pub enum PubPlanetEvent {
    NewOwner { endpoint: String, old_account_id: Option<String>, account_id: String },
}

/// Any event of a planet.
#[derive(Clone, Debug, PartialEq, Eq)]
pub enum PlanetEvent {
    Private(PrvPlanetEvent),
    Shared(SharedPlanetEvent),
    Public(PubPlanetEvent),
}

/// A command only the server sends.
#[derive(Clone, Debug, PartialEq, Eq)]
pub enum PrivatePlanetCommand {
    CalculateStock { resource: Resource, calc: ResourceCalc },
}

/// Any command on a planet.
#[derive(Clone, Debug, PartialEq, Eq)]
pub enum PlanetCommand {
    Private(PrivatePlanetCommand),
    Shared(SharedPlanetCommand),
}

/// The state of a planet; keys are held as their text.
#[derive(Clone, Debug, PartialEq, Eq)]
pub struct PlanetState {
    pub shared: PlanetDto,
    pub owner: String,
    pub planet_admin: String,
    pub countdown: usize,
}

/// How a construction command treats one cost of a building.
#[derive(Clone, Copy, Debug, PartialEq, Eq, Structural)]
pub enum CostKind {
    /// The cost is taken from the stock.
    Start,
    /// Half of the cost is given back.
    Cancel,
}

/// How a construction command treats one production of a building.
#[derive(Clone, Copy, Debug, PartialEq, Eq, Structural)]
pub enum ProductionKind {
    /// The production and the stock capacity are added.
    Finish,
    /// The production and the stock capacity are taken away.
    Destroy,
}

/// An empty stock dated `now`: what `ResourceCalc::default()` gives at `now`.
pub open spec fn empty_calc(now: i64) -> ResourceCalc {
    ResourceCalc { quantity: 0, date_time: now, production: 0, stock_capacity: 0 }
}

/// The stock held for `r`, or an empty one dated `now`.
pub open spec fn calc_or_empty(res: ResourceMap<ResourceCalc>, r: Resource, now: i64) -> ResourceCalc {
    match res.slot(r) {
        Some(c) => c,
        None => empty_calc(now),
    }
}

/// `*quantity as i64 / 2`: half of a cost, rounded toward zero.
pub open spec fn half_cost(q: usize) -> i64 {
    trunc_div((q as i64) as int, 2) as i64
}

/// The event (or the refusal) for the cost `entry` of a building.
/// Starting a construction needs a known stock of the resource, is refused
/// where the cost is below the stock recomputed at `now`, and otherwise
/// takes the cost from it. Cancelling gives back half of the cost to the
/// stock recomputed at `now`. Arithmetic that leaves the `i64` range is
/// refused as `CannotComputeTime`.
pub open spec fn cost_step(
    res: ResourceMap<ResourceCalc>,
    entry: (Resource, usize),
    kind: CostKind,
    tc: TimeConfig,
    now: i64,
) -> Result<PlanetEvent, PlanetError> {
    let (r, q) = entry;
    match kind {
        CostKind::Start => match res.slot(r) {
            None => Err(PlanetError::NotEnoughResources(r)),
            Some(calc) => match calc.spec_compute_at(tc, now) {
                None => Err(PlanetError::CannotComputeTime),
                Some(nc) => if q < nc.quantity {
                    Err(PlanetError::NotEnoughResources(r))
                } else if !in_i64((nc.quantity as i64) - (q as i64)) {
                    Err(PlanetError::CannotComputeTime)
                } else {
                    Ok(
                        PlanetEvent::Shared(
                            SharedPlanetEvent::UpdateResource {
                                resource: r,
                                calc: nc.spec_sub(q as i64),
                            },
                        ),
                    )
                },
            },
        },
        CostKind::Cancel => match calc_or_empty(res, r, now).spec_compute_at(tc, now) {
            None => Err(PlanetError::CannotComputeTime),
            Some(nc) => if !in_i64((nc.quantity as i64) + half_cost(q)) {
                Err(PlanetError::CannotComputeTime)
            } else {
                Ok(
                    PlanetEvent::Shared(
                        SharedPlanetEvent::UpdateResource {
                            resource: r,
                            calc: nc.spec_add(half_cost(q)),
                        },
                    ),
                )
            },
        },
    }
}

/// The event (or the refusal) for the production `entry` of a building
/// that starts or stops running: the stock is recomputed now, then the
/// production and the capacity are added or taken away. Arithmetic that
/// leaves the range of its type is refused as `CannotComputeTime`.
pub open spec fn production_step(
    res: ResourceMap<ResourceCalc>,
    entry: (Resource, Production),
    kind: ProductionKind,
    tc: TimeConfig,
    now: i64,
) -> Result<PlanetEvent, PlanetError> {
    let (r, p) = entry;
    match calc_or_empty(res, r, now).spec_compute_at(tc, now) {
        None => Err(PlanetError::CannotComputeTime),
        Some(nc) => {
            let production = match kind {
                ProductionKind::Finish => nc.production + (p.quantity as i64),
                ProductionKind::Destroy => nc.production - (p.quantity as i64),
            };
            let stock = match kind {
                ProductionKind::Finish => nc.stock_capacity + p.stock,
                ProductionKind::Destroy => nc.stock_capacity - p.stock,
            };
            if !in_i64(production) || !(0 <= stock <= usize::MAX) {
                Err(PlanetError::CannotComputeTime)
            } else {
                Ok(
                    PlanetEvent::Shared(
                        SharedPlanetEvent::UpdateResource {
                            resource: r,
                            calc: ResourceCalc {
                                production: production as i64,
                                stock_capacity: stock as usize,
                                ..nc
                            },
                        },
                    ),
                )
            }
        },
    }
}

/// The steps for the costs `entries`.
pub open spec fn cost_steps(
    res: ResourceMap<ResourceCalc>,
    entries: Seq<(Resource, usize)>,
    kind: CostKind,
    tc: TimeConfig,
    now: i64,
) -> Seq<Result<PlanetEvent, PlanetError>> {
    Seq::new(entries.len(), |i: int| cost_step(res, entries[i], kind, tc, now))
}

/// The steps for the productions `entries`.
pub open spec fn production_steps(
    res: ResourceMap<ResourceCalc>,
    entries: Seq<(Resource, Production)>,
    kind: ProductionKind,
    tc: TimeConfig,
    now: i64,
) -> Seq<Result<PlanetEvent, PlanetError>> {
    Seq::new(entries.len(), |i: int| production_step(res, entries[i], kind, tc, now))
}

/// The building offered to every new planet.
pub open spec fn is_steal_factory(b: Building) -> bool {
    &&& b.name@ == "Steal factory"@
    &&& b.construction == ResourceMap {
        electricity: Some(998usize),
        population: Some(800usize),
        steal: None,
    }
    &&& b.construction_time == 100
    &&& b.running_cost == ResourceMap {
        electricity: Some(51usize),
        population: Some(23usize),
        steal: None,
    }
    &&& b.production == ResourceMap {
        electricity: None,
        population: None,
        steal: Some(Production { quantity: 49, stock: 1000 }),
    }
}

/// The events that create a planet: the settings' key is recorded, the
/// owner announced, the population and the electricity stocked, and the
/// steal factory offered under the key `fresh`.
pub open spec fn creation_events(
    evs: Seq<PlanetEvent>,
    account_id: String,
    admin_text: Seq<char>,
    host: String,
    fresh: u128,
    now: i64,
) -> bool {
    &&& evs.len() == 5
    &&& evs[0] matches PlanetEvent::Private(PrvPlanetEvent::PlanetAdminSet(k)) && k@ == admin_text
    &&& evs[1] == PlanetEvent::Public(
        PubPlanetEvent::NewOwner { endpoint: host, old_account_id: None, account_id },
    )
    &&& evs[2] == PlanetEvent::Shared(
        SharedPlanetEvent::UpdateResource {
            resource: Resource::Population,
            calc: ResourceCalc {
                quantity: 10000,
                date_time: now,
                production: 0,
                stock_capacity: 100000,
            },
        },
    )
    &&& evs[3] == PlanetEvent::Shared(
        SharedPlanetEvent::UpdateResource {
            resource: Resource::Electricity,
            calc: ResourceCalc { quantity: 11000, date_time: now, production: 0, stock_capacity: 0 },
        },
    )
    &&& evs[4] matches PlanetEvent::Shared(
        SharedPlanetEvent::UpdateAvailableBuilding { key, building },
    ) && key == fresh && is_steal_factory(building)
}

/// The content of a planet's state.
pub struct PlanetStateView {
    pub shared: PlanetDtoView,
    pub owner: Seq<char>,
    pub planet_admin: Seq<char>,
    pub countdown: usize,
}

impl View for PlanetState {
    type V = PlanetStateView;

    open spec fn view(&self) -> PlanetStateView {
        PlanetStateView {
            shared: self.shared@,
            owner: self.owner@,
            planet_admin: self.planet_admin@,
            countdown: self.countdown,
        }
    }
}

impl PlanetStateView {
    /// The planet once `event` is played: shared events update the shared
    /// view, the settings' key is recorded, and a new owner's id is read as
    /// a key (the default key where it is not one).
    pub open spec fn played(self, event: PlanetEvent) -> PlanetStateView {
        match event {
            PlanetEvent::Shared(e) => PlanetStateView { shared: self.shared.played(e), ..self },
            PlanetEvent::Private(PrvPlanetEvent::PlanetAdminSet(k)) => PlanetStateView { planet_admin: k@, ..self },
            PlanetEvent::Public(PubPlanetEvent::NewOwner { account_id, .. }) => PlanetStateView {
                owner: model_key_or_default(account_id@),
                ..self
            },
        }
    }

    /// The planet once `events` are played in order.
    pub open spec fn replayed(self, events: Seq<PlanetEvent>) -> PlanetStateView
        decreases events.len(),
    {
        if events.len() == 0 {
            self
        } else {
            self.played(events[0]).replayed(events.drop_first())
        }
    }
}

impl PlanetState {
    /// The outcome of a construction command: refused where the building
    /// `key` is not in the collection the command works on, then where no
    /// time configuration came with the command; otherwise the building's
    /// move and one event per cost (or production) of the building, in the
    /// order Electricity, Population, Steal, up to the first refusal.
    /// `decided` asks it of the four construction commands only; the last
    /// arm, for the other two, is never read.
    pub open spec fn outcome_of(
        self,
        command: SharedPlanetCommand,
        fresh: u128,
        now: i64,
    ) -> Result<Seq<PlanetEvent>, PlanetError> {
        let res = self.shared.resources;
        match command {
            SharedPlanetCommand::StartConstruction { key, time_config } => {
                if !self.shared.available_building@.contains_key(key) {
                    Err(PlanetError::AvailableIdNotExists)
                } else {
                    match time_config {
                        None => Err(PlanetError::NoTimeConfig),
                        Some(tc) => {
                            let b = self.shared.available_building@[key];
                            prepend_ok(
                                seq![PlanetEvent::Shared(SharedPlanetEvent::UpdateConstruction { key: fresh, building: b })],
                                collect(cost_steps(res, b.construction.entries(), CostKind::Start, tc, now)),
                            )
                        },
                    }
                }
            },
            SharedPlanetCommand::CancelConstruction { key, time_config } => {
                if !self.shared.construction@.contains_key(key) {
                    Err(PlanetError::ConstructionIdNotExists)
                } else {
                    match time_config {
                        None => Err(PlanetError::NoTimeConfig),
                        Some(tc) => {
                            let b = self.shared.construction@[key];
                            prepend_ok(
                                seq![PlanetEvent::Shared(SharedPlanetEvent::RemoveConstruction { key })],
                                collect(cost_steps(res, b.construction.entries(), CostKind::Cancel, tc, now)),
                            )
                        },
                    }
                }
            },
            SharedPlanetCommand::FinnishConstruction { key, time_config } => {
                if !self.shared.construction@.contains_key(key) {
                    Err(PlanetError::ConstructionIdNotExists)
                } else {
                    match time_config {
                        None => Err(PlanetError::NoTimeConfig),
                        Some(tc) => {
                            let b = self.shared.construction@[key];
                            prepend_ok(
                                seq![
                                    PlanetEvent::Shared(SharedPlanetEvent::RemoveConstruction { key }),
                                    PlanetEvent::Shared(SharedPlanetEvent::UpdateRunningBuilding { key: fresh, building: b }),
                                ],
                                collect(production_steps(res, b.production.entries(), ProductionKind::Finish, tc, now)),
                            )
                        },
                    }
                }
            },
            SharedPlanetCommand::DestroyConstruction { key, time_config } => {
                if !self.shared.buildings@.contains_key(key) {
                    Err(PlanetError::BuildingIdNotExists)
                } else {
                    match time_config {
                        None => Err(PlanetError::NoTimeConfig),
                        Some(tc) => {
                            let b = self.shared.buildings@[key];
                            prepend_ok(
                                seq![PlanetEvent::Shared(SharedPlanetEvent::RemoveRunningBuilding { key })],
                                collect(production_steps(res, b.production.entries(), ProductionKind::Destroy, tc, now)),
                            )
                        },
                    }
                }
            },
            _ => Err(PlanetError::InvalidName),
        }
    }

    /// What the planet answers to `command`, given the server's host
    /// (`APP_HOST`), the key `fresh` for a new building and the instant
    /// `now` (Unix milliseconds).
    pub open spec fn decided(
        self,
        command: PlanetCommand,
        app_host: Option<String>,
        fresh: u128,
        now: i64,
        r: Result<Seq<PlanetEvent>, PlanetError>,
    ) -> bool {
        match command {
            PlanetCommand::Private(PrivatePlanetCommand::CalculateStock { resource, calc }) => r == Ok::<
                Seq<PlanetEvent>,
                PlanetError,
            >(seq![PlanetEvent::Shared(SharedPlanetEvent::UpdateResource { resource, calc })]),
            PlanetCommand::Shared(c) => match c {
                SharedPlanetCommand::ChangeOwner { account_id } => if model_key_text(account_id@) is None {
                    r == Err::<Seq<PlanetEvent>, PlanetError>(PlanetError::InvalidOwner)
                } else {
                    match app_host {
                        None => r == Err::<Seq<PlanetEvent>, PlanetError>(PlanetError::NoAppHost),
                        Some(h) => r == Ok::<Seq<PlanetEvent>, PlanetError>(
                            seq![
                                PlanetEvent::Public(
                                    PubPlanetEvent::NewOwner {
                                        endpoint: h,
                                        old_account_id: Some(self.owner),
                                        account_id,
                                    },
                                ),
                            ],
                        ),
                    }
                },
                SharedPlanetCommand::Create { account_id, admin_id, .. } => if model_key_text(
                    account_id@,
                ) is None {
                    r == Err::<Seq<PlanetEvent>, PlanetError>(PlanetError::InvalidOwner)
                } else if model_key_text(admin_id@) is None {
                    r == Err::<Seq<PlanetEvent>, PlanetError>(PlanetError::InvalidAdminId)
                } else {
                    match app_host {
                        None => r == Err::<Seq<PlanetEvent>, PlanetError>(PlanetError::NoAppHost),
                        Some(h) => r matches Ok(evs) && creation_events(
                            evs,
                            account_id,
                            model_key_text(admin_id@)->0,
                            h,
                            fresh,
                            now,
                        ),
                    }
                },
                _ => r == self.outcome_of(c, fresh, now),
            },
        }
    }

    /// The owner's key, as text.
    pub fn owner(&self) -> (r: &String)
        ensures
            *r == self.owner,
    {
        &self.owner
    }

    /// The planet as its players see it.
    pub fn shared(&self) -> (r: &PlanetDto)
        ensures
            *r == self.shared,
    {
        &self.shared
    }

    /// The key of the game's planet settings, as text.
    pub fn planet_admin(&self) -> (r: &String)
        ensures
            *r == self.planet_admin,
    {
        &self.planet_admin
    }

    /// Plays `event` on the state.
    pub fn play_event(&mut self, event: &PlanetEvent)
        ensures
            final(self)@ == old(self)@.played(*event),
    {
        match event {
            PlanetEvent::Shared(e) => {
                self.shared.play_event(e);
            },
            PlanetEvent::Private(PrvPlanetEvent::PlanetAdminSet(k)) => {
                self.planet_admin = k.clone();
            },
            PlanetEvent::Public(PubPlanetEvent::NewOwner { account_id, .. }) => {
                self.owner = model_key_or_default_of(account_id.as_str());
            },
        }
    }

    /// The event for one cost of a building.
    fn cost_event(&self, r: Resource, q: usize, kind: CostKind, tc: &TimeConfig, now: i64) -> (s:
        Result<PlanetEvent, PlanetError>)
        ensures
            s == cost_step(self.shared.resources, (r, q), kind, *tc, now),
    {
        match kind {
            CostKind::Start => {
                let calc = match self.shared.resources.get(r) {
                    Some(c) => c,
                    None => return Err(PlanetError::NotEnoughResources(r)),
                };
                let nc = match calc.compute_quantity_at(tc, now) {
                    Some(nc) => nc,
                    None => return Err(PlanetError::CannotComputeTime),
                };
                if q < nc.quantity {
                    return Err(PlanetError::NotEnoughResources(r));
                }
                match (nc.quantity as i64).checked_sub(q as i64) {
                    None => Err(PlanetError::CannotComputeTime),
                    Some(_) => Ok(
                        PlanetEvent::Shared(
                            SharedPlanetEvent::UpdateResource { resource: r, calc: nc.sub(q as i64) },
                        ),
                    ),
                }
            },
            CostKind::Cancel => {
                let calc = match self.shared.resources.get(r) {
                    Some(c) => c,
                    None => ResourceCalc { quantity: 0, date_time: now, production: 0, stock_capacity: 0 },
                };
                let nc = match calc.compute_quantity_at(tc, now) {
                    Some(nc) => nc,
                    None => return Err(PlanetError::CannotComputeTime),
                };
                let half = (q as i64) / 2;
                match (nc.quantity as i64).checked_add(half) {
                    None => Err(PlanetError::CannotComputeTime),
                    Some(_) => Ok(
                        PlanetEvent::Shared(
                            SharedPlanetEvent::UpdateResource { resource: r, calc: nc.add(half) },
                        ),
                    ),
                }
            },
        }
    }

    /// The event for one production of a building.
    fn production_event(
        &self,
        r: Resource,
        p: Production,
        kind: ProductionKind,
        tc: &TimeConfig,
        now: i64,
    ) -> (s: Result<PlanetEvent, PlanetError>)
        ensures
            s == production_step(self.shared.resources, (r, p), kind, *tc, now),
    {
        let calc = match self.shared.resources.get(r) {
            Some(c) => c,
            None => ResourceCalc { quantity: 0, date_time: now, production: 0, stock_capacity: 0 },
        };
        let nc = match calc.compute_quantity_at(tc, now) {
            Some(nc) => nc,
            None => return Err(PlanetError::CannotComputeTime),
        };
        let production = match kind {
            ProductionKind::Finish => nc.production.checked_add(p.quantity as i64),
            ProductionKind::Destroy => nc.production.checked_sub(p.quantity as i64),
        };
        let stock = match kind {
            ProductionKind::Finish => nc.stock_capacity.checked_add(p.stock),
            ProductionKind::Destroy => nc.stock_capacity.checked_sub(p.stock),
        };
        match (production, stock) {
            (Some(production), Some(stock)) => Ok(
                PlanetEvent::Shared(
                    SharedPlanetEvent::UpdateResource {
                        resource: r,
                        calc: ResourceCalc { production, stock_capacity: stock, ..nc },
                    },
                ),
            ),
            _ => Err(PlanetError::CannotComputeTime),
        }
    }

    /// `events` followed by the events for the costs `entries`, or the
    /// first refusal.
    fn cost_events(
        &self,
        entries: &Vec<(Resource, usize)>,
        kind: CostKind,
        tc: &TimeConfig,
        now: i64,
        events: Vec<PlanetEvent>,
    ) -> (r: Result<Vec<PlanetEvent>, PlanetError>)
        ensures
            result_seq(r) == prepend_ok(
                events@,
                collect(cost_steps(self.shared.resources, entries@, kind, *tc, now)),
            ),
    {
        let ghost steps = cost_steps(self.shared.resources, entries@, kind, *tc, now);
        let ghost events0 = events@;
        let mut events = events;
        let mut i: usize = 0;
        proof {
            assert(steps.skip(0) =~= steps);
        }
        while i < entries.len()
            invariant
                0 <= i <= entries.len(),
                steps == cost_steps(self.shared.resources, entries@, kind, *tc, now),
                prepend_ok(events0, collect(steps)) == prepend_ok(events@, collect(steps.skip(i as int))),
            decreases entries.len() - i,
        {
            let (r, q) = entries[i];
            let step = self.cost_event(r, q, kind, tc, now);
            proof {
                lemma_collect_at(steps, i as int);
                assert(step == steps[i as int]);
            }
            match step {
                Ok(ev) => {
                    proof {
                        lemma_prepend_twice(events@, seq![ev], collect(steps.skip(i + 1)));
                    }
                    let ghost before = events@;
                    events.push(ev);
                    proof {
                        assert(events@ =~= before + seq![ev]);
                    }
                },
                Err(e) => {
                    return Err(e);
                },
            }
            i = i + 1;
        }
        proof {
            lemma_collect_done(steps);
            assert(events@ + Seq::<PlanetEvent>::empty() =~= events@);
        }
        Ok(events)
    }

    /// `events` followed by the events for the productions `entries`, or
    /// the first refusal.
    fn production_events(
        &self,
        entries: &Vec<(Resource, Production)>,
        kind: ProductionKind,
        tc: &TimeConfig,
        now: i64,
        events: Vec<PlanetEvent>,
    ) -> (r: Result<Vec<PlanetEvent>, PlanetError>)
        ensures
            result_seq(r) == prepend_ok(
                events@,
                collect(production_steps(self.shared.resources, entries@, kind, *tc, now)),
            ),
    {
        let ghost steps = production_steps(self.shared.resources, entries@, kind, *tc, now);
        let ghost events0 = events@;
        let mut events = events;
        let mut i: usize = 0;
        proof {
            assert(steps.skip(0) =~= steps);
        }
        while i < entries.len()
            invariant
                0 <= i <= entries.len(),
                steps == production_steps(self.shared.resources, entries@, kind, *tc, now),
                prepend_ok(events0, collect(steps)) == prepend_ok(events@, collect(steps.skip(i as int))),
            decreases entries.len() - i,
        {
            let (r, p) = entries[i];
            let step = self.production_event(r, p, kind, tc, now);
            proof {
                lemma_collect_at(steps, i as int);
                assert(step == steps[i as int]);
            }
            match step {
                Ok(ev) => {
                    proof {
                        lemma_prepend_twice(events@, seq![ev], collect(steps.skip(i + 1)));
                    }
                    let ghost before = events@;
                    events.push(ev);
                    proof {
                        assert(events@ =~= before + seq![ev]);
                    }
                },
                Err(e) => {
                    return Err(e);
                },
            }
            i = i + 1;
        }
        proof {
            lemma_collect_done(steps);
            assert(events@ + Seq::<PlanetEvent>::empty() =~= events@);
        }
        Ok(events)
    }

    /// What the planet answers to `command`, given the server's host, the
    /// key `fresh` for a new building and the instant `now`.
    pub fn decide(&self, command: PlanetCommand, app_host: Option<String>, fresh: u128, now: i64) -> (r:
        Result<Vec<PlanetEvent>, PlanetError>)
        ensures
            self.decided(command, app_host, fresh, now, result_seq(r)),
    {
        broadcast use vstd::std_specs::hash::group_hash_axioms;
        match command {
            PlanetCommand::Private(PrivatePlanetCommand::CalculateStock { resource, calc }) => {
                let r = vec![PlanetEvent::Shared(SharedPlanetEvent::UpdateResource { resource, calc })];
                proof {
                    assert(r@ =~= seq![PlanetEvent::Shared(SharedPlanetEvent::UpdateResource { resource, calc })]);
                }
                Ok(r)
            },
            PlanetCommand::Shared(c) => match c {
                SharedPlanetCommand::ChangeOwner { account_id } => {
                    if parse_model_key(account_id.as_str()).is_none() {
                        return Err(PlanetError::InvalidOwner);
                    }
                    let host = match app_host {
                        Some(h) => h,
                        None => return Err(PlanetError::NoAppHost),
                    };
                    let ev = PlanetEvent::Public(
                        PubPlanetEvent::NewOwner {
                            endpoint: host,
                            old_account_id: Some(self.owner.clone()),
                            account_id,
                        },
                    );
                    let r = vec![ev];
                    proof {
                        assert(r@ =~= seq![ev]);
                    }
                    Ok(r)
                },
                SharedPlanetCommand::Create { account_id, admin_id, .. } => {
                    if parse_model_key(account_id.as_str()).is_none() {
                        return Err(PlanetError::InvalidOwner);
                    }
                    let admin = match parse_model_key(admin_id.as_str()) {
                        Some(a) => a,
                        None => return Err(PlanetError::InvalidAdminId),
                    };
                    let host = match app_host {
                        Some(h) => h,
                        None => return Err(PlanetError::NoAppHost),
                    };
                    let ghost h = host;
                    let ghost a = account_id;
                    let r = vec![
                        PlanetEvent::Private(PrvPlanetEvent::PlanetAdminSet(admin)),
                        PlanetEvent::Public(
                            PubPlanetEvent::NewOwner { endpoint: host, old_account_id: None, account_id },
                        ),
                        PlanetEvent::Shared(
                            SharedPlanetEvent::UpdateResource {
                                resource: Resource::Population,
                                calc: ResourceCalc {
                                    quantity: 10000,
                                    date_time: now,
                                    production: 0,
                                    stock_capacity: 100000,
                                },
                            },
                        ),
                        PlanetEvent::Shared(
                            SharedPlanetEvent::UpdateResource {
                                resource: Resource::Electricity,
                                calc: ResourceCalc {
                                    quantity: 11000,
                                    date_time: now,
                                    production: 0,
                                    stock_capacity: 0,
                                },
                            },
                        ),
                        PlanetEvent::Shared(
                            SharedPlanetEvent::UpdateAvailableBuilding { key: fresh, building: steal_factory() },
                        ),
                    ];
                    proof {
                        assert(creation_events(r@, a, model_key_text(admin_id@)->0, h, fresh, now));
                    }
                    Ok(r)
                },
                SharedPlanetCommand::StartConstruction { key, time_config } => {
                    let building = match self.shared.available_building.get(&key) {
                        Some(b) => b.duplicate(),
                        None => return Err(PlanetError::AvailableIdNotExists),
                    };
                    let tc = match time_config {
                        Some(tc) => tc,
                        None => return Err(PlanetError::NoTimeConfig),
                    };
                    let first = PlanetEvent::Shared(
                        SharedPlanetEvent::UpdateConstruction { key: fresh, building: building.duplicate() },
                    );
                    let events = vec![first];
                    proof {
                        assert(events@ =~= seq![first]);
                    }
                    let entries = building.construction.to_vec();
                    self.cost_events(&entries, CostKind::Start, &tc, now, events)
                },
                SharedPlanetCommand::CancelConstruction { key, time_config } => {
                    let building = match self.shared.construction.get(&key) {
                        Some(b) => b.duplicate(),
                        None => return Err(PlanetError::ConstructionIdNotExists),
                    };
                    let tc = match time_config {
                        Some(tc) => tc,
                        None => return Err(PlanetError::NoTimeConfig),
                    };
                    let first = PlanetEvent::Shared(SharedPlanetEvent::RemoveConstruction { key });
                    let events = vec![first];
                    proof {
                        assert(events@ =~= seq![first]);
                    }
                    let entries = building.construction.to_vec();
                    self.cost_events(&entries, CostKind::Cancel, &tc, now, events)
                },
                SharedPlanetCommand::FinnishConstruction { key, time_config } => {
                    let building = match self.shared.construction.get(&key) {
                        Some(b) => b.duplicate(),
                        None => return Err(PlanetError::ConstructionIdNotExists),
                    };
                    let tc = match time_config {
                        Some(tc) => tc,
                        None => return Err(PlanetError::NoTimeConfig),
                    };
                    let first = PlanetEvent::Shared(SharedPlanetEvent::RemoveConstruction { key });
                    let second = PlanetEvent::Shared(
                        SharedPlanetEvent::UpdateRunningBuilding { key: fresh, building: building.duplicate() },
                    );
                    let events = vec![first, second];
                    proof {
                        assert(events@ =~= seq![first, second]);
                    }
                    let entries = building.production.to_vec();
                    self.production_events(&entries, ProductionKind::Finish, &tc, now, events)
                },
                SharedPlanetCommand::DestroyConstruction { key, time_config } => {
                    let building = match self.shared.buildings.get(&key) {
                        Some(b) => b.duplicate(),
                        None => return Err(PlanetError::BuildingIdNotExists),
                    };
                    let tc = match time_config {
                        Some(tc) => tc,
                        None => return Err(PlanetError::NoTimeConfig),
                    };
                    let first = PlanetEvent::Shared(SharedPlanetEvent::RemoveRunningBuilding { key });
                    let events = vec![first];
                    proof {
                        assert(events@ =~= seq![first]);
                    }
                    let entries = building.production.to_vec();
                    self.production_events(&entries, ProductionKind::Destroy, &tc, now, events)
                },
            },
        }
    }

    /// What the planet answers to `command`: a fresh random key (a
    /// version-4 UUID) and the clock (Unix milliseconds, not before the
    /// epoch), read once each, complete what `decide` needs. The host is
    /// the server's own (`APP_HOST`), read by the caller.
    pub fn try_command(&self, command: PlanetCommand, app_host: Option<String>) -> (r: Result<
        Vec<PlanetEvent>,
        PlanetError,
    >)
        ensures
            exists|fresh: u128, now: i64|
                is_uuid_v4(fresh) && now >= 0 && #[trigger] self.decided(command, app_host, fresh, now, result_seq(r)),
    {
        let fresh = new_uuid_v4();
        let now = now_millis();
        self.decide(command, app_host, fresh, now)
    }
}

/// The building offered to every new planet.
pub fn steal_factory() -> (b: Building)
    ensures
        is_steal_factory(b),
{
    Building {
        name: owned("Steal factory"),
        construction: ResourceMap { electricity: Some(998), population: Some(800), steal: None },
        construction_time: 100,
        running_cost: ResourceMap { electricity: Some(51), population: Some(23), steal: None },
        production: ResourceMap {
            electricity: None,
            population: None,
            steal: Some(Production { quantity: 49, stock: 1000 }),
        },
    }
}

} // verus!

verus! {

impl Default for PlanetState {
    /// A planet not created yet: nothing on it, and default keys.
    fn default() -> (r: PlanetState)
        ensures
            r.shared@.resources == Map::<Resource, ResourceCalc>::empty(),
            r.shared@.available_building == Map::<u128, Building>::empty(),
            r.shared@.construction == Map::<u128, Building>::empty(),
            r.shared@.buildings == Map::<u128, Building>::empty(),
            r.owner@ == default_model_key_text(),
            r.planet_admin@ == default_model_key_text(),
            r.countdown == 0,
    {
        PlanetState {
            shared: PlanetDto::new(),
            owner: default_model_key(),
            planet_admin: default_model_key(),
            countdown: 0,
        }
    }
}

} // verus!

verus! {

/// Every event that a cost or a production step yields updates a stock.
pub open spec fn updates_stock(e: PlanetEvent) -> bool {
    e matches PlanetEvent::Shared(SharedPlanetEvent::UpdateResource { .. })
}

/// Events that only update stocks leave everything but the stocks.
pub proof fn lemma_replay_stocks_only(v: PlanetStateView, evs: Seq<PlanetEvent>)
    requires
        forall|i: int| 0 <= i < evs.len() ==> updates_stock(#[trigger] evs[i]),
    ensures
        v.replayed(evs).shared.available_building == v.shared.available_building,
        v.replayed(evs).shared.construction == v.shared.construction,
        v.replayed(evs).shared.buildings == v.shared.buildings,
        v.replayed(evs).owner == v.owner,
        v.replayed(evs).planet_admin == v.planet_admin,
    decreases evs.len(),
{
    if evs.len() > 0 {
        assert(updates_stock(evs[0]));
        assert forall|i: int| 0 <= i < evs.drop_first().len() implies updates_stock(#[trigger] evs.drop_first()[i]) by {
            assert(evs.drop_first()[i] == evs[i + 1]);
        }
        lemma_replay_stocks_only(v.played(evs[0]), evs.drop_first());
    }
}

/// Replaying `a + b` is replaying `a`, then `b`.
pub proof fn lemma_replay_concat(v: PlanetStateView, a: Seq<PlanetEvent>, b: Seq<PlanetEvent>)
    ensures
        v.replayed(a + b) == v.replayed(a).replayed(b),
    decreases a.len(),
{
    if a.len() > 0 {
        assert((a + b).drop_first() =~= a.drop_first() + b);
        assert((a + b)[0] == a[0]);
        lemma_replay_concat(v.played(a[0]), a.drop_first(), b);
    }
}

/// The events of a successful run of cost steps all update stocks.
proof fn lemma_cost_events_update_stocks(
    res: ResourceMap<ResourceCalc>,
    entries: Seq<(Resource, usize)>,
    kind: CostKind,
    tc: TimeConfig,
    now: i64,
    vs: Seq<PlanetEvent>,
)
    requires
        collect(cost_steps(res, entries, kind, tc, now)) == Ok::<Seq<PlanetEvent>, PlanetError>(vs),
    ensures
        forall|i: int| 0 <= i < vs.len() ==> updates_stock(#[trigger] vs[i]),
{
    let steps = cost_steps(res, entries, kind, tc, now);
    crate::outcome::lemma_collect_ok(steps, vs);
    assert forall|i: int| 0 <= i < vs.len() implies updates_stock(#[trigger] vs[i]) by {
        assert(steps[i] == Ok::<PlanetEvent, PlanetError>(vs[i]));
    }
}

/// Creating a planet: once the events of an accepted creation are
/// replayed, the planet belongs to the account the command names, records
/// the settings' key the command names, holds 10000 people (room for
/// 100000) and 11000 electricity dated at the creation, and offers the
/// steal factory under the fresh key; the other offers, the constructions
/// and the running buildings are left as they were. Where the fresh key is
/// new, the planet offers one more building.
pub proof fn law_creation(
    s: PlanetState,
    account_id: String,
    admin_id: String,
    time: TimeConfig,
    app_host: Option<String>,
    fresh: u128,
    now: i64,
    evs: Seq<PlanetEvent>,
)
    requires
        s.decided(
            PlanetCommand::Shared(SharedPlanetCommand::Create { account_id, admin_id, time }),
            app_host,
            fresh,
            now,
            Ok(evs),
        ),
    ensures
        model_key_text(account_id@) is Some,
        model_key_text(admin_id@) is Some,
        app_host is Some,
        s@.replayed(evs).owner == model_key_text(account_id@)->0,
        s@.replayed(evs).planet_admin == model_key_text(admin_id@)->0,
        s@.replayed(evs).shared.resources[Resource::Population] == (ResourceCalc {
            quantity: 10000,
            date_time: now,
            production: 0,
            stock_capacity: 100000,
        }),
        s@.replayed(evs).shared.resources[Resource::Electricity] == (ResourceCalc {
            quantity: 11000,
            date_time: now,
            production: 0,
            stock_capacity: 0,
        }),
        s@.replayed(evs).shared.available_building.contains_key(fresh),
        is_steal_factory(s@.replayed(evs).shared.available_building[fresh]),
        s@.replayed(evs).shared.available_building == s@.shared.available_building.insert(
            fresh,
            s@.replayed(evs).shared.available_building[fresh],
        ),
        s@.replayed(evs).shared.construction == s@.shared.construction,
        s@.replayed(evs).shared.buildings == s@.shared.buildings,
        s@.shared.available_building.dom().finite() && !s@.shared.available_building.contains_key(fresh)
            ==> s@.replayed(evs).shared.available_building.len() == s@.shared.available_building.len() + 1,
{
    reveal_with_fuel(PlanetStateView::replayed, 6);
    assert(evs.drop_first().drop_first().drop_first().drop_first().drop_first().len() == 0);
}

/// Changing hands: an accepted change of owner announces the former owner
/// and, once replayed, the planet belongs to the account the command names.
pub proof fn law_change_owner(
    s: PlanetState,
    account_id: String,
    app_host: Option<String>,
    fresh: u128,
    now: i64,
    evs: Seq<PlanetEvent>,
)
    requires
        s.decided(
            PlanetCommand::Shared(SharedPlanetCommand::ChangeOwner { account_id }),
            app_host,
            fresh,
            now,
            Ok(evs),
        ),
    ensures
        model_key_text(account_id@) is Some,
        evs.len() == 1,
        evs[0] matches PlanetEvent::Public(PubPlanetEvent::NewOwner { old_account_id: Some(o), .. }) && o == s.owner,
        s@.replayed(evs).owner == model_key_text(account_id@)->0,
        s@.replayed(evs).shared == s@.shared,
{
    reveal_with_fuel(PlanetStateView::replayed, 2);
    assert(evs.drop_first().len() == 0);
}

/// Starting a construction: once the events of an accepted start are
/// replayed, the building offered under `key` is under construction under
/// the fresh key; the offer stays, and the running buildings, the owner and
/// the settings' key are left as they were: the other events only update
/// stocks.
pub proof fn law_start_construction(
    s: PlanetState,
    key: u128,
    time_config: Option<TimeConfig>,
    app_host: Option<String>,
    fresh: u128,
    now: i64,
    evs: Seq<PlanetEvent>,
)
    requires
        s.decided(
            PlanetCommand::Shared(SharedPlanetCommand::StartConstruction { key, time_config }),
            app_host,
            fresh,
            now,
            Ok(evs),
        ),
    ensures
        s.shared@.available_building.contains_key(key),
        time_config is Some,
        s@.replayed(evs).shared.construction == s@.shared.construction.insert(
            fresh,
            s@.shared.available_building[key],
        ),
        s@.replayed(evs).shared.available_building == s@.shared.available_building,
        s@.replayed(evs).shared.buildings == s@.shared.buildings,
        s@.replayed(evs).owner == s@.owner,
        s@.replayed(evs).planet_admin == s@.planet_admin,
{
    let tc = time_config->0;
    let b = s.shared@.available_building[key];
    let first = PlanetEvent::Shared(SharedPlanetEvent::UpdateConstruction { key: fresh, building: b });
    let r = collect(cost_steps(s.shared.resources, b.construction.entries(), CostKind::Start, tc, now));
    let rest = r->Ok_0;
    lemma_cost_events_update_stocks(s.shared.resources, b.construction.entries(), CostKind::Start, tc, now, rest);
    assert(evs == seq![first] + rest);
    lemma_replay_concat(s@, seq![first], rest);
    reveal_with_fuel(PlanetStateView::replayed, 2);
    assert(seq![first].drop_first().len() == 0);
    lemma_replay_stocks_only(s@.played(first), rest);
}

/// The stock an event sets, if it sets one.
pub open spec fn update_of(e: PlanetEvent) -> Option<(Resource, ResourceCalc)> {
    match e {
        PlanetEvent::Shared(SharedPlanetEvent::UpdateResource { resource, calc }) => Some((resource, calc)),
        _ => None,
    }
}

/// No event of `evs` sets the stock of `r`.
pub open spec fn leaves_stock(evs: Seq<PlanetEvent>, r: Resource) -> bool {
    forall|i: int| 0 <= i < evs.len() ==> (#[trigger] update_of(evs[i])).unwrap().0 != r
}

/// The entries of a resource map name each resource at most once, each
/// with the value the map holds for it.
proof fn lemma_entries_distinct<V>(m: ResourceMap<V>)
    ensures
        forall|i: int, j: int| 0 <= i < j < m.entries().len() ==> #[trigger] m.entries()[i].0 != #[trigger] m.entries()[j].0,
        forall|i: int| 0 <= i < m.entries().len() ==> m.slot((#[trigger] m.entries()[i]).0) == Some(m.entries()[i].1),
{
    let e = match m.electricity {
        Some(v) => seq![(Resource::Electricity, v)],
        None => Seq::empty(),
    };
    let p = match m.population {
        Some(v) => seq![(Resource::Population, v)],
        None => Seq::empty(),
    };
    let st = match m.steal {
        Some(v) => seq![(Resource::Steal, v)],
        None => Seq::empty(),
    };
    let all = m.entries();
    assert(all == e + p + st);
    assert forall|i: int| 0 <= i < all.len() implies (if i < e.len() {
        all[i].0 == Resource::Electricity
    } else if i < e.len() + p.len() {
        all[i].0 == Resource::Population
    } else {
        all[i].0 == Resource::Steal
    }) && m.slot(all[i].0) == Some(all[i].1) by {
        if i < e.len() {
            assert(all[i] == e[i]);
        } else if i < e.len() + p.len() {
            assert(all[i] == p[i - e.len()]);
        } else {
            assert(all[i] == st[i - e.len() - p.len()]);
        }
    }
}

/// Replaying events that each set the stock of a different resource: each
/// of those stocks is the one set, every other stock is left as it was,
/// and so is everything but the stocks.
proof fn lemma_replay_updates(v: PlanetStateView, evs: Seq<PlanetEvent>)
    requires
        forall|i: int| 0 <= i < evs.len() ==> (#[trigger] update_of(evs[i])) is Some,
        forall|i: int, j: int| 0 <= i < j < evs.len() ==> (#[trigger] update_of(evs[i])).unwrap().0 != (#[trigger] update_of(evs[j])).unwrap().0,
    ensures
        forall|i: int| 0 <= i < evs.len() ==> v.replayed(evs).shared.resources.contains_key((#[trigger] update_of(evs[i])).unwrap().0)
            && v.replayed(evs).shared.resources[update_of(evs[i]).unwrap().0] == update_of(evs[i]).unwrap().1,
        forall|r: Resource| #[trigger] leaves_stock(evs, r) ==> (
            v.replayed(evs).shared.resources.contains_key(r) == v.shared.resources.contains_key(r)
            && (v.shared.resources.contains_key(r) ==> v.replayed(evs).shared.resources[r] == v.shared.resources[r])),
        v.replayed(evs).shared.buildings == v.shared.buildings,
    decreases evs.len(),
{
    if evs.len() > 0 {
        let rest = evs.drop_first();
        let w = v.played(evs[0]);
        assert(update_of(evs[0]) is Some);
        assert forall|i: int| 0 <= i < rest.len() implies (#[trigger] update_of(rest[i])) is Some by {
            assert(rest[i] == evs[i + 1]);
            assert(update_of(evs[i + 1]) is Some);
        }
        assert forall|i: int, j: int| 0 <= i < j < rest.len() implies (#[trigger] update_of(rest[i])).unwrap().0 != (#[trigger] update_of(rest[j])).unwrap().0 by {
            assert(rest[i] == evs[i + 1] && rest[j] == evs[j + 1]);
            assert(update_of(evs[i + 1]).unwrap().0 != update_of(evs[j + 1]).unwrap().0);
        }
        lemma_replay_updates(w, rest);
        assert(v.replayed(evs) == w.replayed(rest));
        let r0 = update_of(evs[0]).unwrap().0;
        let c0 = update_of(evs[0]).unwrap().1;
        assert(evs[0] == PlanetEvent::Shared(SharedPlanetEvent::UpdateResource { resource: r0, calc: c0 }));
        assert(w.shared.resources == v.shared.resources.insert(r0, c0));
        assert(w.shared.buildings == v.shared.buildings);
        assert forall|i: int| 0 <= i < rest.len() implies (#[trigger] update_of(rest[i])).unwrap().0 != r0 by {
            assert(rest[i] == evs[i + 1]);
            assert(update_of(evs[0]).unwrap().0 != update_of(evs[i + 1]).unwrap().0);
        }
        assert forall|i: int| 0 <= i < evs.len() implies v.replayed(evs).shared.resources.contains_key((#[trigger] update_of(evs[i])).unwrap().0)
            && v.replayed(evs).shared.resources[update_of(evs[i]).unwrap().0] == update_of(evs[i]).unwrap().1 by {
            if i > 0 {
                assert(rest[i - 1] == evs[i]);
                assert(update_of(rest[i - 1]) == update_of(evs[i]));
            } else {
                assert(w.shared.resources.contains_key(r0) && w.shared.resources[r0] == c0);
                assert(leaves_stock(rest, r0));
            }
        }
        assert forall|r: Resource| #[trigger] leaves_stock(evs, r) implies (
            v.replayed(evs).shared.resources.contains_key(r) == v.shared.resources.contains_key(r)
            && (v.shared.resources.contains_key(r) ==> v.replayed(evs).shared.resources[r] == v.shared.resources[r])) by {
            assert(update_of(evs[0]).unwrap().0 != r);
            assert forall|i: int| 0 <= i < rest.len() implies (#[trigger] update_of(rest[i])).unwrap().0 != r by {
                assert(rest[i] == evs[i + 1]);
                assert(update_of(evs[i + 1]).unwrap().0 != r);
            }
            assert(leaves_stock(rest, r));
        }
    }
}

/// A run of production steps that succeeds: one event per entry, each
/// setting the stock of the entry's resource to what its step computes.
proof fn lemma_production_events(
    res: ResourceMap<ResourceCalc>,
    entries: Seq<(Resource, Production)>,
    kind: ProductionKind,
    tc: TimeConfig,
    now: i64,
    vs: Seq<PlanetEvent>,
)
    requires
        collect(production_steps(res, entries, kind, tc, now)) == Ok::<Seq<PlanetEvent>, PlanetError>(vs),
    ensures
        vs.len() == entries.len(),
        forall|i: int| 0 <= i < vs.len() ==> production_step(res, entries[i], kind, tc, now) == Ok::<PlanetEvent, PlanetError>(#[trigger] vs[i]),
        forall|i: int| 0 <= i < vs.len() ==> (#[trigger] update_of(vs[i])) is Some && update_of(vs[i]).unwrap().0 == entries[i].0,
{
    let steps = production_steps(res, entries, kind, tc, now);
    crate::outcome::lemma_collect_ok(steps, vs);
    assert forall|i: int| 0 <= i < vs.len() implies production_step(res, entries[i], kind, tc, now) == Ok::<PlanetEvent, PlanetError>(#[trigger] vs[i]) by {
        assert(steps[i] == Ok::<PlanetEvent, PlanetError>(vs[i]));
    }
}

/// Destroying undoes finishing: once the events of an accepted finish of
/// the construction `key` are replayed, an accepted destruction of the
/// building it started (under the fresh key) removes that building and
/// gives each resource it produces back the production and the capacity
/// it had before the finish.
pub proof fn law_destroy_undoes_finish(
    s: PlanetState,
    key: u128,
    tc: TimeConfig,
    app_host: Option<String>,
    fresh: u128,
    now: i64,
    evs: Seq<PlanetEvent>,
    s2: PlanetState,
    app_host2: Option<String>,
    fresh2: u128,
    now2: i64,
    evs2: Seq<PlanetEvent>,
)
    requires
        s.decided(
            PlanetCommand::Shared(SharedPlanetCommand::FinnishConstruction { key, time_config: Some(tc) }),
            app_host,
            fresh,
            now,
            Ok(evs),
        ),
        s2@ == s@.replayed(evs),
        s2.decided(
            PlanetCommand::Shared(SharedPlanetCommand::DestroyConstruction { key: fresh, time_config: Some(tc) }),
            app_host2,
            fresh2,
            now2,
            Ok(evs2),
        ),
    ensures
        ({
            let entries = s@.shared.construction[key].production.entries();
            &&& evs2.len() == entries.len() + 1
            &&& evs2[0] == PlanetEvent::Shared(SharedPlanetEvent::RemoveRunningBuilding { key: fresh })
            &&& forall|i: int| 0 <= i < entries.len() ==> (#[trigger] update_of(evs2[i + 1])) is Some && ({
                let (r, c) = update_of(evs2[i + 1])->0;
                &&& r == entries[i].0
                &&& c.production == calc_or_empty(s.shared.resources, r, now).production
                &&& c.stock_capacity == calc_or_empty(s.shared.resources, r, now).stock_capacity
            })
        }),
{
    let res = s.shared.resources;
    let b = s.shared@.construction[key];
    let entries = b.production.entries();
    let head = seq![
        PlanetEvent::Shared(SharedPlanetEvent::RemoveConstruction { key }),
        PlanetEvent::Shared(SharedPlanetEvent::UpdateRunningBuilding { key: fresh, building: b }),
    ];
    let rest = collect(production_steps(res, entries, ProductionKind::Finish, tc, now))->Ok_0;
    lemma_production_events(res, entries, ProductionKind::Finish, tc, now, rest);
    assert(evs == head + rest);
    lemma_entries_distinct(b.production);
    assert forall|i: int, j: int| 0 <= i < j < rest.len() implies (#[trigger] update_of(rest[i])).unwrap().0 != (#[trigger] update_of(rest[j])).unwrap().0 by {
        assert(entries[i].0 != entries[j].0);
    }
    lemma_replay_concat(s@, head, rest);
    reveal_with_fuel(PlanetStateView::replayed, 3);
    assert(head.drop_first().drop_first().len() == 0);
    let mid = s@.replayed(head);
    assert(mid.shared.buildings == s@.shared.buildings.insert(fresh, b));
    lemma_replay_updates(mid, rest);
    assert(s2.shared@.buildings.contains_key(fresh));
    assert(s2.shared@.buildings[fresh] == b);
    let res2 = s2.shared.resources;
    let head2 = seq![PlanetEvent::Shared(SharedPlanetEvent::RemoveRunningBuilding { key: fresh })];
    let rest2 = collect(production_steps(res2, entries, ProductionKind::Destroy, tc, now2))->Ok_0;
    lemma_production_events(res2, entries, ProductionKind::Destroy, tc, now2, rest2);
    assert(evs2 == head2 + rest2);
    assert forall|i: int| 0 <= i < entries.len() implies (#[trigger] update_of(evs2[i + 1])) is Some && ({
        let (r, c) = update_of(evs2[i + 1])->0;
        &&& r == entries[i].0
        &&& c.production == calc_or_empty(res, r, now).production
        &&& c.stock_capacity == calc_or_empty(res, r, now).stock_capacity
    }) by {
        assert(evs2[i + 1] == rest2[i]);
        let r = entries[i].0;
        assert(update_of(rest[i]) is Some);
        let c1 = update_of(rest[i]).unwrap().1;
        assert(s2@.shared.resources.contains_key(r) && s2@.shared.resources[r] == c1);
        assert(res2.slot(r) == Some(c1));
        assert(calc_or_empty(res2, r, now2) == c1);
        assert(production_step(res, entries[i], ProductionKind::Finish, tc, now) == Ok::<PlanetEvent, PlanetError>(rest[i]));
        assert(production_step(res2, entries[i], ProductionKind::Destroy, tc, now2) == Ok::<PlanetEvent, PlanetError>(rest2[i]));
    }
}


/// Finishing a building that produces a resource the planet holds no stock
/// of: the step is accepted (where the clock is defined at `now` and the
/// production fits in an `i64`), and sets the stock of that resource to an
/// empty stock dated `now` carrying the building's production and
/// capacity.
pub proof fn law_finish_on_missing_stock(
    res: ResourceMap<ResourceCalc>,
    r: Resource,
    p: Production,
    tc: TimeConfig,
    now: i64,
)
    requires
        res.slot(r) is None,
        tc.spec_hf_millis(now as int) is Some,
        p.quantity <= i64::MAX,
    ensures
        production_step(res, (r, p), ProductionKind::Finish, tc, now) == Ok::<PlanetEvent, PlanetError>(
            PlanetEvent::Shared(
                SharedPlanetEvent::UpdateResource {
                    resource: r,
                    calc: ResourceCalc { quantity: 0, date_time: now, production: p.quantity as i64, stock_capacity: p.stock },
                },
            ),
        ),
{
    assert(tc.spec_diff_hf_millis(now as int, now as int) == Some(0int));
    let e = empty_calc(now);
    assert(0 * e.production == 0);
    assert(e.spec_compute_at(tc, now) == Some(e));
}

/// Finishing a construction is never refused for a missing stock: where
/// the construction exists, a time configuration comes with the command,
/// the clock is defined at `now`, and the planet holds no stock of any
/// resource the building produces (each production fitting in an `i64`),
/// the finish is accepted: the construction goes, the building runs under
/// the fresh key, and each produced resource gets an empty stock dated
/// `now` with the building's production and capacity, in the order of the
/// building's productions.
pub proof fn law_finish_without_stocks(
    s: PlanetState,
    key: u128,
    tc: TimeConfig,
    app_host: Option<String>,
    fresh: u128,
    now: i64,
    r: Result<Seq<PlanetEvent>, PlanetError>,
)
    requires
        s.shared@.construction.contains_key(key),
        tc.spec_hf_millis(now as int) is Some,
        forall|i: int| 0 <= i < s.shared@.construction[key].production.entries().len() ==> ({
            let (res, p) = #[trigger] s.shared@.construction[key].production.entries()[i];
            s.shared.resources.slot(res) is None && p.quantity <= i64::MAX
        }),
        s.decided(
            PlanetCommand::Shared(SharedPlanetCommand::FinnishConstruction { key, time_config: Some(tc) }),
            app_host,
            fresh,
            now,
            r,
        ),
    ensures
        ({
            let b = s.shared@.construction[key];
            let entries = b.production.entries();
            &&& r is Ok
            &&& r->Ok_0.len() == entries.len() + 2
            &&& r->Ok_0[0] == PlanetEvent::Shared(SharedPlanetEvent::RemoveConstruction { key })
            &&& r->Ok_0[1] == PlanetEvent::Shared(SharedPlanetEvent::UpdateRunningBuilding { key: fresh, building: b })
            &&& forall|i: int| 0 <= i < entries.len() ==> #[trigger] r->Ok_0[i + 2] == PlanetEvent::Shared(
                SharedPlanetEvent::UpdateResource {
                    resource: entries[i].0,
                    calc: ResourceCalc {
                        quantity: 0,
                        date_time: now,
                        production: entries[i].1.quantity as i64,
                        stock_capacity: entries[i].1.stock,
                    },
                },
            )
        }),
{
    let b = s.shared@.construction[key];
    let entries = b.production.entries();
    let res = s.shared.resources;
    let steps = production_steps(res, entries, ProductionKind::Finish, tc, now);
    let vals = Seq::new(entries.len(), |i: int| steps[i]->Ok_0);
    assert forall|i: int| 0 <= i < entries.len() implies #[trigger] steps[i] == Ok::<PlanetEvent, PlanetError>(vals[i]) && vals[i] == PlanetEvent::Shared(
        SharedPlanetEvent::UpdateResource {
            resource: entries[i].0,
            calc: ResourceCalc {
                quantity: 0,
                date_time: now,
                production: entries[i].1.quantity as i64,
                stock_capacity: entries[i].1.stock,
            },
        },
    ) by {
        let (rr, p) = entries[i];
        law_finish_on_missing_stock(res, rr, p, tc, now);
    }
    crate::outcome::lemma_collect_all_ok(steps, vals);
}


/// When a creation or a change of owner is accepted: exactly when the ids
/// it names are keys and the server's host is known; otherwise refused as
/// an invalid owner, then an invalid settings key, then a missing host.
pub proof fn law_owner_acceptance(
    s: PlanetState,
    account_id: String,
    admin_id: String,
    time: TimeConfig,
    app_host: Option<String>,
    fresh: u128,
    now: i64,
    r: Result<Seq<PlanetEvent>, PlanetError>,
    r2: Result<Seq<PlanetEvent>, PlanetError>,
)
    requires
        s.decided(
            PlanetCommand::Shared(SharedPlanetCommand::Create { account_id, admin_id, time }),
            app_host,
            fresh,
            now,
            r,
        ),
        s.decided(PlanetCommand::Shared(SharedPlanetCommand::ChangeOwner { account_id }), app_host, fresh, now, r2),
    ensures
        r is Ok <==> (model_key_text(account_id@) is Some && model_key_text(admin_id@) is Some && app_host is Some),
        model_key_text(account_id@) is None ==> r == Err::<Seq<PlanetEvent>, PlanetError>(PlanetError::InvalidOwner),
        model_key_text(account_id@) is Some && model_key_text(admin_id@) is None ==> r == Err::<
            Seq<PlanetEvent>,
            PlanetError,
        >(PlanetError::InvalidAdminId),
        model_key_text(account_id@) is Some && model_key_text(admin_id@) is Some && app_host is None ==> r == Err::<
            Seq<PlanetEvent>,
            PlanetError,
        >(PlanetError::NoAppHost),
        r2 is Ok <==> (model_key_text(account_id@) is Some && app_host is Some),
{
}

} // verus!
