//! Resources of a planet, what a building costs and produces, and how a
//! stock of a resource grows with the in-game time.
use vstd::prelude::*;
use crate::time::{TimeConfig, in_i64, now_millis};
use crate::planet_shared::event::SharedPlanetEvent;
use std::collections::HashMap;

verus! {

/// A resource of a planet.
#[derive(Clone, Copy, Debug, PartialEq, Eq, Hash, Structural)]
pub enum Resource {
    Electricity,
    Population,
    Steal,
}

impl Resource {
    /// The resource's display name.
    pub open spec fn spec_name(self) -> Seq<char> {
        match self {
            Resource::Electricity => "Electricity"@,
            Resource::Population => "Population"@,
            Resource::Steal => "Steal"@,
        }
    }

    /// The resource's display name.
    pub fn name(&self) -> (r: &'static str)
        ensures
            r@ == self.spec_name(),
    {
        match self {
            Resource::Electricity => "Electricity",
            Resource::Population => "Population",
            Resource::Steal => "Steal",
        }
    }
}

/// A value for some of the resources: at most one per resource. A hash
/// map keyed by `Resource` would say nothing of its contents in contracts
/// (the derived `Hash` and `Eq` of an enum key carry no specification, so
/// not even an inserted key is known to be there); one slot per resource
/// holds the same contents, walked in the order Electricity, Population,
/// Steal.
#[derive(Clone, Copy, Debug, PartialEq, Eq)]
pub struct ResourceMap<V> {
    pub electricity: Option<V>,
    pub population: Option<V>,
    pub steal: Option<V>,
}

impl<V> ResourceMap<V> {
    /// The value held for `r`, if any.
    pub open spec fn slot(self, r: Resource) -> Option<V> {
        match r {
            Resource::Electricity => self.electricity,
            Resource::Population => self.population,
            Resource::Steal => self.steal,
        }
    }

    /// The entries in the order Electricity, Population, Steal: the order
    /// in which the library walks a map of resources.
    pub open spec fn entries(self) -> Seq<(Resource, V)> {
        let e = match self.electricity {
            Some(v) => seq![(Resource::Electricity, v)],
            None => Seq::empty(),
        };
        let p = match self.population {
            Some(v) => seq![(Resource::Population, v)],
            None => Seq::empty(),
        };
        let s = match self.steal {
            Some(v) => seq![(Resource::Steal, v)],
            None => Seq::empty(),
        };
        e + p + s
    }

    /// The empty map.
    pub fn new() -> (m: Self)
        ensures
            m@ == Map::<Resource, V>::empty(),
            m.entries() == Seq::<(Resource, V)>::empty(),
    {
        let m = ResourceMap { electricity: None, population: None, steal: None };
        assert(m@ =~= Map::<Resource, V>::empty());
        assert(m.entries() =~= Seq::<(Resource, V)>::empty());
        m
    }

    /// Sets the value held for `r`, replacing any earlier one.
    pub fn insert(&mut self, r: Resource, v: V)
        ensures
            final(self)@ == old(self)@.insert(r, v),
            forall|k: Resource| #[trigger] final(self).slot(k) == if k == r {
                Some(v)
            } else {
                old(self).slot(k)
            },
    {
        match r {
            Resource::Electricity => self.electricity = Some(v),
            Resource::Population => self.population = Some(v),
            Resource::Steal => self.steal = Some(v),
        }
        assert(final(self)@ =~= old(self)@.insert(r, v));
    }
}

impl<V: Copy> ResourceMap<V> {
    /// The value held for `r`, if any.
    pub fn get(&self, r: Resource) -> (o: Option<V>)
        ensures
            o == self.slot(r),
            o == (if self@.contains_key(r) { Some(self@[r]) } else { None }),
    {
        match r {
            Resource::Electricity => self.electricity,
            Resource::Population => self.population,
            Resource::Steal => self.steal,
        }
    }

    /// The entries, in the order Electricity, Population, Steal.
    pub fn to_vec(&self) -> (v: Vec<(Resource, V)>)
        ensures
            v@ == self.entries(),
    {
        let mut v: Vec<(Resource, V)> = Vec::new();
        if let Some(x) = self.electricity {
            v.push((Resource::Electricity, x));
        }
        if let Some(x) = self.population {
            v.push((Resource::Population, x));
        }
        if let Some(x) = self.steal {
            v.push((Resource::Steal, x));
        }
        assert(v@ =~= self.entries());
        v
    }
}

impl<V> View for ResourceMap<V> {
    type V = Map<Resource, V>;

    open spec fn view(&self) -> Map<Resource, V> {
        Map::new(|r: Resource| self.slot(r) is Some, |r: Resource| self.slot(r)->0)
    }
}

/// What a running building yields of a resource: a production per in-game
/// millisecond and room in the stock.
#[derive(Clone, Copy, Debug, PartialEq, Eq, Default, Structural)]
pub struct Production {
    pub quantity: usize,
    pub stock: usize,
}

/// A building: what it costs to build, how long it takes, what it costs to
/// run and what it produces.
#[derive(Clone, Debug, PartialEq, Eq)]
pub struct Building {
    pub name: String,
    pub construction: ResourceMap<usize>,
    pub construction_time: usize,
    pub running_cost: ResourceMap<usize>,
    pub production: ResourceMap<Production>,
}

impl Building {
    /// A copy of the building.
    pub fn duplicate(&self) -> (r: Building)
        ensures
            r == *self,
    {
        Building {
            name: self.name.clone(),
            construction: self.construction,
            construction_time: self.construction_time,
            running_cost: self.running_cost,
            production: self.production,
        }
    }
}

/// The stock of a resource as last computed: its quantity at `date_time`
/// (Unix milliseconds), its production per in-game millisecond and the
/// capacity of the stock.
#[derive(Clone, Copy, Debug, PartialEq, Eq, Structural)]
pub struct ResourceCalc {
    pub quantity: usize,
    pub date_time: i64,
    pub production: i64,
    pub stock_capacity: usize,
}

impl ResourceCalc {
    /// The stock recomputed at the real instant `now`: the production of the
    /// in-game time elapsed since `date_time`, capped by the capacity (taken
    /// as an `i64`) and at least 0; `None` where the in-game time is
    /// undefined or the product leaves the `i64` range.
    pub open spec fn spec_compute_at(self, config: TimeConfig, now: i64) -> Option<ResourceCalc> {
        match config.spec_diff_hf_millis(self.date_time as int, now as int) {
            None => None,
            Some(elapsed) => {
                let produced = elapsed * self.production;
                let cap = (self.stock_capacity as i64) as int;
                let capped = if produced < cap { produced } else { cap };
                let q = if capped > 0 { capped } else { 0 };
                if in_i64(produced) {
                    Some(ResourceCalc {
                        quantity: (q as i64) as usize,
                        date_time: now,
                        production: self.production,
                        stock_capacity: self.stock_capacity,
                    })
                } else {
                    None
                }
            },
        }
    }

    /// `rhs` added to the quantity (taken as an `i64`), the sum read back as
    /// a `usize` and capped by the capacity.
    pub open spec fn spec_add(self, rhs: i64) -> ResourceCalc {
        let sum = (((self.quantity as i64) + rhs) as i64) as usize;
        ResourceCalc {
            quantity: if sum < self.stock_capacity { sum } else { self.stock_capacity },
            ..self
        }
    }

    /// `rhs` taken from the quantity (taken as an `i64`), the difference
    /// read back as a `usize` and capped by the capacity.
    pub open spec fn spec_sub(self, rhs: i64) -> ResourceCalc {
        let diff = (((self.quantity as i64) - rhs) as i64) as usize;
        ResourceCalc {
            quantity: if diff < self.stock_capacity { diff } else { self.stock_capacity },
            ..self
        }
    }

    /// The stock recomputed at the real instant `now` (Unix milliseconds).
    pub fn compute_quantity_at(&self, config: &TimeConfig, now: i64) -> (r: Option<ResourceCalc>)
        ensures
            r == self.spec_compute_at(*config, now),
    {
        let elapsed = match config.diff_hf_millis(self.date_time, now) {
            Some(e) => e,
            None => return None,
        };
        let produced = match elapsed.checked_mul(self.production) {
            Some(p) => p,
            None => return None,
        };
        let cap = self.stock_capacity as i64;
        let capped = if produced < cap { produced } else { cap };
        let q = if capped > 0 { capped } else { 0 };
        Some(ResourceCalc {
            quantity: q as usize,
            date_time: now,
            production: self.production,
            stock_capacity: self.stock_capacity,
        })
    }

    /// The stock recomputed now: the clock is read once, and the result is
    /// that of `compute_quantity_at` at that instant.
    pub fn compute_quantity(&self, config: &TimeConfig) -> (r: Option<ResourceCalc>)
        ensures
            exists|now: i64| now >= 0 && r == #[trigger] self.spec_compute_at(*config, now),
    {
        let now = now_millis();
        self.compute_quantity_at(config, now)
    }

    /// Adds `rhs` to the quantity, within the capacity.
    pub fn add(self, rhs: i64) -> (r: ResourceCalc)
        requires
            in_i64((self.quantity as i64) + rhs),
        ensures
            r == self.spec_add(rhs),
    {
        let sum = ((self.quantity as i64) + rhs) as usize;
        ResourceCalc {
            quantity: if sum < self.stock_capacity { sum } else { self.stock_capacity },
            ..self
        }
    }

    /// Takes `rhs` from the quantity, within the capacity.
    pub fn sub(self, rhs: i64) -> (r: ResourceCalc)
        requires
            in_i64((self.quantity as i64) - rhs),
        ensures
            r == self.spec_sub(rhs),
    {
        let diff = ((self.quantity as i64) - rhs) as usize;
        ResourceCalc {
            quantity: if diff < self.stock_capacity { diff } else { self.stock_capacity },
            ..self
        }
    }
}

impl Default for ResourceCalc {
    /// An empty stock dated now.
    fn default() -> (r: ResourceCalc)
        ensures
            r.quantity == 0,
            r.production == 0,
            r.stock_capacity == 0,
            r.date_time >= 0,
    {
        ResourceCalc { quantity: 0, date_time: now_millis(), production: 0, stock_capacity: 0 }
    }
}

} // verus!

verus! {

/// A planet as its players see it: its stocks, the buildings it may build,
/// those under construction and those running.
#[derive(Clone, Debug, PartialEq, Eq)]
pub struct PlanetDto {
    pub resources: ResourceMap<ResourceCalc>,
    pub available_building: HashMap<u128, Building>,
    pub construction: HashMap<u128, Building>,
    pub buildings: HashMap<u128, Building>,
}

/// The content of a [`PlanetDto`].
pub struct PlanetDtoView {
    pub resources: Map<Resource, ResourceCalc>,
    pub available_building: Map<u128, Building>,
    pub construction: Map<u128, Building>,
    pub buildings: Map<u128, Building>,
}

impl View for PlanetDto {
    type V = PlanetDtoView;

    open spec fn view(&self) -> PlanetDtoView {
        PlanetDtoView {
            resources: self.resources@,
            available_building: self.available_building@,
            construction: self.construction@,
            buildings: self.buildings@,
        }
    }
}

impl PlanetDtoView {
    /// The planet once `event` is played: the event's entry is set or
    /// removed, and everything else stays.
    pub open spec fn played(self, event: SharedPlanetEvent) -> PlanetDtoView {
        match event {
            SharedPlanetEvent::UpdateResource { resource, calc } => PlanetDtoView {
                resources: self.resources.insert(resource, calc),
                ..self
            },
            SharedPlanetEvent::UpdateAvailableBuilding { key, building } => PlanetDtoView {
                available_building: self.available_building.insert(key, building),
                ..self
            },
            SharedPlanetEvent::RemoveAvailableBuilding { key } => PlanetDtoView {
                available_building: self.available_building.remove(key),
                ..self
            },
            SharedPlanetEvent::UpdateConstruction { key, building } => PlanetDtoView {
                construction: self.construction.insert(key, building),
                ..self
            },
            SharedPlanetEvent::RemoveConstruction { key } => PlanetDtoView {
                construction: self.construction.remove(key),
                ..self
            },
            SharedPlanetEvent::UpdateRunningBuilding { key, building } => PlanetDtoView {
                buildings: self.buildings.insert(key, building),
                ..self
            },
            SharedPlanetEvent::RemoveRunningBuilding { key } => PlanetDtoView {
                buildings: self.buildings.remove(key),
                ..self
            },
        }
    }
}

impl PlanetDto {
    /// A planet with no stock and no building.
    pub fn new() -> (r: PlanetDto)
        ensures
            r@.resources == Map::<Resource, ResourceCalc>::empty(),
            r@.available_building == Map::<u128, Building>::empty(),
            r@.construction == Map::<u128, Building>::empty(),
            r@.buildings == Map::<u128, Building>::empty(),
    {
        PlanetDto {
            resources: ResourceMap::new(),
            available_building: HashMap::new(),
            construction: HashMap::new(),
            buildings: HashMap::new(),
        }
    }

    /// Plays `event` on the planet.
    pub fn play_event(&mut self, event: &SharedPlanetEvent)
        ensures
            final(self)@ == old(self)@.played(*event),
    {
        broadcast use vstd::std_specs::hash::group_hash_axioms;
        match event {
            SharedPlanetEvent::UpdateResource { resource, calc } => {
                self.resources.insert(*resource, *calc);
            },
            SharedPlanetEvent::UpdateAvailableBuilding { key, building } => {
                self.available_building.insert(*key, building.duplicate());
            },
            SharedPlanetEvent::RemoveAvailableBuilding { key } => {
                self.available_building.remove(key);
            },
            SharedPlanetEvent::UpdateConstruction { key, building } => {
                self.construction.insert(*key, building.duplicate());
            },
            SharedPlanetEvent::RemoveConstruction { key } => {
                self.construction.remove(key);
            },
            SharedPlanetEvent::UpdateRunningBuilding { key, building } => {
                self.buildings.insert(*key, building.duplicate());
            },
            SharedPlanetEvent::RemoveRunningBuilding { key } => {
                self.buildings.remove(key);
            },
        }
    }
}

} // verus!

verus! {

/// Updating a building: once `UpdateConstruction` is played, the building
/// is under construction under its key; playing it again changes nothing;
/// removing it then leaves the constructions as a removal alone would.
pub proof fn law_construction_update(v: PlanetDtoView, key: u128, b: Building)
    ensures
        v.played(SharedPlanetEvent::UpdateConstruction { key, building: b }).construction[key] == b,
        v.played(SharedPlanetEvent::UpdateConstruction { key, building: b }).played(
            SharedPlanetEvent::UpdateConstruction { key, building: b },
        ) == v.played(SharedPlanetEvent::UpdateConstruction { key, building: b }),
        v.played(SharedPlanetEvent::UpdateConstruction { key, building: b }).played(
            SharedPlanetEvent::RemoveConstruction { key },
        ).construction == v.construction.remove(key),
{
    assert(v.construction.insert(key, b).insert(key, b) =~= v.construction.insert(key, b));
    assert(v.construction.insert(key, b).remove(key) =~= v.construction.remove(key));
}

/// Updating a stock: once `UpdateResource` is played, the stock of the
/// resource is the one given, and the buildings are left as they were.
pub proof fn law_stock_update(v: PlanetDtoView, resource: Resource, calc: ResourceCalc)
    ensures
        v.played(SharedPlanetEvent::UpdateResource { resource, calc }).resources[resource] == calc,
        v.played(SharedPlanetEvent::UpdateResource { resource, calc }).available_building == v.available_building,
        v.played(SharedPlanetEvent::UpdateResource { resource, calc }).construction == v.construction,
        v.played(SharedPlanetEvent::UpdateResource { resource, calc }).buildings == v.buildings,
{
}

/// Within capacity: adding to a stock or taking from it never leaves more
/// than the capacity.
pub proof fn law_add_sub_within_capacity(c: ResourceCalc, rhs: i64)
    ensures
        c.spec_add(rhs).quantity <= c.stock_capacity,
        c.spec_sub(rhs).quantity <= c.stock_capacity,
        c.spec_add(rhs).stock_capacity == c.stock_capacity,
        c.spec_sub(rhs).production == c.production,
{
}

/// Recomputing a stock keeps its production and capacity, dates it at the
/// instant given and, where the capacity fits in an `i64`, holds between 0
/// and the capacity.
pub proof fn law_compute_within_capacity(c: ResourceCalc, config: TimeConfig, now: i64)
    requires
        c.spec_compute_at(config, now) is Some,
        c.stock_capacity <= i64::MAX,
    ensures
        c.spec_compute_at(config, now)->0.quantity <= c.stock_capacity,
        c.spec_compute_at(config, now)->0.production == c.production,
        c.spec_compute_at(config, now)->0.stock_capacity == c.stock_capacity,
        c.spec_compute_at(config, now)->0.date_time == now,
{
}


/// A stock recomputed at `now` holds the production of the in-game time
/// elapsed since its own date (`spec_diff_hf_millis(date_time, now)`),
/// capped by the capacity (taken as an `i64`) and at least 0; in
/// particular a stock recomputed at its own date gains nothing.
pub proof fn law_compute_from_own_date(c: ResourceCalc, config: TimeConfig, now: i64)
    ensures
        c.spec_compute_at(config, now) is Some ==> ({
            let elapsed = config.spec_diff_hf_millis(c.date_time as int, now as int);
            let produced = elapsed->0 * c.production;
            let cap = (c.stock_capacity as i64) as int;
            &&& elapsed is Some
            &&& c.spec_compute_at(config, now)->0.quantity as int == if produced < 0 || cap < 0 {
                0
            } else if produced < cap {
                produced
            } else {
                cap
            }
            &&& c.spec_compute_at(config, now)->0.date_time == now
        }),
        config.spec_hf_millis(c.date_time as int) is Some ==> c.spec_compute_at(config, c.date_time)
            == Some(ResourceCalc { quantity: 0, ..c }),
{
    if c.spec_compute_at(config, now) is Some {
        let elapsed = config.spec_diff_hf_millis(c.date_time as int, now as int)->0;
        let produced = elapsed * c.production;
        let cap = (c.stock_capacity as i64) as int;
        let capped = if produced < cap { produced } else { cap };
        let q = if capped > 0 { capped } else { 0 };
        assert(0 <= q <= i64::MAX);
        assert(q <= c.stock_capacity) by {
            if cap < 0 {
                assert(q == 0);
            } else {
                assert(c.stock_capacity <= i64::MAX ==> cap == c.stock_capacity);
            }
        }
        assert((q as i64) as usize == q);
    }
    if config.spec_hf_millis(c.date_time as int) is Some {
        assert(config.spec_diff_hf_millis(c.date_time as int, c.date_time as int) == Some(0int));
        assert(0 * c.production == 0);
    }
}


/// Adding to and taking from a stock: where the quantity, and the result,
/// are not negative and fit both `i64` and `usize`, the quantity becomes the sum (or the difference), capped by the
/// capacity; the date, the production and the capacity stay.
pub proof fn law_add_sub_amounts(c: ResourceCalc, rhs: i64)
    ensures
        c.quantity <= i64::MAX && 0 <= c.quantity + rhs <= i64::MAX && c.quantity + rhs <= usize::MAX ==> c.spec_add(rhs) == (ResourceCalc {
            quantity: if c.quantity + rhs < c.stock_capacity { (c.quantity + rhs) as usize } else { c.stock_capacity },
            ..c
        }),
        c.quantity <= i64::MAX && 0 <= c.quantity - rhs <= i64::MAX && c.quantity - rhs <= usize::MAX ==> c.spec_sub(rhs) == (ResourceCalc {
            quantity: if c.quantity - rhs < c.stock_capacity { (c.quantity - rhs) as usize } else { c.stock_capacity },
            ..c
        }),
{
    if c.quantity <= i64::MAX && 0 <= c.quantity + rhs <= i64::MAX && c.quantity + rhs <= usize::MAX {
        assert((c.quantity as i64) as int == c.quantity);
    }
    if c.quantity <= i64::MAX && 0 <= c.quantity - rhs <= i64::MAX && c.quantity - rhs <= usize::MAX {
        assert((c.quantity as i64) as int == c.quantity);
    }
}

} // verus!
