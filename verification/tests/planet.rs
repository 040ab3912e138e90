use horfimbor_mono::model_key::model_key_or_default_of;
use horfimbor_mono::planet_shared::command::{SharedPlanetAdminCommand, SharedPlanetCommand};
use horfimbor_mono::planet_shared::dto::{Building, PlanetDto, Production, Resource, ResourceCalc, ResourceMap};
use horfimbor_mono::planet_shared::dto_admin::PlanetAdminDto;
use horfimbor_mono::planet_shared::error::{PlanetAdminError, PlanetError};
use horfimbor_mono::planet_shared::event::{SharedPlanetAdminEvent, SharedPlanetEvent};
use horfimbor_mono::planet_state::admin::{PlanetAdminCommand, PlanetAdminEvent, PlanetAdminState};
use horfimbor_mono::planet_state::{
    steal_factory, PlanetCommand, PlanetEvent, PlanetState, PrivatePlanetCommand, PrvPlanetEvent,
    PubPlanetEvent,
};
use horfimbor_mono::time::TimeConfig;

const OWNER: &str = "mono_account-01797a2e-19de-467c-bda2-eddc2a2cbf8c";
const ADMIN: &str = "admin_planet-01797a2e-19de-467c-bda2-eddc2a2cbf8d";
const TIME: TimeConfig = TimeConfig { start_time: 0, irl_length: 1000, ig_length: 500 };

fn create() -> PlanetCommand {
    PlanetCommand::Shared(SharedPlanetCommand::Create {
        account_id: OWNER.to_string(),
        admin_id: ADMIN.to_string(),
        time: TIME,
    })
}

fn created(fresh: u128, now: i64) -> PlanetState {
    let mut s = PlanetState::default();
    let evs = s.decide(create(), Some("http://host".to_string()), fresh, now).unwrap();
    for e in &evs {
        s.play_event(e);
    }
    s
}

#[test]
fn model_keys() {
    assert_eq!(model_key_or_default_of(OWNER), OWNER);
    assert_eq!(model_key_or_default_of("not a key"), "-00000000-0000-0000-0000-000000000000");
}

#[test]
fn creation_events() {
    let s = PlanetState::default();
    let evs = s.decide(create(), Some("http://host".to_string()), 7, 1234).unwrap();
    assert_eq!(evs.len(), 5);
    assert_eq!(evs[0], PlanetEvent::Private(PrvPlanetEvent::PlanetAdminSet(ADMIN.to_string())));
    assert_eq!(
        evs[1],
        PlanetEvent::Public(PubPlanetEvent::NewOwner {
            endpoint: "http://host".to_string(),
            old_account_id: None,
            account_id: OWNER.to_string(),
        })
    );
    assert_eq!(
        evs[2],
        PlanetEvent::Shared(SharedPlanetEvent::UpdateResource {
            resource: Resource::Population,
            calc: ResourceCalc { quantity: 10000, date_time: 1234, production: 0, stock_capacity: 100000 },
        })
    );
    assert_eq!(
        evs[4],
        PlanetEvent::Shared(SharedPlanetEvent::UpdateAvailableBuilding { key: 7, building: steal_factory() })
    );
    let f = steal_factory();
    assert_eq!(f.name, "Steal factory");
    assert_eq!(f.construction.get(Resource::Electricity), Some(998));
    assert_eq!(f.production.get(Resource::Steal), Some(Production { quantity: 49, stock: 1000 }));
}

#[test]
fn creation_replayed() {
    let s = created(7, 1234);
    assert_eq!(s.owner(), OWNER);
    assert_eq!(s.planet_admin(), ADMIN);
    assert_eq!(s.shared().resources.get(Resource::Electricity).unwrap().quantity, 11000);
    assert_eq!(s.shared().available_building.get(&7), Some(&steal_factory()));
}

#[test]
fn creation_refusals() {
    let s = PlanetState::default();
    let bad_owner = PlanetCommand::Shared(SharedPlanetCommand::Create {
        account_id: "nope".to_string(),
        admin_id: ADMIN.to_string(),
        time: TIME,
    });
    assert_eq!(s.decide(bad_owner, Some("h".to_string()), 1, 1), Err(PlanetError::InvalidOwner));
    let bad_admin = PlanetCommand::Shared(SharedPlanetCommand::Create {
        account_id: OWNER.to_string(),
        admin_id: "nope".to_string(),
        time: TIME,
    });
    assert_eq!(s.decide(bad_admin, Some("h".to_string()), 1, 1), Err(PlanetError::InvalidAdminId));
    assert_eq!(s.decide(create(), None, 1, 1), Err(PlanetError::NoAppHost));
}

#[test]
fn change_owner() {
    let mut s = created(7, 0);
    let new_owner = "mono_account-11797a2e-19de-467c-bda2-eddc2a2cbf8c";
    let cmd = PlanetCommand::Shared(SharedPlanetCommand::ChangeOwner { account_id: new_owner.to_string() });
    let evs = s.decide(cmd.clone(), Some("h".to_string()), 0, 0).unwrap();
    assert_eq!(
        evs,
        vec![PlanetEvent::Public(PubPlanetEvent::NewOwner {
            endpoint: "h".to_string(),
            old_account_id: Some(OWNER.to_string()),
            account_id: new_owner.to_string(),
        })]
    );
    s.play_event(&evs[0]);
    assert_eq!(s.owner(), new_owner);
    assert_eq!(s.decide(cmd, None, 0, 0), Err(PlanetError::NoAppHost));
    let bad = PlanetCommand::Shared(SharedPlanetCommand::ChangeOwner { account_id: "x".to_string() });
    assert_eq!(s.decide(bad, None, 0, 0), Err(PlanetError::InvalidOwner));
}

#[test]
fn unknown_owner_becomes_default_key() {
    let mut s = PlanetState::default();
    s.play_event(&PlanetEvent::Public(PubPlanetEvent::NewOwner {
        endpoint: "h".to_string(),
        old_account_id: None,
        account_id: "garbage".to_string(),
    }));
    assert_eq!(s.owner(), "-00000000-0000-0000-0000-000000000000");
}

#[test]
fn start_construction() {
    let mut s = created(7, 0);
    let start = |tc| PlanetCommand::Shared(SharedPlanetCommand::StartConstruction { key: 7, time_config: tc });
    assert_eq!(s.decide(start(None), None, 9, 100), Err(PlanetError::NoTimeConfig));
    let unknown = PlanetCommand::Shared(SharedPlanetCommand::StartConstruction { key: 8, time_config: Some(TIME) });
    assert_eq!(s.decide(unknown, None, 9, 100), Err(PlanetError::AvailableIdNotExists));
    let evs = s.decide(start(Some(TIME)), None, 9, 100).unwrap();
    assert_eq!(
        evs,
        vec![
            PlanetEvent::Shared(SharedPlanetEvent::UpdateConstruction { key: 9, building: steal_factory() }),
            // the stocks are recomputed (no production: nothing in stock), then the cost taken
            PlanetEvent::Shared(SharedPlanetEvent::UpdateResource {
                resource: Resource::Electricity,
                calc: ResourceCalc { quantity: 0, date_time: 100, production: 0, stock_capacity: 0 },
            }),
            PlanetEvent::Shared(SharedPlanetEvent::UpdateResource {
                resource: Resource::Population,
                calc: ResourceCalc { quantity: 100000, date_time: 100, production: 0, stock_capacity: 100000 },
            }),
        ]
    );
    for e in &evs {
        s.play_event(e);
    }
    assert_eq!(s.shared().construction.get(&9), Some(&steal_factory()));
    assert_eq!(s.shared().available_building.get(&7), Some(&steal_factory()));
}

fn with_stock(calc: ResourceCalc, cost: usize) -> PlanetState {
    let mut s = PlanetState::default();
    s.play_event(&PlanetEvent::Shared(SharedPlanetEvent::UpdateResource { resource: Resource::Steal, calc }));
    let b = Building {
        name: "mine".to_string(),
        construction: ResourceMap { electricity: None, population: None, steal: Some(cost) },
        construction_time: 3,
        running_cost: ResourceMap::new(),
        production: ResourceMap { electricity: None, population: None, steal: Some(Production { quantity: 2, stock: 50 }) },
    };
    s.play_event(&PlanetEvent::Shared(SharedPlanetEvent::UpdateAvailableBuilding { key: 1, building: b.clone() }));
    s.play_event(&PlanetEvent::Shared(SharedPlanetEvent::UpdateConstruction { key: 2, building: b.clone() }));
    s.play_event(&PlanetEvent::Shared(SharedPlanetEvent::UpdateRunningBuilding { key: 3, building: b }));
    s
}

#[test]
fn start_refused_where_cost_below_stock() {
    // the stock recomputed at 1200 is 700 (in-game ms 700 at production 1)
    let s = with_stock(ResourceCalc { quantity: 0, date_time: 0, production: 1, stock_capacity: 1000 }, 10);
    let cmd = PlanetCommand::Shared(SharedPlanetCommand::StartConstruction { key: 1, time_config: Some(TIME) });
    assert_eq!(s.decide(cmd, None, 4, 1200), Err(PlanetError::NotEnoughResources(Resource::Steal)));
    let empty = with_stock(ResourceCalc { quantity: 0, date_time: 0, production: 0, stock_capacity: 0 }, 10);
    let mut no_stock = PlanetState::default();
    no_stock.play_event(&PlanetEvent::Shared(SharedPlanetEvent::UpdateAvailableBuilding {
        key: 1,
        building: empty.shared().available_building.get(&1).unwrap().clone(),
    }));
    let cmd = PlanetCommand::Shared(SharedPlanetCommand::StartConstruction { key: 1, time_config: Some(TIME) });
    assert_eq!(no_stock.decide(cmd, None, 4, 1200), Err(PlanetError::NotEnoughResources(Resource::Steal)));
}

#[test]
fn cancel_finish_destroy() {
    let s = with_stock(ResourceCalc { quantity: 0, date_time: 0, production: 1, stock_capacity: 1000 }, 10);
    let cancel = PlanetCommand::Shared(SharedPlanetCommand::CancelConstruction { key: 2, time_config: Some(TIME) });
    assert_eq!(
        s.decide(cancel, None, 4, 1200).unwrap(),
        vec![
            PlanetEvent::Shared(SharedPlanetEvent::RemoveConstruction { key: 2 }),
            PlanetEvent::Shared(SharedPlanetEvent::UpdateResource {
                resource: Resource::Steal,
                calc: ResourceCalc { quantity: 705, date_time: 1200, production: 1, stock_capacity: 1000 },
            }),
        ]
    );
    let finish = PlanetCommand::Shared(SharedPlanetCommand::FinnishConstruction { key: 2, time_config: Some(TIME) });
    assert_eq!(
        s.decide(finish, None, 4, 1200).unwrap()[2],
        PlanetEvent::Shared(SharedPlanetEvent::UpdateResource {
            resource: Resource::Steal,
            calc: ResourceCalc { quantity: 700, date_time: 1200, production: 3, stock_capacity: 1050 },
        })
    );
    let destroy = PlanetCommand::Shared(SharedPlanetCommand::DestroyConstruction { key: 3, time_config: Some(TIME) });
    assert_eq!(
        s.decide(destroy, None, 4, 1200).unwrap(),
        vec![
            PlanetEvent::Shared(SharedPlanetEvent::RemoveRunningBuilding { key: 3 }),
            PlanetEvent::Shared(SharedPlanetEvent::UpdateResource {
                resource: Resource::Steal,
                calc: ResourceCalc { quantity: 700, date_time: 1200, production: -1, stock_capacity: 950 },
            }),
        ]
    );
    let missing = PlanetCommand::Shared(SharedPlanetCommand::DestroyConstruction { key: 2, time_config: Some(TIME) });
    assert_eq!(s.decide(missing, None, 4, 1200), Err(PlanetError::BuildingIdNotExists));
    let missing = PlanetCommand::Shared(SharedPlanetCommand::CancelConstruction { key: 3, time_config: None });
    assert_eq!(s.decide(missing, None, 4, 1200), Err(PlanetError::ConstructionIdNotExists));
    let overflow = PlanetCommand::Shared(SharedPlanetCommand::DestroyConstruction { key: 3, time_config: Some(TIME) });
    let small = with_stock(ResourceCalc { quantity: 0, date_time: 0, production: 1, stock_capacity: 10 }, 10);
    assert_eq!(small.decide(overflow, None, 4, 1200), Err(PlanetError::CannotComputeTime));
}

#[test]
fn destroy_undoes_finish() {
    let mut s = with_stock(ResourceCalc { quantity: 0, date_time: 0, production: 1, stock_capacity: 1000 }, 10);
    let finish = PlanetCommand::Shared(SharedPlanetCommand::FinnishConstruction { key: 2, time_config: Some(TIME) });
    for e in &s.decide(finish, None, 9, 1200).unwrap() {
        s.play_event(e);
    }
    let destroy = PlanetCommand::Shared(SharedPlanetCommand::DestroyConstruction { key: 9, time_config: Some(TIME) });
    let evs = s.decide(destroy, None, 5, 3000).unwrap();
    assert_eq!(evs[0], PlanetEvent::Shared(SharedPlanetEvent::RemoveRunningBuilding { key: 9 }));
    match &evs[1] {
        PlanetEvent::Shared(SharedPlanetEvent::UpdateResource { resource, calc }) => {
            assert_eq!(*resource, Resource::Steal);
            assert_eq!((calc.production, calc.stock_capacity), (1, 1000));
        }
        e => panic!("unexpected {e:?}"),
    }
}

#[test]
fn calculate_stock_and_try_command() {
    let s = PlanetState::default();
    let calc = ResourceCalc { quantity: 1, date_time: 2, production: 3, stock_capacity: 4 };
    let cmd = PlanetCommand::Private(PrivatePlanetCommand::CalculateStock { resource: Resource::Steal, calc });
    assert_eq!(
        s.try_command(cmd, None).unwrap(),
        vec![PlanetEvent::Shared(SharedPlanetEvent::UpdateResource { resource: Resource::Steal, calc })]
    );
    let evs = s.try_command(create(), Some("h".to_string())).unwrap();
    assert_eq!(evs.len(), 5);
    match &evs[4] {
        PlanetEvent::Shared(SharedPlanetEvent::UpdateAvailableBuilding { key, .. }) => {
            assert_eq!((key >> 76) & 0xf, 4);
            assert_eq!((key >> 62) & 3, 2);
        }
        e => panic!("unexpected {e:?}"),
    }
    match &evs[2] {
        PlanetEvent::Shared(SharedPlanetEvent::UpdateResource { calc, .. }) => assert!(calc.date_time > 1_600_000_000_000),
        e => panic!("unexpected {e:?}"),
    }
}

#[test]
fn dto_events() {
    let mut d = PlanetDto::new();
    let b = steal_factory();
    d.play_event(&SharedPlanetEvent::UpdateConstruction { key: 5, building: b.clone() });
    d.play_event(&SharedPlanetEvent::UpdateConstruction { key: 5, building: b.clone() });
    assert_eq!(d.construction.len(), 1);
    d.play_event(&SharedPlanetEvent::RemoveConstruction { key: 5 });
    assert!(d.construction.is_empty());
    d.play_event(&SharedPlanetEvent::UpdateRunningBuilding { key: 1, building: b.clone() });
    d.play_event(&SharedPlanetEvent::RemoveAvailableBuilding { key: 1 });
    assert_eq!(d.buildings.get(&1), Some(&b));
    d.play_event(&SharedPlanetEvent::RemoveRunningBuilding { key: 1 });
    assert!(d.buildings.is_empty());
}

#[test]
fn planet_error_messages() {
    assert_eq!(PlanetError::NotEnoughResources(Resource::Steal).message(), "Not enough Steal (as least)");
    assert_eq!(PlanetError::NotResources(Resource::Population).message(), "Not known Population (as least)");
    assert_eq!(PlanetError::NoAppHost.message(), "APP_HOST notr defined");
    assert_eq!(PlanetError::InvalidOwner.message(), "owner id is not a ModelKey");
    assert_eq!(PlanetError::CannotComputeTime.message(), "time wasn't valid");
    assert_eq!(PlanetAdminError::SomeError.message(), "some error found");
}

#[test]
fn planet_settings() {
    let mut s = PlanetAdminState::default();
    assert_eq!(s.dto().nb_planet(), 0);
    let evs = s.try_command(PlanetAdminCommand::Shared(SharedPlanetAdminCommand::Create)).unwrap();
    assert_eq!(evs, vec![PlanetAdminEvent::Shared(SharedPlanetAdminEvent::NbPlanetUpdated(1))]);
    s.play_event(&evs[0]);
    assert_eq!(s.dto().nb_planet(), 1);
    let evs = s.try_command(PlanetAdminCommand::Shared(SharedPlanetAdminCommand::UpdateNbStartPlanet(4))).unwrap();
    s.play_event(&evs[0]);
    assert_eq!(s.dto().nb_planet(), 4);
    let mut d = PlanetAdminDto::default();
    d.play_event(&SharedPlanetAdminEvent::NbPlanetUpdated(9));
    assert_eq!(d.nb_planet(), 9);
}
