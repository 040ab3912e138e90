use horfimbor_mono::ping_shared::{PlanetCommand, PlanetDto, PlanetError, SharedPlanetEvent};
use horfimbor_mono::ping_state::{PlanetEvent, PlanetState, PrvPlanetEvent};
use horfimbor_mono::public::planet::PubPlanetEvent;

const OWNER: &str = "mono_account-01797a2e-19de-467c-bda2-eddc2a2cbf8c";

#[test]
fn ping_planet_lifecycle() {
    let mut s = PlanetState::default();
    let evs = s.decide(PlanetCommand::Create { account_id: OWNER.to_string() }, 0).unwrap();
    assert_eq!(
        evs,
        vec![
            PlanetEvent::Shared(SharedPlanetEvent::Created(0)),
            PlanetEvent::Public(PubPlanetEvent::NewOwner { old_account_id: None, account_id: OWNER.to_string() }),
        ]
    );
    for e in &evs {
        s.play_event(e);
    }
    assert_eq!(s.nb(), 100);
    assert_eq!(s.countdown, 25);
    assert_eq!(s.owner(), OWNER);
    // same parity: the countdown goes down
    let evs = s.decide(PlanetCommand::Ping, 10).unwrap();
    assert_eq!(
        evs,
        vec![
            PlanetEvent::Shared(SharedPlanetEvent::Pong(0)),
            PlanetEvent::Private(PrvPlanetEvent::LowerCountDown(0)),
        ]
    );
    for e in &evs {
        s.play_event(e);
    }
    assert_eq!((s.nb(), s.countdown), (101, 24));
    // other parity: only a pong
    assert_eq!(s.decide(PlanetCommand::Ping, 10).unwrap(), vec![PlanetEvent::Shared(SharedPlanetEvent::Pong(0))]);
    s.countdown = 1;
    assert_eq!(
        s.decide(PlanetCommand::Ping, 11).unwrap(),
        vec![PlanetEvent::Shared(SharedPlanetEvent::Pong(0)), PlanetEvent::Shared(SharedPlanetEvent::Boom(0))]
    );
    s.play_event(&PlanetEvent::Shared(SharedPlanetEvent::Boom(0)));
    assert_eq!(s.countdown, 100);
    assert!(s.try_command(PlanetCommand::Ping).is_ok());
}

#[test]
fn ping_refusals_and_owner() {
    let s = PlanetState::default();
    assert_eq!(s.decide(PlanetCommand::Create { account_id: "x".to_string() }, 0), Err(PlanetError::InvalidOwner));
    assert_eq!(s.try_command(PlanetCommand::ChangeOwner { account_id: "x".to_string() }), Err(PlanetError::InvalidOwner));
    assert_eq!(
        s.decide(PlanetCommand::ChangeOwner { account_id: OWNER.to_string() }, 0).unwrap(),
        vec![PlanetEvent::Public(PubPlanetEvent::NewOwner {
            old_account_id: Some("-00000000-0000-0000-0000-000000000000".to_string()),
            account_id: OWNER.to_string(),
        })]
    );
    assert_eq!(PlanetError::InvalidOwner.message(), "owner id is not a modelkey");
    let mut d = PlanetDto::new();
    d.play_event(&SharedPlanetEvent::Pong(0));
    d.play_event(&SharedPlanetEvent::Boom(0));
    assert_eq!(d.nb(), 1);
}
