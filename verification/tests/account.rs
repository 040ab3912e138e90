use horfimbor_mono::account_shared::command::AccountCommand;
use horfimbor_mono::account_shared::dto::AccountDto;
use horfimbor_mono::account_shared::error::AccountError;
use horfimbor_mono::account_shared::event::{AccountEvent, PrvAccountEvent, PubAccountEvent};
use horfimbor_mono::account_shared::Nation;
use horfimbor_mono::account_state::AccountState;
use horfimbor_mono::public::Component;

const OWNER: &str = "user-01797a2e-19de-467c-bda2-eddc2a2cbf8c";

fn world(id: &str) -> Component {
    Component { balise: "horfimbor-planet-state".to_string(), id: id.to_string() }
}

#[test]
fn create_once() {
    let mut s = AccountState::default();
    assert_eq!(s.private_name(), "");
    let cmd = AccountCommand::Create { name: "bob".to_string(), owner: OWNER.to_string() };
    let evs = s.try_command(cmd.clone()).unwrap();
    assert_eq!(
        evs,
        vec![AccountEvent::Public(PubAccountEvent::Created { name: "bob".to_string(), owner: OWNER.to_string() })]
    );
    s.play_event(&evs[0]);
    assert_eq!(s.private_name(), "bob");
    assert_eq!(s.owner(), OWNER);
    assert_eq!(s.try_command(cmd), Err(AccountError::AlreadyCreated));
}

#[test]
fn create_refusals() {
    let s = AccountState::default();
    let bad = AccountCommand::Create { name: "bob".to_string(), owner: "x".to_string() };
    assert_eq!(s.try_command(bad), Err(AccountError::InvalidOwner));
    let empty = AccountCommand::Create { name: String::new(), owner: OWNER.to_string() };
    assert_eq!(s.try_command(empty), Err(AccountError::AccountNameCannotBeEmpty));
}

#[test]
fn nation_and_worlds() {
    let mut s = AccountState::default();
    let nation = Nation { name: "n".to_string(), description: "d".to_string() };
    let evs = s.try_command(AccountCommand::UpdateNation(nation.clone())).unwrap();
    s.play_event(&evs[0]);
    assert_eq!(s.nation(), &Some(nation));
    let unnamed = Nation { name: String::new(), description: "d".to_string() };
    assert_eq!(s.try_command(AccountCommand::UpdateNation(unnamed)), Err(AccountError::NationNameCannotBeEmpty));
    let evs = s.try_command(AccountCommand::AddWorld(world("p1"))).unwrap();
    assert_eq!(evs, vec![AccountEvent::Private(PrvAccountEvent::WorldAdded(world("p1")))]);
    s.play_event(&evs[0]);
    assert_eq!(s.worlds(), &vec!["p1".to_string()]);
    let evs = s.try_command(AccountCommand::RemoveWorld("p1".to_string())).unwrap();
    assert_eq!(evs, vec![AccountEvent::Private(PrvAccountEvent::WorldRemoved("p1".to_string()))]);
}

#[test]
fn dto_worlds() {
    let mut d = AccountDto::default();
    d.play_event(&AccountEvent::Private(PrvAccountEvent::WorldAdded(world("a"))));
    d.play_event(&AccountEvent::Private(PrvAccountEvent::WorldAdded(world("b"))));
    d.play_event(&AccountEvent::Private(PrvAccountEvent::WorldAdded(world("a"))));
    d.play_event(&AccountEvent::Public(PubAccountEvent::Created { name: "x".to_string(), owner: OWNER.to_string() }));
    assert_eq!(d.worlds().len(), 3);
    d.play_event(&AccountEvent::Private(PrvAccountEvent::WorldRemoved("a".to_string())));
    assert_eq!(d.worlds(), &vec![world("b")]);
    let nation = Nation { name: "n".to_string(), description: String::new() };
    d.play_event(&AccountEvent::Private(PrvAccountEvent::NationUpdated(nation.clone())));
    assert_eq!(d.nation(), &Some(nation));
}

#[test]
fn account_error_messages() {
    assert_eq!(AccountError::AlreadyCreated.message(), "account already created");
    assert_eq!(AccountError::WorldAlreadyAdded("w".to_string()).message(), "cannot add again world w");
    assert_eq!(AccountError::WorldNotFound("w".to_string()).message(), "cannot remove not found world w");
    assert_eq!(AccountError::NationNameCannotBeEmpty.message(), "nation name cannot be empty");
}
