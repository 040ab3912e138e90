use horfimbor_eventsource::model_key::ModelKey;
use horfimbor_mono::account_shared::command::AccountCommand;
use horfimbor_mono::consumers::{
    account_created_command, callback_target, construction_callback, new_account_planet_commands,
    planet_admin_key, planet_creation_commands, service_added_command, world_moves, CallbackError,
    ConsumerError,
};
use horfimbor_mono::planet_shared::command::{SharedPlanetAdminCommand, SharedPlanetCommand};
use horfimbor_mono::planet_shared::event::SharedPlanetEvent;
use horfimbor_mono::planet_state::admin::PlanetAdminCommand;
use horfimbor_mono::planet_state::{PlanetEvent, PrvPlanetEvent};
use horfimbor_mono::time::TimeConfig;
use horfimbor_mono::web::streamed_event;
use horfimbor_mono::ping_shared::PlanetCommand;
use horfimbor_mono::planet_shared::error::PlanetError;
use horfimbor_mono::visual::{hash_u32, planet_seed};
use horfimbor_mono::web::{
    account_model_key, cookie_value, index_js_path, owner_gate, planet_key, state_refusal, ResponderError,
};

const OWNER: &str = "mono_account-01797a2e-19de-467c-bda2-eddc2a2cbf8c";

#[test]
fn client_script_path() {
    assert_eq!(index_js_path("abc", "1.2.3"), "/client/index-abc.js");
    assert_eq!(index_js_path("", "1.2.3"), "/client/index-v1-2-3.js");
    assert_eq!(index_js_path("", ""), "/client/index-v.js");
}

#[test]
fn cookie_values() {
    assert_eq!(cookie_value("uuid=abc"), "abc");
    assert_eq!(cookie_value("a=b=c"), "c");
    assert_eq!(cookie_value("plain"), "plain");
    assert_eq!(cookie_value("uuid="), "");
}

#[test]
fn account_keys() {
    let expected = ModelKey::new_uuid_v8("mono_civilisation", "ACCOUNT", "someone").to_string();
    assert_eq!(account_model_key("someone"), expected);
    assert_ne!(account_model_key("someone"), account_model_key("other"));
}

#[test]
fn planet_request_gates() {
    assert_eq!(planet_key(OWNER), Ok(OWNER.to_string()));
    assert_eq!(planet_key("x"), Err(ResponderError::NotFound("mono_command : invalid id".to_string())));
    assert_eq!(owner_gate(&"a".to_string(), &"a".to_string()), Ok(()));
    assert_eq!(
        owner_gate(&"a".to_string(), &"b".to_string()),
        Err(ResponderError::Forbidden("not your planet".to_string()))
    );
    assert_eq!(
        state_refusal(&PlanetError::NoTimeConfig),
        ResponderError::StateError("Time config not loaded".to_string())
    );
}

#[test]
fn new_account_planets() {
    let cmds = new_account_planet_commands(&"acc".to_string());
    assert_eq!(cmds, vec![PlanetCommand::Create { account_id: "acc".to_string() }; 3]);
}

#[test]
fn worlds_move_with_planets() {
    let moves = world_moves(&Some(OWNER.to_string()), &"bad".to_string(), &"planet-1".to_string());
    assert_eq!(moves.len(), 2);
    assert_eq!(moves[0].account_key, Some(OWNER.to_string()));
    assert_eq!(moves[0].command, AccountCommand::RemoveWorld("planet-1".to_string()));
    assert_eq!(moves[1].account_key, None);
    match &moves[1].command {
        AccountCommand::AddWorld(c) => {
            assert_eq!(c.id, "planet-1");
            assert_eq!(c.balise, "horfimbor-planet-state");
        }
        other => panic!("unexpected {other:?}"),
    }
    assert_eq!(world_moves(&None, &OWNER.to_string(), &"p".to_string()).len(), 1);
}

#[test]
fn callback_round_trip() {
    let key = 0x01797a2e_19de_467c_bda2_eddc2a2cbf8c_u128;
    let payload = construction_callback(&OWNER.to_string(), key);
    assert_eq!(payload, format!("{OWNER}:01797a2e-19de-467c-bda2-eddc2a2cbf8c"));
    assert_eq!(callback_target(&payload), Ok((OWNER.to_string(), key)));
    assert_eq!(
        construction_callback(&OWNER.to_string(), 0xab),
        format!("{OWNER}:00000000-0000-0000-0000-0000000000ab")
    );
    assert_eq!(callback_target("no colon"), Err(CallbackError::CannotSplit));
    assert_eq!(callback_target("x:01797a2e-19de-467c-bda2-eddc2a2cbf8c"), Err(CallbackError::BadModelKey));
    assert_eq!(callback_target(&format!("{OWNER}:nope")), Err(CallbackError::BadKey));
}

fn reference_hash(mut x: u32) -> u32 {
    x = x.wrapping_add(0x9e3779b9);
    x = ((x >> 16) ^ x).wrapping_mul(0x45d9f3b);
    x = ((x >> 16) ^ x).wrapping_mul(0x45d9f3b);
    (x >> 16) ^ x
}

#[test]
fn hash_values() {
    for x in [0u32, 1, 42, 0xffff_ffff, 0x6162_6364] {
        assert_eq!(hash_u32(x), reference_hash(x));
    }
    assert_ne!(hash_u32(0), hash_u32(1));
}

#[test]
fn seed_from_id() {
    let id = "mono_planet-01797a2e-19de-467c-bda2-eddc2a2cbf8c";
    let seed = u64::from_le_bytes([0x01, 0x79, 0x7a, 0x2e, 0x19, 0xde, 0x46, 0x7c]);
    let temp = u16::from_le_bytes([0xbd, 0xa2]);
    assert_eq!(planet_seed(id), Some((seed, temp)));
    assert_eq!(planet_seed("short"), None);
    assert_eq!(planet_seed("xxxxxxxxxxxxxxxxxxxxxxxxxxxxxxxxxxxxxxxx"), None);
}

const ADMIN_STREAM: &str = "admin_planet";
const ADMIN_KIND: &str = "PLANET_ADMIN";
const APP_ID: &str = "app-01797a2e-19de-467c-bda2-eddc2a2cbf8d";
const HOST: &str = "http://planet.example/";

fn admin_key_expected() -> String {
    ModelKey::new_uuid_v8(ADMIN_STREAM, ADMIN_KIND, &format!("{APP_ID},{HOST}")).to_string()
}

#[test]
fn planet_admin_keys() {
    let k = planet_admin_key(ADMIN_STREAM, ADMIN_KIND, APP_ID, HOST).unwrap();
    assert_eq!(k, admin_key_expected());
    assert_ne!(k, APP_ID);
    assert_eq!(
        planet_admin_key(ADMIN_STREAM, ADMIN_KIND, "not a key", HOST),
        Err(ConsumerError::AudienceNotAKey)
    );
}

#[test]
fn planets_of_a_new_civilisation() {
    let time = TimeConfig { start_time: 5, irl_length: 120000, ig_length: 60000 };
    let admin = admin_key_expected();
    let cs = planet_creation_commands(&admin, 3, &OWNER.to_string(), time);
    assert_eq!(cs.len(), 3);
    for c in &cs {
        assert_eq!(
            *c,
            horfimbor_mono::planet_state::PlanetCommand::Shared(SharedPlanetCommand::Create {
                account_id: OWNER.to_string(),
                admin_id: admin.clone(),
                time,
            })
        );
    }
    assert!(planet_creation_commands(&admin, 0, &OWNER.to_string(), time).is_empty());
}

#[test]
fn service_added() {
    assert_eq!(
        service_added_command(ADMIN_STREAM, ADMIN_KIND, APP_ID, HOST, "http://other.example/"),
        Ok(None)
    );
    assert_eq!(
        service_added_command(ADMIN_STREAM, ADMIN_KIND, APP_ID, HOST, HOST),
        Ok(Some((admin_key_expected(), PlanetAdminCommand::Shared(SharedPlanetAdminCommand::Create))))
    );
    assert_eq!(
        service_added_command(ADMIN_STREAM, ADMIN_KIND, "bad", HOST, HOST),
        Err(ConsumerError::AudienceNotAKey)
    );
}

#[test]
fn account_created() {
    let stream_id = "user-stream-1";
    let expected = ModelKey::new_uuid_v8("mono_account", "ACCOUNT", stream_id).to_string();
    assert_eq!(
        account_created_command("mono_account", "ACCOUNT", APP_ID, APP_ID, stream_id, "Ann".to_string(), OWNER.to_string()),
        Some((expected, AccountCommand::Create { name: "Ann".to_string(), owner: OWNER.to_string() }))
    );
    assert_eq!(
        account_created_command("mono_account", "ACCOUNT", APP_ID, OWNER, stream_id, "Ann".to_string(), OWNER.to_string()),
        None
    );
}

#[test]
fn only_shared_events_are_streamed() {
    let shared = SharedPlanetEvent::RemoveConstruction { key: 3 };
    assert_eq!(streamed_event(PlanetEvent::Shared(shared.clone())), Some(shared));
    assert_eq!(streamed_event(PlanetEvent::Private(PrvPlanetEvent::PlanetAdminSet(OWNER.to_string()))), None);
}
