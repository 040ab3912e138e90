//! The decisions of the services that listen to other services' events:
//! the planets a new account gets, the worlds an account gains and loses
//! when a planet changes hands, and the callback that ends a construction.
use vstd::prelude::*;
use vstd::string::StrSliceExecFns;
use crate::account_shared::command::AccountCommand;
use crate::model_key::{model_key_text, model_key_v8, model_key_v8_text, parse_model_key};
use crate::ping_shared::PlanetCommand;
use crate::planet_shared::command::{SharedPlanetAdminCommand, SharedPlanetCommand};
use crate::planet_state::admin::PlanetAdminCommand;
use crate::public::Component;
use crate::text::{owned, push_str};
use crate::time::TimeConfig;

verus! {

/// How many planets a new account gets in the ping game.
pub const START_PLANETS: usize = 3;

/// The tag of the web component that shows a planet.
pub const PLANET_BALISE: &'static str = "horfimbor-planet-state";

/// The commands that create the planets of a new account: three creations
/// owned by the account's stream id.
pub fn new_account_planet_commands(account_stream_id: &String) -> (r: Vec<PlanetCommand>)
    ensures
        r@.len() == START_PLANETS,
        forall|i: int| 0 <= i < r@.len() ==> #[trigger] r@[i] == (PlanetCommand::Create { account_id: *account_stream_id }),
{
    let mut r: Vec<PlanetCommand> = Vec::new();
    let mut i: usize = 0;
    while i < START_PLANETS
        invariant
            0 <= i <= START_PLANETS,
            r@.len() == i,
            forall|j: int| 0 <= j < r@.len() ==> #[trigger] r@[j] == (PlanetCommand::Create { account_id: *account_stream_id }),
        decreases START_PLANETS - i,
    {
        r.push(PlanetCommand::Create { account_id: account_stream_id.clone() });
        i = i + 1;
    }
    r
}

/// A command for the account an id names; `account_key` is `None` where
/// the id is not a key.
#[derive(Clone, Debug, PartialEq, Eq)]
pub struct AccountCommandFor {
    pub account_key: Option<String>,
    pub command: AccountCommand,
}

/// `a` is the command `command` for the account that `id` names.
pub open spec fn command_for(a: AccountCommandFor, id: Seq<char>, command: AccountCommand) -> bool {
    &&& a.command == command
    &&& match a.account_key {
        Some(k) => model_key_text(id) == Some(k@),
        None => model_key_text(id) is None,
    }
}

/// The command for the account that `id` names.
fn command_for_account(id: &String, command: AccountCommand) -> (r: AccountCommandFor)
    ensures
        command_for(r, id@, command),
{
    AccountCommandFor { account_key: parse_model_key(id.as_str()), command }
}

/// The account commands when the planet `planet_id` changes hands: the
/// former owner, where there is one, loses the world first; then the new
/// owner gains it, shown by the planet's component.
pub fn world_moves(old_account_id: &Option<String>, account_id: &String, planet_id: &String) -> (r: Vec<
    AccountCommandFor,
>)
    ensures
        r@.len() == if old_account_id is Some { 2int } else { 1int },
        old_account_id matches Some(old) ==> command_for(
            r@[0],
            old@,
            AccountCommand::RemoveWorld(*planet_id),
        ),
        r@.last().command matches AccountCommand::AddWorld(c) && c.id == *planet_id && c.balise@
            == PLANET_BALISE@,
        match r@.last().account_key {
            Some(k) => model_key_text(account_id@) == Some(k@),
            None => model_key_text(account_id@) is None,
        },
{
    let mut r: Vec<AccountCommandFor> = Vec::new();
    if let Some(old) = old_account_id {
        r.push(command_for_account(old, AccountCommand::RemoveWorld(planet_id.clone())));
    }
    let component = Component { balise: owned(PLANET_BALISE), id: planet_id.clone() };
    r.push(command_for_account(account_id, AccountCommand::AddWorld(component)));
    r
}

/// Why a listener refused to go on.
#[derive(Clone, Copy, Debug, PartialEq, Eq, Structural)]
pub enum ConsumerError {
    /// The service's application id (`APP_ID`) is not a key.
    AudienceNotAKey,
}

/// The data a settings key is derived from: the audience's key text, a
/// comma, the service's host (the URL as `Display` writes it).
pub open spec fn admin_key_data(audience: Seq<char>, service_host: Seq<char>) -> Seq<char> {
    audience + ","@ + service_host
}

/// The key of the planet settings of the service at `service_host` for the
/// application `app_id`: a version-8 key in `admin_stream` of kind
/// `admin_kind`, derived from the application's key text and the host;
/// refused where `app_id` is not a key. The stream and the kind are the
/// planet service's settings stream and kind.
pub fn planet_admin_key(
    admin_stream: &'static str,
    admin_kind: &'static str,
    app_id: &str,
    service_host: &str,
) -> (r: Result<String, ConsumerError>)
    ensures
        r is Err <==> model_key_text(app_id@) is None,
        r matches Err(e) ==> e == ConsumerError::AudienceNotAKey,
        r matches Ok(k) ==> k@ == model_key_v8_text(
            admin_stream@,
            admin_kind@,
            admin_key_data(model_key_text(app_id@)->0, service_host@),
        ),
{
    let audience = match parse_model_key(app_id) {
        Some(a) => a,
        None => return Err(ConsumerError::AudienceNotAKey),
    };
    let mut data = audience;
    push_str(&mut data, ",");
    push_str(&mut data, service_host);
    Ok(model_key_v8(admin_stream, admin_kind, data.as_str()))
}

/// The commands that create the planets of a new civilisation: as many
/// creations as the settings' number of starting planets, each owned by
/// the civilisation's owner, under the settings' key and the game's time.
pub fn planet_creation_commands(admin_key: &String, nb_planet: u8, owner: &String, time: TimeConfig) -> (r: Vec<
    crate::planet_state::PlanetCommand,
>)
    ensures
        r@.len() == nb_planet,
        forall|i: int| 0 <= i < r@.len() ==> #[trigger] r@[i] == crate::planet_state::PlanetCommand::Shared(
            SharedPlanetCommand::Create { account_id: *owner, admin_id: *admin_key, time },
        ),
{
    let mut r: Vec<crate::planet_state::PlanetCommand> = Vec::new();
    let mut i: u8 = 0;
    while i < nb_planet
        invariant
            0 <= i <= nb_planet,
            r@.len() == i,
            forall|j: int| 0 <= j < r@.len() ==> #[trigger] r@[j] == crate::planet_state::PlanetCommand::Shared(
                SharedPlanetCommand::Create { account_id: *owner, admin_id: *admin_key, time },
            ),
        decreases nb_planet - i,
    {
        r.push(
            crate::planet_state::PlanetCommand::Shared(
                SharedPlanetCommand::Create { account_id: owner.clone(), admin_id: admin_key.clone(), time },
            ),
        );
        i = i + 1;
    }
    r
}

/// What the planet service does when a service is added to a game: nothing
/// unless the service added is this one (`service_host` is
/// `current_host`); then it creates the settings of this service for the
/// application `app_id`, which must be a key.
pub fn service_added_command(
    admin_stream: &'static str,
    admin_kind: &'static str,
    app_id: &str,
    current_host: &str,
    service_host: &str,
) -> (r: Result<Option<(String, PlanetAdminCommand)>, ConsumerError>)
    ensures
        service_host@ != current_host@ ==> r == Ok::<Option<(String, PlanetAdminCommand)>, ConsumerError>(None),
        service_host@ == current_host@ ==> (r is Err <==> model_key_text(app_id@) is None),
        r matches Err(e) ==> e == ConsumerError::AudienceNotAKey,
        r matches Ok(Some((k, c))) ==> service_host@ == current_host@ && k@ == model_key_v8_text(
            admin_stream@,
            admin_kind@,
            admin_key_data(model_key_text(app_id@)->0, service_host@),
        ) && c == PlanetAdminCommand::Shared(SharedPlanetAdminCommand::Create),
        service_host@ == current_host@ && model_key_text(app_id@) is Some ==> r is Ok && r->Ok_0 is Some,
{
    let current = owned(current_host);
    let service = owned(service_host);
    if !service.eq(&current) {
        return Ok(None);
    }
    match planet_admin_key(admin_stream, admin_kind, app_id, service_host) {
        Ok(k) => Ok(Some((k, PlanetAdminCommand::Shared(SharedPlanetAdminCommand::Create)))),
        Err(e) => Err(e),
    }
}

/// What the account service does when an account is created: nothing
/// unless the account is for this application (`app_id`, the key text of
/// the event's application, is `current_app_id`); then it creates the
/// account, named as the event says and owned by its user, under the
/// version-8 key derived from the event's stream id in `account_stream`,
/// of kind `account_kind` (the account service's stream and kind).
pub fn account_created_command(
    account_stream: &'static str,
    account_kind: &'static str,
    current_app_id: &str,
    app_id: &str,
    stream_id: &str,
    name: String,
    user_id: String,
) -> (r: Option<(String, AccountCommand)>)
    ensures
        r is Some <==> app_id@ == current_app_id@,
        r matches Some((k, c)) ==> k@ == model_key_v8_text(account_stream@, account_kind@, stream_id@) && c
            == (AccountCommand::Create { name, owner: user_id }),
{
    let current = owned(current_app_id);
    let event_app = owned(app_id);
    if !event_app.eq(&current) {
        return None;
    }
    let key = model_key_v8(account_stream, account_kind, stream_id);
    Some((key, AccountCommand::Create { name, owner: user_id }))
}

/// The lowercase hexadecimal digit of `n` (below 16).
pub open spec fn hex_digit(n: int) -> char {
    if n < 10 {
        (('0' as int) + n) as char
    } else {
        (('a' as int) + n - 10) as char
    }
}

/// `16^n`.
pub open spec fn pow16(n: nat) -> nat
    decreases n,
{
    if n == 0 {
        1
    } else {
        16 * pow16((n - 1) as nat)
    }
}

/// The text of the UUID whose 128-bit value is `v`, as `Display` writes it:
/// the 32 lowercase hexadecimal digits of `v`, most significant first, in
/// groups of 8, 4, 4, 4 and 12 separated by dashes.
pub open spec fn uuid_text(v: u128) -> Seq<char> {
    Seq::new(
        36,
        |i: int|
            if i == 8 || i == 13 || i == 18 || i == 23 {
                '-'
            } else {
                let j = if i < 8 {
                    i
                } else if i < 13 {
                    i - 1
                } else if i < 18 {
                    i - 2
                } else if i < 23 {
                    i - 3
                } else {
                    i - 4
                };
                hex_digit(((v as nat) / pow16((31 - j) as nat)) as int % 16)
            },
    )
}

/// The 128-bit value of the UUID that `uuid::Uuid::parse_str(s)` reads,
/// or `None` where it refuses `s`.
pub uninterp spec fn uuid_value(s: Seq<char>) -> Option<u128>;

/// `uuid::Uuid::from_u128(v).to_string()`: the hyphenated lowercase form
/// (`uuid_text`), which the parser reads back as `v`.
#[verifier::external_body]
pub(crate) fn uuid_to_text(v: u128) -> (r: String)
    ensures
        r@ == uuid_text(v),
        uuid_value(r@) == Some(v),
{
    uuid::Uuid::from_u128(v).to_string()
}

/// `uuid::Uuid::try_from(s)` (the parser of `parse_str`), then
/// `as_u128()`: `None` exactly where the parser refuses `s`.
#[verifier::external_body]
pub(crate) fn parse_uuid(s: &str) -> (r: Option<u128>)
    ensures
        r == uuid_value(s@),
{
    match uuid::Uuid::try_from(s) {
        Ok(u) => Some(u.as_u128()),
        Err(_) => None,
    }
}

/// The payload of the callback that ends the construction `key` on the
/// planet `model_key`: the key's text, a colon, the construction's UUID.
pub fn construction_callback(model_key: &String, key: u128) -> (r: String)
    ensures
        r@ == model_key@ + ":"@ + uuid_text(key),
{
    let mut s = model_key.clone();
    push_str(&mut s, ":");
    let k = uuid_to_text(key);
    push_str(&mut s, k.as_str());
    s
}

/// Why a callback's payload was refused.
#[derive(Clone, Copy, Debug, PartialEq, Eq, Structural)]
pub enum CallbackError {
    /// No colon in the payload.
    CannotSplit,
    /// What precedes the first colon is not a key.
    BadModelKey,
    /// What follows the first colon is not a UUID.
    BadKey,
}

/// What the callback's payload names: split at its first colon, a planet's
/// key and a construction's UUID.
pub open spec fn spec_callback_target(data: Seq<char>) -> Result<(Seq<char>, u128), CallbackError> {
    if !data.contains(':') {
        Err(CallbackError::CannotSplit)
    } else {
        let i = choose|i: int| 0 <= i < data.len() && data[i] == ':' && forall|j: int| 0 <= j < i ==> data[j] != ':';
        match model_key_text(data.subrange(0, i)) {
            None => Err(CallbackError::BadModelKey),
            Some(k) => match uuid_value(data.subrange(i + 1, data.len() as int)) {
                None => Err(CallbackError::BadKey),
                Some(v) => Ok((k, v)),
            },
        }
    }
}

/// The planet's key and the construction's UUID that a callback's payload
/// names.
pub fn callback_target(data: &str) -> (r: Result<(String, u128), CallbackError>)
    ensures
        match r {
            Ok((k, v)) => spec_callback_target(data@) == Ok::<(Seq<char>, u128), CallbackError>((k@, v)),
            Err(e) => spec_callback_target(data@) == Err::<(Seq<char>, u128), CallbackError>(e),
        },
{
    let n = data.unicode_len();
    let mut i: usize = 0;
    while i < n
        invariant
            0 <= i <= n,
            n == data@.len(),
            forall|j: int| 0 <= j < i ==> data@[j] != ':',
        decreases n - i,
    {
        if data.get_char(i) == ':' {
            proof {
                assert(data@.contains(':'));
                let f = choose|f: int| 0 <= f < data@.len() && data@[f] == ':' && forall|j: int| 0 <= j < f ==> data@[j] != ':';
                assert(f == i as int) by {
                    if f < i as int {
                        assert(data@[f] == ':');
                    } else if f > i as int {
                        assert(data@[i as int] == ':');
                    }
                }
            }
            let key = match parse_model_key(data.substring_char(0, i)) {
                Some(k) => k,
                None => return Err(CallbackError::BadModelKey),
            };
            let v = match parse_uuid(data.substring_char(i + 1, n)) {
                Some(v) => v,
                None => return Err(CallbackError::BadKey),
            };
            return Ok((key, v));
        }
        i = i + 1;
    }
    proof {
        assert(!data@.contains(':'));
    }
    Err(CallbackError::CannotSplit)
}

} // verus!

verus! {

/// The callback round trip: the payload written for a planet's key (a key
/// text with no colon) and a construction is read back as that key and
/// that construction, given that the UUID parser reads the UUID's text
/// back as its value (as `uuid_to_text` guarantees).
pub proof fn law_callback_round_trip(k: Seq<char>, key: u128)
    requires
        model_key_text(k) == Some(k),
        !k.contains(':'),
        uuid_value(uuid_text(key)) == Some(key),
    ensures
        spec_callback_target(k + ":"@ + uuid_text(key)) == Ok::<(Seq<char>, u128), CallbackError>((k, key)),
{
    reveal_strlit(":");
    let colon = ":"@;
    assert(colon.len() == 1 && colon[0] == ':');
    let t = uuid_text(key);
    assert(!t.contains(':')) by {
        if t.contains(':') {
            let m = choose|m: int| 0 <= m < t.len() && t[m] == ':';
            let d = t[m];
            assert(d == '-' || ('0' <= d <= '9') || ('a' <= d <= 'f')) by {
                if !(m == 8 || m == 13 || m == 18 || m == 23) {
                    let j = if m < 8 { m } else if m < 13 { m - 1 } else if m < 18 { m - 2 } else if m < 23 { m - 3 } else { m - 4 };
                    let n = ((key as nat) / pow16((31 - j) as nat)) as int % 16;
                    assert(0 <= n < 16);
                }
            }
        }
    }
    let data = k + colon + t;
    let n = k.len() as int;
    assert(data[n] == ':');
    assert(data.contains(':'));
    let i = choose|i: int| 0 <= i < data.len() && data[i] == ':' && forall|j: int| 0 <= j < i ==> data[j] != ':';
    assert(forall|j: int| 0 <= j < n ==> data[j] == k[j]);
    assert(forall|j: int| 0 <= j < n ==> k[j] != ':');
    assert(i == n) by {
        if i < n {
            assert(k[i] == ':');
        } else if i > n {
            assert(data[n] == ':');
        }
    }
    assert(data.subrange(0, n) =~= k);
    assert(data.subrange(n + 1, data.len() as int) =~= uuid_text(key));
}

} // verus!
