//! The decisions of the planet service's web front: where the client
//! script is, which cookie names a counter, which key a claim's account
//! has, and how a refused command is answered.
use vstd::prelude::*;
use vstd::string::StrSliceExecFns;
use crate::model_key::{model_key_text, model_key_v8, model_key_v8_text, parse_model_key};
use crate::planet_shared::error::PlanetError;
use crate::planet_shared::event::SharedPlanetEvent;
use crate::planet_state::PlanetEvent;
use crate::public::civilisation::{MONO_CIVILISATION_STREAM, UUID_V8_KIND};
use crate::text::{owned, push_char, push_str};

verus! {

/// The version written with dashes in place of dots.
pub open spec fn dashed(version: Seq<char>) -> Seq<char>
    decreases version.len(),
{
    if version.len() == 0 {
        Seq::empty()
    } else {
        let c = version.last();
        dashed(version.drop_last()).push(if c == '.' { '-' } else { c })
    }
}

/// Path of the client script: tagged by the build's tag where there is
/// one, else by the package version with dashes.
pub open spec fn spec_index_js_path(wasm_tag: Seq<char>, version: Seq<char>) -> Seq<char> {
    if wasm_tag.len() != 0 {
        "/client/index-"@ + wasm_tag + ".js"@
    } else {
        "/client/index-v"@ + dashed(version) + ".js"@
    }
}

/// Path of the client script for the build's tag and package version.
pub fn index_js_path(wasm_tag: &str, version: &str) -> (r: String)
    ensures
        r@ == spec_index_js_path(wasm_tag@, version@),
{
    if !wasm_tag.is_empty() {
        let mut s = owned("/client/index-");
        push_str(&mut s, wasm_tag);
        push_str(&mut s, ".js");
        s
    } else {
        let mut s = owned("/client/index-v");
        let ghost start = s@;
        let n = version.unicode_len();
        let mut i: usize = 0;
        proof {
            assert(version@.take(0) =~= Seq::<char>::empty());
            assert(start + dashed(Seq::<char>::empty()) =~= start);
        }
        while i < n
            invariant
                0 <= i <= n,
                n == version@.len(),
                start == "/client/index-v"@,
                s@ == start + dashed(version@.take(i as int)),
            decreases n - i,
        {
            let c = version.get_char(i);
            proof {
                assert(version@.take(i + 1).drop_last() =~= version@.take(i as int));
                assert(version@.take(i + 1).last() == c);
            }
            let d = if c == '.' { '-' } else { c };
            let ghost before = s@;
            push_char(&mut s, d);
            proof {
                assert(s@ =~= start + dashed(version@.take(i + 1)));
            }
            i = i + 1;
        }
        proof {
            assert(version@.take(n as int) =~= version@);
        }
        push_str(&mut s, ".js");
        s
    }
}

/// Whether `s` holds an `'='`.
pub open spec fn has_eq(s: Seq<char>) -> bool {
    exists|i: int| 0 <= i < s.len() && s[i] == '='
}

/// What follows the last `'='` of a cookie's text (the whole text where
/// there is none): the cookie's value.
pub open spec fn spec_cookie_value(crumb: Seq<char>) -> Seq<char> {
    if has_eq(crumb) {
        let last = choose|i: int| 0 <= i < crumb.len() && crumb[i] == '=' && forall|j: int| i < j < crumb.len() ==> crumb[j] != '=';
        crumb.subrange(last + 1, crumb.len() as int)
    } else {
        crumb
    }
}

/// The value of a cookie, from its text `name=value`.
pub fn cookie_value(crumb: &str) -> (r: String)
    ensures
        r@ == spec_cookie_value(crumb@),
{
    let n = crumb.unicode_len();
    let mut i: usize = n;
    while i > 0
        invariant
            0 <= i <= n,
            n == crumb@.len(),
            forall|j: int| i <= j < n ==> crumb@[j] != '=',
        decreases i,
    {
        if crumb.get_char(i - 1) == '=' {
            let r = owned(crumb.substring_char(i, n));
            proof {
                let k = (i - 1) as int;
                assert(has_eq(crumb@));
                let last = choose|m: int| 0 <= m < crumb@.len() && crumb@[m] == '=' && forall|j: int| m < j < crumb@.len() ==> crumb@[j] != '=';
                assert(last == k) by {
                    if last < k {
                        assert(crumb@[k] == '=');
                    } else if last > k {
                        assert(crumb@[last] == '=');
                    }
                }
            }
            return r;
        }
        i = i - 1;
    }
    proof {
        assert(!has_eq(crumb@));
    }
    owned(crumb)
}

/// The key of a player's account, derived from the account's id as the
/// planet service does (a version-8 UUID in the civilisations' stream).
pub fn account_model_key(account: &str) -> (r: String)
    ensures
        r@ == model_key_v8_text(MONO_CIVILISATION_STREAM@, UUID_V8_KIND@, account@),
{
    model_key_v8(MONO_CIVILISATION_STREAM, UUID_V8_KIND, account)
}

/// Why a claim to an account was refused.
#[derive(Clone, Copy, Debug, PartialEq, Eq, Structural)]
pub enum AccountClaimError {
    Claim,
    Missing,
}

/// The settings of the authentication front.
#[derive(Clone, Debug, PartialEq, Eq)]
pub struct AuthConfig {
    pub app_host: String,
    pub app_key: String,
    pub auth_host: String,
    pub auth_callback_host: String,
}

/// How the web front answers a refused planet request.
#[derive(Clone, Debug, PartialEq, Eq)]
pub enum ResponderError {
    /// 500.
    ServerError(String),
    /// 404.
    NotFound(String),
    /// 403.
    Forbidden(String),
    /// 409.
    StateError(String),
}

/// The key a planet command names, or the refusal of an id that is not a
/// key.
pub fn planet_key(model_id: &str) -> (r: Result<String, ResponderError>)
    ensures
        match r {
            Ok(k) => model_key_text(model_id@) == Some(k@),
            Err(e) => model_key_text(model_id@) is None && (e matches ResponderError::NotFound(m) && m@ == "mono_command : invalid id"@),
        },
{
    match parse_model_key(model_id) {
        Some(k) => Ok(k),
        None => Err(ResponderError::NotFound(owned("mono_command : invalid id"))),
    }
}

/// Only the owner of a planet may command it: refused unless the claimed
/// user is the owner.
pub fn owner_gate(owner: &String, user: &String) -> (r: Result<(), ResponderError>)
    ensures
        match r {
            Ok(_) => owner@ == user@,
            Err(e) => owner@ != user@ && (e matches ResponderError::Forbidden(m) && m@ == "not your planet"@),
        },
{
    if !owner.eq(user) {
        return Err(ResponderError::Forbidden(owned("not your planet")));
    }
    Ok(())
}

/// The answer to a command the planet refused: a conflict with the
/// refusal's message.
pub fn state_refusal(e: &PlanetError) -> (r: ResponderError)
    ensures
        r matches ResponderError::StateError(m) && m@ == e.spec_message(),
{
    ResponderError::StateError(e.message())
}

/// What the planet's event stream forwards to a client of an event of the
/// planet: the shared part, and nothing of a private or public event.
pub fn streamed_event(event: PlanetEvent) -> (r: Option<SharedPlanetEvent>)
    ensures
        r == match event {
            PlanetEvent::Shared(e) => Some(e),
            _ => None,
        },
{
    match event {
        PlanetEvent::Shared(e) => Some(e),
        _ => None,
    }
}

} // verus!
