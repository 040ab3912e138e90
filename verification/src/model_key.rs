//! Entity keys, through `horfimbor_eventsource::model_key::ModelKey`. The
//! library holds a key as its text: what `Display` writes of it, a stream
//! name, a dash and the UUID.
use vstd::prelude::*;
use horfimbor_eventsource::model_key::ModelKey;

verus! {

/// The text of the key that `ModelKey::try_from(s)` reads from `s`, or
/// `None` where it refuses `s`.
pub uninterp spec fn model_key_text(s: Seq<char>) -> Option<Seq<char>>;

/// The text of the key that `ModelKey::new_uuid_v8(stream, kind, data)`
/// derives from its arguments (a SHA-1 of `kind` and `data`).
pub uninterp spec fn model_key_v8_text(stream: Seq<char>, kind: Seq<char>, data: Seq<char>) -> Seq<char>;

/// The text of `ModelKey::default()`: an empty stream name and the nil UUID.
pub open spec fn default_model_key_text() -> Seq<char> {
    "-00000000-0000-0000-0000-000000000000"@
}

/// The key that `s` names, in its canonical text, or `default_model_key_text`
/// where `s` names none (`try_into().unwrap_or_default()`).
pub open spec fn model_key_or_default(s: Seq<char>) -> Seq<char> {
    match model_key_text(s) {
        Some(t) => t,
        None => default_model_key_text(),
    }
}

/// `ModelKey::try_from(s)`, then `to_string()` of the key: `None` exactly
/// where the outside parser refuses `s`; the text is what the parser read.
/// The text is read back as itself: the stream name the parser reads stops
/// at the first dash, and `Display` writes it and the UUID's hyphenated
/// form, which the parser reads again.
#[verifier::external_body]
pub(crate) fn parse_model_key(s: &str) -> (r: Option<String>)
    ensures
        match r {
            Some(t) => model_key_text(s@) == Some(t@),
            None => model_key_text(s@) is None,
        },
        r matches Some(t) ==> model_key_text(t@) == Some(t@),
{
    match ModelKey::try_from(s) {
        Ok(k) => Some(k.to_string()),
        Err(_) => None,
    }
}

/// `ModelKey::default().to_string()`: the derived default holds an empty
/// stream name and `Uuid::nil()`, and `Display` writes both with a dash.
#[verifier::external_body]
pub(crate) fn default_model_key() -> (r: String)
    ensures
        r@ == default_model_key_text(),
{
    ModelKey::default().to_string()
}

/// `ModelKey::new_uuid_v8(stream, kind, data).to_string()`.
#[verifier::external_body]
pub(crate) fn model_key_v8(stream: &'static str, kind: &'static str, data: &str) -> (r: String)
    ensures
        r@ == model_key_v8_text(stream@, kind@, data@),
{
    ModelKey::new_uuid_v8(stream, kind, data).to_string()
}

/// The key that `s` names, in its canonical text, or the default key's text.
pub fn model_key_or_default_of(s: &str) -> (r: String)
    ensures
        r@ == model_key_or_default(s@),
{
    match parse_model_key(s) {
        Some(t) => t,
        None => default_model_key(),
    }
}

/// A version-4 UUID's value: its version nibble (bits 76 to 79) is 4 and its
/// variant (bits 62 and 63) is `0b10`.
pub open spec fn is_uuid_v4(v: u128) -> bool {
    &&& (v >> 76u128) & 0xfu128 == 4
    &&& (v >> 62u128) & 3u128 == 2
}

/// `uuid::Uuid::new_v4().as_u128()`: random bits with the version and
/// variant bits set (`new_v4` masks them to version 4, variant RFC 4122).
/// Nothing more is promised of the value. It panics only where the system
/// gives no random bytes.
#[verifier::external_body]
pub(crate) fn new_uuid_v4() -> (r: u128)
    ensures
        is_uuid_v4(r),
{
    uuid::Uuid::new_v4().as_u128()
}

} // verus!
