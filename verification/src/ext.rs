//! The library's view of the outside crates it leans on: opaque JSON values
//! and URLs, and the wall clock. Each function here is trusted: its body makes
//! one call into the outside crate, and its contract states only what that
//! crate's source shows.

use vstd::prelude::*;

verus! {

/// `serde_json::Value`, declared so that library types can hold and hand
/// around opaque JSON payloads. The library never looks inside a value except
/// through the accessors below.
#[verifier::external_type_specification]
#[verifier::external_body]
pub struct ExValue(serde_json::Value);

/// `url::Url`, declared so that the connection-URL builder can carry a parsed
/// URL between the accessors below.
#[verifier::external_type_specification]
#[verifier::external_body]
pub struct ExUrl(url::Url);

/// Relies on `serde_json::from_str`: `Some` exactly when the text is a valid
/// JSON document; which texts those are is not modelled here.
#[verifier::external_body]
pub(crate) fn json_parse(text: &str) -> (r: Option<serde_json::Value>) {
    serde_json::from_str(text).ok()
}

/// Relies on `serde_json::Value::get` with a string index: the value under
/// `key` when `v` is an object holding that key, `None` otherwise.
#[verifier::external_body]
pub(crate) fn json_get<'a>(v: &'a serde_json::Value, key: &str) -> (r: Option<
    &'a serde_json::Value,
>) {
    v.get(key)
}

/// Relies on `serde_json::Value::as_str`: the inner text when the value is a
/// JSON string, `None` otherwise.
#[verifier::external_body]
pub(crate) fn json_as_str(v: &serde_json::Value) -> (r: Option<String>) {
    v.as_str().map(str::to_owned)
}

/// Relies on `serde_json::Value::as_u64`: the inner integer when the value is
/// a JSON number representable as `u64`, `None` otherwise.
#[verifier::external_body]
pub(crate) fn json_as_u64(v: &serde_json::Value) -> (r: Option<u64>) {
    v.as_u64()
}

/// Relies on `serde_json::Value::is_object`.
#[verifier::external_body]
pub(crate) fn json_is_object(v: &serde_json::Value) -> (r: bool) {
    v.is_object()
}

/// Relies on `serde_json::Value::clone`: a deep copy equal to the original.
#[verifier::external_body]
pub(crate) fn json_clone(v: &serde_json::Value) -> (r: serde_json::Value)
    ensures
        r == *v,
{
    v.clone()
}

/// Relies on `serde_json::Map::insert` reached through
/// `serde_json::Value::as_object_mut`: when `v` is an object, the value under
/// `key` becomes the given JSON string; any other `v` is left alone.
#[verifier::external_body]
pub(crate) fn json_set_string(v: &mut serde_json::Value, key: &str, text: &str) {
    if let Some(obj) = v.as_object_mut() {
        obj.insert(key.to_owned(), serde_json::Value::String(text.to_owned()));
    }
}

/// Which texts `url::Url::parse` accepts. Parsing is a function of the text
/// alone; its acceptance condition takes pages to state, so it gets a name.
pub uninterp spec fn url_accepts(text: Seq<char>) -> bool;

/// Relies on `url::Url::parse`: `Some` exactly when the text is an absolute
/// URL the crate accepts.
#[verifier::external_body]
pub(crate) fn url_parse(text: &str) -> (r: Option<url::Url>)
    ensures
        r is Some <==> url_accepts(text@),
{
    url::Url::parse(text).ok()
}

/// Relies on `form_urlencoded::Serializer::append_pair`, reached through
/// `url::Url::query_pairs_mut`: appends one percent-encoded `key=value` pair
/// to the URL's query string.
#[verifier::external_body]
pub(crate) fn url_append_query_pair(u: &mut url::Url, key: &str, value: &str) {
    u.query_pairs_mut().append_pair(key, value);
}

/// Relies on `url::Url::as_str`: the URL's serialized text.
#[verifier::external_body]
pub(crate) fn url_to_text(u: &url::Url) -> (r: String) {
    u.as_str().to_owned()
}

/// What `str::to_lowercase` returns: the result depends on the characters
/// alone, and spelling out Unicode case folding is the crate's work, so it
/// gets a name.
pub uninterp spec fn lower_of(text: Seq<char>) -> Seq<char>;

/// Relies on `str::to_lowercase`: the text folded to lower case.
#[verifier::external_body]
pub(crate) fn lowercase(text: &str) -> (r: String)
    ensures
        r@ == lower_of(text@),
{
    text.to_lowercase()
}

/// Relies on `chrono::Utc::now` and `DateTime::timestamp_millis`: the wall
/// clock, as milliseconds since the Unix epoch. The value depends on the
/// machine's clock, so nothing is promised of it.
#[verifier::external_body]
pub(crate) fn now_millis() -> (r: i64) {
    chrono::Utc::now().timestamp_millis()
}

} // verus!
