//! Everything the library takes on trust from the crates it calls: the outside
//! types it carries, names for what outside functions return, and thin wrappers
//! that make the calls.
use vstd::prelude::*;

verus! {

/// `std::path::PathBuf`: where the database file lies.
#[verifier::external_type_specification]
#[verifier::external_body]
pub struct ExPathBuf(std::path::PathBuf);

/// `serde_json::Value`: the semi-structured attribute tree of an item.
#[verifier::external_type_specification]
#[verifier::external_body]
pub struct ExValue(serde_json::Value);

/// Relies on `serde_json::Value`'s derived `Clone`, which copies the whole tree.
pub assume_specification[ <serde_json::Value as Clone>::clone ](v: &serde_json::Value) -> (r:
    serde_json::Value)
    ensures
        r == *v,
;

/// The text that `serde_json::Value`'s `Display` writes for a value.
pub uninterp spec fn json_text(v: serde_json::Value) -> Seq<char>;

/// What `serde_json::from_str::<Value>` gives for a text, `None` where it fails.
pub uninterp spec fn json_parse(s: Seq<char>) -> Option<serde_json::Value>;

/// What `serde_json::to_string` gives for a string (its quoted, escaped form).
pub uninterp spec fn json_quote(s: Seq<char>) -> Seq<char>;

/// The JSON object that `serde_json::Map`'s `FromIterator` builds from
/// key/string pairs.
pub uninterp spec fn json_string_object(pairs: Seq<(Seq<char>, Seq<char>)>) -> serde_json::Value;

/// The string that `serde_json::Value::as_str` finds in a value; `None` where
/// the value is no string.
pub uninterp spec fn json_as_str(v: serde_json::Value) -> Option<Seq<char>>;

/// The number of members that `serde_json::Value::as_object` finds in a value;
/// `None` where the value is no object.
pub uninterp spec fn json_object_len(v: serde_json::Value) -> Option<nat>;

/// What `serde_json::from_str::<String>` gives for a text.
pub uninterp spec fn json_unquote(s: Seq<char>) -> Option<Seq<char>>;

/// What chrono's `DateTime::<Utc>::from_timestamp(secs, nanos)` followed by
/// `to_rfc3339` gives; `None` where chrono cannot represent the instant.
pub uninterp spec fn rfc3339_text(secs: i64, nanos: u32) -> Option<Seq<char>>;

/// What chrono's `DateTime::parse_from_rfc3339` gives for a text, as Unix seconds
/// and the nanoseconds past them.
pub uninterp spec fn rfc3339_parse(s: Seq<char>) -> Option<(i64, u32)>;

/// The key/value pairs of a URL's query, as `url::Url::parse` and
/// `query_pairs` decode them; `None` where the text is no URL.
pub uninterp spec fn url_query(s: Seq<char>) -> Option<Seq<(Seq<char>, Seq<char>)>>;

/// The string that `serde_json::Value::get(key)` and `Value::as_str` find under
/// `key` in a JSON object; `None` where there is no such member or it is no string.
pub uninterp spec fn json_str_member(v: serde_json::Value, key: Seq<char>) -> Option<Seq<char>>;

/// Relies on `serde_json::Value::get` with a `str` key and `Value::as_str`.
#[verifier::external_body]
pub(crate) fn str_member(v: &serde_json::Value, key: &str) -> (r: Option<String>)
    ensures
        match r {
            Some(t) => json_str_member(*v, key@) == Some(t@),
            None => json_str_member(*v, key@) is None,
        },
{
    v.get(key).and_then(|m| m.as_str()).map(|t| t.to_string())
}

/// Relies on `serde_json::Value`'s `Display`: the compact JSON text of the value.
#[verifier::external_body]
pub(crate) fn value_to_text(v: &serde_json::Value) -> (r: String)
    ensures
        r@ == json_text(*v),
{
    v.to_string()
}

/// Relies on `serde_json::from_str::<Value>`.
#[verifier::external_body]
pub(crate) fn parse_value(s: &str) -> (r: Option<serde_json::Value>)
    ensures
        r == json_parse(s@),
{
    serde_json::from_str::<serde_json::Value>(s).ok()
}

/// Relies on `serde_json::Value::Null`, which `serde_json::from_str` reads from `null`.
#[verifier::external_body]
pub(crate) fn null_value() -> (r: serde_json::Value)
    ensures
        json_parse("null"@) == Some(r),
{
    serde_json::Value::Null
}

/// Relies on `serde_json::to_string` on a `str`, which writes into a `Vec`
/// and so never fails.
#[verifier::external_body]
pub(crate) fn quote_string(s: &str) -> (r: String)
    ensures
        r@ == json_quote(s@),
{
    serde_json::to_string(s).unwrap_or_default()
}

/// Relies on `serde_json::Map`'s `FromIterator` and `Value::Object`: an object
/// whose members are the pairs' keys with their strings, a key that occurs once
/// holding its own string.
#[verifier::external_body]
pub(crate) fn string_object(pairs: &Vec<(String, String)>) -> (r: serde_json::Value)
    ensures
        r == json_string_object(pairs@.map_values(|p: (String, String)| (p.0@, p.1@))),
        forall|i: int|
            0 <= i < pairs@.len() && (forall|j: int|
                0 <= j < pairs@.len() && j != i ==> pairs@[j].0@ != pairs@[i].0@) ==> json_str_member(
                r,
                (#[trigger] pairs@[i]).0@,
            ) == Some(pairs@[i].1@),
{
    serde_json::Value::Object(
        pairs.iter().map(|p| (p.0.clone(), serde_json::Value::String(p.1.clone()))).collect(),
    )
}

/// Relies on `serde_json::Value::as_str`.
#[verifier::external_body]
pub(crate) fn as_string(v: &serde_json::Value) -> (r: Option<String>)
    ensures
        match r {
            Some(t) => json_as_str(*v) == Some(t@),
            None => json_as_str(*v) is None,
        },
{
    v.as_str().map(|t| t.to_string())
}

/// Relies on `serde_json::Value::as_object` and `Map::len`.
#[verifier::external_body]
pub(crate) fn object_len(v: &serde_json::Value) -> (r: Option<usize>)
    ensures
        match r {
            Some(n) => json_object_len(*v) == Some(n as nat),
            None => json_object_len(*v) is None,
        },
{
    v.as_object().map(|m| m.len())
}

/// Relies on `serde_json::from_str::<String>`.
#[verifier::external_body]
pub(crate) fn unquote_string(s: &str) -> (r: Option<String>)
    ensures
        match r {
            Some(t) => json_unquote(s@) == Some(t@),
            None => json_unquote(s@) is None,
        },
{
    serde_json::from_str::<String>(s).ok()
}

/// Relies on chrono's `DateTime::<Utc>::from_timestamp` and `to_rfc3339`.
#[verifier::external_body]
pub(crate) fn format_rfc3339(secs: i64, nanos: u32) -> (r: Option<String>)
    ensures
        match r {
            Some(t) => rfc3339_text(secs, nanos) == Some(t@),
            None => rfc3339_text(secs, nanos) is None,
        },
{
    chrono::DateTime::<chrono::Utc>::from_timestamp(secs, nanos).map(|dt| dt.to_rfc3339())
}

/// Relies on chrono's `DateTime::parse_from_rfc3339`, `timestamp` and
/// `timestamp_subsec_nanos`.
#[verifier::external_body]
pub(crate) fn parse_rfc3339(s: &str) -> (r: Option<(i64, u32)>)
    ensures
        r == rfc3339_parse(s@),
{
    chrono::DateTime::parse_from_rfc3339(s).ok().map(
        |dt| (dt.timestamp(), dt.timestamp_subsec_nanos()),
    )
}

/// Relies on chrono's `Utc::now`: the current time as Unix seconds and the
/// nanoseconds past them. Nothing is known of its value.
#[verifier::external_body]
pub(crate) fn now_utc() -> (r: (i64, u32)) {
    let now = chrono::Utc::now();
    (now.timestamp(), now.timestamp_subsec_nanos())
}

/// Relies on `uuid::Uuid::new_v4` and its hyphenated `Display` form, which is
/// 36 characters long.
#[verifier::external_body]
pub(crate) fn fresh_uuid() -> (r: String)
    ensures
        r@.len() == 36,
{
    uuid::Uuid::new_v4().to_string()
}

/// Relies on `url::Url::parse` and `Url::query_pairs`, each pair decoded.
#[verifier::external_body]
pub(crate) fn url_query_pairs(s: &str) -> (r: Option<Vec<(String, String)>>)
    ensures
        match r {
            Some(v) => url_query(s@) == Some(v@.map_values(|p: (String, String)| (p.0@, p.1@))),
            None => url_query(s@) is None,
        },
{
    url::Url::parse(s).ok().map(|u| u.query_pairs().into_owned().collect())
}

} // verus!
