//! Small JSON state files: the scalar entries of a top-level object, and
//! lookups of a key in them.
use vstd::prelude::*;
use crate::charging::str_eq;

verus! {

/// A scalar JSON value as the state files use them.
#[derive(Debug, Clone, PartialEq)]
pub enum JsonScalar {
    Bool(bool),
    Str(String),
    /// A number that is an unsigned 64-bit integer.
    U64(u64),
    /// Anything else: null, another number, an array or an object.
    Other,
}

/// The view of a [`JsonScalar`].
pub enum JsonScalarView {
    Bool(bool),
    Str(Seq<char>),
    U64(u64),
    Other,
}

pub open spec fn scalar_view(v: JsonScalar) -> JsonScalarView {
    match v {
        JsonScalar::Bool(b) => JsonScalarView::Bool(b),
        JsonScalar::Str(s) => JsonScalarView::Str(s@),
        JsonScalar::U64(n) => JsonScalarView::U64(n),
        JsonScalar::Other => JsonScalarView::Other,
    }
}

pub open spec fn entries_view(es: Seq<(String, JsonScalar)>) -> Seq<(Seq<char>, JsonScalarView)> {
    es.map_values(|e: (String, JsonScalar)| (e.0@, scalar_view(e.1)))
}

/// What `serde_json` reads from a text: `None` when it is not JSON; the
/// entries of the top-level object, in the map's order, when it is an
/// object; no entries for any other JSON value.
pub uninterp spec fn json_entries(content: Seq<char>) -> Option<Seq<(Seq<char>, JsonScalarView)>>;

/// Parses `content` with `serde_json::from_str::<serde_json::Value>` and
/// hands out the entries of a top-level object, each value as a
/// `JsonScalar` (`Value::Bool`, `Value::String`, a `Value::Number` whose
/// `as_u64` gives a value; anything else as `Other`). The contract only
/// names the result: it is a function of the text.
#[verifier::external_body]
pub(crate) fn parse_json_entries(content: &str) -> (r: Option<Vec<(String, JsonScalar)>>)
    ensures
        match r {
            Some(es) => json_entries(content@) == Some(entries_view(es@)),
            None => json_entries(content@).is_none(),
        },
{
    match serde_json::from_str::<serde_json::Value>(content) {
        Ok(serde_json::Value::Object(m)) => Some(m.into_iter().map(|(k, v)| (k, match v {
            serde_json::Value::Bool(b) => JsonScalar::Bool(b),
            serde_json::Value::String(s) => JsonScalar::Str(s),
            serde_json::Value::Number(n) => n.as_u64().map_or(JsonScalar::Other, JsonScalar::U64),
            _ => JsonScalar::Other,
        })).collect()),
        Ok(_) => Some(Vec::new()),
        Err(_) => None,
    }
}

/// The value of the first entry with key `k`.
pub open spec fn json_get(es: Seq<(Seq<char>, JsonScalarView)>, k: Seq<char>) -> Option<JsonScalarView>
    decreases es.len(),
{
    if es.len() == 0 {
        None
    } else if es[0].0 == k {
        Some(es[0].1)
    } else {
        json_get(es.drop_first(), k)
    }
}

pub open spec fn as_bool(v: Option<JsonScalarView>) -> Option<bool> {
    match v {
        Some(JsonScalarView::Bool(b)) => Some(b),
        _ => None,
    }
}

pub open spec fn as_str(v: Option<JsonScalarView>) -> Option<Seq<char>> {
    match v {
        Some(JsonScalarView::Str(s)) => Some(s),
        _ => None,
    }
}

pub open spec fn as_u64(v: Option<JsonScalarView>) -> Option<u64> {
    match v {
        Some(JsonScalarView::U64(n)) => Some(n),
        _ => None,
    }
}

/// Where the first entry with key `key` stands.
fn find_key(es: &Vec<(String, JsonScalar)>, key: &str) -> (r: Option<usize>)
    ensures
        match r {
            Some(i) => i < es@.len() && json_get(entries_view(es@), key@) == Some(
                scalar_view(es@[i as int].1),
            ),
            None => json_get(entries_view(es@), key@).is_none(),
        },
{
    let ghost v = entries_view(es@);
    let mut i: usize = 0;
    assert(v.skip(0) =~= v);
    while i < es.len()
        invariant
            0 <= i <= es.len(),
            v == entries_view(es@),
            json_get(v, key@) == json_get(v.skip(i as int), key@),
        decreases es.len() - i,
    {
        assert(v.skip(i as int)[0] == v[i as int]);
        if str_eq(es[i].0.as_str(), key) {
            return Some(i);
        }
        assert(v.skip(i as int).drop_first() =~= v.skip(i + 1));
        i = i + 1;
    }
    assert(v.skip(i as int).len() == 0);
    None
}

/// The boolean under `key`.
pub fn get_bool(es: &Vec<(String, JsonScalar)>, key: &str) -> (r: Option<bool>)
    ensures
        r == as_bool(json_get(entries_view(es@), key@)),
{
    match find_key(es, key) {
        Some(i) => match &es[i].1 {
            JsonScalar::Bool(b) => Some(*b),
            _ => None,
        },
        None => None,
    }
}

/// The string under `key`.
pub fn get_str(es: &Vec<(String, JsonScalar)>, key: &str) -> (r: Option<String>)
    ensures
        r.deep_view() == as_str(json_get(entries_view(es@), key@)),
{
    match find_key(es, key) {
        Some(i) => match &es[i].1 {
            JsonScalar::Str(s) => Some(s.clone()),
            _ => None,
        },
        None => None,
    }
}

/// The unsigned integer under `key`.
pub fn get_u64(es: &Vec<(String, JsonScalar)>, key: &str) -> (r: Option<u64>)
    ensures
        r == as_u64(json_get(entries_view(es@), key@)),
{
    match find_key(es, key) {
        Some(i) => match &es[i].1 {
            JsonScalar::U64(n) => Some(*n),
            _ => None,
        },
        None => None,
    }
}

/// The crash count a crash marker holds: its `count`, cut to 32 bits as a
/// cast does; 0 when the marker is missing, is not JSON or has no unsigned
/// `count`.
pub open spec fn crash_count_spec(content: Option<Seq<char>>) -> u32 {
    match content {
        Some(c) => match json_entries(c) {
            Some(es) => match as_u64(json_get(es, "count"@)) {
                Some(n) => n as u32,
                None => 0,
            },
            None => 0,
        },
        None => 0,
    }
}

/// The crash count of the crash marker with the text `content` (`None`
/// when it could not be read).
pub fn crash_count(content: Option<&str>) -> (r: u32)
    ensures
        r == crash_count_spec(match content {
            Some(t) => Some(t@),
            None => None,
        }),
{
    match content {
        Some(t) => match parse_json_entries(t) {
            Some(es) => match get_u64(&es, "count") {
                Some(n) => n as u32,
                None => 0,
            },
            None => 0,
        },
        None => 0,
    }
}

/// Whether the daemon starts in safe mode (tweaks disabled): after
/// `safe_mode_after_crashes` crashes in a row or more.
pub fn enters_safe_mode(crash_count: u32, safe_mode_after_crashes: u32) -> (r: bool)
    ensures
        r == (crash_count >= safe_mode_after_crashes),
{
    crash_count >= safe_mode_after_crashes
}

} // verus!
