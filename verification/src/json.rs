//! JSON documents read through `serde_json`, and the canonical (pretty,
//! key-sorted) rendering of JSON text.
use vstd::prelude::*;

verus! {

/// A JSON value as the library walks it. Numbers keep their text; an object
/// keeps its entries in the order `serde_json` gives them (sorted by key).
#[derive(Debug)]
pub enum JsonValue {
    Null,
    Bool(bool),
    Number(String),
    Text(String),
    Array(Vec<JsonValue>),
    Object(Vec<(String, JsonValue)>),
}

#[verifier::external_type_specification]
#[verifier::external_body]
pub struct ExJsonDocument(serde_json::Value);

/// What `serde_json::from_slice::<serde_json::Value>` makes of `bytes`, as a
/// [`JsonValue`]; `None` when the bytes are not a JSON document.
pub uninterp spec fn spec_parse_json(bytes: Seq<u8>) -> Option<JsonValue>;

/// `serde_json::Value` as a [`JsonValue`], variant by variant.
#[verifier::external_body]
fn from_serde(value: &serde_json::Value) -> JsonValue {
    match value {
        serde_json::Value::Null => JsonValue::Null,
        serde_json::Value::Bool(b) => JsonValue::Bool(*b),
        serde_json::Value::Number(n) => JsonValue::Number(n.to_string()),
        serde_json::Value::String(s) => JsonValue::Text(s.clone()),
        serde_json::Value::Array(a) => JsonValue::Array(a.iter().map(from_serde).collect()),
        serde_json::Value::Object(m) => JsonValue::Object(
            m.iter().map(|(k, v)| (k.clone(), from_serde(v))).collect(),
        ),
    }
}

/// Parse `bytes` with `serde_json::from_slice::<serde_json::Value>`. The
/// result depends on the bytes alone; which document each byte string is, is
/// what serde_json's parser decides, and is named here, not restated.
#[verifier::external_body]
pub fn parse_json(bytes: &[u8]) -> (r: Option<JsonValue>)
    ensures
        r == spec_parse_json(bytes@),
{
    match serde_json::from_slice::<serde_json::Value>(bytes) {
        Ok(value) => Some(from_serde(&value)),
        Err(_) => None,
    }
}

/// What `serde_json::to_string_pretty` renders for the document that
/// `serde_json::from_str::<serde_json::Value>` reads from `raw`; `None` when
/// `raw` is not a JSON document. Object keys come out sorted (serde_json's
/// default map is ordered by key), indented by two spaces.
pub uninterp spec fn spec_pretty_json(raw: Seq<char>) -> Option<Seq<char>>;

/// Read `raw` with `serde_json::from_str::<serde_json::Value>` and render it
/// with `serde_json::to_string_pretty`.
#[verifier::external_body]
pub fn pretty_json(raw: &str) -> (r: Option<String>)
    ensures
        match r {
            Some(s) => spec_pretty_json(raw@) == Some(s@),
            None => spec_pretty_json(raw@) is None,
        },
{
    match serde_json::from_str::<serde_json::Value>(raw) {
        Ok(value) => serde_json::to_string_pretty(&value).ok(),
        Err(_) => None,
    }
}

/// The canonical text of a JSON document: pretty-printed with sorted keys, and
/// a final newline.
pub open spec fn spec_canonical_json(raw: Seq<char>) -> Option<Seq<char>> {
    match spec_pretty_json(raw) {
        Some(p) => Some(p + seq!['\n']),
        None => None,
    }
}

/// Render JSON text with all object keys sorted, pretty-printed, with a final
/// newline; `None` when `raw` is not a JSON document.
pub fn render_lexicographic_json(raw: &str) -> (r: Option<String>)
    ensures
        match r {
            Some(s) => spec_canonical_json(raw@) == Some(s@),
            None => spec_canonical_json(raw@) is None,
        },
{
    match pretty_json(raw) {
        Some(mut p) => {
            crate::text::push_char(&mut p, '\n');
            Some(p)
        },
        None => None,
    }
}

/// The value of `key` in an object's entries: the first entry with that key.
pub open spec fn spec_entry(entries: Seq<(String, JsonValue)>, key: Seq<char>) -> Option<JsonValue>
    decreases entries.len(),
{
    if entries.len() == 0 {
        None
    } else if entries[0].0@ == key {
        Some(entries[0].1)
    } else {
        spec_entry(entries.drop_first(), key)
    }
}

/// The value of `key` when `value` is an object that has it.
pub open spec fn spec_get(value: JsonValue, key: Seq<char>) -> Option<JsonValue> {
    match value {
        JsonValue::Object(entries) => spec_entry(entries@, key),
        _ => None,
    }
}

/// The text of `key` when `value` is an object whose `key` holds a string.
pub open spec fn spec_get_text(value: JsonValue, key: Seq<char>) -> Option<Seq<char>> {
    match spec_get(value, key) {
        Some(JsonValue::Text(s)) => Some(s@),
        _ => None,
    }
}

/// The value of `key` in `value`, when `value` is an object that has it.
pub fn json_get<'a>(value: &'a JsonValue, key: &str) -> (r: Option<&'a JsonValue>)
    ensures
        match r {
            Some(v) => spec_get(*value, key@) == Some(*v),
            None => spec_get(*value, key@) is None,
        },
{
    match value {
        JsonValue::Object(entries) => {
            let mut i: usize = 0;
            assert(entries@.skip(0) =~= entries@);
            assert(spec_get(*value, key@) == spec_entry(entries@, key@));
            while i < entries.len()
                invariant
                    i <= entries@.len(),
                    spec_get(*value, key@) == spec_entry(entries@, key@),
                    spec_entry(entries@, key@) == spec_entry(entries@.skip(i as int), key@),
                decreases entries@.len() - i,
            {
                proof {
                    assert(entries@.skip(i as int).drop_first() =~= entries@.skip(i + 1));
                    assert(entries@.skip(i as int)[0] == entries@[i as int]);
                }
                if crate::text::str_eq(entries[i].0.as_str(), key) {
                    assert(spec_entry(entries@.skip(i as int), key@) == Some(entries@[i as int].1));
                    let found = &entries[i].1;
                    assert(*found == entries@[i as int].1);
                    return Some(found);
                }
                i = i + 1;
            }
            None
        },
        _ => None,
    }
}

/// The text of `key` in `value`, when it holds a string.
pub fn json_get_text(value: &JsonValue, key: &str) -> (r: Option<String>)
    ensures
        crate::output_device::opt_view(r) == spec_get_text(*value, key@),
{
    match json_get(value, key) {
        Some(JsonValue::Text(s)) => Some(s.clone()),
        _ => None,
    }
}

} // verus!
