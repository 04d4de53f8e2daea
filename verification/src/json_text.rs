//! JSON values as ffprobe and mediainfo print them, and how the reports render
//! them as one line of text.
use vstd::prelude::*;

use crate::media_report::MediaKeyValue;
use crate::tags::{first_where, lemma_first_where};
use crate::text::{join, join_strings};

verus! {

/// A JSON value. A number keeps the text that the JSON parser renders it as;
/// an object keeps its members in the parser's order.
#[derive(Debug)]
pub enum JsonValue {
    Null,
    Bool(bool),
    Number(String),
    Text(String),
    Array(Vec<JsonValue>),
    Object(Vec<JsonEntry>),
}

/// One member of a JSON object.
#[derive(Debug)]
pub struct JsonEntry {
    pub key: String,
    pub value: JsonValue,
}

/// A value as one line of text: `null` is empty, a boolean or a number as
/// written, a string as is, an array's items and an object's `key=value`
/// members joined by `", "`.
pub open spec fn json_text(v: JsonValue) -> Seq<char>
    decreases v,
{
    match v {
        JsonValue::Null => Seq::empty(),
        JsonValue::Bool(b) => if b { "true"@ } else { "false"@ },
        JsonValue::Number(n) => n@,
        JsonValue::Text(t) => t@,
        JsonValue::Array(items) => join(item_texts(items@), ", "@),
        JsonValue::Object(entries) => join(entry_texts(entries@), ", "@),
    }
}

/// The texts of the items of an array, in order.
pub open spec fn item_texts(s: Seq<JsonValue>) -> Seq<Seq<char>>
    decreases s,
{
    if s.len() == 0 {
        Seq::empty()
    } else {
        item_texts(s.drop_last()).push(json_text(s.last()))
    }
}

/// The `key=value` texts of the members of an object, in order.
pub open spec fn entry_texts(s: Seq<JsonEntry>) -> Seq<Seq<char>>
    decreases s,
{
    if s.len() == 0 {
        Seq::empty()
    } else {
        entry_texts(s.drop_last()).push(s.last().key@ + "="@ + json_text(s.last().value))
    }
}

/// The members of an object as key and text; any other value has none.
pub open spec fn object_pairs(v: JsonValue) -> Seq<(Seq<char>, Seq<char>)> {
    match v {
        JsonValue::Object(entries) => entry_pairs(entries@),
        _ => Seq::empty(),
    }
}

/// The members as key and text, in order.
pub open spec fn entry_pairs(s: Seq<JsonEntry>) -> Seq<(Seq<char>, Seq<char>)> {
    s.map_values(|e: JsonEntry| (e.key@, json_text(e.value)))
}

/// Pairs taken by their texts.
pub open spec fn pair_views(s: Seq<MediaKeyValue>) -> Seq<(Seq<char>, Seq<char>)> {
    s.map_values(|kv: MediaKeyValue| (kv.key@, kv.value@))
}

/// The pairs of an optional object; none when absent.
pub open spec fn optional_pairs(v: Option<JsonValue>) -> Seq<(Seq<char>, Seq<char>)> {
    match v {
        Some(value) => object_pairs(value),
        None => Seq::empty(),
    }
}

/// The text of an optional value; empty when absent.
pub open spec fn optional_text(v: Option<JsonValue>) -> Seq<char> {
    match v {
        Some(value) => json_text(value),
        None => Seq::empty(),
    }
}

proof fn lemma_item_texts_len(s: Seq<JsonValue>)
    ensures
        item_texts(s).len() == s.len(),
    decreases s.len(),
{
    if s.len() > 0 {
        lemma_item_texts_len(s.drop_last());
    }
}

proof fn lemma_entry_texts_len(s: Seq<JsonEntry>)
    ensures
        entry_texts(s).len() == s.len(),
    decreases s.len(),
{
    if s.len() > 0 {
        lemma_entry_texts_len(s.drop_last());
    }
}

/// Renders a JSON value as one line of text.
pub fn json_value_to_string(v: &JsonValue) -> (r: String)
    ensures
        r@ == json_text(*v),
    decreases v,
{
    match v {
        JsonValue::Null => String::new(),
        JsonValue::Bool(b) => {
            let mut r = String::new();
            if *b {
                r.append("true");
            } else {
                r.append("false");
            }
            r
        },
        JsonValue::Number(n) => n.clone(),
        JsonValue::Text(t) => t.clone(),
        JsonValue::Array(items) => {
            let mut parts: Vec<String> = Vec::new();
            let mut i: usize = 0;
            while i < items.len()
                invariant
                    i <= items@.len(),
                    *v == JsonValue::Array(*items),
                    parts@.map_values(|x: String| x@) == item_texts(items@.take(i as int)),
                decreases items@.len() - i,
            {
                proof {
                    assert(decreases_to!(*v => v->Array_0));
                    assert(decreases_to!(*items => items@));
                    assert(decreases_to!(items@ => items@[i as int]));
                    assert(decreases_to!(*v => items@[i as int]));
                }
                let t = json_value_to_string(&items[i]);
                proof {
                    let s = items@.take(i + 1);
                    assert(s.drop_last() =~= items@.take(i as int));
                }
                parts.push(t);
                i = i + 1;
                proof {
                    assert(parts@.map_values(|x: String| x@) =~= item_texts(
                        items@.take(i as int),
                    ));
                }
            }
            assert(items@.take(items@.len() as int) =~= items@);
            join_strings(&parts, ", ")
        },
        JsonValue::Object(entries) => {
            let mut parts: Vec<String> = Vec::new();
            let mut i: usize = 0;
            while i < entries.len()
                invariant
                    i <= entries@.len(),
                    *v == JsonValue::Object(*entries),
                    parts@.map_values(|x: String| x@) == entry_texts(entries@.take(i as int)),
                decreases entries@.len() - i,
            {
                proof {
                    assert(decreases_to!(*v => v->Object_0));
                    assert(decreases_to!(*entries => entries@));
                    assert(decreases_to!(entries@ => entries@[i as int]));
                    assert(decreases_to!(entries@[i as int] => entries@[i as int].value));
                    assert(decreases_to!(*v => entries@[i as int].value));
                }
                let t = json_value_to_string(&entries[i].value);
                let mut member = entries[i].key.clone();
                member.append("=");
                member.append(t.as_str());
                proof {
                    let s = entries@.take(i + 1);
                    assert(s.drop_last() =~= entries@.take(i as int));
                }
                parts.push(member);
                i = i + 1;
                proof {
                    assert(parts@.map_values(|x: String| x@) =~= entry_texts(
                        entries@.take(i as int),
                    ));
                }
            }
            assert(entries@.take(entries@.len() as int) =~= entries@);
            join_strings(&parts, ", ")
        },
    }
}

/// The members of an object as key/value pairs of text (`flatten_object_pairs`);
/// any other value gives none.
pub fn flatten_object_pairs(v: &JsonValue) -> (r: Vec<MediaKeyValue>)
    ensures
        pair_views(r@) == object_pairs(*v),
{
    match v {
        JsonValue::Object(entries) => {
            let mut out: Vec<MediaKeyValue> = Vec::new();
            let mut i: usize = 0;
            while i < entries.len()
                invariant
                    i <= entries@.len(),
                    pair_views(out@) == entry_pairs(entries@.take(i as int)),
                decreases entries@.len() - i,
            {
                let value = json_value_to_string(&entries[i].value);
                let key = entries[i].key.clone();
                let ghost before = out@;
                out.push(MediaKeyValue { key, value });
                proof {
                    let e = entries@[i as int];
                    assert(out@ =~= before.push(MediaKeyValue { key, value }));
                    assert(entries@.take(i + 1) =~= entries@.take(i as int).push(e));
                    assert(pair_views(out@) =~= pair_views(before).push((e.key@, json_text(e.value))));
                    assert(entry_pairs(entries@.take(i + 1)) =~= entry_pairs(entries@.take(i as int)).push((e.key@, json_text(e.value))));
                }
                i = i + 1;
            }
            assert(entries@.take(entries@.len() as int) =~= entries@);
            out
        },
        _ => Vec::new(),
    }
}

/// The members of an optional object; none when absent.
pub fn flatten_tags(v: &Option<JsonValue>) -> (r: Vec<MediaKeyValue>)
    ensures
        pair_views(r@) == optional_pairs(*v),
{
    match v {
        Some(value) => flatten_object_pairs(value),
        None => {
            let r: Vec<MediaKeyValue> = Vec::new();
            assert(pair_views(r@) =~= Seq::empty());
            r
        },
    }
}

/// `json_string_or_default`: the text of an optional value; empty when absent.
pub fn json_string_or_default(v: &Option<JsonValue>) -> (r: String)
    ensures
        r@ == optional_text(*v),
{
    match v {
        Some(value) => json_value_to_string(value),
        None => String::new(),
    }
}

/// The value of the first member named `key` of an object (`Value::get`);
/// any other value has none.
pub open spec fn member(v: JsonValue, key: Seq<char>) -> Option<JsonValue> {
    match v {
        JsonValue::Object(entries) => {
            let k = first_where(entries@, |e: JsonEntry| e.key@ == key);
            if k < entries@.len() {
                Some(entries@[k].value)
            } else {
                None
            }
        },
        _ => None,
    }
}

/// The text of a string value (`Value::as_str`).
pub open spec fn string_of(v: Option<JsonValue>) -> Option<Seq<char>> {
    match v {
        Some(JsonValue::Text(t)) => Some(t@),
        _ => None,
    }
}

/// `Value::get`: the value of the first member named `key`, if `v` is an
/// object that has one.
pub fn json_get<'a>(v: &'a JsonValue, key: &str) -> (r: Option<&'a JsonValue>)
    ensures
        r.is_some() == member(*v, key@).is_some(),
        r matches Some(x) ==> member(*v, key@) == Some(*x),
{
    match v {
        JsonValue::Object(entries) => {
            let ghost p = |e: JsonEntry| e.key@ == key@;
            let mut i: usize = 0;
            while i < entries.len()
                invariant
                    p == (|e: JsonEntry| e.key@ == key@),
                    *v == JsonValue::Object(*entries),
                    i <= entries@.len(),
                    forall|j: int| 0 <= j < i ==> !p(#[trigger] entries@[j]),
                decreases entries@.len() - i,
            {
                if crate::text::str_eq(entries[i].key.as_str(), key) {
                    proof {
                        lemma_first_where(entries@, p, i as int);
                    }
                    return Some(&entries[i].value);
                }
                i = i + 1;
            }
            proof {
                lemma_first_where(entries@, p, i as int);
            }
            None
        },
        _ => None,
    }
}

/// `Value::as_str`, as an owned text.
pub fn json_as_string(v: Option<&JsonValue>) -> (r: Option<String>)
    ensures
        r.is_some() == string_of(match v {
            Some(x) => Some(*x),
            None => None,
        }).is_some(),
        r matches Some(t) ==> string_of(match v {
            Some(x) => Some(*x),
            None => None,
        }) == Some(t@),
{
    match v {
        Some(JsonValue::Text(t)) => Some(t.clone()),
        _ => None,
    }
}

// ── Reading JSON text ────────────────────────────────────────────────────────

#[verifier::external_type_specification]
#[verifier::external_body]
pub struct ExSerdeJsonValue(serde_json::Value);

/// The syntax error that `serde_json::from_str` into a `serde_json::Value`
/// reports for `text`, as its `Display` shows it; none when `text` is JSON.
pub uninterp spec fn json_error_of(text: Seq<char>) -> Option<Seq<char>>;

/// The value that `serde_json::from_str` into a `serde_json::Value` reads
/// from `text`, in the library's form; none when `text` is not JSON.
pub uninterp spec fn json_tree_of(text: Seq<char>) -> Option<JsonValue>;

/// A `serde_json::Value` in the library's form, variant for variant: a
/// number as serde_json's text for it, an object's members in serde_json's
/// order. It only converts; `parse_json_text` is its one caller.
#[verifier::external_body]
fn library_json(value: &serde_json::Value) -> JsonValue {
    match value {
        serde_json::Value::Null => JsonValue::Null,
        serde_json::Value::Bool(b) => JsonValue::Bool(*b),
        serde_json::Value::Number(n) => JsonValue::Number(n.to_string()),
        serde_json::Value::String(s) => JsonValue::Text(s.clone()),
        serde_json::Value::Array(items) => JsonValue::Array(items.iter().map(library_json).collect()),
        serde_json::Value::Object(map) => JsonValue::Object(
            map.iter().map(|(k, v)| JsonEntry { key: k.clone(), value: library_json(v) }).collect(),
        ),
    }
}

/// `serde_json::from_str::<serde_json::Value>` on `text`: the value in the
/// library's form, or the error shown as text. The contract claims that the
/// result depends on the text alone and names it; which texts are JSON, the
/// value read and the wording of the error are left unsaid.
#[verifier::external_body]
pub(crate) fn parse_json_text(text: &str) -> (r: Result<JsonValue, String>)
    ensures
        match r {
            Ok(v) => json_tree_of(text@) == Some(v) && json_error_of(text@) is None,
            Err(e) => json_tree_of(text@) is None && json_error_of(text@) == Some(e@),
        },
{
    match serde_json::from_str::<serde_json::Value>(text) {
        Ok(value) => Ok(library_json(&value)),
        Err(e) => Err(e.to_string()),
    }
}

} // verus!
