use vstd::prelude::*;
use crate::checkpoint::{
    checkpoint_doc_matches,
    checkpoint_wf,
    construct_checkpoint,
    cp_dex_records,
    cp_pool_records,
    deconstruct_checkpoint,
    dex_decoded_matches,
    pool_decoded_matches,
};
use crate::dex::Dex;
use crate::error::{CFMMError, CodecFault};
use crate::json::{dup_bytes, JsonValue};
use crate::pool::Pool;

verus! {

broadcast use vstd::std_specs::vec::group_vec_axioms;

#[verifier::external_type_specification]
#[verifier::external_body]
pub struct ExValue(serde_json::Value);

#[verifier::external_type_specification]
#[verifier::external_body]
pub struct ExJsonError(serde_json::Error);

/// How deep a JSON text may nest before the reader gives up; matches the
/// recursion limit of the text parser relied on below, so nothing the parser
/// accepts is lost.
pub const MAX_JSON_DEPTH: u32 = 128;

/// The document a JSON text denotes in the library's model, or `None` when
/// the text is not JSON the checkpoint format can hold (not JSON at all,
/// nested beyond `MAX_JSON_DEPTH`, or holding a number that is not an
/// unsigned integer). Named rather than written out: the result is a pure
/// function of the text alone.
pub uninterp spec fn json_model_of(text: Seq<char>) -> Option<JsonValue>;

/// The pretty-printed JSON text of a document. Named rather than written
/// out: the result is a pure function of the document alone.
pub uninterp spec fn render_of(doc: JsonValue) -> Seq<char>;

/// Relies on serde_json::from_str, which parses as a function of the text
/// alone, and on serde_json::Map's sorted iteration, which makes the
/// modeling pass below (`value_to_json`, verified) deterministic too: the
/// composition is `json_model_of`.
#[verifier::external_body]
fn parse_to_model(s: &str) -> (r: Option<JsonValue>)
    ensures
        r == json_model_of(s@),
{
    match serde_json::from_str::<serde_json::Value>(s) {
        Ok(v) => value_to_json(&v, MAX_JSON_DEPTH),
        Err(_) => None,
    }
}

/// Relies on serde_json::to_string_pretty, which renders as a function of
/// the value alone and cannot fail on a `Value` (only non-string map keys
/// fail serialization, and a `Value`'s keys are strings); the writing pass
/// (`json_to_value`, verified) is deterministic, so the composition is
/// `render_of`.
#[verifier::external_body]
fn render_model(doc: &JsonValue) -> (r: String)
    ensures
        r@ == render_of(*doc),
{
    serde_json::to_string_pretty(&json_to_value(doc)).unwrap_or_default()
}

/// Relies on serde_json::Value::is_null.
#[verifier::external_body]
fn value_is_null(v: &serde_json::Value) -> bool {
    v.is_null()
}

/// Relies on serde_json::Value::as_bool: `Some` exactly on a JSON boolean.
#[verifier::external_body]
fn value_as_bool(v: &serde_json::Value) -> Option<bool> {
    v.as_bool()
}

/// Relies on serde_json::Value::as_u64: `Some` exactly on a JSON number that
/// is an unsigned integer.
#[verifier::external_body]
fn value_as_u64(v: &serde_json::Value) -> Option<u64> {
    v.as_u64()
}

/// Relies on serde_json::Value::as_str: `Some` exactly on a JSON string,
/// handed out as its UTF-8 bytes.
#[verifier::external_body]
fn value_as_str_bytes(v: &serde_json::Value) -> Option<Vec<u8>> {
    v.as_str().map(|s| s.as_bytes().to_vec())
}

/// Relies on serde_json::Value::as_array: `Some` exactly on a JSON array.
#[verifier::external_body]
fn value_as_array(v: &serde_json::Value) -> Option<Vec<serde_json::Value>> {
    v.as_array().cloned()
}

/// Relies on serde_json::Value::as_object and serde_json::Map::iter: `Some`
/// exactly on a JSON object, handed out as key/value pairs.
#[verifier::external_body]
fn value_object_entries(v: &serde_json::Value) -> Option<Vec<(Vec<u8>, serde_json::Value)>> {
    v.as_object().map(|m| m.iter().map(|(k, val)| (k.clone().into_bytes(), val.clone())).collect())
}

/// Relies on serde_json::Value::Null.
#[verifier::external_body]
fn value_null() -> serde_json::Value {
    serde_json::Value::Null
}

/// Relies on serde_json::Value::Bool.
#[verifier::external_body]
fn value_from_bool(b: bool) -> serde_json::Value {
    serde_json::Value::Bool(b)
}

/// Relies on serde_json::Value::from for u64: a JSON number.
#[verifier::external_body]
fn value_from_u64(n: u64) -> serde_json::Value {
    serde_json::Value::from(n)
}

/// Relies on serde_json::Value::String; the bytes are UTF-8 wherever this
/// library produced them (ASCII addresses, tags and field names).
#[verifier::external_body]
fn value_from_text(t: &Vec<u8>) -> serde_json::Value {
    serde_json::Value::String(String::from_utf8_lossy(t).into_owned())
}

/// Relies on serde_json::Value::Array.
#[verifier::external_body]
fn value_from_array(items: Vec<serde_json::Value>) -> serde_json::Value {
    serde_json::Value::Array(items)
}

/// Relies on serde_json::Value::Object and serde_json::Map::from_iter.
#[verifier::external_body]
fn value_from_object(entries: Vec<(Vec<u8>, serde_json::Value)>) -> serde_json::Value {
    serde_json::Value::Object(
        entries.into_iter().map(
            |(k, v): (Vec<u8>, serde_json::Value)|
                (String::from_utf8_lossy(&k).into_owned(), v),
        ).collect(),
    )
}

/// Reads an outside document value into the library's own model, refusing
/// anything nested deeper than `depth` and any number that is not an
/// unsigned integer (the checkpoint format holds no other numbers). Called
/// only from `parse_to_model`, whose named result covers the composition;
/// verified here for panic-freedom and termination.
fn value_to_json(v: &serde_json::Value, depth: u32) -> (r: Option<JsonValue>)
    decreases depth,
{
    if depth == 0 {
        return None;
    }
    if value_is_null(v) {
        return Some(JsonValue::Null);
    }
    if let Some(b) = value_as_bool(v) {
        return Some(JsonValue::Bool(b));
    }
    if let Some(n) = value_as_u64(v) {
        return Some(JsonValue::UInt(n));
    }
    if let Some(t) = value_as_str_bytes(v) {
        return Some(JsonValue::Text(t));
    }
    if let Some(items) = value_as_array(v) {
        let mut out: Vec<JsonValue> = Vec::new();
        let mut i: usize = 0;
        while i < items.len()
            invariant
                depth >= 1,
            decreases items.len() - i,
        {
            match value_to_json(&items[i], depth - 1) {
                Some(j) => out.push(j),
                None => {
                    return None;
                },
            }
            i = i + 1;
        }
        return Some(JsonValue::Array(out));
    }
    if let Some(entries) = value_object_entries(v) {
        let mut out: Vec<(Vec<u8>, JsonValue)> = Vec::new();
        let mut i: usize = 0;
        while i < entries.len()
            invariant
                depth >= 1,
            decreases entries.len() - i,
        {
            match value_to_json(&entries[i].1, depth - 1) {
                Some(j) => {
                    let key = dup_bytes(&entries[i].0);
                    out.push((key, j));
                },
                None => {
                    return None;
                },
            }
            i = i + 1;
        }
        return Some(JsonValue::Object(out));
    }
    None
}

/// Writes one of the library's document values out as an outside document
/// value, for rendering. Called only from `render_model`, whose named result
/// covers the composition; verified here for panic-freedom and termination.
fn json_to_value(j: &JsonValue) -> serde_json::Value
    decreases *j,
{
    match j {
        JsonValue::Null => value_null(),
        JsonValue::Bool(b) => value_from_bool(*b),
        JsonValue::UInt(n) => value_from_u64(*n),
        JsonValue::Text(t) => value_from_text(t),
        JsonValue::Array(items) => {
            let mut vals: Vec<serde_json::Value> = Vec::new();
            let mut i: usize = 0;
            while i < items.len()
                invariant
                    *j == JsonValue::Array(*items),
                decreases items.len() - i,
            {
                proof {
                    assert(decreases_to!(*j => (*j)->Array_0));
                    assert((*j)->Array_0 == *items);
                    assert(decreases_to!(*items => items@));
                    assert(decreases_to!(items@ => items@[i as int]));
                }
                vals.push(json_to_value(&items[i]));
                i = i + 1;
            }
            value_from_array(vals)
        },
        JsonValue::Object(entries) => {
            let mut pairs: Vec<(Vec<u8>, serde_json::Value)> = Vec::new();
            let mut i: usize = 0;
            while i < entries.len()
                invariant
                    *j == JsonValue::Object(*entries),
                decreases entries.len() - i,
            {
                proof {
                    assert(decreases_to!(*j => (*j)->Object_0));
                    assert((*j)->Object_0 == *entries);
                    assert(decreases_to!(*entries => entries@));
                    assert(decreases_to!(entries@ => entries@[i as int]));
                    assert(decreases_to!(entries@[i as int] => entries@[i as int].1));
                }
                let key = dup_bytes(&entries[i].0);
                pairs.push((key, json_to_value(&entries[i].1)));
                i = i + 1;
            }
            value_from_object(pairs)
        },
    }
}

/// Reads a whole checkpoint from JSON text: parse, model, decode. Succeeds
/// exactly when the text denotes a well-formed checkpoint document, and then
/// returns the state that document denotes — identity fields decoded, every
/// pool's dynamic fields at their defaults pending a refresh. On any fault a
/// `CodecFailure` and nothing else: no partial state.
pub fn checkpoint_from_str(text: &str) -> (r: Result<(Vec<Dex>, Vec<Pool>), CFMMError>)
    ensures
        r is Ok <==> (json_model_of(text@) is Some && checkpoint_wf(json_model_of(text@)->0)),
        r is Ok ==> {
            let doc = json_model_of(text@)->0;
            let (dexes, pools) = r->Ok_0;
            &&& dexes@.len() == cp_dex_records(doc).len()
            &&& forall|i: int| 0 <= i < dexes@.len() ==> dex_decoded_matches(
                #[trigger] cp_dex_records(doc)[i],
                dexes@[i],
            )
            &&& pools@.len() == cp_pool_records(doc).len()
            &&& forall|i: int| 0 <= i < pools@.len() ==> pool_decoded_matches(
                #[trigger] cp_pool_records(doc)[i],
                pools@[i],
            )
        },
        r is Err ==> r->Err_0 matches CFMMError::CodecFailure(_),
{
    let doc = match parse_to_model(text) {
        Some(d) => d,
        None => {
            return Err(CFMMError::CodecFailure(CodecFault::Malformed));
        },
    };
    deconstruct_checkpoint(&doc)
}

/// Renders a finished run as checkpoint JSON text: the text of a document
/// that holds the given timestamp, every dex stamped with the single
/// supplied head block, and every pool's identity fields, in the order
/// supplied. The file write is the caller's business.
pub fn checkpoint_to_string(
    dexes: &Vec<Dex>,
    pools: &Vec<Pool>,
    latest_block: u64,
    checkpoint_timestamp: u32,
) -> (r: String)
    requires
        forall|i: int| 0 <= i < dexes@.len() ==> (#[trigger] dexes@[i]).wf(),
        forall|i: int| 0 <= i < pools@.len() ==> (#[trigger] pools@[i]).wf(),
    ensures
        exists|doc: JsonValue|
            #[trigger] checkpoint_doc_matches(
                doc,
                dexes@,
                pools@,
                latest_block,
                checkpoint_timestamp,
            ) && r@ == render_of(doc),
{
    let doc = construct_checkpoint(dexes, pools, latest_block, checkpoint_timestamp);
    let text = render_model(&doc);
    proof {
        assert(checkpoint_doc_matches(doc, dexes@, pools@, latest_block, checkpoint_timestamp)
            && text@ == render_of(doc));
    }
    text
}

} // verus!
