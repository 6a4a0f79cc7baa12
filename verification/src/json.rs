//! The JSON document model and the trusted boundary to serde_json.
//!
//! The probe's output is a JSON document. serde_json parses it; the result
//! is handed to the crate as a `JsonDoc`, a tree of plain values the
//! verifier can reason about. What document a given text denotes is a
//! function of the text alone, so it carries the name `json_doc_of`; the
//! verified decoder in `speedtest` is then an exact function of that name.

use vstd::prelude::*;

verus! {

/// A JSON document as plain values. Numbers are carried as the decimal text
/// serde_json prints for them, so the crate's own verified digit parsers
/// give them meaning; object members keep the (deterministic, key-sorted)
/// order in which serde_json's map iterates them.
pub enum JsonDoc {
    Null,
    Bool(bool),
    /// The number's shortest decimal text, as bytes.
    Number(Vec<u8>),
    Str(String),
    Array(Vec<JsonDoc>),
    Object(Vec<(String, JsonDoc)>),
}

/// The member of an object field list under `key`: the first binding wins.
/// serde_json's map holds each key once, so the convention never matters
/// for documents that came through `parse_json_text`.
pub open spec fn member_of(fields: Seq<(String, JsonDoc)>, key: Seq<char>) -> Option<JsonDoc>
    decreases fields.len(),
{
    if fields.len() == 0 {
        None
    } else if fields[0].0@ == key {
        Some(fields[0].1)
    } else {
        member_of(fields.drop_first(), key)
    }
}

/// The member of a document under `key`, or `None` where the document is no
/// object or has no such member.
pub open spec fn doc_member(d: JsonDoc, key: Seq<char>) -> Option<JsonDoc> {
    match d {
        JsonDoc::Object(fields) => member_of(fields@, key),
        _ => None,
    }
}

/// Looks a member up, exactly as `doc_member` says.
pub fn member<'a>(d: &'a JsonDoc, key: &str) -> (r: Option<&'a JsonDoc>)
    ensures
        match r {
            Some(f) => doc_member(*d, key@) == Some(*f),
            None => doc_member(*d, key@) is None,
        },
{
    let k = key.to_owned();
    match d {
        JsonDoc::Object(fields) => {
            let n = fields.len();
            proof {
                assert(fields@.skip(0) =~= fields@);
            }
            let mut i: usize = 0;
            while i < n
                invariant
                    0 <= i <= n,
                    n == fields@.len(),
                    k@ == key@,
                    *d == JsonDoc::Object(*fields),
                    member_of(fields@, key@) == member_of(fields@.skip(i as int), key@),
                decreases n - i,
            {
                proof {
                    assert(fields@.skip(i as int)[0] == fields@[i as int]);
                    assert(fields@.skip(i as int).drop_first() =~= fields@.skip(i + 1));
                }
                if fields[i].0 == k {
                    proof {
                        assert(member_of(fields@.skip(i as int), key@) == Some(
                            fields@[i as int].1,
                        ));
                    }
                    return Some(&fields[i].1);
                }
                i = i + 1;
            }
            proof {
                assert(fields@.skip(n as int) =~= Seq::<(String, JsonDoc)>::empty());
            }
            None
        },
        _ => None,
    }
}

/// The document a JSON text denotes, if it is one: what serde_json's parser
/// and number printing make of the text. A function of the text alone — the
/// same text gives the same document in every process.
pub uninterp spec fn json_doc_of(text: Seq<char>) -> Option<JsonDoc>;

#[verifier::external_type_specification]
#[verifier::external_body]
pub struct ExValue(serde_json::Value);

/// Relies on serde_json: `from_str::<Value>` parses a complete JSON
/// document or errors (mapped to `None` here) on any syntax fault or
/// trailing garbage, and depends on nothing but the text; `doc_of_value`
/// below turns the tree into the crate's model. Together they compute
/// `json_doc_of`.
#[verifier::external_body]
pub(crate) fn parse_json_text(s: &str) -> (r: Option<JsonDoc>)
    ensures
        r == json_doc_of(s@),
{
    match serde_json::from_str::<serde_json::Value>(s) {
        Ok(v) => Some(doc_of_value(&v)),
        Err(_) => None,
    }
}

/// Relies on serde_json::Number's Display (a finite number prints as its
/// shortest decimal) and serde_json::Map's iteration (key-sorted, every key
/// once): moves each `serde_json::Value` variant into the matching
/// `JsonDoc` variant, nothing else. Exists only for `parse_json_text`.
#[verifier::external_body]
fn doc_of_value(v: &serde_json::Value) -> JsonDoc {
    match v {
        serde_json::Value::Null => JsonDoc::Null,
        serde_json::Value::Bool(b) => JsonDoc::Bool(*b),
        serde_json::Value::Number(n) => JsonDoc::Number(format!("{}", n).into_bytes()),
        serde_json::Value::String(s) => JsonDoc::Str(s.clone()),
        serde_json::Value::Array(a) => JsonDoc::Array(a.iter().map(doc_of_value).collect()),
        serde_json::Value::Object(o) => JsonDoc::Object(
            o.iter().map(|(k, w)| (k.clone(), doc_of_value(w))).collect(),
        ),
    }
}

} // verus!
