//! The saving side of the journal: the JSON document written for an
//! entry when the configured format asks for JSON. The collaborator
//! that writes files — and the external tool that reformats Markdown
//! entries — stay outside; this module fixes what text they are given.

use vstd::prelude::*;

verus! {

/// What serde_json's pretty printer produces for an object of three
/// string fields with these keys and values.
pub uninterp spec fn json_object3_of(
    k1: Seq<char>,
    v1: Seq<char>,
    k2: Seq<char>,
    v2: Seq<char>,
    k3: Seq<char>,
    v3: Seq<char>,
) -> Seq<char>;

/// Relies on serde_json::to_string_pretty over serde_json::Map and
/// Value::String: renders an object of three string fields; the text
/// depends on the keys and values alone.
#[verifier::external_body]
fn json_object3_text(k1: &str, v1: &str, k2: &str, v2: &str, k3: &str, v3: &str) -> (r: Result<
    String,
    String,
>)
    ensures
        r matches Ok(s) ==> s@ == json_object3_of(k1@, v1@, k2@, v2@, k3@, v3@),
{
    let mut map = serde_json::Map::new();
    map.insert(k1.to_string(), serde_json::Value::String(v1.to_string()));
    map.insert(k2.to_string(), serde_json::Value::String(v2.to_string()));
    map.insert(k3.to_string(), serde_json::Value::String(v3.to_string()));
    match serde_json::to_string_pretty(&serde_json::Value::Object(map)) {
        Ok(s) => Ok(s),
        Err(e) => Err(e.to_string()),
    }
}

/// Relies on time::UtcDateTime::now and its Display rendering: the
/// current moment as text. Nothing is promised of it — it changes from
/// call to call.
#[verifier::external_body]
fn utc_now_string() -> String {
    time::UtcDateTime::now().to_string()
}

/// The JSON document saved for one entry: an object holding the date
/// stamp under "date", the entry text under "content", and the moment
/// of processing under "processed_at".
pub fn json_entry_document(date: &str, content: &str) -> (r: Result<String, String>)
    ensures
        r matches Ok(s) ==> exists|ts: Seq<char>|
            s@ == json_object3_of("date"@, date@, "content"@, content@, "processed_at"@, ts),
{
    let ts = utc_now_string();
    let r = json_object3_text("date", date, "content", content, "processed_at", ts.as_str());
    proof {
        if r is Ok {
            assert(r->Ok_0@ == json_object3_of(
                "date"@,
                date@,
                "content"@,
                content@,
                "processed_at"@,
                ts@,
            ));
        }
    }
    r
}

} // verus!
