use vstd::prelude::*;

use crate::decode::SourceDecodeError;
use crate::model::{RawRecord, RawRecordModel};

verus! {

/// Declares serde_json::Value so parsed page values can flow through the
/// signatures here; every contract speaks of such a value only through the
/// two names below.
#[verifier::external_type_specification]
#[verifier::external_body]
pub struct ExValue(serde_json::Value);

/// What one JSON record value holds of the four fields the run reads: each
/// the field's string (`name`, `visibility`, and `login` under `owner`) or
/// boolean (`fork`), `None` where the value lacks the field or carries it
/// with another type. A function of the value alone; the field wrappers
/// below read it out piece by piece.
pub uninterp spec fn record_fields(v: serde_json::Value) -> RawRecordModel;

/// What one page body parses to: `None` when the body is not valid JSON or
/// not a JSON array, otherwise the `record_fields` of the array's elements,
/// in order. A function of the body text alone.
pub uninterp spec fn json_page_of(body: Seq<char>) -> Option<Seq<RawRecordModel>>;

/// Relies on serde_json::from_str and serde_json::Value's Array variant:
/// `Some` exactly when `body` is valid JSON and a JSON array, with the
/// array's elements in order.
#[verifier::external_body]
fn parse_array(body: &str) -> (r: Option<Vec<serde_json::Value>>)
    ensures
        r matches Some(a) ==> Some(a@.map_values(|e: serde_json::Value| record_fields(e)))
            == json_page_of(body@),
        r is None <==> json_page_of(body@) is None,
{
    match serde_json::from_str::<serde_json::Value>(body) {
        Ok(serde_json::Value::Array(elements)) => Some(elements),
        _ => None,
    }
}

/// Relies on serde_json::Value::get and Value::as_str: the record's `name`
/// field, when it is a string.
#[verifier::external_body]
fn record_name(v: &serde_json::Value) -> (r: Option<String>)
    ensures
        r matches Some(s) ==> record_fields(*v).name == Some(s@),
        r is None ==> record_fields(*v).name is None,
{
    match v.get("name") {
        Some(f) => f.as_str().map(str::to_string),
        None => None,
    }
}

/// Relies on serde_json::Value::get (twice) and Value::as_str: the `login`
/// field of the record's `owner` object, when it is a string.
#[verifier::external_body]
fn record_owner_login(v: &serde_json::Value) -> (r: Option<String>)
    ensures
        r matches Some(s) ==> record_fields(*v).owner_login == Some(s@),
        r is None ==> record_fields(*v).owner_login is None,
{
    match v.get("owner").and_then(|owner| owner.get("login")) {
        Some(f) => f.as_str().map(str::to_string),
        None => None,
    }
}

/// Relies on serde_json::Value::get and Value::as_str: the record's
/// `visibility` field, when it is a string.
#[verifier::external_body]
fn record_visibility(v: &serde_json::Value) -> (r: Option<String>)
    ensures
        r matches Some(s) ==> record_fields(*v).visibility == Some(s@),
        r is None ==> record_fields(*v).visibility is None,
{
    match v.get("visibility") {
        Some(f) => f.as_str().map(str::to_string),
        None => None,
    }
}

/// Relies on serde_json::Value::get and Value::as_bool: the record's `fork`
/// field, when it is a boolean.
#[verifier::external_body]
fn record_fork(v: &serde_json::Value) -> (r: Option<bool>)
    ensures
        r == record_fields(*v).fork,
{
    v.get("fork").and_then(serde_json::Value::as_bool)
}

/// Reads the four fields the run decides on out of one record of a page.
/// Whether an absent field fails the record is decided by the decode step,
/// not here.
pub fn record_from_value(v: &serde_json::Value) -> (r: RawRecord)
    ensures
        r@ == record_fields(*v),
{
    RawRecord {
        name: record_name(v),
        owner_login: record_owner_login(v),
        visibility: record_visibility(v),
        fork: record_fork(v),
    }
}

/// Turns one page body into raw records: `Err` exactly when the body is not
/// valid JSON or not a JSON array, otherwise one record per array element,
/// in the order the page gave them.
pub fn page_from_body(body: &str) -> (r: Result<Vec<RawRecord>, SourceDecodeError>)
    ensures
        r is Ok <==> json_page_of(body@) is Some,
        r matches Ok(v) ==> Some(v@.map_values(|x: RawRecord| x@)) == json_page_of(body@),
        r matches Err(e) ==> e == SourceDecodeError::MalformedPage,
{
    let elements = match parse_array(body) {
        Some(a) => a,
        None => {
            return Err(SourceDecodeError::MalformedPage);
        },
    };
    let ghost wanted = elements@.map_values(|e: serde_json::Value| record_fields(e));
    let mut records: Vec<RawRecord> = Vec::new();
    let mut i: usize = 0;
    while i < elements.len()
        invariant
            i <= elements@.len(),
            wanted == elements@.map_values(|e: serde_json::Value| record_fields(e)),
            wanted.len() == elements@.len(),
            records@.map_values(|x: RawRecord| x@) =~= wanted.take(i as int),
        decreases elements@.len() - i,
    {
        let record = record_from_value(&elements[i]);
        proof {
            assert(record@ == wanted[i as int]);
            assert(wanted.take(i + 1) =~= wanted.take(i as int).push(wanted[i as int]));
        }
        records.push(record);
        i += 1;
    }
    proof {
        assert(wanted.take(elements@.len() as int) =~= wanted);
    }
    Ok(records)
}

} // verus!
