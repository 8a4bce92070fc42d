use vstd::prelude::*;

verus! {

/// The kind of evidence a knowledge-graph endpoint produced for a query.
#[derive(Clone, Copy, Debug, PartialEq, Eq)]
pub enum EvidenceKind {
    NonEmptyBindings,
    EmptyBindings,
    BooleanTrue,
    BooleanFalse,
}

/// What one endpoint's response says about a query: a definitive yes, a
/// definitive no, or nothing usable (so the next endpoint must be consulted).
#[derive(Clone, Copy, Debug, PartialEq, Eq)]
pub enum Classification {
    Confirmed(EvidenceKind),
    Rejected(EvidenceKind),
    Inconclusive,
}

/// The number of rows in a response body read as a SELECT-style result (a
/// JSON object holding an array under `results.bindings`), or `None` where
/// the body has no such shape; a function of the bytes alone.
pub uninterp spec fn select_shape(body: Seq<u8>) -> Option<u64>;

/// The boolean in a response body read as an ASK-style result (a JSON object
/// holding a boolean under `boolean`), or `None` where the body has no such
/// shape; a function of the bytes alone.
pub uninterp spec fn ask_shape(body: Seq<u8>) -> Option<bool>;

/// Relies on serde_json::from_slice and serde_json::Value::{get, as_array}:
/// whether the bytes parse as JSON carrying an array under
/// `results.bindings`, and that array's length, depend on the bytes alone.
#[verifier::external_body]
fn parse_select_shape(body: &Vec<u8>) -> (r: Option<u64>)
    ensures
        r == select_shape(body@),
{
    let v: serde_json::Value = match serde_json::from_slice(body.as_slice()) {
        Ok(v) => v,
        Err(_) => return None,
    };
    let results = match v.get("results") { Some(r) => r, None => return None };
    let bindings = match results.get("bindings") { Some(b) => b, None => return None };
    match bindings.as_array() {
        Some(a) => Some(a.len() as u64),
        None => None,
    }
}

/// Relies on serde_json::from_slice and serde_json::Value::{get, as_bool}:
/// whether the bytes parse as JSON carrying a boolean under `boolean`, and
/// that boolean, depend on the bytes alone.
#[verifier::external_body]
fn parse_ask_shape(body: &Vec<u8>) -> (r: Option<bool>)
    ensures
        r == ask_shape(body@),
{
    let v: serde_json::Value = match serde_json::from_slice(body.as_slice()) {
        Ok(v) => v,
        Err(_) => return None,
    };
    match v.get("boolean") {
        Some(b) => b.as_bool(),
        None => None,
    }
}

/// The verdict one endpoint response yields. A failing HTTP status is
/// inconclusive. Otherwise a SELECT-shaped body decides first: it confirms
/// when it has rows and rejects when empty. A body of no SELECT shape but of
/// ASK shape confirms on true and rejects on false. A body of neither shape
/// is inconclusive.
pub open spec fn classify_spec(status_ok: bool, select: Option<u64>, ask: Option<bool>) -> Classification {
    if !status_ok {
        Classification::Inconclusive
    } else {
        match select {
            Some(rows) => if rows > 0 {
                Classification::Confirmed(EvidenceKind::NonEmptyBindings)
            } else {
                Classification::Rejected(EvidenceKind::EmptyBindings)
            },
            None => match ask {
                Some(b) => if b {
                    Classification::Confirmed(EvidenceKind::BooleanTrue)
                } else {
                    Classification::Rejected(EvidenceKind::BooleanFalse)
                },
                None => Classification::Inconclusive,
            },
        }
    }
}

/// Classifies a response whose body has already been decoded into the two
/// shapes the endpoints answer with.
pub fn classify_parsed(status_ok: bool, select: Option<u64>, ask: Option<bool>) -> (c: Classification)
    ensures
        c == classify_spec(status_ok, select, ask),
{
    if !status_ok {
        Classification::Inconclusive
    } else {
        match select {
            Some(rows) => if rows > 0 {
                Classification::Confirmed(EvidenceKind::NonEmptyBindings)
            } else {
                Classification::Rejected(EvidenceKind::EmptyBindings)
            },
            None => match ask {
                Some(b) => if b {
                    Classification::Confirmed(EvidenceKind::BooleanTrue)
                } else {
                    Classification::Rejected(EvidenceKind::BooleanFalse)
                },
                None => Classification::Inconclusive,
            },
        }
    }
}

/// Classifies a raw endpoint response from its HTTP status and body bytes.
/// The ASK-shaped reading is consulted only where the SELECT-shaped one
/// fails, which is what the verdict definition asks.
pub fn classify(status_ok: bool, body: &Vec<u8>) -> (c: Classification)
    ensures
        c == classify_spec(status_ok, select_shape(body@), ask_shape(body@)),
{
    if !status_ok {
        Classification::Inconclusive
    } else {
        let select = parse_select_shape(body);
        if select.is_some() {
            classify_parsed(true, select, None)
        } else {
            classify_parsed(true, None, parse_ask_shape(body))
        }
    }
}

} // verus!
