//! JSON documents, as `serde_json` reads them.
//!
//! A document is kept as a `serde_json::Value`. What this library reads of
//! one is the unsigned integers in it, each found by the object keys that
//! lead to it. Everything stated here of `serde_json` is taken on trust; the
//! code that uses it is verified against these statements.

use vstd::prelude::*;

verus! {

/// `serde_json`'s document type, carried through as it is.
#[verifier::external_type_specification]
#[verifier::external_body]
pub struct ExValue(serde_json::Value);

/// `serde_json`'s error type, carried through as it is.
#[verifier::external_type_specification]
#[verifier::external_body]
pub struct ExError(serde_json::Error);

/// The unsigned integers that a document holds, each under the path of
/// object keys that leads to it from the top. A document that is itself an
/// unsigned integer holds it under the empty path. Values inside arrays have
/// no such path, and neither have negative numbers, numbers written with a
/// fraction or an exponent, strings, booleans or `null`.
pub uninterp spec fn unsigned_at(doc: serde_json::Value) -> Map<Seq<Seq<char>>, u64>;

/// What `serde_json` reads from `body`: `None` where the bytes are not one
/// JSON document, else the unsigned integers of that document by path.
pub uninterp spec fn parsed(body: Seq<u8>) -> Option<Map<Seq<Seq<char>>, u64>>;

/// The integers of `leaves` that lie under `key`, each with `key` taken off
/// the front of its path.
pub open spec fn under(leaves: Map<Seq<Seq<char>>, u64>, key: Seq<char>) -> Map<
    Seq<Seq<char>>,
    u64,
> {
    Map::new(
        |path: Seq<Seq<char>>| leaves.contains_key(seq![key] + path),
        |path: Seq<Seq<char>>| leaves[seq![key] + path],
    )
}

/// What the outcome of reading a body holds: the unsigned integers of the
/// document, or `None` where the reading failed.
pub open spec fn holds(outcome: Result<serde_json::Value, serde_json::Error>) -> Option<
    Map<Seq<Seq<char>>, u64>,
> {
    match outcome {
        Ok(doc) => Some(unsigned_at(doc)),
        Err(_) => None,
    }
}

/// Calls `serde_json::from_slice` for a `serde_json::Value`.
///
/// Trusted: the call succeeds exactly on the bodies that `parsed` knows a
/// document for, and the document it returns holds what `parsed` says. This
/// claims that the outcome depends on the bytes alone.
#[verifier::external_body]
pub(crate) fn parse_document(body: &[u8]) -> (r: Result<serde_json::Value, serde_json::Error>)
    ensures
        holds(r) == parsed(body@),
{
    serde_json::from_slice::<serde_json::Value>(body)
}

/// Calls `serde_json::Value::get` with a string key.
///
/// Trusted: where `doc` is an object that has `key`, the member comes back,
/// and it holds what `doc` holds under `key`; otherwise `None` comes back,
/// and `doc` holds nothing under `key`.
#[verifier::external_body]
pub(crate) fn member<'a>(doc: &'a serde_json::Value, key: &str) -> (r: Option<
    &'a serde_json::Value,
>)
    ensures
        match r {
            Some(child) => unsigned_at(*child) == under(unsigned_at(*doc), key@),
            None => under(unsigned_at(*doc), key@) == Map::<Seq<Seq<char>>, u64>::empty(),
        },
{
    doc.get(key)
}

/// `serde_json::Value::as_u64`.
///
/// Trusted: it returns the unsigned integer that the value itself is, which
/// is what the value holds under the empty path, and `None` for every other
/// value.
pub assume_specification[ serde_json::Value::as_u64 ](doc: &serde_json::Value) -> (r: Option<u64>)
    ensures
        r == unsigned_at(*doc).get(Seq::<Seq<char>>::empty()),
;

} // verus!
