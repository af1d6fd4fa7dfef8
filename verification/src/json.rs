//! Reading JSON documents. A document is a `serde_json::Value`; this module
//! gives names to what its accessors return, so that the adapters built on
//! them can say exactly which part of a document they read.
use vstd::prelude::*;

verus! {

/// A JSON document.
#[verifier::external_type_specification]
#[verifier::external_body]
pub struct ExValue(serde_json::Value);

/// Why a text is no JSON document.
#[verifier::external_type_specification]
#[verifier::external_body]
pub struct ExJsonError(serde_json::Error);

/// The document that a text parses to, if it is JSON, as
/// `serde_json::from_str` decides it.
pub uninterp spec fn parsed(text: Seq<char>) -> Option<serde_json::Value>;

/// The item at `index` of an array, `null` for any other document or index,
/// as indexing a `serde_json::Value` by a number gives it.
pub uninterp spec fn element(doc: serde_json::Value, index: int) -> serde_json::Value;

/// The value under `key` of an object, `null` for any other document or
/// key, as indexing a `serde_json::Value` by a text gives it.
pub uninterp spec fn member(doc: serde_json::Value, key: Seq<char>) -> serde_json::Value;

/// The items of an array, as `serde_json::Value::as_array` gives them.
pub uninterp spec fn elements(doc: serde_json::Value) -> Option<Seq<serde_json::Value>>;

/// The text of a string document, as `serde_json::Value::as_str` gives it.
pub uninterp spec fn text_in(doc: serde_json::Value) -> Option<Seq<char>>;

/// The number of a document that is an integer within `i64`, as
/// `serde_json::Value::as_i64` gives it.
pub uninterp spec fn integer_in(doc: serde_json::Value) -> Option<i64>;

/// The bit pattern of the double behind a number document, as
/// `serde_json::Value::as_f64` gives it.
pub uninterp spec fn number_bits_in(doc: serde_json::Value) -> Option<u64>;

/// Parses a text as JSON. Wraps `serde_json::from_str`; the contract names
/// its result and claims no more.
#[verifier::external_body]
pub(crate) fn from_str(text: &str) -> (r: Result<serde_json::Value, serde_json::Error>)
    ensures
        r is Ok <==> parsed(text@) is Some,
        r is Ok ==> r->Ok_0 == parsed(text@)->Some_0,
{
    serde_json::from_str::<serde_json::Value>(text)
}

/// The item at `index`. Wraps the `Index<usize>` of `serde_json::Value`,
/// which never panics on a shared reference; the contract names its result.
#[verifier::external_body]
pub(crate) fn at<'a>(doc: &'a serde_json::Value, index: usize) -> (r: &'a serde_json::Value)
    ensures
        *r == element(*doc, index as int),
{
    &doc[index]
}

/// The value under `key`. Wraps the `Index<&str>` of `serde_json::Value`,
/// which never panics on a shared reference; the contract names its result.
#[verifier::external_body]
pub(crate) fn get<'a>(doc: &'a serde_json::Value, key: &str) -> (r: &'a serde_json::Value)
    ensures
        *r == member(*doc, key@),
{
    &doc[key]
}

/// The items of an array. Wraps `serde_json::Value::as_array`; the contract
/// names its result.
#[verifier::external_body]
pub(crate) fn as_array(doc: &serde_json::Value) -> (r: Option<&Vec<serde_json::Value>>)
    ensures
        r is Some <==> elements(*doc) is Some,
        r is Some ==> r->Some_0@ == elements(*doc)->Some_0,
{
    doc.as_array()
}

/// The text of a string document. Wraps `serde_json::Value::as_str`; the
/// contract names its result.
#[verifier::external_body]
pub(crate) fn as_str(doc: &serde_json::Value) -> (r: Option<&str>)
    ensures
        r is Some <==> text_in(*doc) is Some,
        r is Some ==> r->Some_0@ == text_in(*doc)->Some_0,
{
    doc.as_str()
}

/// The integer of a number document. Wraps `serde_json::Value::as_i64`; the
/// contract names its result.
#[verifier::external_body]
pub(crate) fn as_i64(doc: &serde_json::Value) -> (r: Option<i64>)
    ensures
        r == integer_in(*doc),
{
    doc.as_i64()
}

/// The bit pattern of the double of a number document. Wraps
/// `serde_json::Value::as_f64`; the contract names its result, taken by its
/// bits.
#[verifier::external_body]
pub(crate) fn as_number_bits(doc: &serde_json::Value) -> (r: Option<u64>)
    ensures
        r == number_bits_in(*doc),
{
    doc.as_f64().map(|x| x.to_bits())
}

} // verus!
