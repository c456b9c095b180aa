//! The two body decoders the response accessors lean on: UTF-8 decoding for
//! `text` and JSON parsing for `json`. Both are outside calls; each stands
//! behind one trusted wrapper whose contract states exactly when the call
//! succeeds and, for UTF-8, what it returns.

use vstd::prelude::*;
use vstd::utf8::{decode_utf8, valid_utf8};

verus! {

#[verifier::external_type_specification]
#[verifier::external_body]
pub struct ExJsonValue(serde_json::Value);

#[verifier::external_type_specification]
#[verifier::external_body]
pub struct ExJsonError(serde_json::Error);

#[verifier::external_type_specification]
#[verifier::external_body]
pub struct ExHostError(extism_pdk::Error);

/// Whether serde_json's parser accepts `b` as one JSON document. Parsing is a
/// function of the bytes alone; this names its outcome.
pub uninterp spec fn json_parses(b: Seq<u8>) -> bool;

/// Relies on `serde_json::from_slice::<Value>`: it parses the whole byte
/// slice as one JSON document, succeeding or failing on the bytes alone.
#[verifier::external_body]
pub(crate) fn decode_json(b: &Vec<u8>) -> (r: Result<serde_json::Value, serde_json::Error>)
    ensures
        r is Ok <==> json_parses(b@),
{
    serde_json::from_slice(b.as_slice())
}

/// Relies on extism_pdk's `FromBytes` implementation for `String`
/// (extism-convert's `from_bytes_owned`): it decodes the bytes as UTF-8 via
/// `std::str::from_utf8`, failing exactly on invalid UTF-8.
#[verifier::external_body]
pub(crate) fn decode_utf8_text(b: &Vec<u8>) -> (r: Result<String, extism_pdk::Error>)
    ensures
        r is Ok <==> valid_utf8(b@),
        (r matches Ok(s) ==> s@ == decode_utf8(b@)),
{
    <String as extism_pdk::FromBytes>::from_bytes(b.as_slice())
}

} // verus!
