//! The response envelope: every payload arrives under a `data` key, every
//! structured failure under an `errors` key. Decoding tells the two apart
//! from malformed and empty responses.
use vstd::prelude::*;
use vstd::utf8::decode_utf8;
use vstd::utf8::valid_utf8;
use crate::json::json_tree_of;
use crate::json::parse_json;
use crate::json::spec_lookup;
use crate::json::take_key;
use crate::json::Json;
use crate::text::string_from_utf8;
use crate::transport::TransportError;

verus! {

/// A response the API itself produced, but that does not follow the
/// envelope convention's success shape.
#[derive(Debug, PartialEq)]
pub enum ApiError {
    /// The response body was not JSON at all; carries the body verbatim.
    InvalidJson(String),
    /// The response was a JSON object with an `errors` key; carries the
    /// whole object.
    Json(Json),
}

/// Failure of one request, at any stage of its round trip.
#[derive(Debug, PartialEq)]
pub enum RequestError {
    /// The transport could not complete the exchange.
    HttpClientError(TransportError),
    /// The response bytes were not valid UTF-8.
    FromUtf8Error,
    /// The response was readable but not an envelope with data.
    ApiError(ApiError),
    /// The response parsed, but its payload did not have the expected
    /// shape; carries a description.
    SerdeJsonError(String),
    /// The response was JSON, but no `data` key was there to take.
    NoData,
}

/// How a parsed response document is classified: the value under a
/// `data` key is the payload; an object without `data` is a structured
/// error when an `errors` key is there, and empty otherwise; any
/// non-object document is empty.
pub open spec fn spec_envelope_of(tree: Json) -> Result<Json, RequestError> {
    match tree {
        Json::Object(entries) => match spec_lookup(entries@, "data"@) {
            Some(data) => Ok(data),
            None => {
                if spec_lookup(entries@, "errors"@) is Some {
                    Err(RequestError::ApiError(ApiError::Json(Json::Object(entries))))
                } else {
                    Err(RequestError::NoData)
                }
            },
        },
        _ => Err(RequestError::NoData),
    }
}

/// The envelope decoder's whole classification, as a relation between
/// response bytes and an outcome: bytes that are not UTF-8 fail with
/// `FromUtf8Error`; text that is not JSON fails with `InvalidJson`
/// carrying the text verbatim when the failure is a syntax error, and
/// with `SerdeJsonError` otherwise; a parsed document is classified
/// exactly as `spec_envelope_of` says.
pub open spec fn envelope_decodes_to(bytes: Seq<u8>, r: Result<Json, RequestError>) -> bool {
    &&& ((r matches Err(e) && e == RequestError::FromUtf8Error) <==> !valid_utf8(bytes))
    &&& ((r matches Err(e) && (e matches RequestError::ApiError(ApiError::InvalidJson(s)) && s@
        == decode_utf8(bytes))) <==> (valid_utf8(bytes) && json_tree_of(decode_utf8(bytes))
        == Err::<Json, bool>(true)))
    &&& ((r matches Err(e) && e matches RequestError::SerdeJsonError(_)) <==> (valid_utf8(bytes)
        && json_tree_of(decode_utf8(bytes)) == Err::<Json, bool>(false)))
    &&& (valid_utf8(bytes) ==> (json_tree_of(decode_utf8(bytes)) matches Ok(tree) ==> r
        == spec_envelope_of(tree)))
}

/// Decodes a response body down to the payload under its `data` key,
/// classifying the response exactly as `envelope_decodes_to` relates:
/// `data` takes precedence over `errors`, and an object with neither key,
/// like any non-object document, yields `NoData`.
pub fn decode_envelope(bytes: Vec<u8>) -> (r: Result<Json, RequestError>)
    ensures
        envelope_decodes_to(bytes@, r),
{
    let text = match string_from_utf8(bytes) {
        Some(text) => text,
        None => {
            return Err(RequestError::FromUtf8Error);
        },
    };
    let tree = match parse_json(text.as_str()) {
        Ok(tree) => tree,
        Err(failure) => {
            if failure.0 {
                return Err(RequestError::ApiError(ApiError::InvalidJson(text)));
            } else {
                return Err(RequestError::SerdeJsonError(failure.1));
            }
        },
    };
    match tree {
        Json::Object(mut entries) => match take_key(&mut entries, "data") {
            Some(data) => Ok(data),
            None => {
                if lookup_has_errors(&entries) {
                    Err(RequestError::ApiError(ApiError::Json(Json::Object(entries))))
                } else {
                    Err(RequestError::NoData)
                }
            },
        },
        _ => Err(RequestError::NoData),
    }
}

/// Whether an object's entries carry an `errors` key.
fn lookup_has_errors(entries: &Vec<(String, Json)>) -> (r: bool)
    ensures
        r == (spec_lookup(entries@, "errors"@) is Some),
{
    match crate::json::lookup(entries, "errors") {
        Some(_) => true,
        None => false,
    }
}

} // verus!
