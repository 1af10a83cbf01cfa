//! Decoding of response envelopes: the expected payload first, then the
//! error record.
use vstd::prelude::*;

use crate::error::{ApiError, ApiResult, AuthyErr, Transport};
use crate::json::{JsonValue, json_of, parse_json};

verus! {

/// A payload that can be read from a JSON value by its fields.
pub trait FromJson: Sized {
    /// Whether `v` holds every field of the payload, each of its type.
    spec fn has_shape(v: JsonValue) -> bool;

    /// Whether each field of `self` is the one that `v` holds.
    spec fn decoded_from(self, v: JsonValue) -> bool;

    fn from_json(v: &JsonValue) -> (r: Option<Self>)
        ensures
            r is Some <==> Self::has_shape(*v),
            r matches Some(x) ==> x.decoded_from(*v);
}

impl<T: FromJson> ApiResult<T> {
    /// What a value decodes to: the payload where it has the payload's
    /// shape, else the error record where it has that shape.
    pub open spec fn decoded_from(self, v: JsonValue) -> bool {
        match self {
            ApiResult::Success(x) => T::has_shape(v) && x.decoded_from(v),
            ApiResult::Failure(e) => !T::has_shape(v) && ApiError::has_shape(v) && e.decoded_from(v),
        }
    }

    /// Reads the payload, or failing that the error record.
    pub fn decode(v: &JsonValue) -> (r: Option<ApiResult<T>>)
        ensures
            r is Some <==> (T::has_shape(*v) || ApiError::has_shape(*v)),
            r matches Some(x) ==> x.decoded_from(*v),
    {
        match T::from_json(v) {
            Some(x) => Some(ApiResult::Success(x)),
            None => match ApiError::from_json(v) {
                Some(e) => Some(ApiResult::Failure(e)),
                None => None,
            },
        }
    }
}

/// What the body of an answer yields, given the JSON document it holds.
pub open spec fn body_decoded<S: FromJson>(doc: Option<JsonValue>, r: Result<S, AuthyErr>) -> bool {
    match doc {
        Some(v) => if S::has_shape(v) {
            r matches Ok(x) && x.decoded_from(v)
        } else if ApiError::has_shape(v) {
            r matches Err(AuthyErr::Api(e)) && e.decoded_from(v)
        } else {
            r matches Err(AuthyErr::Http(Transport::Decode))
        },
        None => r matches Err(AuthyErr::Http(Transport::Decode)),
    }
}

/// Decodes the body of an answer into the payload or an error.
pub fn decode_body<S: FromJson>(body: &[u8]) -> (r: Result<S, AuthyErr>)
    ensures
        body_decoded(json_of(body@), r),
{
    match parse_json(body) {
        None => Err(AuthyErr::Http(Transport::Decode)),
        Some(v) => match ApiResult::<S>::decode(&v) {
            Some(a) => match a.into_result() {
                Ok(x) => Ok(x),
                Err(e) => Err(AuthyErr::Api(e)),
            },
            None => Err(AuthyErr::Http(Transport::Decode)),
        },
    }
}

/// The result of a call, given what the exchange gave: the body of the
/// answer, or the transport's error.
pub fn query_result<S: FromJson>(outcome: Result<Vec<u8>, reqwest::Error>) -> (r: Result<S, AuthyErr>)
    ensures
        match outcome {
            Ok(body) => body_decoded(json_of(body@), r),
            Err(e) => r matches Err(AuthyErr::Http(Transport::Request(x))) && x == e,
        },
{
    match outcome {
        Ok(body) => decode_body(body.as_slice()),
        Err(e) => Err(AuthyErr::Http(Transport::Request(e))),
    }
}

/// The two shapes exclude each other: a body with the payload's shape yields
/// the payload, never an error; one with only the error record's shape
/// yields that record, never the payload; a body that fits neither shape,
/// or is no JSON at all, yields a transport error, never an error record;
/// and a body never yields a failed request.
pub proof fn lemma_envelope_discriminates<S: FromJson>(doc: Option<JsonValue>, r: Result<S, AuthyErr>)
    requires
        body_decoded(doc, r),
    ensures
        doc is Some && S::has_shape(doc->Some_0) ==> r is Ok,
        r is Ok ==> doc is Some && S::has_shape(doc->Some_0),
        doc is Some && !S::has_shape(doc->Some_0) && ApiError::has_shape(doc->Some_0) ==> (r matches Err(
            AuthyErr::Api(e),
        ) && e.decoded_from(doc->Some_0)),
        r matches Err(AuthyErr::Api(_)) ==> doc is Some && !S::has_shape(doc->Some_0) && ApiError::has_shape(doc->Some_0),
        doc is None ==> (r matches Err(AuthyErr::Http(Transport::Decode))),
        doc is Some && !S::has_shape(doc->Some_0) && !ApiError::has_shape(doc->Some_0) ==> (r matches Err(
            AuthyErr::Http(Transport::Decode),
        )),
        !(r matches Err(AuthyErr::Http(Transport::Request(_)))),
{
}

/// Decoding depends on the document alone: two results decoded from the same
/// document are of the same kind; two error records agree field for field;
/// two payloads each hold exactly the document's fields.
pub proof fn lemma_decode_deterministic<S: FromJson>(doc: Option<JsonValue>, r1: Result<S, AuthyErr>, r2: Result<S, AuthyErr>)
    requires
        body_decoded(doc, r1),
        body_decoded(doc, r2),
    ensures
        r1 is Ok <==> r2 is Ok,
        r1 is Ok ==> r1->Ok_0.decoded_from(doc->Some_0) && r2->Ok_0.decoded_from(doc->Some_0),
        (r1 matches Err(AuthyErr::Api(_))) <==> (r2 matches Err(AuthyErr::Api(_))),
        (r1 matches Err(AuthyErr::Api(_))) ==> {
            let e1 = r1->Err_0->Api_0;
            let e2 = r2->Err_0->Api_0;
            &&& e1.code == e2.code
            &&& e1.message@ == e2.message@
            &&& e1.more_info@ == e2.more_info@
            &&& e1.status == e2.status
        },
        (r1 matches Err(AuthyErr::Http(Transport::Decode))) <==> (r2 matches Err(AuthyErr::Http(Transport::Decode))),
{
}

} // verus!
