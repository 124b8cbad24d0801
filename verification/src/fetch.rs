//! The read flow: from a short key to a redirect.
//!
//! [`begin`] answers the request at once or names the key to look up;
//! [`resolve`] turns what the store answered into the response.

use vstd::prelude::*;
use crate::http::{
    Method, Response, ResponseView, BAD_REQUEST, INTERNAL_SERVER_ERROR, NOT_FOUND, UNAUTHORIZED,
};
use crate::store::{lookup_view, Lookup, LookupView, StoreErrorKind};
use crate::value_parser::{decoding, deserialize_value};

verus! {

/// What the read flow reads of a request: the method and the parameter `s`.
#[derive(Debug, Clone, PartialEq, Eq)]
pub struct FetchRequest {
    pub method: Method,
    pub key: Option<String>,
}

/// What is to be done next for a read request.
#[derive(Debug, Clone, PartialEq, Eq)]
pub enum FetchStep {
    /// Look this key up in the store and hand the answer to [`resolve`].
    Lookup(String),
    /// Send this response.
    Respond(Response),
}

/// A next step of the read flow as a mathematical value.
pub ghost enum FetchStepView {
    Lookup(Seq<char>),
    Respond(ResponseView),
}

impl View for FetchStep {
    type V = FetchStepView;

    open spec fn view(&self) -> FetchStepView {
        match self {
            FetchStep::Lookup(key) => FetchStepView::Lookup(key@),
            FetchStep::Respond(response) => FetchStepView::Respond(response@),
        }
    }
}

/// The status that reports a refusal of the store.
pub open spec fn status_of(kind: StoreErrorKind) -> u16 {
    match kind {
        StoreErrorKind::Unknown => BAD_REQUEST,
        StoreErrorKind::UnAuthorized => UNAUTHORIZED,
        StoreErrorKind::NotFound => NOT_FOUND,
    }
}

/// The first step for a request: a preflight request and a wrong method are
/// answered whatever else the request holds, a `GET` without key is a bad
/// request, and a `GET` with a key is a lookup of that key.
pub open spec fn first_step(method: Method, key: Option<Seq<char>>) -> FetchStepView {
    match method {
        Method::Options => FetchStepView::Respond(ResponseView::preflight()),
        Method::Other => FetchStepView::Respond(ResponseView::wrong_method()),
        Method::Get => match key {
            None => FetchStepView::Respond(
                ResponseView::text(BAD_REQUEST, "No key provided in user request"@),
            ),
            Some(k) => FetchStepView::Lookup(k),
        },
    }
}

/// The response to a lookup: a refusal is passed on in the store's words
/// under the status of its kind, stored bytes that are no record are an
/// internal error, and a record is a redirect to its URL.
pub open spec fn resolution(lookup: LookupView) -> ResponseView {
    match lookup {
        Err(e) => ResponseView::text(status_of(e.kind), e.message),
        Ok(bytes) => match decoding(bytes) {
            Err(_) => ResponseView::text(INTERNAL_SERVER_ERROR, "Stored record is invalid"@),
            Ok(record) => ResponseView::redirect(record.url),
        },
    }
}

/// Decides what to do first for a read request.
pub fn begin(request: FetchRequest) -> (step: FetchStep)
    ensures
        step@ == first_step(request.method, request.key.deep_view()),
{
    match request.method {
        Method::Options => FetchStep::Respond(Response::preflight()),
        Method::Other => FetchStep::Respond(Response::wrong_method()),
        Method::Get => match request.key {
            None => FetchStep::Respond(
                Response::text(BAD_REQUEST, "No key provided in user request".to_owned()),
            ),
            Some(key) => FetchStep::Lookup(key),
        },
    }
}

/// Turns the store's answer to the lookup into the response.
pub fn resolve(lookup: Lookup) -> (response: Response)
    ensures
        response@ == resolution(lookup_view(lookup)),
{
    match lookup {
        Err(e) => {
            let status = match e.kind {
                StoreErrorKind::Unknown => BAD_REQUEST,
                StoreErrorKind::UnAuthorized => UNAUTHORIZED,
                StoreErrorKind::NotFound => NOT_FOUND,
            };
            Response::text(status, e.message)
        },
        Ok(bytes) => match deserialize_value(&bytes) {
            Err(_) => Response::text(
                INTERNAL_SERVER_ERROR,
                "Stored record is invalid".to_owned(),
            ),
            Ok(value) => Response::redirect(value.url),
        },
    }
}

} // verus!
