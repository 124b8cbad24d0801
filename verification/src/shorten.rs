//! The write flow: from a URL to a short key under which it is stored.
//!
//! The flow is a sequence of steps. [`begin`] gives the first one; a step
//! that needs the store names the operation, and the store's answer, handed
//! to `resume`, gives the next step. The flow never touches the store itself.
//!
//! The key is the alias where the request names one, and else a generated
//! key. A key that the store does not hold is written. A key that it holds is
//! written only where the policy of [`crate::policy`] lets the caller
//! overwrite it. Lookup and write are separate operations of the store, so of
//! two requests that find the same key unused at the same time the later
//! write wins.

use vstd::prelude::*;
use crate::http::{
    Method, Response, ResponseView, BAD_REQUEST, FORBIDDEN, INTERNAL_SERVER_ERROR, OK,
};
use crate::key_generator::{hash_of, KeyGenerator};
use crate::policy::{
    authenticate, credential_of, effective_credential, is_available, key_available, permits,
};
use crate::store::{lookup_view, write_view, Lookup, LookupView, StoreError, StoreErrorView};
use crate::value_parser::{encoding, serialize_value, Record, Value};

verus! {

/// What the write flow reads of a request: the method, the parameters `url`
/// and `alias`, and the headers `password` and `old_password`.
#[derive(Debug, Clone, PartialEq, Eq)]
pub struct ShortenRequest {
    pub method: Method,
    pub url: Option<String>,
    pub alias: Option<String>,
    pub password: Option<String>,
    pub old_password: Option<String>,
}

/// Where a key comes from.
#[derive(Debug, Clone, Copy, PartialEq, Eq, Structural)]
pub enum KeySource {
    Alias,
    Generated,
}

/// What a lookup is made for.
#[derive(Debug, Clone, Copy, PartialEq, Eq, Structural)]
pub enum Stage {
    /// The key is the generator's candidate: is it unused?
    Generating(KeyGenerator),
    /// The key is chosen: is it unused?
    Checking(KeySource),
    /// The key is in use: may the caller overwrite what is stored?
    Authenticating(KeySource),
}

/// A write request that waits for the answer to a lookup of `key`.
#[derive(Debug, Clone, PartialEq, Eq)]
pub struct PendingLookup {
    pub key: String,
    pub stage: Stage,
    pub url: String,
    pub password: Option<String>,
    /// The password that proves ownership of an existing record.
    pub credential: Option<String>,
}

/// A write request that waits for the answer to the write of `value` under
/// `key`.
#[derive(Debug, Clone, PartialEq, Eq)]
pub struct PendingPut {
    pub key: String,
    pub value: Vec<u8>,
}

/// What is to be done next for a write request.
#[derive(Debug, Clone, PartialEq, Eq)]
pub enum ShortenStep {
    /// Look the key up and hand the answer to [`PendingLookup::resume`].
    Lookup(PendingLookup),
    /// Write the value under the key and hand the answer to
    /// [`PendingPut::resume`].
    Put(PendingPut),
    /// Send this response.
    Respond(Response),
}

/// A write request as a mathematical value.
pub ghost struct ShortenRequestView {
    pub method: Method,
    pub url: Option<Seq<char>>,
    pub alias: Option<Seq<char>>,
    pub password: Option<Seq<char>>,
    pub old_password: Option<Seq<char>>,
}

/// A pending lookup as a mathematical value.
pub ghost struct PendingLookupView {
    pub key: Seq<char>,
    pub stage: Stage,
    pub url: Seq<char>,
    pub password: Option<Seq<char>>,
    pub credential: Option<Seq<char>>,
}

/// A pending write as a mathematical value.
pub ghost struct PendingPutView {
    pub key: Seq<char>,
    pub value: Seq<u8>,
}

/// A next step of the write flow as a mathematical value.
pub ghost enum ShortenStepView {
    Lookup(PendingLookupView),
    Put(PendingPutView),
    Respond(ResponseView),
}

impl View for ShortenRequest {
    type V = ShortenRequestView;

    open spec fn view(&self) -> ShortenRequestView {
        ShortenRequestView {
            method: self.method,
            url: self.url.deep_view(),
            alias: self.alias.deep_view(),
            password: self.password.deep_view(),
            old_password: self.old_password.deep_view(),
        }
    }
}

impl View for PendingLookup {
    type V = PendingLookupView;

    open spec fn view(&self) -> PendingLookupView {
        PendingLookupView {
            key: self.key@,
            stage: self.stage,
            url: self.url@,
            password: self.password.deep_view(),
            credential: self.credential.deep_view(),
        }
    }
}

impl View for PendingPut {
    type V = PendingPutView;

    open spec fn view(&self) -> PendingPutView {
        PendingPutView { key: self.key@, value: self.value@ }
    }
}

impl View for ShortenStep {
    type V = ShortenStepView;

    open spec fn view(&self) -> ShortenStepView {
        match self {
            ShortenStep::Lookup(pending) => ShortenStepView::Lookup(pending@),
            ShortenStep::Put(pending) => ShortenStepView::Put(pending@),
            ShortenStep::Respond(response) => ShortenStepView::Respond(response@),
        }
    }
}

impl ShortenRequestView {
    /// The first step for this request. A preflight request and a wrong
    /// method are answered whatever else the request holds, and a `GET`
    /// without URL is a bad request. With an alias the flow goes on to check
    /// the alias; without one it goes on to try the first generated key.
    pub open spec fn first_step(self) -> ShortenStepView {
        match self.method {
            Method::Options => ShortenStepView::Respond(ResponseView::preflight()),
            Method::Other => ShortenStepView::Respond(ResponseView::wrong_method()),
            Method::Get => match self.url {
                None => ShortenStepView::Respond(
                    ResponseView::text(BAD_REQUEST, "No url provided in user request"@),
                ),
                Some(url) => {
                    let generator = KeyGenerator::start(hash_of(url));
                    ShortenStepView::Lookup(
                        PendingLookupView {
                            key: match self.alias {
                                Some(alias) => alias,
                                None => generator.key(),
                            },
                            stage: match self.alias {
                                Some(_) => Stage::Checking(KeySource::Alias),
                                None => Stage::Generating(generator),
                            },
                            url,
                            password: self.password,
                            credential: credential_of(self.old_password, self.password),
                        },
                    )
                },
            },
        }
    }
}

impl PendingLookupView {
    /// The write of this request's record under its key.
    pub open spec fn write(self) -> ShortenStepView {
        ShortenStepView::Put(
            PendingPutView {
                key: self.key,
                value: encoding(Record { url: self.url, password: self.password }),
            },
        )
    }

    /// The refusal to overwrite what the store holds under the key: the
    /// caller of an alias is not authorized, and a generated key that was
    /// unused a moment ago has been taken by someone else.
    pub open spec fn refusal(source: KeySource) -> ResponseView {
        match source {
            KeySource::Alias => ResponseView::text(
                FORBIDDEN,
                "Requested alias is already taken and your password doesn't grant you a permission to change it"@,
            ),
            KeySource::Generated => ResponseView::text(
                INTERNAL_SERVER_ERROR,
                "Generated short string already exists"@,
            ),
        }
    }

    /// The step that follows the answer `lookup`.
    ///
    /// While a key is generated, an unused candidate becomes the key and a
    /// used one is rejected for the generator's next candidate. A chosen key
    /// that is unused is written; one that is in use is looked up once more
    /// for the password check, which ends in the write or in a refusal.
    pub open spec fn resume(self, lookup: LookupView) -> ShortenStepView {
        match self.stage {
            Stage::Generating(generator) => if is_available(lookup) {
                ShortenStepView::Lookup(
                    PendingLookupView { stage: Stage::Checking(KeySource::Generated), ..self },
                )
            } else {
                ShortenStepView::Lookup(
                    PendingLookupView {
                        key: generator.rejected().key(),
                        stage: Stage::Generating(generator.rejected()),
                        ..self
                    },
                )
            },
            Stage::Checking(source) => if is_available(lookup) {
                self.write()
            } else {
                ShortenStepView::Lookup(
                    PendingLookupView { stage: Stage::Authenticating(source), ..self },
                )
            },
            Stage::Authenticating(source) => if permits(lookup, self.credential) {
                self.write()
            } else {
                ShortenStepView::Respond(PendingLookupView::refusal(source))
            },
        }
    }
}

impl PendingPutView {
    /// The response that follows the store's answer to the write: the key
    /// where it was written, and else a bad request in the store's words.
    pub open spec fn resume(self, written: Result<(), StoreErrorView>) -> ResponseView {
        match written {
            Ok(_) => ResponseView::text(OK, self.key),
            Err(e) => ResponseView::text(BAD_REQUEST, e.message),
        }
    }
}

/// Decides what to do first for a write request.
pub fn begin(request: ShortenRequest) -> (step: ShortenStep)
    ensures
        step@ == request@.first_step(),
{
    match request.method {
        Method::Options => ShortenStep::Respond(Response::preflight()),
        Method::Other => ShortenStep::Respond(Response::wrong_method()),
        Method::Get => match request.url {
            None => ShortenStep::Respond(
                Response::text(BAD_REQUEST, "No url provided in user request".to_owned()),
            ),
            Some(url) => {
                let credential = effective_credential(request.old_password, &request.password);
                match request.alias {
                    Some(alias) => ShortenStep::Lookup(
                        PendingLookup {
                            key: alias,
                            stage: Stage::Checking(KeySource::Alias),
                            url,
                            password: request.password,
                            credential,
                        },
                    ),
                    None => {
                        let generator = KeyGenerator::new(url.as_str());
                        ShortenStep::Lookup(
                            PendingLookup {
                                key: generator.candidate(),
                                stage: Stage::Generating(generator),
                                url,
                                password: request.password,
                                credential,
                            },
                        )
                    },
                }
            },
        },
    }
}

fn refuse(source: KeySource) -> (response: Response)
    ensures
        response@ == PendingLookupView::refusal(source),
{
    match source {
        KeySource::Alias => Response::text(
            FORBIDDEN,
            "Requested alias is already taken and your password doesn't grant you a permission to change it".to_owned(),
        ),
        KeySource::Generated => Response::text(
            INTERNAL_SERVER_ERROR,
            "Generated short string already exists".to_owned(),
        ),
    }
}

impl PendingLookup {
    fn write(self) -> (step: ShortenStep)
        ensures
            step@ == self@.write(),
    {
        let value = serialize_value(&Value { url: self.url, password: self.password });
        ShortenStep::Put(PendingPut { key: self.key, value })
    }

    /// Takes the store's answer to the lookup of `self.key` and decides what
    /// to do next.
    pub fn resume(self, lookup: Lookup) -> (step: ShortenStep)
        ensures
            step@ == self@.resume(lookup_view(lookup)),
    {
        match self.stage {
            Stage::Generating(generator) => {
                if key_available(&lookup) {
                    ShortenStep::Lookup(
                        PendingLookup {
                            key: self.key,
                            stage: Stage::Checking(KeySource::Generated),
                            url: self.url,
                            password: self.password,
                            credential: self.credential,
                        },
                    )
                } else {
                    let next = generator.reject();
                    ShortenStep::Lookup(
                        PendingLookup {
                            key: next.candidate(),
                            stage: Stage::Generating(next),
                            url: self.url,
                            password: self.password,
                            credential: self.credential,
                        },
                    )
                }
            },
            Stage::Checking(source) => {
                if key_available(&lookup) {
                    self.write()
                } else {
                    ShortenStep::Lookup(
                        PendingLookup {
                            key: self.key,
                            stage: Stage::Authenticating(source),
                            url: self.url,
                            password: self.password,
                            credential: self.credential,
                        },
                    )
                }
            },
            Stage::Authenticating(source) => {
                if authenticate(&lookup, &self.credential) {
                    self.write()
                } else {
                    ShortenStep::Respond(refuse(source))
                }
            },
        }
    }
}

impl PendingPut {
    /// Takes the store's answer to the write and gives the response.
    pub fn resume(self, written: Result<(), StoreError>) -> (response: Response)
        ensures
            response@ == self@.resume(write_view(written)),
    {
        match written {
            Ok(_) => Response::text(OK, self.key),
            Err(e) => Response::text(BAD_REQUEST, e.message),
        }
    }
}

} // verus!
