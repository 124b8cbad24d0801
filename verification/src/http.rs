//! What the flows need to know of a request and say of a response, as plain
//! values. The transport turns its own request into these and these into its
//! own response.

use vstd::prelude::*;

verus! {

pub const OK: u16 = 200;

pub const NO_CONTENT: u16 = 204;

/// The status of a redirect to a stored URL: a temporary redirect.
pub const FOUND: u16 = 302;

pub const BAD_REQUEST: u16 = 400;

pub const UNAUTHORIZED: u16 = 401;

pub const FORBIDDEN: u16 = 403;

pub const NOT_FOUND: u16 = 404;

pub const METHOD_NOT_ALLOWED: u16 = 405;

pub const INTERNAL_SERVER_ERROR: u16 = 500;

/// The request methods that the handlers tell apart.
#[derive(Debug, Clone, Copy, PartialEq, Eq, Structural)]
pub enum Method {
    Get,
    Options,
    Other,
}

/// A response: status, body if it has one, and headers as pairs of name and
/// value.
#[derive(Debug, Clone, PartialEq, Eq)]
pub struct Response {
    pub status: u16,
    pub body: Option<String>,
    pub headers: Vec<(String, String)>,
}

/// A response as a mathematical value.
pub ghost struct ResponseView {
    pub status: u16,
    pub body: Option<Seq<char>>,
    pub headers: Seq<(Seq<char>, Seq<char>)>,
}

impl View for Response {
    type V = ResponseView;

    open spec fn view(&self) -> ResponseView {
        ResponseView {
            status: self.status,
            body: self.body.deep_view(),
            headers: self.headers.deep_view(),
        }
    }
}

impl ResponseView {
    /// A response with a body and no headers.
    pub open spec fn text(status: u16, body: Seq<char>) -> ResponseView {
        ResponseView { status, body: Some(body), headers: Seq::empty() }
    }

    /// The answer to a CORS preflight request: no body, and the two headers
    /// that allow `GET` with any request header.
    pub open spec fn preflight() -> ResponseView {
        ResponseView {
            status: NO_CONTENT,
            body: None,
            headers: seq![
                ("Access-Control-Allow-Methods"@, "GET"@),
                ("Access-Control-Allow-Headers"@, "*"@),
            ],
        }
    }

    /// A temporary redirect to `url`, which is also the body.
    pub open spec fn redirect(url: Seq<char>) -> ResponseView {
        ResponseView { status: FOUND, body: Some(url), headers: seq![("Location"@, url)] }
    }

    /// The answer to a request whose method is neither `GET` nor `OPTIONS`.
    pub open spec fn wrong_method() -> ResponseView {
        ResponseView::text(METHOD_NOT_ALLOWED, "GET method expected"@)
    }
}

impl Response {
    /// A response with a body and no headers.
    pub fn text(status: u16, body: String) -> (r: Response)
        ensures
            r@ == ResponseView::text(status, body@),
    {
        let r = Response { status, body: Some(body), headers: Vec::new() };
        assert(r.headers.deep_view() =~= Seq::empty());
        r
    }

    /// The answer to a CORS preflight request.
    pub fn preflight() -> (r: Response)
        ensures
            r@ == ResponseView::preflight(),
    {
        let mut headers: Vec<(String, String)> = Vec::new();
        headers.push(("Access-Control-Allow-Methods".to_owned(), "GET".to_owned()));
        headers.push(("Access-Control-Allow-Headers".to_owned(), "*".to_owned()));
        let r = Response { status: NO_CONTENT, body: None, headers };
        assert(r.headers.deep_view() =~= ResponseView::preflight().headers);
        r
    }

    /// A temporary redirect to `url`.
    pub fn redirect(url: String) -> (r: Response)
        ensures
            r@ == ResponseView::redirect(url@),
    {
        let mut headers: Vec<(String, String)> = Vec::new();
        headers.push(("Location".to_owned(), url.clone()));
        let r = Response { status: FOUND, body: Some(url), headers };
        assert(r.headers.deep_view() =~= ResponseView::redirect(url@).headers);
        r
    }

    /// The answer to a request whose method is neither `GET` nor `OPTIONS`.
    pub fn wrong_method() -> (r: Response)
        ensures
            r@ == ResponseView::wrong_method(),
    {
        Response::text(METHOD_NOT_ALLOWED, "GET method expected".to_owned())
    }
}

} // verus!
