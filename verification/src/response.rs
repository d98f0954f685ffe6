//! The HTTP response model: status, headers and body, a small pure builder,
//! and the `Responder` conversions that let handlers return plain values.

use vstd::prelude::*;
use vstd::utf8::encode_utf8;

use crate::strutil::decimal_string;
use crate::strutil::spec_decimal;

verus! {

pub const STATUS_OK: u16 = 200;

pub const STATUS_ACCEPTED: u16 = 202;

pub const STATUS_NO_CONTENT: u16 = 204;

pub const STATUS_NOT_FOUND: u16 = 404;

pub const STATUS_INTERNAL_SERVER_ERROR: u16 = 500;

/// An HTTP response: status code, header lines in order, and the body.
pub struct Response {
    status: u16,
    headers: Vec<(String, String)>,
    body: String,
}

/// The mathematical picture of a response.
#[verifier::ext_equal]
pub struct ResponseView {
    pub status: u16,
    pub headers: Seq<(Seq<char>, Seq<char>)>,
    pub body: Seq<char>,
}

impl View for Response {
    type V = ResponseView;

    closed spec fn view(&self) -> ResponseView {
        ResponseView {
            status: self.status,
            headers: self.headers.deep_view(),
            body: self.body@,
        }
    }
}

/// A bare response carrying only a status code.
pub open spec fn spec_status_response(status: u16) -> ResponseView {
    ResponseView { status, headers: Seq::empty(), body: Seq::empty() }
}

impl Response {
    /// A new response: 200, no headers, empty body.
    pub fn new() -> (r: Response)
        ensures
            r@ == spec_status_response(STATUS_OK),
    {
        let r = Response { status: STATUS_OK, headers: Vec::new(), body: String::new() };
        proof {
            assert(r@ =~= spec_status_response(STATUS_OK));
        }
        r
    }

    /// A new builder-style object to manufacture a response.
    pub fn build() -> (r: Builder)
        ensures
            r@ == spec_status_response(STATUS_OK),
    {
        Builder { inner: Response::new() }
    }

    /// The response a plain value converts to.
    pub fn with<R: Responder>(responder: R) -> (r: Response)
        ensures
            r@ == responder.response_of(),
    {
        responder.to_response()
    }

    /// The status code.
    pub fn status(&self) -> (r: u16)
        ensures
            r == self@.status,
    {
        self.status
    }

    /// Replaces the status code.
    pub fn set_status(&mut self, status: u16)
        ensures
            final(self)@ == (ResponseView { status, ..old(self)@ }),
    {
        self.status = status;
        proof {
            assert(self@ =~= ResponseView { status, ..old(self)@ });
        }
    }

    /// Replaces the status code, chaining style.
    pub fn with_status(self, status: u16) -> (r: Response)
        ensures
            r@ == (ResponseView { status, ..self@ }),
    {
        let mut r = self;
        r.set_status(status);
        r
    }

    /// Takes the body.
    pub fn body(self) -> (r: String)
        ensures
            r@ == self@.body,
    {
        self.body
    }

    /// Replaces the body.
    pub fn set_body(&mut self, body: String)
        ensures
            final(self)@ == (ResponseView { body: body@, ..old(self)@ }),
    {
        self.body = body;
        proof {
            assert(self@ =~= ResponseView { body: body@, ..old(self)@ });
        }
    }

    /// Replaces the body, chaining style.
    pub fn with_body(self, body: String) -> (r: Response)
        ensures
            r@ == (ResponseView { body: body@, ..self@ }),
    {
        let mut r = self;
        r.set_body(body);
        r
    }

    /// Appends a header line.
    pub fn with_header(self, name: &str, value: &str) -> (r: Response)
        ensures
            r@ == (ResponseView { headers: self@.headers.push((name@, value@)), ..self@ }),
    {
        let mut r = self;
        let ghost before = r.headers.deep_view();
        r.headers.push((name.to_owned(), value.to_owned()));
        proof {
            assert(r.headers.deep_view() =~= before.push((name@, value@)));
            assert(r@ =~= ResponseView { headers: self@.headers.push((name@, value@)), ..self@ });
        }
        r
    }

    /// The header lines, in the order they were appended.
    pub fn headers(&self) -> (r: &Vec<(String, String)>)
        ensures
            r.deep_view() == self@.headers,
    {
        &self.headers
    }
}

impl Default for Response {
    /// The same response `new` constructs.
    fn default() -> (r: Response)
        ensures
            r@ == spec_status_response(STATUS_OK),
    {
        Response::new()
    }
}

/// An HTTP response builder: a thin, chaining face over `Response`.
pub struct Builder {
    inner: Response,
}

impl View for Builder {
    type V = ResponseView;

    closed spec fn view(&self) -> ResponseView {
        self.inner@
    }
}

impl Builder {
    /// A fresh builder over the default response.
    pub fn new() -> (r: Builder)
        ensures
            r@ == spec_status_response(STATUS_OK),
    {
        Response::build()
    }

    /// Sets the status for the response under construction.
    pub fn status(self, status: u16) -> (r: Builder)
        ensures
            r@ == (ResponseView { status, ..self@ }),
    {
        Builder { inner: self.inner.with_status(status) }
    }

    /// Appends a header line to the response under construction.
    pub fn header(self, name: &str, value: &str) -> (r: Builder)
        ensures
            r@ == (ResponseView { headers: self@.headers.push((name@, value@)), ..self@ }),
    {
        Builder { inner: self.inner.with_header(name, value) }
    }

    /// Finalizes with the given body, yielding the response.
    pub fn body(self, body: String) -> (r: Response)
        ensures
            r@ == (ResponseView { body: body@, ..self@ }),
    {
        self.inner.with_body(body)
    }

    /// Finalizes without touching the body.
    pub fn finish(self) -> (r: Response)
        ensures
            r@ == self@,
    {
        self.inner
    }
}

/// A value a handler can answer with: anything with a fixed conversion to a
/// response.
pub trait Responder: Sized {
    /// The response this value converts to.
    spec fn response_of(self) -> ResponseView;

    fn to_response(self) -> (r: Response)
        ensures
            r@ == self.response_of(),
    ;
}

impl Responder for () {
    /// The empty value answers 204, no content.
    open spec fn response_of(self) -> ResponseView {
        spec_status_response(STATUS_NO_CONTENT)
    }

    fn to_response(self) -> (r: Response)
        ensures
            r@ == self.response_of(),
    {
        Response::new().with_status(STATUS_NO_CONTENT)
    }
}

impl Responder for u16 {
    /// A bare status code answers itself, with no content.
    open spec fn response_of(self) -> ResponseView {
        spec_status_response(self)
    }

    fn to_response(self) -> (r: Response)
        ensures
            r@ == self.response_of(),
    {
        Response::new().with_status(self)
    }
}

/// The response a piece of text converts to: 200, the text as the body, and
/// its byte length (as the machine word the implementation measures)
/// announced in a Content-Length header.
pub open spec fn spec_text_response(text: Seq<char>) -> ResponseView {
    ResponseView {
        status: STATUS_OK,
        headers: seq![
            ("Content-Length"@, spec_decimal((encode_utf8(text).len() as usize) as int)),
        ],
        body: text,
    }
}

impl Responder for String {
    open spec fn response_of(self) -> ResponseView {
        spec_text_response(self@)
    }

    fn to_response(self) -> (r: Response)
        ensures
            r@ == self.response_of(),
    {
        let length = decimal_string(self.as_str().len() as u64);
        let r = Response::new().with_header("Content-Length", length.as_str()).with_body(self);
        proof {
            assert(length@ == spec_decimal((encode_utf8(self@).len() as usize) as int));
            assert(r@.headers =~= spec_text_response(self@).headers);
            assert(r@ =~= spec_text_response(self@));
        }
        r
    }
}

impl<'a> Responder for &'a str {
    open spec fn response_of(self) -> ResponseView {
        spec_text_response(self@)
    }

    fn to_response(self) -> (r: Response)
        ensures
            r@ == self.response_of(),
    {
        self.to_owned().to_response()
    }
}

impl<R: Responder> Responder for (u16, R) {
    /// A pair answers as its second component, with the status replaced.
    open spec fn response_of(self) -> ResponseView {
        ResponseView { status: self.0, ..self.1.response_of() }
    }

    fn to_response(self) -> (r: Response)
        ensures
            r@ == self.response_of(),
    {
        let (status, responder) = self;
        responder.to_response().with_status(status)
    }
}

impl Responder for Response {
    open spec fn response_of(self) -> ResponseView {
        self@
    }

    fn to_response(self) -> (r: Response)
        ensures
            r@ == self.response_of(),
    {
        self
    }
}

} // verus!
