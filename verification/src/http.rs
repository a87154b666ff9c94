//! Requests and responses as plain values.
//!
//! The library never touches the network. It describes each request it
//! wants sent, and reads each response from a record that the transport
//! fills in: status, final URL, `Location` header and, where asked for,
//! the body.

use vstd::prelude::*;
use crate::json::{Json, JsonView};

verus! {

/// HTTP status "301 Moved Permanently".
pub const MOVED_PERMANENTLY: u16 = 301;

/// HTTP status "302 Found".
pub const FOUND: u16 = 302;

/// HTTP status "200 OK".
pub const OK: u16 = 200;

/// The request method.
#[derive(Clone, Copy, Debug, PartialEq, Eq, Structural)]
pub enum Method {
    Get,
    Post,
}

/// Which part of the response body the flow will read.
#[derive(Clone, Copy, Debug, PartialEq, Eq, Structural)]
pub enum ReadBody {
    /// Status and headers are enough.
    Nothing,
    /// The body decoded as text.
    Text,
    /// The body decoded as JSON.
    Json,
}

/// One form field.
#[derive(Debug, PartialEq, Eq)]
pub struct Field {
    pub name: String,
    pub value: String,
}

/// What a request carries in its body.
#[derive(Debug, PartialEq, Eq)]
pub enum Payload {
    Empty,
    /// A JSON document.
    Json(Json),
    /// URL-encoded form fields, in order.
    Form(Vec<Field>),
}

/// A request for the transport to send. Redirects are never followed by
/// the transport; cookies are its own business.
#[derive(Debug, PartialEq, Eq)]
pub struct Request {
    pub method: Method,
    pub url: String,
    pub payload: Payload,
    pub read: ReadBody,
}

/// The `Location` header of a response.
#[derive(Debug, PartialEq, Eq)]
pub enum Location {
    /// The response has no such header.
    Absent,
    /// The header is there but is not valid text.
    Unreadable,
    /// The header's text.
    Text(String),
}

/// The body of a response, as far as it was read.
#[derive(Debug, PartialEq, Eq)]
pub enum Body {
    /// The body was not asked for.
    Unread,
    /// Reading or decoding failed; the transport's message.
    Failed(String),
    /// The body as text.
    Text(String),
    /// The body as JSON.
    Json(Json),
}

/// A response as the transport saw it.
#[derive(Debug, PartialEq, Eq)]
pub struct Response {
    pub status: u16,
    /// The URL that answered.
    pub url: String,
    pub location: Location,
    pub body: Body,
}

/// The mathematical value of a `Payload`.
pub enum PayloadView {
    Empty,
    Json(JsonView),
    Form(Seq<(Seq<char>, Seq<char>)>),
}

/// The mathematical value of a `Request`.
pub struct RequestView {
    pub method: Method,
    pub url: Seq<char>,
    pub payload: PayloadView,
    pub read: ReadBody,
}

/// The mathematical value of a `Location`.
pub enum LocationView {
    Absent,
    Unreadable,
    Text(Seq<char>),
}

/// The mathematical value of a `Body`.
pub enum BodyView {
    Unread,
    Failed(Seq<char>),
    Text(Seq<char>),
    Json(JsonView),
}

/// The mathematical value of a `Response`.
pub struct ResponseView {
    pub status: u16,
    pub url: Seq<char>,
    pub location: LocationView,
    pub body: BodyView,
}

impl View for Field {
    type V = (Seq<char>, Seq<char>);

    open spec fn view(&self) -> (Seq<char>, Seq<char>) {
        (self.name@, self.value@)
    }
}

/// The views of form fields, in order.
pub open spec fn fields_view(fields: Seq<Field>) -> Seq<(Seq<char>, Seq<char>)> {
    Seq::new(fields.len(), |i: int| fields[i]@)
}

impl View for Payload {
    type V = PayloadView;

    open spec fn view(&self) -> PayloadView {
        match self {
            Payload::Empty => PayloadView::Empty,
            Payload::Json(j) => PayloadView::Json(j@),
            Payload::Form(fields) => PayloadView::Form(fields_view(fields@)),
        }
    }
}

impl View for Request {
    type V = RequestView;

    open spec fn view(&self) -> RequestView {
        RequestView {
            method: self.method,
            url: self.url@,
            payload: self.payload@,
            read: self.read,
        }
    }
}

impl View for Location {
    type V = LocationView;

    open spec fn view(&self) -> LocationView {
        match self {
            Location::Absent => LocationView::Absent,
            Location::Unreadable => LocationView::Unreadable,
            Location::Text(s) => LocationView::Text(s@),
        }
    }
}

impl View for Body {
    type V = BodyView;

    open spec fn view(&self) -> BodyView {
        match self {
            Body::Unread => BodyView::Unread,
            Body::Failed(m) => BodyView::Failed(m@),
            Body::Text(s) => BodyView::Text(s@),
            Body::Json(j) => BodyView::Json(j@),
        }
    }
}

impl View for Response {
    type V = ResponseView;

    open spec fn view(&self) -> ResponseView {
        ResponseView {
            status: self.status,
            url: self.url@,
            location: self.location@,
            body: self.body@,
        }
    }
}

/// A 301 or a 302: the statuses the flow follows.
pub open spec fn is_redirect(status: u16) -> bool {
    status == MOVED_PERMANENTLY || status == FOUND
}

impl RequestView {
    /// A GET of `url` that reads `read` of the answer.
    pub open spec fn get(url: Seq<char>, read: ReadBody) -> RequestView {
        RequestView { method: Method::Get, url, payload: PayloadView::Empty, read }
    }
}

impl LocationView {
    /// The header's text, if it has one.
    pub open spec fn text(self) -> Option<Seq<char>> {
        match self {
            LocationView::Text(s) => Some(s),
            _ => None,
        }
    }
}

impl Field {
    /// The field `name` with the value `value`.
    pub fn new(name: &str, value: &str) -> (field: Field)
        ensures
            field@ == (name@, value@),
    {
        Field { name: name.to_owned(), value: value.to_owned() }
    }
}

impl Request {
    /// A POST of the form `fields` to `url` that reads `read` of the
    /// answer.
    pub fn post_form(url: &str, fields: Vec<Field>, read: ReadBody) -> (req: Request)
        ensures
            req@ == (RequestView {
                method: Method::Post,
                url: url@,
                payload: PayloadView::Form(fields_view(fields@)),
                read,
            }),
    {
        Request { method: Method::Post, url: url.to_owned(), payload: Payload::Form(fields), read }
    }

    /// A GET of `url` that reads `read` of the answer.
    pub fn get(url: &str, read: ReadBody) -> (req: Request)
        ensures
            req@ == RequestView::get(url@, read),
    {
        Request { method: Method::Get, url: url.to_owned(), payload: Payload::Empty, read }
    }
}

} // verus!
