//! What a handler answers with.

use vstd::prelude::*;

verus! {

/// The status lines that the service uses.
#[derive(Clone, Copy, Debug, PartialEq, Eq, Structural)]
pub enum Status {
    Okay,
    Created,
    BadRequest,
    NotFound,
    InternalServerError,
    ServiceUnavailable,
}

impl Status {
    /// The numeric status code.
    pub open spec fn code_of(self) -> u16 {
        match self {
            Status::Okay => 200,
            Status::Created => 201,
            Status::BadRequest => 400,
            Status::NotFound => 404,
            Status::InternalServerError => 500,
            Status::ServiceUnavailable => 503,
        }
    }

    pub fn code(self) -> (r: u16)
        ensures
            r == self.code_of(),
    {
        match self {
            Status::Okay => 200,
            Status::Created => 201,
            Status::BadRequest => 400,
            Status::NotFound => 404,
            Status::InternalServerError => 500,
            Status::ServiceUnavailable => 503,
        }
    }
}

/// The media types that a response can announce.
#[derive(Clone, Copy, Debug, PartialEq, Eq, Structural)]
pub enum MediaType {
    Json,
    PlainText,
}

/// What a [`Response`] is in contracts.
pub struct ResponseView {
    pub status: Status,
    pub body: Seq<char>,
    pub content_type: Option<MediaType>,
}

/// A response before it reaches the transport: status, body text (empty
/// where there is no body) and the announced media type, if one was set.
#[derive(Debug)]
pub struct Response {
    pub status: Status,
    pub body: String,
    pub content_type: Option<MediaType>,
}

impl View for Response {
    type V = ResponseView;

    open spec fn view(&self) -> ResponseView {
        ResponseView { status: self.status, body: self.body@, content_type: self.content_type }
    }
}

impl PartialEq for Response {
    fn eq(&self, other: &Response) -> (r: bool) {
        self.status == other.status && self.body == other.body && self.content_type
            == other.content_type
    }
}

impl vstd::std_specs::cmp::PartialEqSpecImpl for Response {
    open spec fn obeys_eq_spec() -> bool {
        true
    }

    /// Two responses are equal where status, body and media type are.
    open spec fn eq_spec(&self, other: &Response) -> bool {
        self@ == other@
    }
}

/// A response with the given status and body and no media type set.
pub open spec fn plain(status: Status, body: Seq<char>) -> ResponseView {
    ResponseView { status, body, content_type: None }
}

/// `res` with its media type replaced by JSON.
pub open spec fn as_json(res: ResponseView) -> ResponseView {
    ResponseView { status: res.status, body: res.body, content_type: Some(MediaType::Json) }
}

impl Response {
    /// A response that carries only a status.
    pub fn with_status(status: Status) -> (r: Response)
        ensures
            r@ == plain(status, Seq::<char>::empty()),
    {
        Response { status, body: String::new(), content_type: None }
    }

    /// A response that carries a status and a body.
    pub fn with_body(status: Status, body: String) -> (r: Response)
        ensures
            r@ == plain(status, body@),
    {
        Response { status, body, content_type: None }
    }
}

/// Shaping a response twice gives what shaping it once gives, and the result
/// announces JSON whatever the response announced before.
pub proof fn shaping_overwrites_and_settles(res: ResponseView)
    ensures
        as_json(res).content_type == Some(MediaType::Json),
        as_json(res).status == res.status,
        as_json(res).body == res.body,
        as_json(as_json(res)) == as_json(res),
{
}

} // verus!
