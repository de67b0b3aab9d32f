use vstd::prelude::*;

verus! {

/// The HTTP method a search request came by.
#[derive(Clone, Copy, Debug, PartialEq, Eq, Structural)]
pub enum Method {
    Get,
    Post,
}

/// Why a search against the marketplace failed.
pub enum SearchFailure {
    /// The call could not be completed at all; the text says why.
    Protocol(String),
    /// The marketplace answered with its error envelope, given as JSON text.
    Response(String),
    /// The marketplace answered with a failure status and an opaque body.
    ResponseCode(String, u16),
}

/// The content type of a reply body.
#[derive(Clone, Copy, Debug, PartialEq, Eq, Structural)]
pub enum BodyKind {
    Empty,
    Json,
    /// Raw text, sent without a content type.
    Text,
}

/// An HTTP reply: status, content type and body.
pub struct HttpReply {
    pub status: u16,
    pub kind: BodyKind,
    pub body: String,
}

/// The mathematical value of an `HttpReply`.
pub ghost struct ReplyShape {
    pub status: int,
    pub kind: BodyKind,
    pub body: Seq<char>,
}

impl View for HttpReply {
    type V = ReplyShape;

    open spec fn view(&self) -> ReplyShape {
        ReplyShape { status: self.status as int, kind: self.kind, body: self.body@ }
    }
}

/// The mathematical value of a search outcome: the results as JSON text, or
/// the failure.
pub ghost enum OutcomeShape {
    Found(Seq<char>),
    Protocol(Seq<char>),
    Response(Seq<char>),
    ResponseCode(Seq<char>, int),
}

pub open spec fn outcome_shape(o: Result<String, SearchFailure>) -> OutcomeShape {
    match o {
        Ok(body) => OutcomeShape::Found(body@),
        Err(SearchFailure::Protocol(m)) => OutcomeShape::Protocol(m@),
        Err(SearchFailure::Response(e)) => OutcomeShape::Response(e@),
        Err(SearchFailure::ResponseCode(t, s)) => OutcomeShape::ResponseCode(t@, s as int),
    }
}

/// A status code is three digits.
pub open spec fn valid_status(s: int) -> bool {
    100 <= s <= 999
}

/// An outcome whose status, if it carries one, is a status code.
pub open spec fn valid_outcome(o: OutcomeShape) -> bool {
    match o {
        OutcomeShape::ResponseCode(_, s) => valid_status(s),
        _ => true,
    }
}

/// The reply to a search, whatever method it came by: the results as JSON
/// with 200; 500 with no body when the call could not be made; the error
/// envelope as JSON with 400; the marketplace's own status with its text.
pub open spec fn reply_for(method: Method, o: OutcomeShape) -> ReplyShape {
    match o {
        OutcomeShape::Found(body) => ReplyShape { status: 200, kind: BodyKind::Json, body },
        OutcomeShape::Protocol(_) => ReplyShape {
            status: 500,
            kind: BodyKind::Empty,
            body: Seq::empty(),
        },
        OutcomeShape::Response(e) => ReplyShape { status: 400, kind: BodyKind::Json, body: e },
        OutcomeShape::ResponseCode(t, s) => ReplyShape { status: s, kind: BodyKind::Text, body: t },
    }
}

/// The reply to a request whose filter could not be read.
pub open spec fn malformed_reply() -> ReplyShape {
    ReplyShape { status: 400, kind: BodyKind::Empty, body: Seq::empty() }
}

/// What the proxy does with a request that arrived: answer it at once, or
/// call the marketplace with the filter it carries.
pub enum ProxyStep<P> {
    Reply(HttpReply),
    Call(P),
}

/// The first step for a request: a filter that could not be read is answered
/// with 400 and never reaches the marketplace; a filter that could is handed
/// on unchanged.
pub fn begin_search<P>(method: Method, payload: Option<P>) -> (r: ProxyStep<P>)
    ensures
        match payload {
            Some(p) => r == ProxyStep::Call(p),
            None => match r {
                ProxyStep::Reply(reply) => reply@ == malformed_reply(),
                ProxyStep::Call(_) => false,
            },
        },
{
    match payload {
        Some(p) => ProxyStep::Call(p),
        None => ProxyStep::Reply(HttpReply { status: 400, kind: BodyKind::Empty, body: String::new() }),
    }
}

/// The reply to a search once the marketplace has answered.
pub fn finish_search(method: Method, outcome: Result<String, SearchFailure>) -> (r: HttpReply)
    requires
        valid_outcome(outcome_shape(outcome)),
    ensures
        r@ == reply_for(method, outcome_shape(outcome)),
{
    match outcome {
        Ok(body) => HttpReply { status: 200, kind: BodyKind::Json, body },
        Err(SearchFailure::Protocol(_)) => HttpReply {
            status: 500,
            kind: BodyKind::Empty,
            body: String::new(),
        },
        Err(SearchFailure::Response(envelope)) => HttpReply {
            status: 400,
            kind: BodyKind::Json,
            body: envelope,
        },
        Err(SearchFailure::ResponseCode(text, status)) => HttpReply {
            status,
            kind: BodyKind::Text,
            body: text,
        },
    }
}

/// A search by GET and the same search by POST get the same reply, byte for
/// byte, on success and on every failure.
pub proof fn lemma_get_post_identical(o: OutcomeShape)
    ensures
        reply_for(Method::Get, o) == reply_for(Method::Post, o),
{
}

} // verus!
