//! The response codec: every outcome becomes exactly one reply, with a
//! status code, a content type and a body.

use vstd::prelude::*;
use crate::error::{ApiError, Malformed, Upstream};
use vstd::string::{StrSliceExecFns, StringExecFns};

verus! {

pub const STATUS_OK: u16 = 200;

pub const STATUS_BAD_REQUEST: u16 = 400;

pub const STATUS_NOT_FOUND: u16 = 404;

/// The kinds of content that replies carry.
#[derive(Clone, Copy, Debug, PartialEq, Eq, Structural)]
pub enum ContentKind {
    Json,
    Html,
    Css,
    PlainText,
    Binary,
}

pub open spec fn mime_of(k: ContentKind) -> Seq<char> {
    match k {
        ContentKind::Json => "application/json"@,
        ContentKind::Html => "text/html; charset=utf-8"@,
        ContentKind::Css => "text/css"@,
        ContentKind::PlainText => "text/plain; charset=utf-8"@,
        ContentKind::Binary => "application/octet-stream"@,
    }
}

impl ContentKind {
    /// The media type that names this kind of content.
    pub fn mime(&self) -> (r: &'static str)
        ensures
            r@ == mime_of(*self),
    {
        match self {
            ContentKind::Json => "application/json",
            ContentKind::Html => "text/html; charset=utf-8",
            ContentKind::Css => "text/css",
            ContentKind::PlainText => "text/plain; charset=utf-8",
            ContentKind::Binary => "application/octet-stream",
        }
    }
}

/// One reply to one request.
#[derive(Clone, Debug, PartialEq, Eq)]
pub struct Reply {
    pub status: u16,
    pub content: Option<ContentKind>,
    pub body: Vec<u8>,
}

/// What a reply is, over plain values.
pub struct ReplyView {
    pub status: u16,
    pub content: Option<ContentKind>,
    pub body: Seq<u8>,
}

impl View for Reply {
    type V = ReplyView;

    open spec fn view(&self) -> ReplyView {
        ReplyView { status: self.status, content: self.content, body: self.body@ }
    }
}

/// The plain-text message that explains an error.
pub open spec fn message_of(e: ApiError) -> Seq<char> {
    match e {
        ApiError::NotFound => "not found"@,
        ApiError::MalformedRequest(m) => match m {
            Malformed::MissingSegment => "missing path segment"@,
            Malformed::InvalidPageNumber => "invalid page number"@,
            Malformed::UnpairedParameter => "parameter without a value"@,
            Malformed::InvalidBody => "invalid request body"@,
            Malformed::BodyTooLarge => "request body too large"@,
        },
        ApiError::UpstreamFailure(u) => match u {
            Upstream::NoDatabaseUrl => "no database url is configured"@,
            Upstream::Storage(s) => s@,
        },
        ApiError::SerializationFailure(s) => s@,
    }
}

impl ApiError {
    /// The plain-text message that explains this error.
    pub fn message(&self) -> (r: String)
        ensures
            r@ == message_of(*self),
    {
        match self {
            ApiError::NotFound => String::from_str("not found"),
            ApiError::MalformedRequest(m) => match m {
                Malformed::MissingSegment => String::from_str("missing path segment"),
                Malformed::InvalidPageNumber => String::from_str("invalid page number"),
                Malformed::UnpairedParameter => String::from_str("parameter without a value"),
                Malformed::InvalidBody => String::from_str("invalid request body"),
                Malformed::BodyTooLarge => String::from_str("request body too large"),
            },
            ApiError::UpstreamFailure(u) => match u {
                Upstream::NoDatabaseUrl => String::from_str("no database url is configured"),
                Upstream::Storage(s) => s.clone(),
            },
            ApiError::SerializationFailure(s) => s.clone(),
        }
    }
}

/// The reply to an outcome: a payload is sent as it is, as JSON, with
/// status 200; not found is status 404 with an empty body; every other
/// error is status 400 with its message as plain text.
pub open spec fn reply_of(outcome: Result<Seq<u8>, ApiError>) -> ReplyView {
    match outcome {
        Ok(payload) => ReplyView { status: 200, content: Some(ContentKind::Json), body: payload },
        Err(ApiError::NotFound) => ReplyView { status: 404, content: None, body: Seq::empty() },
        Err(e) => ReplyView {
            status: 400,
            content: Some(ContentKind::PlainText),
            body: vstd::utf8::encode_utf8(message_of(e)),
        },
    }
}

/// A payload is replied byte for byte, so the same rows give the same reply.
pub proof fn lemma_reply_keeps_payload(payload: Seq<u8>)
    ensures
        reply_of(Ok(payload)).body == payload,
        reply_of(Ok(payload)).status == STATUS_OK,
        reply_of(Ok(payload)).content == Some(ContentKind::Json),
{
}

/// Maps the outcome of a request to its reply.
pub fn encode_reply(outcome: Result<Vec<u8>, ApiError>) -> (r: Reply)
    ensures
        r@ == reply_of(
            match outcome {
                Ok(p) => Ok::<Seq<u8>, ApiError>(p@),
                Err(e) => Err::<Seq<u8>, ApiError>(e),
            },
        ),
{
    match outcome {
        Ok(payload) => Reply { status: STATUS_OK, content: Some(ContentKind::Json), body: payload },
        Err(ApiError::NotFound) => Reply { status: STATUS_NOT_FOUND, content: None, body: Vec::new() },
        Err(e) => {
            let text = e.message();
            let body = text.as_str().as_bytes_vec();
            Reply { status: STATUS_BAD_REQUEST, content: Some(ContentKind::PlainText), body }
        },
    }
}

} // verus!
