//! The one exchange with the endpoint, as values: what is sent and what can
//! come back.

use vstd::prelude::*;
use vstd::pervasive::unreached;
use crate::chat::{ChatRequest, ChatRequestView};

verus! {

/// How `reqwest::StatusCode` displays the status with the given number: the
/// number, a space, and the reason phrase that goes with it.
pub uninterp spec fn status_line(code: u16) -> Seq<char>;

/// Makes a `reqwest::StatusCode` with `StatusCode::from_u16` and displays
/// it.
///
/// Believed, not proved: that there is such a status exactly for the
/// numbers from 100 to 999, and that what it displays is [`status_line`] of
/// its number.
#[verifier::external_body]
fn display_status(code: u16) -> (line: Option<String>)
    ensures
        line is Some <==> 100 <= code < 1000,
        line matches Some(text) ==> text@ == status_line(code),
{
    match reqwest::StatusCode::from_u16(code) {
        Ok(status) => Some(status.to_string()),
        Err(_) => None,
    }
}

/// The status of an HTTP response: a number from 100 to 999.
#[derive(Debug, Clone, Copy, PartialEq, Eq)]
pub struct Status {
    code: u16,
}

impl View for Status {
    type V = u16;

    closed spec fn view(&self) -> u16 {
        self.code
    }
}

impl Status {
    #[verifier::type_invariant]
    spec fn three_digits(self) -> bool {
        100 <= self.code < 1000
    }

    /// The status with the given number, if there is one.
    pub fn from_u16(code: u16) -> (status: Option<Status>)
        ensures
            status is Some <==> 100 <= code < 1000,
            status matches Some(s) ==> s@ == code,
    {
        if 100 <= code && code < 1000 {
            Some(Status { code })
        } else {
            None
        }
    }

    /// The status's number.
    pub fn as_u16(&self) -> (code: u16)
        ensures
            code == self@,
            100 <= code < 1000,
    {
        proof {
            use_type_invariant(self);
        }
        self.code
    }

    /// Whether the status reports success: the numbers from 200 to 299 do.
    pub fn is_success(&self) -> (success: bool)
        ensures
            success == (200 <= self@ < 300),
    {
        200 <= self.code && self.code < 300
    }

    /// The status as it is shown to a reader: the number and its reason
    /// phrase.
    pub fn line(&self) -> (line: String)
        ensures
            line@ == status_line(self@),
    {
        proof {
            use_type_invariant(self);
        }
        match display_status(self.code) {
            Some(line) => line,
            None => unreached(),
        }
    }
}

/// The request of a generation: where it goes, the bearer token that
/// authorises it, and the body.
#[derive(Debug, PartialEq, Eq)]
pub struct HttpRequest {
    pub url: String,
    pub bearer_token: String,
    pub body: ChatRequest,
}

/// A request over sequences.
pub struct HttpRequestView {
    pub url: Seq<char>,
    pub bearer_token: Seq<char>,
    pub body: ChatRequestView,
}

impl View for HttpRequest {
    type V = HttpRequestView;

    open spec fn view(&self) -> HttpRequestView {
        HttpRequestView { url: self.url@, bearer_token: self.bearer_token@, body: self.body@ }
    }
}

/// What came of sending the request.
#[derive(Debug, PartialEq, Eq)]
pub enum HttpReply {
    /// The request did not get through. The text says why.
    SendFailed(String),
    /// A response arrived, but its body could not be read. The text says why.
    BodyUnreadable(String),
    /// A response arrived and was read in full.
    Response { status: Status, body: String },
}

/// A reply over sequences.
pub enum HttpReplyView {
    SendFailed(Seq<char>),
    BodyUnreadable(Seq<char>),
    Response { status: u16, body: Seq<char> },
}

impl View for HttpReply {
    type V = HttpReplyView;

    open spec fn view(&self) -> HttpReplyView {
        match self {
            HttpReply::SendFailed(cause) => HttpReplyView::SendFailed(cause@),
            HttpReply::BodyUnreadable(cause) => HttpReplyView::BodyUnreadable(cause@),
            HttpReply::Response { status, body } => HttpReplyView::Response {
                status: status@,
                body: body@,
            },
        }
    }
}

} // verus!
