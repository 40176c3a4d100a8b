//! What can go wrong with a generation.

use vstd::prelude::*;
use crate::http::{status_line, Status};
use crate::text::{join2, join4};

verus! {

/// The part of the exchange at which the transport gave up.
#[derive(Debug, Clone, Copy, PartialEq, Eq, Structural)]
pub enum TransportStage {
    /// The request did not get through.
    Sending,
    /// The response's body could not be read.
    Reading,
}

/// Why a generation gave no commit message. Each of these ends the
/// invocation: nothing is tried a second time.
#[derive(Debug, PartialEq, Eq)]
pub enum GenerateError {
    /// There is nothing staged, so there is nothing to describe.
    EmptyDiff,
    /// The endpoint could not be reached or heard. `cause` is what the
    /// transport said about it.
    Transport { stage: TransportStage, cause: String },
    /// The endpoint answered with a status other than success. `body` is
    /// what it sent, as it came.
    BadStatus { status: Status, body: String },
    /// The endpoint reported success, but what it sent is not a response
    /// body. `error` is the parser's complaint, `body` what was sent, as it
    /// came.
    ParseFailure { error: String, body: String },
    /// The endpoint sent a response body without a single choice.
    EmptyChoices,
}

/// An error over sequences.
pub enum GenerateErrorView {
    EmptyDiff,
    Transport { stage: TransportStage, cause: Seq<char> },
    BadStatus { status: u16, body: Seq<char> },
    ParseFailure { error: Seq<char>, body: Seq<char> },
    EmptyChoices,
}

impl View for GenerateError {
    type V = GenerateErrorView;

    open spec fn view(&self) -> GenerateErrorView {
        match self {
            GenerateError::EmptyDiff => GenerateErrorView::EmptyDiff,
            GenerateError::Transport { stage, cause } => GenerateErrorView::Transport {
                stage: *stage,
                cause: cause@,
            },
            GenerateError::BadStatus { status, body } => GenerateErrorView::BadStatus {
                status: status@,
                body: body@,
            },
            GenerateError::ParseFailure { error, body } => GenerateErrorView::ParseFailure {
                error: error@,
                body: body@,
            },
            GenerateError::EmptyChoices => GenerateErrorView::EmptyChoices,
        }
    }
}

/// What is said of a response that reports no success, given the line
/// that shows its status.
pub open spec fn bad_status_text(status: Seq<char>, body: Seq<char>) -> Seq<char> {
    "API request failed with status "@ + status + ". \nResponse: "@ + body
}

impl GenerateErrorView {
    /// The error in words, for a reader who has nothing else to go by.
    pub open spec fn message(self) -> Seq<char> {
        match self {
            GenerateErrorView::EmptyDiff => "No staged changes to commit."@,
            GenerateErrorView::Transport { stage: TransportStage::Sending, cause } => {
                "Failed to send request: "@ + cause
            },
            GenerateErrorView::Transport { stage: TransportStage::Reading, cause } => {
                "Failed to read response body: "@ + cause
            },
            GenerateErrorView::BadStatus { status, body } => bad_status_text(
                status_line(status),
                body,
            ),
            GenerateErrorView::ParseFailure { error, body } => {
                "Failed to parse JSON response: "@ + error + ". \nRaw response: "@ + body
            },
            GenerateErrorView::EmptyChoices => "API response is empty."@,
        }
    }
}

/// What is said of a response that reports no success: the line that shows
/// its status, then its body.
pub fn bad_status_message(status: &str, body: &str) -> (message: String)
    ensures
        message@ == bad_status_text(status@, body@),
{
    join4("API request failed with status ", status, ". \nResponse: ", body)
}

impl GenerateError {
    /// The error in words. The status, the body and the causes that the
    /// error carries are all in it.
    pub fn message(&self) -> (message: String)
        ensures
            message@ == self@.message(),
    {
        match self {
            GenerateError::EmptyDiff => "No staged changes to commit.".to_owned(),
            GenerateError::Transport { stage, cause } => match stage {
                TransportStage::Sending => join2("Failed to send request: ", cause.as_str()),
                TransportStage::Reading => join2("Failed to read response body: ", cause.as_str()),
            },
            GenerateError::BadStatus { status, body } => {
                let line = status.line();
                bad_status_message(line.as_str(), body.as_str())
            },
            GenerateError::ParseFailure { error, body } => join4(
                "Failed to parse JSON response: ",
                error.as_str(),
                ". \nRaw response: ",
                body.as_str(),
            ),
            GenerateError::EmptyChoices => "API response is empty.".to_owned(),
        }
    }
}

} // verus!
