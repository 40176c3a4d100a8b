//! One invocation that generates a commit message, as a sequence of steps.
//!
//! The library decides; its caller acts. Each step hands out an [`Action`]
//! for the caller to carry out, and the caller reports back with an
//! [`Event`]. The invocation is over when the action is `Finish`.

use vstd::prelude::*;
use crate::ai_commit::{build_request, generate_commit_message, generated_from, request_for};
use crate::cli::OverridesView;
use crate::config::ConfigView;
use crate::error::{GenerateError, GenerateErrorView};
use crate::http::{HttpReply, HttpReplyView, HttpRequest, HttpRequestView};
use crate::resolve::{spec_resolve, EffectiveParameters, ParametersView};
use crate::text::join2;

verus! {

/// How an invocation ended.
#[derive(Debug, PartialEq, Eq)]
pub enum Outcome {
    /// There is no API key to work with. Nothing was read and nothing sent.
    MissingApiKey,
    /// Nothing is staged. Nothing was sent.
    NoStagedChanges,
    /// The commit message that the model suggests.
    Message(String),
    /// The generation failed.
    Failed(GenerateError),
}

/// An outcome over sequences.
pub enum OutcomeView {
    MissingApiKey,
    NoStagedChanges,
    Message(Seq<char>),
    Failed(GenerateErrorView),
}

impl View for Outcome {
    type V = OutcomeView;

    open spec fn view(&self) -> OutcomeView {
        match self {
            Outcome::MissingApiKey => OutcomeView::MissingApiKey,
            Outcome::NoStagedChanges => OutcomeView::NoStagedChanges,
            Outcome::Message(message) => OutcomeView::Message(message@),
            Outcome::Failed(error) => OutcomeView::Failed(error@),
        }
    }
}

/// Where a report goes.
#[derive(Debug, Clone, Copy, PartialEq, Eq, Structural)]
pub enum Stream {
    /// The output stream.
    Output,
    /// The error stream.
    Error,
}

/// What is printed when an invocation ends, and where.
#[derive(Debug, PartialEq, Eq)]
pub struct Report {
    pub stream: Stream,
    pub text: String,
}

impl OutcomeView {
    /// The outcome of a generation that has run its course.
    pub open spec fn of(generated: Result<Seq<char>, GenerateErrorView>) -> OutcomeView {
        match generated {
            Ok(message) => OutcomeView::Message(message),
            Err(error) => OutcomeView::Failed(error),
        }
    }

    /// The stream that the outcome is reported on: the error stream for a
    /// missing key and for a failure, the output stream otherwise.
    pub open spec fn stream(self) -> Stream {
        match self {
            OutcomeView::MissingApiKey => Stream::Error,
            OutcomeView::NoStagedChanges => Stream::Output,
            OutcomeView::Message(_) => Stream::Output,
            OutcomeView::Failed(_) => Stream::Error,
        }
    }

    /// The text that reports the outcome.
    pub open spec fn text(self) -> Seq<char> {
        match self {
            OutcomeView::MissingApiKey => {
                "API key not set. Please run `ai_commit config set-api-key <YOUR_KEY>`"@
            },
            OutcomeView::NoStagedChanges => "No staged changes to commit."@,
            OutcomeView::Message(message) => message,
            OutcomeView::Failed(error) => "Error generating commit message:\n"@ + error.message(),
        }
    }

    /// The status that the process ends with: 1 for a failed generation, 0
    /// otherwise. A missing key is reported and does not count as a failure;
    /// an empty diff is none either.
    pub open spec fn exit_code(self) -> int {
        match self {
            OutcomeView::Failed(GenerateErrorView::EmptyDiff) => 0,
            OutcomeView::Failed(_) => 1,
            _ => 0,
        }
    }
}

impl Outcome {
    /// What to print, and where.
    pub fn report(&self) -> (report: Report)
        ensures
            report.stream == self@.stream(),
            report.text@ == self@.text(),
    {
        match self {
            Outcome::MissingApiKey => Report {
                stream: Stream::Error,
                text: "API key not set. Please run `ai_commit config set-api-key <YOUR_KEY>`".to_owned(),
            },
            Outcome::NoStagedChanges => Report {
                stream: Stream::Output,
                text: "No staged changes to commit.".to_owned(),
            },
            Outcome::Message(message) => Report { stream: Stream::Output, text: message.clone() },
            Outcome::Failed(error) => {
                let message = error.message();
                Report {
                    stream: Stream::Error,
                    text: join2("Error generating commit message:\n", message.as_str()),
                }
            },
        }
    }

    /// The status to end the process with.
    pub fn exit_code(&self) -> (code: i32)
        ensures
            code == self@.exit_code(),
    {
        match self {
            Outcome::Failed(GenerateError::EmptyDiff) => 0,
            Outcome::Failed(_) => 1,
            _ => 0,
        }
    }
}

/// What the caller is asked to do next.
#[derive(Debug, PartialEq, Eq)]
pub enum Action {
    /// Read the staged diff and report it with [`Event::Diff`].
    ReadDiff,
    /// Send this request, once, and report what came of it with
    /// [`Event::Reply`].
    Send(HttpRequest),
    /// Stop: the invocation has ended in this way.
    Finish(Outcome),
    /// Nothing: the event was not one that the invocation was waiting for.
    Ignore,
}

/// An action over sequences.
pub enum ActionView {
    ReadDiff,
    Send(HttpRequestView),
    Finish(OutcomeView),
    Ignore,
}

impl View for Action {
    type V = ActionView;

    open spec fn view(&self) -> ActionView {
        match self {
            Action::ReadDiff => ActionView::ReadDiff,
            Action::Send(request) => ActionView::Send(request@),
            Action::Finish(outcome) => ActionView::Finish(outcome@),
            Action::Ignore => ActionView::Ignore,
        }
    }
}

/// What the caller reports back.
#[derive(Debug, PartialEq, Eq)]
pub enum Event {
    /// The staged diff, as text.
    Diff(String),
    /// What came of sending the request.
    Reply(HttpReply),
}

/// An event over sequences.
pub enum EventView {
    Diff(Seq<char>),
    Reply(HttpReplyView),
}

impl View for Event {
    type V = EventView;

    open spec fn view(&self) -> EventView {
        match self {
            Event::Diff(diff) => EventView::Diff(diff@),
            Event::Reply(reply) => EventView::Reply(reply@),
        }
    }
}

/// Where an invocation stands.
#[derive(Debug, PartialEq, Eq)]
pub enum Session {
    /// The parameters are decided; the diff is awaited.
    AwaitingDiff(EffectiveParameters),
    /// The request is out; the reply is awaited.
    AwaitingReply,
    /// The invocation has ended.
    Done,
}

/// A session over sequences.
pub enum SessionView {
    AwaitingDiff(ParametersView),
    AwaitingReply,
    Done,
}

impl View for Session {
    type V = SessionView;

    open spec fn view(&self) -> SessionView {
        match self {
            Session::AwaitingDiff(parameters) => SessionView::AwaitingDiff(parameters@),
            Session::AwaitingReply => SessionView::AwaitingReply,
            Session::Done => SessionView::Done,
        }
    }
}

/// How an invocation begins: without an API key it ends at once; with one,
/// the diff is asked for.
pub open spec fn start_of(overrides: OverridesView, config: ConfigView) -> (SessionView, ActionView) {
    match spec_resolve(overrides, config) {
        Err(_) => (SessionView::Done, ActionView::Finish(OutcomeView::MissingApiKey)),
        Ok(parameters) => (SessionView::AwaitingDiff(parameters), ActionView::ReadDiff),
    }
}

/// How an invocation goes on. An empty diff ends it; any other diff is
/// sent off. The reply ends it, one way or the other. An event that does
/// not answer the last action changes nothing.
pub open spec fn step_of(session: SessionView, event: EventView) -> (SessionView, ActionView) {
    match (session, event) {
        (SessionView::AwaitingDiff(parameters), EventView::Diff(diff)) => if diff.len() == 0 {
            (SessionView::Done, ActionView::Finish(OutcomeView::NoStagedChanges))
        } else {
            (SessionView::AwaitingReply, ActionView::Send(request_for(diff, parameters)))
        },
        (SessionView::AwaitingReply, EventView::Reply(reply)) => (
            SessionView::Done,
            ActionView::Finish(OutcomeView::of(generated_from(reply))),
        ),
        _ => (session, ActionView::Ignore),
    }
}

impl Session {
    /// Takes the invocation one step further.
    pub fn step(self, event: Event) -> (next: (Session, Action))
        ensures
            (next.0@, next.1@) == step_of(self@, event@),
    {
        match (self, event) {
            (Session::AwaitingDiff(parameters), Event::Diff(diff)) => {
                match build_request(diff.as_str(), &parameters) {
                    Err(_) => (Session::Done, Action::Finish(Outcome::NoStagedChanges)),
                    Ok(request) => (Session::AwaitingReply, Action::Send(request)),
                }
            },
            (Session::AwaitingReply, Event::Reply(reply)) => {
                match generate_commit_message(reply) {
                    Ok(message) => (Session::Done, Action::Finish(Outcome::Message(message))),
                    Err(error) => (Session::Done, Action::Finish(Outcome::Failed(error))),
                }
            },
            (session, _) => (session, Action::Ignore),
        }
    }
}

/// The actions that a session hands out when it is fed these events, one
/// after the other.
pub open spec fn actions_of(session: SessionView, events: Seq<EventView>) -> Seq<ActionView>
    decreases events.len(),
{
    if events.len() == 0 {
        Seq::empty()
    } else {
        let (next, action) = step_of(session, events[0]);
        seq![action] + actions_of(next, events.drop_first())
    }
}

/// The number of requests among some actions.
pub open spec fn requests_in(actions: Seq<ActionView>) -> nat
    decreases actions.len(),
{
    if actions.len() == 0 {
        0
    } else if actions[0] is Send {
        1 + requests_in(actions.drop_first())
    } else {
        requests_in(actions.drop_first())
    }
}

/// The most requests that a session can still hand out: one while the
/// diff is awaited, none after that.
pub open spec fn requests_left(session: SessionView) -> nat {
    match session {
        SessionView::AwaitingDiff(_) => 1,
        _ => 0,
    }
}

/// A session sends at most what it has left: whatever it is fed, an
/// invocation sends one request at most, and none once the request is out
/// or the invocation has ended. Nothing is ever sent a second time.
pub proof fn law_at_most_one_request(session: SessionView, events: Seq<EventView>)
    ensures
        requests_in(actions_of(session, events)) <= requests_left(session),
    decreases events.len(),
{
    if events.len() > 0 {
        let (next, action) = step_of(session, events[0]);
        let rest = actions_of(next, events.drop_first());
        law_at_most_one_request(next, events.drop_first());
        assert((seq![action] + rest).drop_first() =~= rest);
        assert((seq![action] + rest)[0] == action);
    }
}

/// Without an API key on either side an invocation ends as it begins, with
/// `MissingApiKey`, and sends nothing, whatever it is fed afterwards.
pub proof fn law_missing_key_sends_nothing(
    overrides: OverridesView,
    config: ConfigView,
    events: Seq<EventView>,
)
    requires
        overrides.api_key is None,
        config.api_key is None,
    ensures
        start_of(overrides, config) == (
            SessionView::Done,
            ActionView::Finish(OutcomeView::MissingApiKey),
        ),
        requests_in(actions_of(start_of(overrides, config).0, events)) == 0,
{
    law_at_most_one_request(SessionView::Done, events);
}

/// An empty diff ends the invocation with `NoStagedChanges`, and nothing is
/// sent, whatever the invocation is fed afterwards.
pub proof fn law_empty_diff_sends_nothing(parameters: ParametersView, events: Seq<EventView>)
    ensures
        step_of(SessionView::AwaitingDiff(parameters), EventView::Diff(Seq::empty())) == (
            SessionView::Done,
            ActionView::Finish(OutcomeView::NoStagedChanges),
        ),
        requests_in(
            actions_of(
                SessionView::AwaitingDiff(parameters),
                seq![EventView::Diff(Seq::empty())] + events,
            ),
        ) == 0,
{
    let first = EventView::Diff(Seq::<char>::empty());
    let all = seq![first] + events;
    let done = ActionView::Finish(OutcomeView::NoStagedChanges);
    let rest = actions_of(SessionView::Done, events);
    assert(all[0] == first);
    assert(all.drop_first() =~= events);
    assert(actions_of(SessionView::AwaitingDiff(parameters), all) == seq![done] + rest);
    assert((seq![done] + rest).drop_first() =~= rest);
    assert((seq![done] + rest)[0] == done);
    law_at_most_one_request(SessionView::Done, events);
}

} // verus!
