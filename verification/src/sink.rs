//! What becomes of a commit message once its author has looked it over.

use vstd::prelude::*;

verus! {

/// What `str::trim` leaves of a text: the text without the white space at
/// its two ends.
pub uninterp spec fn trimmed(text: Seq<char>) -> Seq<char>;

/// Calls `str::trim`.
///
/// Believed, not proved: that what is left is [`trimmed`] of the text.
#[verifier::external_body]
fn trim(text: &str) -> (rest: &str)
    ensures
        rest@ == trimmed(text@),
{
    text.trim()
}

/// What to do with an edited commit message.
#[derive(Debug, PartialEq, Eq)]
pub enum CommitPlan {
    /// Commit with this message.
    Commit(String),
    /// Do not commit: the message says nothing.
    Abort,
}

/// A plan over sequences.
pub enum CommitPlanView {
    Commit(Seq<char>),
    Abort,
}

impl View for CommitPlan {
    type V = CommitPlanView;

    open spec fn view(&self) -> CommitPlanView {
        match self {
            CommitPlan::Commit(message) => CommitPlanView::Commit(message@),
            CommitPlan::Abort => CommitPlanView::Abort,
        }
    }
}

impl CommitPlanView {
    /// The line that tells how the plan went.
    pub open spec fn line(self) -> Seq<char> {
        match self {
            CommitPlanView::Commit(_) => "Commit successful."@,
            CommitPlanView::Abort => "Commit aborted because the message is empty."@,
        }
    }
}

/// The plan for a message, given what trimming leaves of it: a message of
/// which nothing is left is not committed; any other is, as it stands.
pub open spec fn plan_of(message: Seq<char>, rest: Seq<char>) -> CommitPlanView {
    if rest.len() == 0 {
        CommitPlanView::Abort
    } else {
        CommitPlanView::Commit(message)
    }
}

/// Decides on a message, given what trimming leaves of it.
pub fn plan_for(message: String, rest: &str) -> (plan: CommitPlan)
    ensures
        plan@ == plan_of(message@, rest@),
{
    if rest.is_empty() {
        CommitPlan::Abort
    } else {
        CommitPlan::Commit(message)
    }
}

/// Decides what to do with the commit message as its author left it: a
/// message that holds nothing but white space is not committed; any other
/// is committed as it stands, white space at its ends included.
pub fn plan_commit(message: String) -> (plan: CommitPlan)
    ensures
        plan@ == plan_of(message@, trimmed(message@)),
{
    let rest = trim(message.as_str()).to_owned();
    plan_for(message, rest.as_str())
}

impl CommitPlan {
    /// The line to print once the plan is carried out.
    pub fn line(&self) -> (line: String)
        ensures
            line@ == self@.line(),
    {
        match self {
            CommitPlan::Commit(_) => "Commit successful.".to_owned(),
            CommitPlan::Abort => "Commit aborted because the message is empty.".to_owned(),
        }
    }
}

} // verus!
