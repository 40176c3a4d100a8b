//! JSON documents as plain values.

use vstd::prelude::*;

verus! {

/// A JSON value.
#[derive(Debug, PartialEq, Eq)]
pub enum Json {
    Null,
    Bool(bool),
    /// A number, kept as the text that denotes it.
    Number(String),
    /// A string.
    Text(String),
    Array(Vec<Json>),
    /// An object: its members, each a name with its value.
    Object(Vec<(String, Json)>),
}

/// A JSON value over sequences.
pub enum JsonView {
    Null,
    Bool(bool),
    Number(Seq<char>),
    Text(Seq<char>),
    Array(Seq<JsonView>),
    Object(Seq<(Seq<char>, JsonView)>),
}

/// What a JSON value holds.
pub open spec fn json_view(json: Json) -> JsonView
    decreases json,
{
    match json {
        Json::Null => JsonView::Null,
        Json::Bool(b) => JsonView::Bool(b),
        Json::Number(digits) => JsonView::Number(digits@),
        Json::Text(text) => JsonView::Text(text@),
        Json::Array(items) => JsonView::Array(
            Seq::new(
                items@.len(),
                |i: int|
                    if 0 <= i < items@.len() {
                        json_view(items@[i])
                    } else {
                        JsonView::Null
                    },
            ),
        ),
        Json::Object(members) => JsonView::Object(
            Seq::new(
                members@.len(),
                |i: int|
                    if 0 <= i < members@.len() {
                        (members@[i].0@, json_view(members@[i].1))
                    } else {
                        (Seq::empty(), JsonView::Null)
                    },
            ),
        ),
    }
}

impl View for Json {
    type V = JsonView;

    open spec fn view(&self) -> JsonView {
        json_view(*self)
    }
}

/// `serde_json::Value`, taken as it is: nothing is known of what is inside
/// one but what [`value_document`] names.
#[verifier::external_type_specification]
#[verifier::external_body]
pub struct ExValue(serde_json::Value);

/// The document that a `serde_json::Value` holds: its variants one for one,
/// a number as the text that displays it, the entries of an object in the
/// order in which its map hands them out.
pub uninterp spec fn value_document(value: serde_json::Value) -> JsonView;

/// What `serde_json::from_str` makes of a text when it is asked for a
/// `serde_json::Value`: the document that the value holds, or the text that
/// displays the error.
pub uninterp spec fn json_document(text: Seq<char>) -> Result<JsonView, Seq<char>>;

/// Calls `serde_json::from_str` for a `serde_json::Value`. An error is
/// handed on as the text that displays it.
///
/// Believed, not proved: that the outcome is [`json_document`] of the text,
/// which says no more than that the same text is always read in the same
/// way.
#[verifier::external_body]
fn read_value(text: &str) -> (read: Result<serde_json::Value, String>)
    ensures
        match read {
            Ok(value) => json_document(text@) == Ok::<JsonView, Seq<char>>(value_document(value)),
            Err(complaint) => json_document(text@) == Err::<JsonView, Seq<char>>(complaint@),
        },
{
    match serde_json::from_str::<serde_json::Value>(text) {
        Ok(value) => Ok(value),
        Err(error) => Err(error.to_string()),
    }
}

/// Takes a `serde_json::Value` apart into a [`Json`], variant by variant. A
/// number becomes the text that displays it, an object the entries that
/// its map hands out, in that order.
///
/// Believed, not proved: that what comes out is [`value_document`] of the
/// value.
#[verifier::external_body]
fn from_value(value: serde_json::Value) -> (json: Json)
    ensures
        json@ == value_document(value),
{
    match value {
        serde_json::Value::Null => Json::Null,
        serde_json::Value::Bool(b) => Json::Bool(b),
        serde_json::Value::Number(n) => Json::Number(n.to_string()),
        serde_json::Value::String(s) => Json::Text(s),
        serde_json::Value::Array(items) => Json::Array(items.into_iter().map(from_value).collect()),
        serde_json::Value::Object(members) => Json::Object(
            members.into_iter().map(|(name, member)| (name, from_value(member))).collect(),
        ),
    }
}

/// Reads a JSON document with serde_json: the document, or what the parser
/// has to say against the text. Of an object that gives a name twice, the
/// parser keeps the value that comes last.
pub fn parse(text: &str) -> (parsed: Result<Json, String>)
    ensures
        match parsed {
            Ok(document) => json_document(text@) == Ok::<JsonView, Seq<char>>(document@),
            Err(complaint) => json_document(text@) == Err::<JsonView, Seq<char>>(complaint@),
        },
{
    match read_value(text) {
        Ok(value) => Ok(from_value(value)),
        Err(complaint) => Err(complaint),
    }
}

/// The value of the first member called `name` among `members`.
pub open spec fn find(members: Seq<(Seq<char>, JsonView)>, name: Seq<char>) -> Option<JsonView>
    decreases members.len(),
{
    if members.len() == 0 {
        None
    } else if members[0].0 == name {
        Some(members[0].1)
    } else {
        find(members.drop_first(), name)
    }
}

impl JsonView {
    /// The value of the member called `name`, where this is an object that
    /// has one.
    pub open spec fn member(self, name: Seq<char>) -> Option<JsonView> {
        match self {
            JsonView::Object(members) => find(members, name),
            _ => None,
        }
    }
}

impl Json {
    /// The value of the member called `name`, where this is an object that
    /// has one; the first such member, should there be several.
    pub fn member<'a>(&'a self, name: &str) -> (found: Option<&'a Json>)
        ensures
            match found {
                Some(value) => self@.member(name@) == Some(value@),
                None => self@.member(name@) is None,
            },
    {
        match self {
            Json::Object(members) => {
                let wanted = name.to_owned();
                let ghost all = self@->Object_0;
                assert(all.skip(0) =~= all);
                let mut at: usize = 0;
                while at < members.len()
                    invariant
                        at <= members.len(),
                        wanted@ == name@,
                        self@ == JsonView::Object(all),
                        all.len() == members.len(),
                        forall|i: int|
                            0 <= i < members.len() ==> all[i] == (
                                #[trigger] members@[i].0@,
                                members@[i].1@,
                            ),
                        find(all, name@) == find(all.skip(at as int), name@),
                    decreases members.len() - at,
                {
                    let ghost rest = all.skip(at as int);
                    assert(rest[0] == all[at as int]);
                    assert(rest.drop_first() =~= all.skip(at + 1));
                    assert(all[at as int] == (members@[at as int].0@, members@[at as int].1@));
                    if members[at].0 == wanted {
                        assert(find(rest, name@) == Some(rest[0].1));
                        return Some(&members[at].1);
                    }
                    at += 1;
                }
                None
            },
            _ => None,
        }
    }
}

} // verus!
