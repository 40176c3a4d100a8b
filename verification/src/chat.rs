//! The chat-completion exchange: the messages that go out and the choices
//! that come back.

use vstd::prelude::*;
use crate::json::{Json, JsonView};

verus! {

/// One message of a conversation: who speaks, and what is said.
#[derive(Debug, PartialEq, Eq)]
pub struct Message {
    pub role: String,
    pub content: String,
}

/// A message over sequences.
pub struct MessageView {
    pub role: Seq<char>,
    pub content: Seq<char>,
}

impl View for Message {
    type V = MessageView;

    open spec fn view(&self) -> MessageView {
        MessageView { role: self.role@, content: self.content@ }
    }
}

/// The body of a request: the model that is asked, and the conversation so
/// far.
#[derive(Debug, PartialEq, Eq)]
pub struct ChatRequest {
    pub model: String,
    pub messages: Vec<Message>,
}

/// A request body over sequences.
pub struct ChatRequestView {
    pub model: Seq<char>,
    pub messages: Seq<MessageView>,
}

/// The messages that a list holds, in order.
pub open spec fn message_views(messages: Seq<Message>) -> Seq<MessageView> {
    Seq::new(messages.len(), |i: int| messages[i]@)
}

impl View for ChatRequest {
    type V = ChatRequestView;

    open spec fn view(&self) -> ChatRequestView {
        ChatRequestView { model: self.model@, messages: message_views(self.messages@) }
    }
}

/// One answer of the model.
#[derive(Debug, PartialEq, Eq)]
pub struct Choice {
    pub message: Message,
}

/// An answer over sequences.
pub struct ChoiceView {
    pub message: MessageView,
}

impl View for Choice {
    type V = ChoiceView;

    open spec fn view(&self) -> ChoiceView {
        ChoiceView { message: self.message@ }
    }
}

/// The body of a successful response: the model's answers.
#[derive(Debug, PartialEq, Eq)]
pub struct ChatResponse {
    pub choices: Vec<Choice>,
}

/// A response body over sequences.
pub struct ChatResponseView {
    pub choices: Seq<ChoiceView>,
}

/// The answers that a list holds, in order.
pub open spec fn choice_views(choices: Seq<Choice>) -> Seq<ChoiceView> {
    Seq::new(choices.len(), |i: int| choices[i]@)
}

impl View for ChatResponse {
    type V = ChatResponseView;

    open spec fn view(&self) -> ChatResponseView {
        ChatResponseView { choices: choice_views(self.choices@) }
    }
}

/// Why a JSON document is not a response body.
#[derive(Debug, Clone, Copy, PartialEq, Eq, Structural)]
pub enum SchemaError {
    /// The document is not an object.
    ResponseNotObject,
    /// The response has no member `choices`.
    ChoicesMissing,
    /// `choices` is not an array.
    ChoicesNotArray,
    /// One of the choices is not an object.
    ChoiceNotObject,
    /// A choice has no member `message`.
    MessageMissing,
    /// A choice's `message` is not an object.
    MessageNotObject,
    /// A message has no member `role`.
    RoleMissing,
    /// A message's `role` is not a string.
    RoleNotText,
    /// A message has no member `content`.
    ContentMissing,
    /// A message's `content` is not a string.
    ContentNotText,
}

impl SchemaError {
    /// The complaint in words.
    pub open spec fn text(self) -> Seq<char> {
        match self {
            SchemaError::ResponseNotObject => "invalid type: the response is not an object"@,
            SchemaError::ChoicesMissing => "missing field `choices`"@,
            SchemaError::ChoicesNotArray => "invalid type: `choices` is not an array"@,
            SchemaError::ChoiceNotObject => "invalid type: a choice is not an object"@,
            SchemaError::MessageMissing => "missing field `message`"@,
            SchemaError::MessageNotObject => "invalid type: `message` is not an object"@,
            SchemaError::RoleMissing => "missing field `role`"@,
            SchemaError::RoleNotText => "invalid type: `role` is not a string"@,
            SchemaError::ContentMissing => "missing field `content`"@,
            SchemaError::ContentNotText => "invalid type: `content` is not a string"@,
        }
    }

    /// The complaint in words.
    pub fn describe(&self) -> (text: String)
        ensures
            text@ == self.text(),
    {
        match self {
            SchemaError::ResponseNotObject => "invalid type: the response is not an object",
            SchemaError::ChoicesMissing => "missing field `choices`",
            SchemaError::ChoicesNotArray => "invalid type: `choices` is not an array",
            SchemaError::ChoiceNotObject => "invalid type: a choice is not an object",
            SchemaError::MessageMissing => "missing field `message`",
            SchemaError::MessageNotObject => "invalid type: `message` is not an object",
            SchemaError::RoleMissing => "missing field `role`",
            SchemaError::RoleNotText => "invalid type: `role` is not a string",
            SchemaError::ContentMissing => "missing field `content`",
            SchemaError::ContentNotText => "invalid type: `content` is not a string",
        }.to_owned()
    }
}

/// A result with what it holds on success taken by its view.
pub open spec fn decoded_view<T: View>(decoded: Result<T, SchemaError>) -> Result<T::V, SchemaError> {
    match decoded {
        Ok(value) => Ok(value@),
        Err(error) => Err(error),
    }
}

/// The message that a JSON value denotes: an object whose members `role`
/// and `content` are strings. Other members do not matter.
pub open spec fn message_of(document: JsonView) -> Result<MessageView, SchemaError> {
    if !(document is Object) {
        Err(SchemaError::MessageNotObject)
    } else {
        match document.member("role"@) {
            None => Err(SchemaError::RoleMissing),
            Some(JsonView::Text(role)) => match document.member("content"@) {
                None => Err(SchemaError::ContentMissing),
                Some(JsonView::Text(content)) => Ok(MessageView { role, content }),
                Some(_) => Err(SchemaError::ContentNotText),
            },
            Some(_) => Err(SchemaError::RoleNotText),
        }
    }
}

/// The choice that a JSON value denotes: an object whose member `message`
/// is a message.
pub open spec fn choice_of(document: JsonView) -> Result<ChoiceView, SchemaError> {
    if !(document is Object) {
        Err(SchemaError::ChoiceNotObject)
    } else {
        match document.member("message"@) {
            None => Err(SchemaError::MessageMissing),
            Some(inner) => match message_of(inner) {
                Ok(message) => Ok(ChoiceView { message }),
                Err(error) => Err(error),
            },
        }
    }
}

/// The choices that a list of JSON values denotes: each of them a choice.
/// Where several are none, the complaint is about the first of these.
pub open spec fn choices_of(items: Seq<JsonView>) -> Result<Seq<ChoiceView>, SchemaError>
    decreases items.len(),
{
    if items.len() == 0 {
        Ok(Seq::empty())
    } else {
        match choices_of(items.drop_last()) {
            Err(error) => Err(error),
            Ok(before) => match choice_of(items.last()) {
                Ok(choice) => Ok(before.push(choice)),
                Err(error) => Err(error),
            },
        }
    }
}

/// The response body that a JSON document denotes: an object whose member
/// `choices` is an array of choices.
pub open spec fn response_of(document: JsonView) -> Result<ChatResponseView, SchemaError> {
    if !(document is Object) {
        Err(SchemaError::ResponseNotObject)
    } else {
        match document.member("choices"@) {
            None => Err(SchemaError::ChoicesMissing),
            Some(JsonView::Array(items)) => match choices_of(items) {
                Ok(choices) => Ok(ChatResponseView { choices }),
                Err(error) => Err(error),
            },
            Some(_) => Err(SchemaError::ChoicesNotArray),
        }
    }
}

/// Reads a message out of a JSON value.
pub fn decode_message(document: &Json) -> (decoded: Result<Message, SchemaError>)
    ensures
        decoded_view(decoded) == message_of(document@),
{
    match document {
        Json::Object(_) => match document.member("role") {
            None => Err(SchemaError::RoleMissing),
            Some(Json::Text(role)) => match document.member("content") {
                None => Err(SchemaError::ContentMissing),
                Some(Json::Text(content)) => Ok(
                    Message { role: role.clone(), content: content.clone() },
                ),
                Some(_) => Err(SchemaError::ContentNotText),
            },
            Some(_) => Err(SchemaError::RoleNotText),
        },
        _ => Err(SchemaError::MessageNotObject),
    }
}

/// Reads a choice out of a JSON value.
pub fn decode_choice(document: &Json) -> (decoded: Result<Choice, SchemaError>)
    ensures
        decoded_view(decoded) == choice_of(document@),
{
    match document {
        Json::Object(_) => match document.member("message") {
            None => Err(SchemaError::MessageMissing),
            Some(inner) => match decode_message(inner) {
                Ok(message) => Ok(Choice { message }),
                Err(error) => Err(error),
            },
        },
        _ => Err(SchemaError::ChoiceNotObject),
    }
}

/// Reads a response body out of a JSON document. Every choice has to be
/// well formed, not only the one that is used.
pub fn decode_response(document: &Json) -> (decoded: Result<ChatResponse, SchemaError>)
    ensures
        decoded_view(decoded) == response_of(document@),
{
    match document {
        Json::Object(_) => match document.member("choices") {
            None => Err(SchemaError::ChoicesMissing),
            Some(Json::Array(items)) => {
                let ghost all = document@.member("choices"@)->0->Array_0;
                let mut choices: Vec<Choice> = Vec::new();
                let mut at: usize = 0;
                assert(all.take(0) =~= Seq::<JsonView>::empty());
                assert(choice_views(choices@) =~= Seq::<ChoiceView>::empty());
                while at < items.len()
                    invariant
                        at <= items.len(),
                        document@ is Object,
                        document@.member("choices"@) == Some(JsonView::Array(all)),
                        all.len() == items.len(),
                        forall|i: int| 0 <= i < items.len() ==> all[i] == #[trigger] items@[i]@,
                        choices_of(all.take(at as int)) == Ok::<Seq<ChoiceView>, SchemaError>(
                            choice_views(choices@),
                        ),
                    decreases items.len() - at,
                {
                    let ghost before = all.take(at as int);
                    let ghost upto = all.take(at + 1);
                    assert(upto.drop_last() =~= before);
                    assert(upto.last() == items@[at as int]@);
                    match decode_choice(&items[at]) {
                        Ok(choice) => {
                            let ghost old_views = choice_views(choices@);
                            choices.push(choice);
                            assert(choice_views(choices@) =~= old_views.push(choice@));
                        },
                        Err(error) => {
                            proof {
                                assert(choices_of(upto) == Err::<Seq<ChoiceView>, SchemaError>(
                                    error,
                                ));
                                lemma_choices_fail_on(all, at as int + 1);
                            }
                            return Err(error);
                        },
                    }
                    at += 1;
                }
                assert(all.take(at as int) =~= all);
                Ok(ChatResponse { choices })
            },
            Some(_) => Err(SchemaError::ChoicesNotArray),
        },
        _ => Err(SchemaError::ResponseNotObject),
    }
}

/// Once a front part of a list fails to be choices, the whole list fails
/// in the same way.
proof fn lemma_choices_fail_on(items: Seq<JsonView>, upto: int)
    requires
        0 <= upto <= items.len(),
        choices_of(items.take(upto)) is Err,
    ensures
        choices_of(items) == choices_of(items.take(upto)),
    decreases items.len(),
{
    if upto < items.len() {
        assert(items.drop_last().take(upto) =~= items.take(upto));
        lemma_choices_fail_on(items.drop_last(), upto);
    } else {
        assert(items.take(upto) =~= items);
    }
}

} // verus!
