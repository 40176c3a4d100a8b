//! Asking the endpoint for a commit message: the request that goes out, and
//! what is made of the reply.

use vstd::prelude::*;
use crate::chat::{
    decode_response, message_views, response_of, ChatRequest, ChatRequestView, ChatResponse,
    ChatResponseView, Message, MessageView,
};
use crate::error::{GenerateError, GenerateErrorView, TransportStage};
use crate::http::{HttpReply, HttpReplyView, HttpRequest, HttpRequestView};
use crate::json::{json_document, parse, Json, JsonView};
use crate::resolve::{EffectiveParameters, ParametersView};
use crate::text::{join3, join4};

verus! {

/// The instructions for the model: what it is to do, in which language, and
/// the user's own instructions, taken as they are.
pub open spec fn system_prompt_text(language: Seq<char>, prompt: Seq<char>) -> Seq<char> {
    "You are a helpful assistant that generates commit messages in "@ + language
        + ". The user will provide a git diff, and you should generate a concise and informative commit message. "@
        + prompt
}

/// The user's message: the diff, taken as it is, inside a fenced block.
pub open spec fn user_prompt_text(diff: Seq<char>) -> Seq<char> {
    "Here is the git diff:\n```\n"@ + diff + "\n```"@
}

/// The request that asks for a commit message for `diff`.
pub open spec fn request_for(diff: Seq<char>, parameters: ParametersView) -> HttpRequestView {
    HttpRequestView {
        url: parameters.url,
        bearer_token: parameters.api_key,
        body: ChatRequestView {
            model: parameters.model,
            messages: seq![
                MessageView {
                    role: "system"@,
                    content: system_prompt_text(parameters.language, parameters.prompt),
                },
                MessageView { role: "user"@, content: user_prompt_text(diff) },
            ],
        },
    }
}

/// The instructions for the model.
pub fn system_prompt(language: &str, prompt: &str) -> (text: String)
    ensures
        text@ == system_prompt_text(language@, prompt@),
{
    join4(
        "You are a helpful assistant that generates commit messages in ",
        language,
        ". The user will provide a git diff, and you should generate a concise and informative commit message. ",
        prompt,
    )
}

/// The user's message.
pub fn user_prompt(diff: &str) -> (text: String)
    ensures
        text@ == user_prompt_text(diff@),
{
    join3("Here is the git diff:\n```\n", diff, "\n```")
}

/// A result with both sides taken by their views.
pub open spec fn request_view(built: Result<HttpRequest, GenerateError>) -> Result<
    HttpRequestView,
    GenerateErrorView,
> {
    match built {
        Ok(request) => Ok(request@),
        Err(error) => Err(error@),
    }
}

/// Builds the one request of a generation: a POST to the URL of the
/// parameters, authorised by their API key as a bearer token, whose body
/// names the model and holds two messages, the system's and the user's.
///
/// An empty diff gets no request. A caller is expected to have stopped
/// before this point; the answer here is `EmptyDiff`.
pub fn build_request(diff: &str, parameters: &EffectiveParameters) -> (built: Result<
    HttpRequest,
    GenerateError,
>)
    ensures
        built is Err <==> diff@.len() == 0,
        request_view(built) == if diff@.len() == 0 {
            Err::<HttpRequestView, GenerateErrorView>(GenerateErrorView::EmptyDiff)
        } else {
            Ok::<HttpRequestView, GenerateErrorView>(request_for(diff@, parameters@))
        },
{
    if diff.is_empty() {
        return Err(GenerateError::EmptyDiff);
    }
    let system = Message {
        role: "system".to_owned(),
        content: system_prompt(parameters.language.as_str(), parameters.prompt.as_str()),
    };
    let user = Message { role: "user".to_owned(), content: user_prompt(diff) };
    let mut messages: Vec<Message> = Vec::new();
    messages.push(system);
    messages.push(user);
    assert(message_views(messages@) =~= seq![system@, user@]);
    Ok(
        HttpRequest {
            url: parameters.url.clone(),
            bearer_token: parameters.api_key.clone(),
            body: ChatRequest { model: parameters.model.clone(), messages },
        },
    )
}

/// A result with both sides taken by their views.
pub open spec fn generated_view(generated: Result<String, GenerateError>) -> Result<
    Seq<char>,
    GenerateErrorView,
> {
    match generated {
        Ok(message) => Ok(message@),
        Err(error) => Err(error@),
    }
}

/// The commit message in a response body: what the first choice says,
/// untouched. A response without choices has none.
pub open spec fn first_content(response: ChatResponseView) -> Result<Seq<char>, GenerateErrorView> {
    if response.choices.len() == 0 {
        Err(GenerateErrorView::EmptyChoices)
    } else {
        Ok(response.choices[0].message.content)
    }
}

/// What is made of the body of a response that reports success, given what
/// the parser made of that body.
pub open spec fn message_in(parsed: Result<JsonView, Seq<char>>, body: Seq<char>) -> Result<
    Seq<char>,
    GenerateErrorView,
> {
    match parsed {
        Err(complaint) => Err(GenerateErrorView::ParseFailure { error: complaint, body }),
        Ok(document) => match response_of(document) {
            Err(error) => Err(GenerateErrorView::ParseFailure { error: error.text(), body }),
            Ok(response) => first_content(response),
        },
    }
}

/// What is made of a reply.
pub open spec fn generated_from(reply: HttpReplyView) -> Result<Seq<char>, GenerateErrorView> {
    match reply {
        HttpReplyView::SendFailed(cause) => Err(
            GenerateErrorView::Transport { stage: TransportStage::Sending, cause },
        ),
        HttpReplyView::BodyUnreadable(cause) => Err(
            GenerateErrorView::Transport { stage: TransportStage::Reading, cause },
        ),
        HttpReplyView::Response { status, body } => if 200 <= status < 300 {
            message_in(json_document(body), body)
        } else {
            Err(GenerateErrorView::BadStatus { status, body })
        },
    }
}

/// Takes the commit message out of a response body.
pub fn first_message(response: ChatResponse) -> (generated: Result<String, GenerateError>)
    ensures
        generated_view(generated) == first_content(response@),
{
    let mut choices = response.choices;
    if choices.len() == 0 {
        Err(GenerateError::EmptyChoices)
    } else {
        let first = choices.swap_remove(0);
        Ok(first.message.content)
    }
}

/// Makes a commit message of the body of a response that reports success.
/// `parsed` is what the parser made of `body`: a complaint of the parser,
/// or a document that is no response body, is a `ParseFailure` that carries
/// the complaint and the body as it came.
pub fn message_from_body(parsed: Result<Json, String>, body: String) -> (generated: Result<
    String,
    GenerateError,
>)
    ensures
        generated_view(generated) == message_in(
            match parsed {
                Ok(document) => Ok(document@),
                Err(complaint) => Err(complaint@),
            },
            body@,
        ),
{
    match parsed {
        Err(complaint) => Err(GenerateError::ParseFailure { error: complaint, body }),
        Ok(document) => match decode_response(&document) {
            Err(error) => Err(GenerateError::ParseFailure { error: error.describe(), body }),
            Ok(response) => first_message(response),
        },
    }
}

/// Makes a commit message of the endpoint's reply, or says why there is
/// none.
///
/// A failure of the transport is reported with its cause. A response whose
/// status is not one of success is reported with that status and its body,
/// which is not looked into. The body of a successful response is parsed;
/// the commit message is what its first choice says, unchanged.
pub fn generate_commit_message(reply: HttpReply) -> (generated: Result<String, GenerateError>)
    ensures
        generated_view(generated) == generated_from(reply@),
{
    match reply {
        HttpReply::SendFailed(cause) => Err(
            GenerateError::Transport { stage: TransportStage::Sending, cause },
        ),
        HttpReply::BodyUnreadable(cause) => Err(
            GenerateError::Transport { stage: TransportStage::Reading, cause },
        ),
        HttpReply::Response { status, body } => {
            if status.is_success() {
                let parsed = parse(body.as_str());
                message_from_body(parsed, body)
            } else {
                Err(GenerateError::BadStatus { status, body })
            }
        },
    }
}

} // verus!
