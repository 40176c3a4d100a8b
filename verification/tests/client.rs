use ai_commit::ai_commit::{
    build_request, first_message, generate_commit_message, message_from_body, system_prompt,
    user_prompt,
};
use ai_commit::chat::{
    decode_choice, decode_message, decode_response, ChatRequest, ChatResponse, Choice, Message,
    SchemaError,
};
use ai_commit::error::{bad_status_message, GenerateError, TransportStage};
use ai_commit::http::{HttpReply, HttpRequest, Status};
use ai_commit::json::{parse, Json};
use ai_commit::resolve::EffectiveParameters;

fn parameters() -> EffectiveParameters {
    EffectiveParameters {
        language: "en".to_string(),
        prompt: "Use conventional commits.".to_string(),
        url: "https://example.test/v1/chat/completions".to_string(),
        model: "gpt-3.5-turbo".to_string(),
        api_key: "sk-test".to_string(),
    }
}

fn status(code: u16) -> Status {
    Status::from_u16(code).unwrap()
}

fn response(code: u16, body: &str) -> HttpReply {
    HttpReply::Response { status: status(code), body: body.to_string() }
}

fn schema_error(body: &str) -> SchemaError {
    decode_response(&parse(body).unwrap()).unwrap_err()
}

#[test]
fn system_prompt_fills_the_template() {
    assert_eq!(
        system_prompt("en", "Use conventional commits."),
        "You are a helpful assistant that generates commit messages in en. The user will provide a git diff, and you should generate a concise and informative commit message. Use conventional commits."
    );
}

#[test]
fn system_prompt_with_no_extra_instructions_ends_in_a_space() {
    assert_eq!(
        system_prompt("日本語", ""),
        "You are a helpful assistant that generates commit messages in 日本語. The user will provide a git diff, and you should generate a concise and informative commit message. "
    );
}

#[test]
fn system_prompt_takes_its_parts_verbatim() {
    let text = system_prompt("\"en\"\n", "{prompt} \\ \"quoted\"");
    assert!(text.contains("commit messages in \"en\"\n. The user"));
    assert!(text.ends_with("commit message. {prompt} \\ \"quoted\""));
}

#[test]
fn user_prompt_fences_the_diff() {
    assert_eq!(user_prompt("+a\n-b"), "Here is the git diff:\n```\n+a\n-b\n```");
}

#[test]
fn user_prompt_keeps_fences_that_the_diff_holds() {
    assert_eq!(user_prompt("```\n"), "Here is the git diff:\n```\n```\n\n```");
}

#[test]
fn request_holds_the_two_messages_in_order() {
    let request = build_request("diff --git a/x b/x", &parameters()).unwrap();
    assert_eq!(
        request,
        HttpRequest {
            url: "https://example.test/v1/chat/completions".to_string(),
            bearer_token: "sk-test".to_string(),
            body: ChatRequest {
                model: "gpt-3.5-turbo".to_string(),
                messages: vec![
                    Message {
                        role: "system".to_string(),
                        content: "You are a helpful assistant that generates commit messages in en. The user will provide a git diff, and you should generate a concise and informative commit message. Use conventional commits.".to_string(),
                    },
                    Message {
                        role: "user".to_string(),
                        content: "Here is the git diff:\n```\ndiff --git a/x b/x\n```".to_string(),
                    },
                ],
            },
        }
    );
}

#[test]
fn an_empty_diff_gets_no_request() {
    assert_eq!(build_request("", &parameters()), Err(GenerateError::EmptyDiff));
}

#[test]
fn a_diff_of_white_space_is_not_empty() {
    let request = build_request(" ", &parameters()).unwrap();
    assert_eq!(request.body.messages.len(), 2);
    assert_eq!(request.body.messages[1].content, "Here is the git diff:\n```\n \n```");
}

#[test]
fn success_returns_the_first_choice_exactly() {
    let body = r#"{"choices":[{"message":{"role":"assistant","content":"fix: correct off-by-one"}}]}"#;
    assert_eq!(
        generate_commit_message(response(200, body)),
        Ok("fix: correct off-by-one".to_string())
    );
}

#[test]
fn a_rejected_request_carries_status_and_body() {
    let generated = generate_commit_message(response(401, r#"{"error":"invalid key"}"#));
    match generated {
        Err(GenerateError::BadStatus { status, body }) => {
            assert_eq!(status.as_u16(), 401);
            assert!(body.contains("invalid key"));
            assert_eq!(body, r#"{"error":"invalid key"}"#);
        }
        other => panic!("expected BadStatus, got {other:?}"),
    }
}

#[test]
fn no_choices_is_empty_choices() {
    assert_eq!(
        generate_commit_message(response(200, r#"{"choices":[]}"#)),
        Err(GenerateError::EmptyChoices)
    );
}

#[test]
fn an_unparseable_body_is_a_parse_failure_with_the_raw_body() {
    match generate_commit_message(response(200, "not json")) {
        Err(GenerateError::ParseFailure { error, body }) => {
            assert_eq!(body, "not json");
            assert_eq!(error, "expected ident at line 1 column 2");
        }
        other => panic!("expected ParseFailure, got {other:?}"),
    }
}

#[test]
fn a_body_of_a_bad_status_is_not_parsed() {
    let body = r#"{"choices":[{"message":{"role":"assistant","content":"looks fine"}}]}"#;
    assert_eq!(
        generate_commit_message(response(500, body)),
        Err(GenerateError::BadStatus { status: status(500), body: body.to_string() })
    );
    assert_eq!(
        generate_commit_message(response(404, "not json")),
        Err(GenerateError::BadStatus { status: status(404), body: "not json".to_string() })
    );
}

#[test]
fn success_is_the_statuses_from_200_to_299() {
    let body = r#"{"choices":[{"message":{"role":"assistant","content":"ok"}}]}"#;
    for code in [200u16, 201, 204, 299] {
        assert!(status(code).is_success());
        assert_eq!(generate_commit_message(response(code, body)), Ok("ok".to_string()));
    }
    for code in [100u16, 199, 300, 301, 400, 401, 429, 500, 503, 999] {
        assert!(!status(code).is_success());
        assert_eq!(
            generate_commit_message(response(code, body)),
            Err(GenerateError::BadStatus { status: status(code), body: body.to_string() })
        );
    }
}

#[test]
fn a_status_has_three_digits() {
    assert_eq!(Status::from_u16(0), None);
    assert_eq!(Status::from_u16(99), None);
    assert_eq!(Status::from_u16(100).map(|s| s.as_u16()), Some(100));
    assert_eq!(Status::from_u16(999).map(|s| s.as_u16()), Some(999));
    assert_eq!(Status::from_u16(1000), None);
    assert_eq!(Status::from_u16(u16::MAX), None);
}

#[test]
fn a_status_is_shown_with_its_reason() {
    assert_eq!(status(200).line(), "200 OK");
    assert_eq!(status(401).line(), "401 Unauthorized");
    assert_eq!(status(503).line(), "503 Service Unavailable");
    assert_eq!(status(799).line(), "799 <unknown status code>");
}

#[test]
fn transport_failures_carry_their_cause() {
    assert_eq!(
        generate_commit_message(HttpReply::SendFailed("dns error".to_string())),
        Err(GenerateError::Transport {
            stage: TransportStage::Sending,
            cause: "dns error".to_string()
        })
    );
    assert_eq!(
        generate_commit_message(HttpReply::BodyUnreadable("connection reset".to_string())),
        Err(GenerateError::Transport {
            stage: TransportStage::Reading,
            cause: "connection reset".to_string()
        })
    );
}

#[test]
fn the_content_is_returned_unmodified() {
    let body = r#"{"choices":[{"message":{"role":"assistant","content":"  ```\nfeat: add \"x\"\n```\n\t"}}]}"#;
    assert_eq!(
        generate_commit_message(response(200, body)),
        Ok("  ```\nfeat: add \"x\"\n```\n\t".to_string())
    );
}

#[test]
fn an_empty_content_is_still_a_message() {
    let body = r#"{"choices":[{"message":{"role":"assistant","content":""}}]}"#;
    assert_eq!(generate_commit_message(response(200, body)), Ok(String::new()));
}

#[test]
fn only_the_first_choice_is_used() {
    let body = r#"{"choices":[
        {"message":{"role":"assistant","content":"first"}},
        {"message":{"role":"assistant","content":"second"}}
    ]}"#;
    assert_eq!(generate_commit_message(response(200, body)), Ok("first".to_string()));
}

#[test]
fn members_that_the_schema_does_not_know_are_ignored() {
    let body = r#"{"id":"chatcmpl-1","object":"chat.completion","created":1700000000,
        "choices":[{"index":0,"finish_reason":"stop",
            "message":{"role":"assistant","content":"docs: update readme","refusal":null}}],
        "usage":{"prompt_tokens":12,"completion_tokens":5,"total_tokens":17.0}}"#;
    assert_eq!(
        generate_commit_message(response(200, body)),
        Ok("docs: update readme".to_string())
    );
}

#[test]
fn every_choice_has_to_be_well_formed() {
    let body = r#"{"choices":[{"message":{"role":"assistant","content":"first"}},{"message":{}}]}"#;
    assert_eq!(
        generate_commit_message(response(200, body)),
        Err(GenerateError::ParseFailure {
            error: "missing field `role`".to_string(),
            body: body.to_string()
        })
    );
}

#[test]
fn each_schema_error_has_its_input() {
    assert_eq!(schema_error("[]"), SchemaError::ResponseNotObject);
    assert_eq!(schema_error("\"choices\""), SchemaError::ResponseNotObject);
    assert_eq!(schema_error("null"), SchemaError::ResponseNotObject);
    assert_eq!(schema_error("{}"), SchemaError::ChoicesMissing);
    assert_eq!(schema_error(r#"{"Choices":[]}"#), SchemaError::ChoicesMissing);
    assert_eq!(schema_error(r#"{"choices":{}}"#), SchemaError::ChoicesNotArray);
    assert_eq!(schema_error(r#"{"choices":null}"#), SchemaError::ChoicesNotArray);
    assert_eq!(schema_error(r#"{"choices":[1]}"#), SchemaError::ChoiceNotObject);
    assert_eq!(schema_error(r#"{"choices":[{}]}"#), SchemaError::MessageMissing);
    assert_eq!(schema_error(r#"{"choices":[{"message":"hi"}]}"#), SchemaError::MessageNotObject);
    assert_eq!(
        schema_error(r#"{"choices":[{"message":{"content":"hi"}}]}"#),
        SchemaError::RoleMissing
    );
    assert_eq!(
        schema_error(r#"{"choices":[{"message":{"role":1,"content":"hi"}}]}"#),
        SchemaError::RoleNotText
    );
    assert_eq!(
        schema_error(r#"{"choices":[{"message":{"role":"assistant"}}]}"#),
        SchemaError::ContentMissing
    );
    assert_eq!(
        schema_error(r#"{"choices":[{"message":{"role":"assistant","content":null}}]}"#),
        SchemaError::ContentNotText
    );
}

#[test]
fn the_first_choice_that_is_wrong_is_the_one_complained_about() {
    assert_eq!(
        schema_error(r#"{"choices":[{"message":{"role":"a","content":"b"}},7,{}]}"#),
        SchemaError::ChoiceNotObject
    );
    assert_eq!(
        schema_error(r#"{"choices":[{},7]}"#),
        SchemaError::MessageMissing
    );
}

#[test]
fn schema_errors_describe_themselves() {
    assert_eq!(
        SchemaError::ResponseNotObject.describe(),
        "invalid type: the response is not an object"
    );
    assert_eq!(SchemaError::ChoicesMissing.describe(), "missing field `choices`");
    assert_eq!(SchemaError::ChoicesNotArray.describe(), "invalid type: `choices` is not an array");
    assert_eq!(SchemaError::ChoiceNotObject.describe(), "invalid type: a choice is not an object");
    assert_eq!(SchemaError::MessageMissing.describe(), "missing field `message`");
    assert_eq!(
        SchemaError::MessageNotObject.describe(),
        "invalid type: `message` is not an object"
    );
    assert_eq!(SchemaError::RoleMissing.describe(), "missing field `role`");
    assert_eq!(SchemaError::RoleNotText.describe(), "invalid type: `role` is not a string");
    assert_eq!(SchemaError::ContentMissing.describe(), "missing field `content`");
    assert_eq!(SchemaError::ContentNotText.describe(), "invalid type: `content` is not a string");
}

#[test]
fn a_document_that_is_no_response_is_a_parse_failure() {
    assert_eq!(
        generate_commit_message(response(200, r#"{"error":"overloaded"}"#)),
        Err(GenerateError::ParseFailure {
            error: "missing field `choices`".to_string(),
            body: r#"{"error":"overloaded"}"#.to_string()
        })
    );
}

#[test]
fn an_empty_body_is_a_parse_failure() {
    match generate_commit_message(response(200, "")) {
        Err(GenerateError::ParseFailure { error, body }) => {
            assert_eq!(body, "");
            assert_eq!(error, "EOF while parsing a value at line 1 column 0");
        }
        other => panic!("expected ParseFailure, got {other:?}"),
    }
}

#[test]
fn trailing_text_after_the_document_is_a_parse_failure() {
    let body = r#"{"choices":[]} trailing"#;
    match generate_commit_message(response(200, body)) {
        Err(GenerateError::ParseFailure { error, body: carried }) => {
            assert_eq!(carried, body);
            assert_eq!(error, "trailing characters at line 1 column 16");
        }
        other => panic!("expected ParseFailure, got {other:?}"),
    }
}

#[test]
fn message_from_body_takes_the_parsers_word() {
    assert_eq!(
        message_from_body(Err("the parser's complaint".to_string()), "raw".to_string()),
        Err(GenerateError::ParseFailure {
            error: "the parser's complaint".to_string(),
            body: "raw".to_string()
        })
    );
    let message = Json::Object(vec![
        ("role".to_string(), Json::Text("assistant".to_string())),
        ("content".to_string(), Json::Text("chore: tidy".to_string())),
    ]);
    let choice = Json::Object(vec![("message".to_string(), message)]);
    let document = Json::Object(vec![("choices".to_string(), Json::Array(vec![choice]))]);
    assert_eq!(
        message_from_body(Ok(document), "raw".to_string()),
        Ok("chore: tidy".to_string())
    );
    assert_eq!(
        message_from_body(Ok(Json::Null), "null".to_string()),
        Err(GenerateError::ParseFailure {
            error: "invalid type: the response is not an object".to_string(),
            body: "null".to_string()
        })
    );
}

#[test]
fn first_message_is_the_first_or_none() {
    assert_eq!(first_message(ChatResponse { choices: vec![] }), Err(GenerateError::EmptyChoices));
    let choice = |text: &str| Choice {
        message: Message { role: "assistant".to_string(), content: text.to_string() },
    };
    assert_eq!(
        first_message(ChatResponse { choices: vec![choice("a"), choice("b"), choice("c")] }),
        Ok("a".to_string())
    );
}

#[test]
fn decoding_reads_messages_and_choices() {
    let document = parse(r#"{"content":"c","role":"r","name":"n"}"#).unwrap();
    assert_eq!(
        decode_message(&document),
        Ok(Message { role: "r".to_string(), content: "c".to_string() })
    );
    assert_eq!(decode_message(&Json::Array(vec![])), Err(SchemaError::MessageNotObject));
    let document = parse(r#"{"message":{"content":"c","role":"r"}}"#).unwrap();
    assert_eq!(
        decode_choice(&document),
        Ok(Choice { message: Message { role: "r".to_string(), content: "c".to_string() } })
    );
    assert_eq!(decode_choice(&Json::Bool(true)), Err(SchemaError::ChoiceNotObject));
    let document = parse(r#"{"choices":[{"message":{"content":"c","role":"r"}}]}"#).unwrap();
    assert_eq!(
        decode_response(&document),
        Ok(ChatResponse {
            choices: vec![Choice {
                message: Message { role: "r".to_string(), content: "c".to_string() }
            }]
        })
    );
}

#[test]
fn errors_say_what_they_carry() {
    assert_eq!(GenerateError::EmptyDiff.message(), "No staged changes to commit.");
    assert_eq!(
        GenerateError::Transport { stage: TransportStage::Sending, cause: "dns error".to_string() }
            .message(),
        "Failed to send request: dns error"
    );
    assert_eq!(
        GenerateError::Transport {
            stage: TransportStage::Reading,
            cause: "connection reset".to_string()
        }
        .message(),
        "Failed to read response body: connection reset"
    );
    assert_eq!(
        GenerateError::BadStatus {
            status: status(401),
            body: r#"{"error":"invalid key"}"#.to_string()
        }
        .message(),
        "API request failed with status 401 Unauthorized. \nResponse: {\"error\":\"invalid key\"}"
    );
    assert_eq!(
        GenerateError::ParseFailure {
            error: "expected ident at line 1 column 2".to_string(),
            body: "not json".to_string()
        }
        .message(),
        "Failed to parse JSON response: expected ident at line 1 column 2. \nRaw response: not json"
    );
    assert_eq!(GenerateError::EmptyChoices.message(), "API response is empty.");
}

#[test]
fn bad_status_message_joins_status_and_body() {
    assert_eq!(
        bad_status_message("418 I'm a teapot", "short and stout"),
        "API request failed with status 418 I'm a teapot. \nResponse: short and stout"
    );
    assert_eq!(bad_status_message("", ""), "API request failed with status . \nResponse: ");
}
