use gpt_cli::client::{
    answer_from, build_api_url, build_authorization, build_request, extract_answer,
    parse_document, read_reply, ApiError, EndpointStyle, RequestBody, COMPLETIONS_PER_REQUEST,
    TEMPERATURE_TENTHS,
};
use gpt_cli::config::{Config, Verbosity};

fn sample_config() -> Config {
    Config {
        context: "You are terse.".to_string(),
        max_tokens: 64,
        model: "text-davinci-003".to_string(),
        verbosity: Verbosity::Default,
    }
}

fn document(text: &str) -> serde_json::Value {
    serde_json::from_str(text).unwrap()
}

#[test]
fn api_url_names_the_model() {
    assert_eq!(
        build_api_url("text-davinci-003"),
        "https://api.openai.com/v1/engines/text-davinci-003/completions"
    );
    assert_eq!(build_api_url(""), "https://api.openai.com/v1/engines//completions");
}

#[test]
fn authorization_is_a_bearer_token() {
    assert_eq!(build_authorization("sk-test"), "Bearer sk-test");
    assert_eq!(build_authorization(""), "Bearer ");
}

#[test]
fn legacy_request_joins_context_and_query() {
    let request = build_request(EndpointStyle::LegacyCompletion, &sample_config(), "Why?", "key");
    assert_eq!(request.url, "https://api.openai.com/v1/engines/text-davinci-003/completions");
    assert_eq!(request.authorization, "Bearer key");
    match request.body {
        RequestBody::Legacy { prompt, max_tokens, temperature_tenths, n } => {
            assert_eq!(prompt, "You are terse.\nWhy?");
            assert_eq!(max_tokens, 64);
            assert_eq!(temperature_tenths, 7);
            assert_eq!(n, 1);
        }
        RequestBody::Chat { .. } => panic!("legacy style gave a chat body"),
    }
    assert_eq!(TEMPERATURE_TENTHS, 7);
    assert_eq!(COMPLETIONS_PER_REQUEST, 1);
}

#[test]
fn legacy_request_with_empty_parts() {
    let request = build_request(EndpointStyle::LegacyCompletion, &Config::default(), "", "k");
    assert_eq!(request.url, "https://api.openai.com/v1/engines/text-davinci-003/completions");
    match request.body {
        RequestBody::Legacy { prompt, max_tokens, .. } => {
            assert_eq!(prompt, "\n");
            assert_eq!(max_tokens, 50);
        }
        RequestBody::Chat { .. } => panic!("legacy style gave a chat body"),
    }
}

#[test]
fn chat_request_lists_system_and_user_messages() {
    let request = build_request(EndpointStyle::ChatCompletion, &sample_config(), "Why?", "key");
    assert_eq!(request.url, "https://api.openai.com/v1/chat/completions");
    assert_eq!(request.authorization, "Bearer key");
    match request.body {
        RequestBody::Chat { model, max_tokens, messages } => {
            assert_eq!(model, "text-davinci-003");
            assert_eq!(max_tokens, 64);
            assert_eq!(messages.len(), 2);
            assert_eq!(messages[0].role, "system");
            assert_eq!(messages[0].content, "You are terse.");
            assert_eq!(messages[1].role, "user");
            assert_eq!(messages[1].content, "Why?");
        }
        RequestBody::Legacy { .. } => panic!("chat style gave a legacy body"),
    }
}

#[test]
fn answer_from_trims_or_is_empty() {
    assert_eq!(answer_from(Some("\n\n  Because. \n")), "Because.");
    assert_eq!(answer_from(Some("")), "");
    assert_eq!(answer_from(Some("   ")), "");
    assert_eq!(answer_from(None), "");
}

#[test]
fn legacy_answer_is_the_trimmed_first_choice() {
    let reply = document(r#"{"choices":[{"text":"\n\nBecause. "},{"text":"second"}]}"#);
    assert_eq!(extract_answer(&reply, EndpointStyle::LegacyCompletion), "Because.");
}

#[test]
fn chat_answer_is_the_trimmed_first_message() {
    let reply = document(
        r#"{"choices":[{"message":{"role":"assistant","content":" Hello there\n"}}]}"#,
    );
    assert_eq!(extract_answer(&reply, EndpointStyle::ChatCompletion), "Hello there");
    assert_eq!(extract_answer(&reply, EndpointStyle::LegacyCompletion), "");
}

#[test]
fn missing_text_is_an_empty_answer() {
    let cases = [
        r#"{}"#,
        r#"null"#,
        r#"[]"#,
        r#""text""#,
        r#"{"choices":[]}"#,
        r#"{"choices":{}}"#,
        r#"{"choices":[{}]}"#,
        r#"{"choices":[{"text":5}]}"#,
        r#"{"choices":[{"text":null}]}"#,
        r#"{"choices":[{"text":["a"]}]}"#,
        r#"{"choices":[[],{"text":"second"}]}"#,
        r#"{"choices":{"0":{"text":"keyed"}}}"#,
        r#"{"text":"top"}"#,
        r#"{"error":{"message":"bad key"}}"#,
    ];
    for case in cases.iter() {
        assert_eq!(extract_answer(&document(case), EndpointStyle::LegacyCompletion), "", "{}", case);
        assert_eq!(extract_answer(&document(case), EndpointStyle::ChatCompletion), "", "{}", case);
    }
}

#[test]
fn answers_are_found_by_key_and_position() {
    let reply = document(
        r#"{"other":[{"text":"wrong list"}],"choices":[{"txt":"wrong key","text":"right"},{"text":"wrong place"}]}"#,
    );
    assert_eq!(extract_answer(&reply, EndpointStyle::LegacyCompletion), "right");
    let chat = document(
        r#"{"choices":[{"text":"legacy","message":{"content":"chat","text":"inner"}}]}"#,
    );
    assert_eq!(extract_answer(&chat, EndpointStyle::ChatCompletion), "chat");
    assert_eq!(extract_answer(&chat, EndpointStyle::LegacyCompletion), "legacy");
}

#[test]
fn parse_document_reads_json() {
    let value = parse_document(br#"{"choices":[{"text":"x"}],"n":1}"#).unwrap();
    assert_eq!(value, document(r#"{"n":1,"choices":[{"text":"x"}]}"#));
    assert_eq!(parse_document(b" [1, 2] ").unwrap(), document("[1,2]"));
}

#[test]
fn parse_document_reports_the_parser_message() {
    let inputs: [&[u8]; 5] = [b"", b"{", b"not json", b"{\"a\":1} trailing", b"\xff\xfe"];
    for input in inputs.iter() {
        let expected = serde_json::from_slice::<serde_json::Value>(input).unwrap_err().to_string();
        match parse_document(input) {
            Err(ApiError::Decode(message)) => assert_eq!(message, expected),
            other => panic!("expected a decode error, got {:?}", other),
        }
    }
    match parse_document(b"{") {
        Err(ApiError::Decode(message)) => assert!(message.contains("line 1")),
        other => panic!("expected a decode error, got {:?}", other),
    }
}

#[test]
fn non_success_status_is_an_error() {
    let body = br#"{"choices":[{"text":"ignored"}]}"#;
    for status in [100u16, 199, 300, 301, 400, 401, 404, 429, 500, 503, 0, 65535].iter() {
        match read_reply(*status, body, EndpointStyle::LegacyCompletion) {
            Err(ApiError::Status(code)) => assert_eq!(code, *status),
            other => panic!("expected a status error, got {:?}", other),
        }
    }
    match read_reply(500, b"not json", EndpointStyle::ChatCompletion) {
        Err(ApiError::Status(code)) => assert_eq!(code, 500),
        other => panic!("expected a status error, got {:?}", other),
    }
}

#[test]
fn success_status_gives_the_answer_and_the_document() {
    let body = br#"{"choices":[{"text":"  42 "}],"id":"cmpl-1"}"#;
    for status in [200u16, 201, 204, 299].iter() {
        let reply = read_reply(*status, body, EndpointStyle::LegacyCompletion).unwrap();
        assert_eq!(reply.answer, "42");
        assert_eq!(reply.document, document(r#"{"choices":[{"text":"  42 "}],"id":"cmpl-1"}"#));
    }
    let empty = read_reply(200, b"{}", EndpointStyle::LegacyCompletion).unwrap();
    assert_eq!(empty.answer, "");
    assert_eq!(empty.document, document("{}"));
}

#[test]
fn success_status_with_unreadable_body_is_a_decode_error() {
    match read_reply(200, b"<html>", EndpointStyle::LegacyCompletion) {
        Err(ApiError::Decode(message)) => assert!(!message.is_empty()),
        other => panic!("expected a decode error, got {:?}", other),
    }
    match read_reply(200, b"", EndpointStyle::ChatCompletion) {
        Err(ApiError::Decode(message)) => assert!(message.contains("EOF")),
        other => panic!("expected a decode error, got {:?}", other),
    }
}
