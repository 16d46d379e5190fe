use unheard::chat::{
    build_request, check_status, client_failure, delivery_failure, error_event, parse_seconds,
    request_failure, require_api_key, stream_response, ChatError, ChatMessage, ClaudeEvent,
    DeltaContent, StreamEvent, StreamInput, StreamStep, DEFAULT_MAX_TOKENS,
};

fn data(data: &str, decoded: Option<ClaudeEvent>) -> StreamInput {
    StreamInput::Data { data: data.to_string(), decoded }
}

fn event(event_type: &str, delta: Option<(&str, Option<&str>)>) -> ClaudeEvent {
    ClaudeEvent {
        event_type: event_type.to_string(),
        delta: delta.map(|(delta_type, text)| DeltaContent {
            delta_type: delta_type.to_string(),
            text: text.map(|t| t.to_string()),
        }),
    }
}

#[test]
fn test_chat_error_display() {
    let error = ChatError::ConfigError { message: "Missing key".to_string() };
    assert!(error.to_string().contains("Configuration error"));

    let error = ChatError::RateLimitError { retry_after: Some(60) };
    assert!(error.to_string().contains("Rate limit"));
    assert!(error.to_string().contains("60"));

    let error = ChatError::TimeoutError;
    assert!(error.to_string().contains("timeout"));
}

#[test]
fn every_chat_error_has_its_text() {
    assert_eq!(
        ChatError::ConfigError { message: "Missing key".to_string() }.to_string(),
        "Configuration error: Missing key"
    );
    assert_eq!(
        ChatError::RateLimitError { retry_after: Some(60) }.to_string(),
        "Rate limit exceeded. Retry after 60 seconds"
    );
    assert_eq!(
        ChatError::RateLimitError { retry_after: Some(0) }.to_string(),
        "Rate limit exceeded. Retry after 0 seconds"
    );
    assert_eq!(
        ChatError::RateLimitError { retry_after: Some(u64::MAX) }.to_string(),
        "Rate limit exceeded. Retry after 18446744073709551615 seconds"
    );
    assert_eq!(ChatError::RateLimitError { retry_after: None }.to_string(), "Rate limit exceeded");
    assert_eq!(ChatError::ApiError { message: "bad".to_string() }.to_string(), "API error: bad");
    assert_eq!(ChatError::TimeoutError.to_string(), "Request timeout");
    assert_eq!(
        ChatError::NetworkError { message: "reset".to_string() }.to_string(),
        "Network error: reset"
    );
    assert_eq!(
        ChatError::ParseError { message: "eof".to_string() }.to_string(),
        "Parse error: eof"
    );
}

#[test]
fn errors_are_reported_to_the_observer_with_their_text() {
    let event = error_event(&ChatError::TimeoutError);
    assert!(matches!(event, StreamEvent::Error { ref message } if message == "Request timeout"));
}

#[test]
fn request_appends_the_message_to_the_history() {
    let history = vec![
        ChatMessage { role: "user".to_string(), content: "Hi".to_string() },
        ChatMessage { role: "assistant".to_string(), content: "Hello".to_string() },
    ];

    let request = build_request(
        "model-1".to_string(),
        "How?".to_string(),
        history,
        Some("Be brief".to_string()),
    );

    assert_eq!(request.model, "model-1");
    assert_eq!(request.max_tokens, DEFAULT_MAX_TOKENS);
    assert_eq!(request.max_tokens, 4096);
    assert!(request.stream);
    assert_eq!(request.system.as_deref(), Some("Be brief"));
    assert_eq!(request.messages.len(), 3);
    assert_eq!(request.messages[0].content, "Hi");
    assert_eq!(request.messages[1].role, "assistant");
    assert_eq!(request.messages[2].role, "user");
    assert_eq!(request.messages[2].content, "How?");
}

#[test]
fn missing_key_is_a_configuration_error() {
    assert_eq!(require_api_key(Some("k".to_string())).unwrap(), "k");
    let error = require_api_key(None).unwrap_err();
    assert_eq!(error.to_string(), "Configuration error: ANTHROPIC_API_KEY not configured");
}

#[test]
fn request_failures_tell_timeouts_from_the_rest() {
    assert!(matches!(request_failure(true, "deadline"), ChatError::TimeoutError));
    assert_eq!(
        request_failure(false, "connection refused").to_string(),
        "Network error: HTTP request failed: connection refused"
    );
    assert_eq!(
        client_failure("no tls").to_string(),
        "Network error: Failed to create HTTP client: no tls"
    );
}

#[test]
fn seconds_are_decimal_digits_with_an_optional_plus() {
    assert_eq!(parse_seconds("60"), Some(60));
    assert_eq!(parse_seconds("+7"), Some(7));
    assert_eq!(parse_seconds("007"), Some(7));
    assert_eq!(parse_seconds("0"), Some(0));
    assert_eq!(parse_seconds("18446744073709551615"), Some(u64::MAX));
    assert_eq!(parse_seconds("18446744073709551616"), None);
    assert_eq!(parse_seconds("99999999999999999999999"), None);
    assert_eq!(parse_seconds(""), None);
    assert_eq!(parse_seconds("+"), None);
    assert_eq!(parse_seconds("-1"), None);
    assert_eq!(parse_seconds(" 5"), None);
    assert_eq!(parse_seconds("5s"), None);
    assert_eq!(parse_seconds("++5"), None);
    assert_eq!(parse_seconds("\u{0665}"), None);
    for text in ["60", "+7", "007", "", "+", "-1", "18446744073709551616", "1_0"] {
        assert_eq!(parse_seconds(text), text.parse::<u64>().ok());
    }
}

#[test]
fn status_decides_between_stream_and_refusal() {
    assert!(check_status(200, None, "").is_ok());
    assert!(check_status(299, Some("1".to_string()), "x").is_ok());

    let limited = check_status(429, Some("30".to_string()), "slow down").unwrap_err();
    assert!(matches!(limited, ChatError::RateLimitError { retry_after: Some(30) }));
    let limited = check_status(429, Some("soon".to_string()), "").unwrap_err();
    assert!(matches!(limited, ChatError::RateLimitError { retry_after: None }));
    let limited = check_status(429, None, "").unwrap_err();
    assert!(matches!(limited, ChatError::RateLimitError { retry_after: None }));

    let server = check_status(503, None, "overloaded").unwrap_err();
    assert_eq!(server.to_string(), "API error: Server error (503): overloaded");
    let server = check_status(500, None, "").unwrap_err();
    assert_eq!(server.to_string(), "API error: Server error (500): ");
    let server = check_status(599, None, "e").unwrap_err();
    assert_eq!(server.to_string(), "API error: Server error (599): e");

    let client = check_status(401, None, "bad key").unwrap_err();
    assert_eq!(client.to_string(), "API error: API error (401): bad key");
    let other = check_status(600, None, "?").unwrap_err();
    assert_eq!(other.to_string(), "API error: API error (600): ?");
    let redirect = check_status(300, None, "").unwrap_err();
    assert_eq!(redirect.to_string(), "API error: API error (300): ");
    let low = check_status(199, None, "").unwrap_err();
    assert_eq!(low.to_string(), "API error: API error (199): ");
}

#[test]
fn text_delta_is_a_piece_of_the_answer() {
    let input = data("{}", Some(event("content_block_delta", Some(("text_delta", Some("Hello"))))));

    let step = stream_response(input);

    match step {
        StreamStep::Token { event: StreamEvent::Token { content } } => assert_eq!(content, "Hello"),
        other => panic!("expected a token, got {other:?}"),
    }
}

#[test]
fn done_marker_and_message_stop_end_the_answer() {
    assert!(matches!(stream_response(data("[DONE]", None)), StreamStep::Done { required: true }));
    let stop = event("message_stop", None);
    assert!(matches!(
        stream_response(data("{}", Some(stop))),
        StreamStep::Done { required: true }
    ));
    let marker_wins = event("content_block_delta", Some(("text_delta", Some("x"))));
    assert!(matches!(
        stream_response(data("[DONE]", Some(marker_wins))),
        StreamStep::Done { required: true }
    ));
}

#[test]
fn other_events_are_passed_over() {
    assert!(matches!(stream_response(data("not json", None)), StreamStep::Skip));
    assert!(matches!(stream_response(data("{}", Some(event("ping", None)))), StreamStep::Skip));
    let no_delta = event("content_block_delta", None);
    assert!(matches!(stream_response(data("{}", Some(no_delta))), StreamStep::Skip));
    let other_delta = event("content_block_delta", Some(("input_json_delta", Some("{"))));
    assert!(matches!(stream_response(data("{}", Some(other_delta))), StreamStep::Skip));
    let no_text = event("content_block_delta", Some(("text_delta", None)));
    assert!(matches!(stream_response(data("{}", Some(no_text))), StreamStep::Skip));
    let start = event("message_start", Some(("text_delta", Some("x"))));
    assert!(matches!(stream_response(data("{}", Some(start))), StreamStep::Skip));
}

#[test]
fn broken_stream_fails_the_chat() {
    let step = stream_response(StreamInput::Broken { cause: "connection reset".to_string() });

    match step {
        StreamStep::Abort { event: StreamEvent::Error { message }, error } => {
            assert_eq!(message, "Stream error: connection reset");
            assert!(matches!(error, ChatError::NetworkError { .. }));
            assert_eq!(error.to_string(), "Network error: SSE stream error: connection reset");
        }
        other => panic!("expected an abort, got {other:?}"),
    }
}

#[test]
fn stream_that_just_ends_still_ends_the_answer() {
    assert!(matches!(stream_response(StreamInput::End), StreamStep::Done { required: false }));
}

#[test]
fn undelivered_events_are_parse_errors() {
    let token =
        StreamStep::Token { event: StreamEvent::Token { content: "x".to_string() } };
    assert_eq!(
        delivery_failure(&token, "closed").to_string(),
        "Parse error: Failed to send token: closed"
    );
    let done = StreamStep::Done { required: true };
    assert_eq!(
        delivery_failure(&done, "closed").to_string(),
        "Parse error: Failed to send done event: closed"
    );
}
