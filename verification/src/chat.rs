//! Chat with the language-model service: the request that is sent, how a
//! refusal of the service is classified and what each event of the
//! response stream leads to. Sending and receiving are the caller's.

use vstd::prelude::*;
use crate::text::{chars_of, concat2, decimal, push_decimal, same_text};

verus! {

/// Longest wait for the service, in seconds.
pub const CLAUDE_API_TIMEOUT_SECS: u64 = 60;

/// Where requests are sent.
pub const CLAUDE_API_URL: &'static str = "https://api.anthropic.com/v1/messages";

/// Value of the version header.
pub const ANTHROPIC_VERSION: &'static str = "2023-06-01";

/// Most tokens that an answer may have.
pub const DEFAULT_MAX_TOKENS: u32 = 4096;

/// One message of a conversation.
#[derive(Debug, Clone)]
pub struct ChatMessage {
    pub role: String,
    pub content: String,
}

/// What the chat command returns.
#[derive(Debug, Clone)]
pub struct ChatResponse {
    pub success: bool,
}

/// Why a chat request did not complete.
#[derive(Debug, Clone)]
pub enum ChatError {
    /// The key of the service is not configured.
    ConfigError { message: String },
    /// The service refused for the rate of requests.
    RateLimitError { retry_after: Option<u64> },
    /// The service refused for another reason.
    ApiError { message: String },
    /// The service did not answer in time.
    TimeoutError,
    /// The request or the stream failed on the network.
    NetworkError { message: String },
    /// An event could not be passed on.
    ParseError { message: String },
}

impl ChatError {
    /// The text shown for this error.
    pub open spec fn text(self) -> Seq<char> {
        match self {
            ChatError::ConfigError { message } => "Configuration error: "@ + message@,
            ChatError::RateLimitError { retry_after: Some(seconds) } =>
                "Rate limit exceeded. Retry after "@ + decimal(seconds as nat) + " seconds"@,
            ChatError::RateLimitError { retry_after: None } => "Rate limit exceeded"@,
            ChatError::ApiError { message } => "API error: "@ + message@,
            ChatError::TimeoutError => "Request timeout"@,
            ChatError::NetworkError { message } => "Network error: "@ + message@,
            ChatError::ParseError { message } => "Parse error: "@ + message@,
        }
    }

    /// Renders the error for display.
    pub fn to_string(&self) -> (s: String)
        ensures
            s@ == self.text(),
    {
        match self {
            ChatError::ConfigError { message } => concat2(
                "Configuration error: ",
                message.as_str(),
            ),
            ChatError::RateLimitError { retry_after } => match retry_after {
                Some(seconds) => {
                    let mut s = "Rate limit exceeded. Retry after ".to_owned();
                    push_decimal(&mut s, *seconds as u128);
                    s.append(" seconds");
                    s
                },
                None => "Rate limit exceeded".to_owned(),
            },
            ChatError::ApiError { message } => concat2("API error: ", message.as_str()),
            ChatError::TimeoutError => "Request timeout".to_owned(),
            ChatError::NetworkError { message } => concat2("Network error: ", message.as_str()),
            ChatError::ParseError { message } => concat2("Parse error: ", message.as_str()),
        }
    }
}

/// What the observer of a chat is told.
#[derive(Debug, Clone)]
pub enum StreamEvent {
    /// A piece of the answer.
    Token { content: String },
    /// The answer is complete.
    Done,
    /// The chat failed.
    Error { message: String },
}

/// The report of an error to the observer.
pub fn error_event(error: &ChatError) -> (event: StreamEvent)
    ensures
        event matches StreamEvent::Error { message } && message@ == error.text(),
{
    StreamEvent::Error { message: error.to_string() }
}

/// The request sent to the service.
#[derive(Debug, Clone)]
pub struct ChatRequest {
    pub model: String,
    pub max_tokens: u32,
    pub messages: Vec<ChatMessage>,
    pub stream: bool,
    pub system: Option<String>,
}

/// Builds the request for a message of the user: the conversation so far
/// with the message at its end, for the model that the caller names,
/// streamed.
pub fn build_request(
    model: String,
    message: String,
    history: Vec<ChatMessage>,
    system_prompt: Option<String>,
) -> (request: ChatRequest)
    ensures
        request.model == model,
        request.max_tokens == DEFAULT_MAX_TOKENS,
        request.stream,
        request.system == system_prompt,
        request.messages@.len() == history@.len() + 1,
        request.messages@.take(history@.len() as int) == history@,
        request.messages@.last().role@ == "user"@,
        request.messages@.last().content == message,
{
    let mut messages = history;
    messages.push(ChatMessage { role: "user".to_owned(), content: message });
    assert(messages@.take(history@.len() as int) =~= history@);
    ChatRequest {
        model,
        max_tokens: DEFAULT_MAX_TOKENS,
        messages,
        stream: true,
        system: system_prompt,
    }
}

/// Takes the key of the service from the configuration, or says that it is
/// missing.
pub fn require_api_key(configured: Option<String>) -> (r: Result<String, ChatError>)
    ensures
        match configured {
            Some(key) => r == Ok::<String, ChatError>(key),
            None => r matches Err(ChatError::ConfigError { message }) && message@
                == "ANTHROPIC_API_KEY not configured"@,
        },
{
    match configured {
        Some(key) => Ok(key),
        None => Err(
            ChatError::ConfigError { message: "ANTHROPIC_API_KEY not configured".to_owned() },
        ),
    }
}

/// The error for a client that could not be set up.
pub fn client_failure(cause: &str) -> (error: ChatError)
    ensures
        error matches ChatError::NetworkError { message } && message@
            == "Failed to create HTTP client: "@ + cause@,
{
    ChatError::NetworkError { message: concat2("Failed to create HTTP client: ", cause) }
}

/// The error for a request that could not be sent or was not answered.
pub fn request_failure(timed_out: bool, cause: &str) -> (error: ChatError)
    ensures
        timed_out ==> error is TimeoutError,
        !timed_out ==> (error matches ChatError::NetworkError { message } && message@
            == "HTTP request failed: "@ + cause@),
{
    if timed_out {
        ChatError::TimeoutError
    } else {
        ChatError::NetworkError { message: concat2("HTTP request failed: ", cause) }
    }
}

/// The value of a decimal digit, if the character is one.
pub open spec fn digit_value(c: char) -> Option<nat> {
    if '0' <= c && c <= '9' {
        Some((c as nat - '0' as nat) as nat)
    } else {
        None
    }
}

/// The number that a run of decimal digits writes, if it is one; the empty
/// run writes 0.
pub open spec fn digits_value(s: Seq<char>) -> Option<nat>
    decreases s.len(),
{
    if s.len() == 0 {
        Some(0nat)
    } else {
        match (digits_value(s.drop_last()), digit_value(s.last())) {
            (Some(high), Some(low)) => Some(high * 10 + low),
            _ => None,
        }
    }
}

/// The number of seconds that a text writes: decimal digits, at least one,
/// with an optional `+` before them, that write a number of 64 bits.
pub open spec fn seconds_of(s: Seq<char>) -> Option<u64> {
    let digits = if s.len() > 0 && s[0] == '+' {
        s.skip(1)
    } else {
        s
    };
    number_of(digits)
}

/// The number of 64 bits that a run of decimal digits writes, if it is not
/// empty and writes one.
pub open spec fn number_of(digits: Seq<char>) -> Option<u64> {
    if digits.len() == 0 {
        None
    } else {
        match digits_value(digits) {
            Some(n) => if n <= u64::MAX {
                Some(n as u64)
            } else {
                None
            },
            None => None,
        }
    }
}

/// The value of a decimal digit.
fn value_of_digit(c: char) -> (v: Option<u64>)
    ensures
        match v {
            Some(n) => digit_value(c) == Some(n as nat) && n < 10,
            None => digit_value(c) is None,
        },
{
    if c == '0' {
        Some(0)
    } else if c == '1' {
        Some(1)
    } else if c == '2' {
        Some(2)
    } else if c == '3' {
        Some(3)
    } else if c == '4' {
        Some(4)
    } else if c == '5' {
        Some(5)
    } else if c == '6' {
        Some(6)
    } else if c == '7' {
        Some(7)
    } else if c == '8' {
        Some(8)
    } else if c == '9' {
        Some(9)
    } else {
        None
    }
}

/// A run of digits that starts with a number past 64 bits, or with
/// something that is no number, writes no number of 64 bits.
proof fn lemma_digits_grow(s: Seq<char>, k: int)
    requires
        0 <= k <= s.len(),
    ensures
        digits_value(s.take(k)) is None ==> digits_value(s) is None,
        digits_value(s.take(k)) matches Some(n) && n > u64::MAX ==> (digits_value(s) matches Some(
            m,
        ) ==> m > u64::MAX),
    decreases s.len() - k,
{
    if k < s.len() {
        assert(s.take(k + 1).drop_last() =~= s.take(k));
        lemma_digits_grow(s, k + 1);
    } else {
        assert(s.take(k) =~= s);
    }
}

/// Reads the number of seconds after which a request may be retried.
pub fn parse_seconds(text: &str) -> (r: Option<u64>)
    ensures
        r == seconds_of(text@),
{
    let chars = chars_of(text);
    let start: usize = if chars.len() > 0 && chars[0] == '+' {
        1
    } else {
        0
    };
    let ghost digits = chars@.skip(start as int);
    proof {
        if start == 0 {
            assert(digits =~= text@);
        }
    }
    if start == chars.len() {
        return None;
    }
    let mut value: u64 = 0;
    let mut i: usize = start;
    assert(digits.take(0).len() == 0);
    while i < chars.len()
        invariant
            start <= i <= chars@.len(),
            chars@ == text@,
            digits == chars@.skip(start as int),
            seconds_of(text@) == number_of(digits),
            digits_value(digits.take(i - start)) == Some(value as nat),
        decreases chars@.len() - i,
    {
        let ghost prefix = digits.take(i - start + 1);
        proof {
            assert(prefix.drop_last() =~= digits.take(i - start));
            assert(prefix.last() == chars@[i as int]);
            lemma_digits_grow(digits, i - start + 1);
        }
        match value_of_digit(chars[i]) {
            Some(d) => {
                assert(digits_value(prefix) == Some((value * 10 + d) as nat));
                if value > (u64::MAX - d) / 10 {
                    assert(value * 10 + d > u64::MAX);
                    return None;
                }
                value = value * 10 + d;
            },
            None => {
                assert(digits_value(prefix) is None);
                return None;
            },
        }
        i += 1;
    }
    assert(digits.take(digits.len() as int) =~= digits);
    Some(value)
}

/// `error` is the error for a request that the service refused with
/// `status`: a rate limit for 429, with the seconds to wait when the
/// service names them; a server error from 500 to 599; an API error for
/// every other status.
pub open spec fn is_refusal(
    error: ChatError,
    status: u16,
    retry_after: Option<String>,
    body: Seq<char>,
) -> bool {
    if status == 429 {
        error == (ChatError::RateLimitError {
            retry_after: match retry_after {
                Some(text) => seconds_of(text@),
                None => None,
            },
        })
    } else if 500 <= status <= 599 {
        error matches ChatError::ApiError { message } && message@ == "Server error ("@ + decimal(
            status as nat,
        ) + "): "@ + body
    } else {
        error matches ChatError::ApiError { message } && message@ == "API error ("@ + decimal(
            status as nat,
        ) + "): "@ + body
    }
}

/// Checks the status of the service's answer: a status from 200 to 299
/// lets the stream be read, every other one is a refusal. `retry_after` is
/// the header of that name, `body` the text of the answer.
pub fn check_status(status: u16, retry_after: Option<String>, body: &str) -> (r: Result<
    (),
    ChatError,
>)
    ensures
        match r {
            Ok(_) => 200 <= status <= 299,
            Err(error) => !(200 <= status <= 299) && is_refusal(error, status, retry_after, body@),
        },
{
    if 200 <= status && status <= 299 {
        return Ok(());
    }
    if status == 429 {
        let seconds = match &retry_after {
            Some(text) => parse_seconds(text.as_str()),
            None => None,
        };
        return Err(ChatError::RateLimitError { retry_after: seconds });
    }
    let mut message = if 500 <= status && status <= 599 {
        "Server error (".to_owned()
    } else {
        "API error (".to_owned()
    };
    push_decimal(&mut message, status as u128);
    message.append("): ");
    message.append(body);
    Err(ChatError::ApiError { message })
}

/// The part of an event of the service that carries text.
#[derive(Debug, Clone)]
pub struct DeltaContent {
    pub delta_type: String,
    pub text: Option<String>,
}

/// An event of the service, decoded.
#[derive(Debug, Clone)]
pub struct ClaudeEvent {
    pub event_type: String,
    pub delta: Option<DeltaContent>,
}

/// What the response stream gave.
#[derive(Debug, Clone)]
pub enum StreamInput {
    /// An event with its data, and the data decoded when it could be.
    Data { data: String, decoded: Option<ClaudeEvent> },
    /// The stream broke.
    Broken { cause: String },
    /// The stream ended.
    End,
}

/// What is done with what the stream gave.
#[derive(Debug, Clone)]
pub enum StreamStep {
    /// Nothing is passed on; the stream is read further.
    Skip,
    /// A piece of the answer is passed on, and the stream is read further.
    /// It must be delivered.
    Token { event: StreamEvent },
    /// The end of the answer is passed on and the chat succeeds. When
    /// `required`, it must be delivered.
    Done { required: bool },
    /// The failure is passed on, delivered or not, and the chat fails with
    /// `error`.
    Abort { event: StreamEvent, error: ChatError },
}

/// The text of an event that carries some.
pub open spec fn token_of(event: ClaudeEvent) -> Option<String> {
    if event.event_type@ == "content_block_delta"@ {
        match event.delta {
            Some(delta) => if delta.delta_type@ == "text_delta"@ {
                delta.text
            } else {
                None
            },
            None => None,
        }
    } else {
        None
    }
}

/// `step` is what is done with `input`.
///
/// The marker `[DONE]` and the event `message_stop` end the answer. A text
/// delta is a piece of the answer. Every other event, and data that could
/// not be decoded, is passed over. A broken stream fails the chat. A stream
/// that ends without having said so still ends the answer.
pub open spec fn is_stream_step(input: StreamInput, step: StreamStep) -> bool {
    match input {
        StreamInput::Data { data, decoded } => if data@ == "[DONE]"@ {
            step == (StreamStep::Done { required: true })
        } else {
            match decoded {
                Some(event) => if event.event_type@ == "message_stop"@ {
                    step == (StreamStep::Done { required: true })
                } else {
                    match token_of(event) {
                        Some(text) => step == (StreamStep::Token {
                            event: StreamEvent::Token { content: text },
                        }),
                        None => step == StreamStep::Skip,
                    }
                },
                None => step == StreamStep::Skip,
            }
        },
        StreamInput::Broken { cause } => step matches StreamStep::Abort {
            event: StreamEvent::Error { message: shown },
            error: ChatError::NetworkError { message },
        } && shown@ == "Stream error: "@ + cause@ && message@ == "SSE stream error: "@ + cause@,
        StreamInput::End => step == (StreamStep::Done { required: false }),
    }
}

/// Decides what is done with what the stream gave.
pub fn stream_response(input: StreamInput) -> (step: StreamStep)
    ensures
        is_stream_step(input, step),
{
    match input {
        StreamInput::Data { data, decoded } => {
            if same_text(data.as_str(), "[DONE]") {
                return StreamStep::Done { required: true };
            }
            match decoded {
                Some(event) => {
                    let ClaudeEvent { event_type, delta } = event;
                    if same_text(event_type.as_str(), "message_stop") {
                        return StreamStep::Done { required: true };
                    }
                    proof {
                        reveal_strlit("message_stop");
                        reveal_strlit("content_block_delta");
                    }
                    if !same_text(event_type.as_str(), "content_block_delta") {
                        return StreamStep::Skip;
                    }
                    match delta {
                        Some(content) => {
                            let DeltaContent { delta_type, text } = content;
                            if !same_text(delta_type.as_str(), "text_delta") {
                                return StreamStep::Skip;
                            }
                            match text {
                                Some(text) => StreamStep::Token {
                                    event: StreamEvent::Token { content: text },
                                },
                                None => StreamStep::Skip,
                            }
                        },
                        None => StreamStep::Skip,
                    }
                },
                None => StreamStep::Skip,
            }
        },
        StreamInput::Broken { cause } => StreamStep::Abort {
            event: StreamEvent::Error { message: concat2("Stream error: ", cause.as_str()) },
            error: ChatError::NetworkError {
                message: concat2("SSE stream error: ", cause.as_str()),
            },
        },
        StreamInput::End => StreamStep::Done { required: false },
    }
}

/// The error for an event that had to be delivered to the observer and
/// was not.
pub fn delivery_failure(step: &StreamStep, cause: &str) -> (error: ChatError)
    ensures
        error matches ChatError::ParseError { message } && message@ == (if step is Token {
            "Failed to send token: "@
        } else {
            "Failed to send done event: "@
        }) + cause@,
{
    match step {
        StreamStep::Token { event } => ChatError::ParseError {
            message: concat2("Failed to send token: ", cause),
        },
        _ => ChatError::ParseError { message: concat2("Failed to send done event: ", cause) },
    }
}

} // verus!
