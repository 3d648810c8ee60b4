use desktop_pet::exchange::{
    advance_exchange, build_request, ChatConfig, ChatResponse, ExchangeEvent, ExchangeStep,
    ENDPOINT, HISTORY_WINDOW, MODEL_NAME, SYSTEM_PROMPT,
};
use desktop_pet::message::{ChatMessage, Role};
use desktop_pet::state::AppState;
use desktop_pet::status::HttpStatus;
use desktop_pet::transcript::Transcript;

fn finished(step: ExchangeStep) -> ChatResponse {
    match step {
        ExchangeStep::Finished(response) => response,
        ExchangeStep::ReadBody => panic!("the exchange should have ended"),
    }
}

fn entries(log: &Transcript) -> Vec<(Role, String)> {
    let mut all = Vec::new();
    for index in 0..log.len() {
        let entry = log.get(index).unwrap();
        all.push((entry.role, entry.content));
    }
    all
}

fn filled(count: usize) -> Transcript {
    let mut log = Transcript::new();
    for index in 0..count {
        let role = if index % 2 == 0 { Role::User } else { Role::Assistant };
        log.append(role, format!("entry {}", index));
    }
    log
}

#[test]
fn constants_have_their_fixed_values() {
    assert_eq!(ENDPOINT, "http://localhost:11434/api/chat");
    assert_eq!(MODEL_NAME, "llama3.2");
    assert_eq!(HISTORY_WINDOW, 10);
    assert!(SYSTEM_PROMPT.starts_with("너는 개발자의 데스크톱 펫이야. 이름은 \"코디\"(Cody)야.\n\n성격:\n"));
    assert!(SYSTEM_PROMPT.ends_with("- 모르는 건 솔직하게 말해"));
    assert_eq!(SYSTEM_PROMPT.lines().count(), 13);
    assert_eq!(SYSTEM_PROMPT.chars().count(), 209);
}

#[test]
fn role_names_are_lower_case() {
    assert_eq!(Role::System.as_str(), "system");
    assert_eq!(Role::User.as_str(), "user");
    assert_eq!(Role::Assistant.as_str(), "assistant");
}

#[test]
fn message_clone_keeps_role_and_content() {
    let message = ChatMessage::new(Role::Assistant, "hello".to_string());
    let copy = message.clone();
    assert_eq!(copy.role, Role::Assistant);
    assert_eq!(copy.content, "hello");
}

#[test]
fn append_adds_at_the_end() {
    let mut log = Transcript::new();
    assert_eq!(log.len(), 0);
    assert!(log.get(0).is_none());
    log.append(Role::User, "one".to_string());
    log.append(Role::Assistant, "two".to_string());
    assert_eq!(
        entries(&log),
        vec![(Role::User, "one".to_string()), (Role::Assistant, "two".to_string())]
    );
    assert!(log.get(2).is_none());
}

#[test]
fn window_of_an_empty_log_is_the_preamble_alone() {
    let log = Transcript::new();
    let prompt = log.window(10, "be brief");
    assert_eq!(prompt.len(), 1);
    assert_eq!(prompt[0].role, Role::System);
    assert_eq!(prompt[0].content, "be brief");
}

#[test]
fn window_of_a_short_log_holds_all_of_it() {
    let log = filled(3);
    let prompt = log.window(10, "be brief");
    assert_eq!(prompt.len(), 4);
    assert_eq!(prompt[0].role, Role::System);
    assert_eq!(prompt[0].content, "be brief");
    assert_eq!(prompt[1].role, Role::User);
    assert_eq!(prompt[1].content, "entry 0");
    assert_eq!(prompt[2].role, Role::Assistant);
    assert_eq!(prompt[2].content, "entry 1");
    assert_eq!(prompt[3].content, "entry 2");
    assert_eq!(log.len(), 3);
}

#[test]
fn window_of_a_long_log_holds_the_last_ten() {
    let log = filled(25);
    let prompt = log.window(10, "preamble");
    assert_eq!(prompt.len(), 11);
    assert_eq!(prompt[0].role, Role::System);
    assert_eq!(prompt[0].content, "preamble");
    for offset in 0..10usize {
        assert_eq!(prompt[1 + offset].content, format!("entry {}", 15 + offset));
    }
    assert_eq!(prompt[1].role, Role::Assistant);
    assert_eq!(log.len(), 25);
}

#[test]
fn window_never_exceeds_cap_plus_one() {
    for stored in 0..30usize {
        let log = filled(stored);
        let prompt = log.window(10, "p");
        assert!(prompt.len() <= 11);
        assert_eq!(prompt.len(), 1 + stored.min(10));
        assert_eq!(prompt[0].role, Role::System);
        assert_eq!(prompt[0].content, "p");
    }
}

#[test]
fn window_with_exactly_cap_entries_and_with_cap_zero() {
    let log = filled(10);
    let prompt = log.window(10, "p");
    assert_eq!(prompt.len(), 11);
    assert_eq!(prompt[1].content, "entry 0");
    let none = log.window(0, "p");
    assert_eq!(none.len(), 1);
    assert_eq!(none[0].content, "p");
    let one = log.window(1, "p");
    assert_eq!(one.len(), 2);
    assert_eq!(one[1].content, "entry 9");
}

#[test]
fn request_carries_model_prompt_and_no_stream() {
    let prompt = filled(2).window(10, "p");
    let request = build_request("llama3.2", prompt);
    assert_eq!(request.model, "llama3.2");
    assert!(!request.stream);
    assert_eq!(request.messages.len(), 3);
    assert_eq!(request.messages[0].role, Role::System);
    assert_eq!(request.messages[2].content, "entry 1");
}

#[test]
fn begin_chat_appends_the_user_text_and_builds_the_prompt() {
    let mut state = AppState::new();
    let request = state.begin_chat("hi".to_string());
    assert_eq!(entries(&state.chat_history), vec![(Role::User, "hi".to_string())]);
    assert_eq!(request.model, "llama3.2");
    assert!(!request.stream);
    assert_eq!(request.messages.len(), 2);
    assert_eq!(request.messages[0].role, Role::System);
    assert_eq!(request.messages[0].content, SYSTEM_PROMPT);
    assert_eq!(request.messages[1].role, Role::User);
    assert_eq!(request.messages[1].content, "hi");
}

#[test]
fn begin_chat_sends_only_the_last_ten_entries() {
    let mut state = AppState::new();
    for index in 0..12usize {
        state.begin_chat(format!("question {}", index));
    }
    let request = state.begin_chat("latest".to_string());
    assert_eq!(state.chat_history.len(), 13);
    assert_eq!(request.messages.len(), 11);
    assert_eq!(request.messages[0].content, SYSTEM_PROMPT);
    assert_eq!(request.messages[1].content, "question 3");
    assert_eq!(request.messages[10].content, "latest");
}

#[test]
fn successful_submission_adds_user_then_assistant() {
    let mut state = AppState::new();
    state.chat_history.append(Role::User, "earlier".to_string());
    state.chat_history.append(Role::Assistant, "answer".to_string());
    state.begin_chat("hi".to_string());
    let status = HttpStatus::new(200).unwrap();
    let step = state.handle_exchange_event(ExchangeEvent::StatusReceived { status });
    assert!(matches!(step, ExchangeStep::ReadBody));
    assert_eq!(state.chat_history.len(), 3);
    let response = finished(state.handle_exchange_event(ExchangeEvent::BodyDecoded {
        content: Some("hello!".to_string()),
    }));
    assert!(response.success);
    assert_eq!(response.response, Some("hello!".to_string()));
    assert_eq!(response.error, None);
    assert_eq!(
        entries(&state.chat_history),
        vec![
            (Role::User, "earlier".to_string()),
            (Role::Assistant, "answer".to_string()),
            (Role::User, "hi".to_string()),
            (Role::Assistant, "hello!".to_string()),
        ]
    );
}

#[test]
fn transport_failure_keeps_the_user_message_and_adds_no_reply() {
    let mut state = AppState::new();
    state.begin_chat("hi".to_string());
    let response = finished(state.handle_exchange_event(ExchangeEvent::TransportFailed {
        detail: "connection refused".to_string(),
    }));
    assert!(!response.success);
    assert_eq!(response.response, None);
    let error = response.error.unwrap();
    assert!(error.contains("Failed to connect"));
    assert_eq!(error, "Failed to connect to Ollama: connection refused");
    assert_eq!(entries(&state.chat_history), vec![(Role::User, "hi".to_string())]);
}

#[test]
fn status_500_is_reported_with_its_number() {
    let mut state = AppState::new();
    state.begin_chat("hi".to_string());
    let status = HttpStatus::new(500).unwrap();
    let response =
        finished(state.handle_exchange_event(ExchangeEvent::StatusReceived { status }));
    assert!(!response.success);
    assert_eq!(response.response, None);
    let error = response.error.unwrap();
    assert!(error.contains("status: 500"));
    assert_eq!(error, "Ollama returned status: 500 Internal Server Error");
    assert_eq!(entries(&state.chat_history), vec![(Role::User, "hi".to_string())]);
}

#[test]
fn body_without_message_is_an_empty_response() {
    let mut state = AppState::new();
    state.begin_chat("hi".to_string());
    let response =
        finished(state.handle_exchange_event(ExchangeEvent::BodyDecoded { content: None }));
    assert!(!response.success);
    assert_eq!(response.response, None);
    assert_eq!(response.error, Some("Empty response from Ollama".to_string()));
    assert_eq!(entries(&state.chat_history), vec![(Role::User, "hi".to_string())]);
}

#[test]
fn undecodable_body_is_a_parse_failure() {
    let mut state = AppState::new();
    state.begin_chat("hi".to_string());
    let response = finished(state.handle_exchange_event(ExchangeEvent::BodyUndecodable {
        detail: "expected value at line 1 column 1".to_string(),
    }));
    assert!(!response.success);
    assert_eq!(response.response, None);
    assert_eq!(
        response.error,
        Some("Failed to parse response: expected value at line 1 column 1".to_string())
    );
    assert_eq!(state.chat_history.len(), 1);
}

#[test]
fn advance_exchange_sorts_each_event() {
    let ok = HttpStatus::new(204).unwrap();
    assert!(matches!(
        advance_exchange(ExchangeEvent::StatusReceived { status: ok }),
        ExchangeStep::ReadBody
    ));
    let missing = HttpStatus::new(404).unwrap();
    let response = finished(advance_exchange(ExchangeEvent::StatusReceived { status: missing }));
    assert_eq!(response.error, Some("Ollama returned status: 404 Not Found".to_string()));
    let response = finished(advance_exchange(ExchangeEvent::BodyDecoded {
        content: Some(String::new()),
    }));
    assert!(response.success);
    assert_eq!(response.response, Some(String::new()));
    let response =
        finished(advance_exchange(ExchangeEvent::TransportFailed { detail: String::new() }));
    assert_eq!(response.error, Some("Failed to connect to Ollama: ".to_string()));
}

#[test]
fn record_reply_ignores_failures() {
    let mut state = AppState::new();
    state.record_reply(&ChatResponse::failed("nothing".to_string()));
    assert_eq!(state.chat_history.len(), 0);
    state.record_reply(&ChatResponse::succeeded("pong".to_string()));
    assert_eq!(entries(&state.chat_history), vec![(Role::Assistant, "pong".to_string())]);
    let copy = ChatResponse::succeeded("pong".to_string()).clone();
    assert!(copy.success);
    assert_eq!(copy.response, Some("pong".to_string()));
    assert_eq!(copy.error, None);
}

#[test]
fn interleaved_turns_keep_every_entry() {
    let mut state = AppState::new();
    state.begin_chat("first".to_string());
    state.begin_chat("second".to_string());
    finished(state.handle_exchange_event(ExchangeEvent::BodyDecoded {
        content: Some("to second".to_string()),
    }));
    finished(state.handle_exchange_event(ExchangeEvent::BodyDecoded {
        content: Some("to first".to_string()),
    }));
    assert_eq!(
        entries(&state.chat_history),
        vec![
            (Role::User, "first".to_string()),
            (Role::User, "second".to_string()),
            (Role::Assistant, "to second".to_string()),
            (Role::Assistant, "to first".to_string()),
        ]
    );
}

#[test]
fn default_config_holds_the_fixed_settings() {
    let config = ChatConfig::default();
    assert_eq!(config.endpoint, "http://localhost:11434/api/chat");
    assert_eq!(config.model, "llama3.2");
    assert_eq!(config.history_window, 10);
    assert_eq!(config.system_prompt, SYSTEM_PROMPT);
}

#[test]
fn begin_chat_with_follows_the_config() {
    let config = ChatConfig {
        endpoint: "http://127.0.0.1:9/api/chat".to_string(),
        model: "tiny".to_string(),
        history_window: 2,
        system_prompt: "short answers".to_string(),
    };
    let mut state = AppState::new();
    state.begin_chat_with("one".to_string(), &config);
    state.begin_chat_with("two".to_string(), &config);
    let request = state.begin_chat_with("three".to_string(), &config);
    assert_eq!(request.model, "tiny");
    assert!(!request.stream);
    assert_eq!(request.messages.len(), 3);
    assert_eq!(request.messages[0].role, Role::System);
    assert_eq!(request.messages[0].content, "short answers");
    assert_eq!(request.messages[1].content, "two");
    assert_eq!(request.messages[2].content, "three");
    assert_eq!(state.chat_history.len(), 3);
}

#[test]
fn each_failure_has_its_own_text() {
    let response = ChatResponse::transport_failure("timed out");
    assert!(!response.success);
    assert_eq!(response.response, None);
    assert_eq!(response.error, Some("Failed to connect to Ollama: timed out".to_string()));
    let response = ChatResponse::status_failure("503 Service Unavailable");
    assert!(!response.success);
    assert_eq!(
        response.error,
        Some("Ollama returned status: 503 Service Unavailable".to_string())
    );
    let response = ChatResponse::parse_failure("EOF while parsing");
    assert!(!response.success);
    assert_eq!(response.error, Some("Failed to parse response: EOF while parsing".to_string()));
    let response = ChatResponse::empty_reply();
    assert!(!response.success);
    assert_eq!(response.response, None);
    assert_eq!(response.error, Some("Empty response from Ollama".to_string()));
}
