use chat_gateway::config::{GatewayConfig, DEFAULT_HOST, DEFAULT_MODEL};
use chat_gateway::gateway::{Action, Event, Exchange, Phase};
use chat_gateway::message::{build_messages, ChatMessage, ChatRequest};
use chat_gateway::preamble::{system_preamble, topics_or_default, DEFAULT_TOPICS};
use chat_gateway::prober::{status_is_success, ProbeAction, ReadinessProber, RETRY_DELAY_MS};
use chat_gateway::translator::{
    completion_url, encode_request, health_url, read_reply, response_text, BackendReply, Strategy,
};
use chat_gateway::wire::{encode_chat, encode_generate, encode_response};

fn config(strategy: Strategy) -> GatewayConfig {
    GatewayConfig::from_settings(Some("http://backend:1".to_string()), Some("m".to_string()), strategy)
}

fn request(prompt: &str, history: Option<Vec<(&str, &str)>>) -> ChatRequest {
    ChatRequest {
        prompt: prompt.to_string(),
        messages: history.map(|h| h.into_iter().map(|(r, c)| ChatMessage::new(r, c)).collect()),
    }
}

fn turns(ms: &[ChatMessage]) -> Vec<(String, String)> {
    ms.iter().map(|m| (m.role.clone(), m.content.clone())).collect()
}

/// Runs one request to the backend call and returns the call's url and body.
fn start_call(ex: &mut Exchange, cfg: &GatewayConfig, req: ChatRequest, topics: Option<String>) -> (String, String) {
    assert!(matches!(ex.step(cfg, Event::BodyDecoded { request: req }), Action::AwaitPermit));
    match ex.step(cfg, Event::PermitGranted { topics }) {
        Action::CallBackend { url, body } => (url, body),
        other => panic!("expected a backend call, got {:?}", other),
    }
}

fn finish(ex: &mut Exchange, cfg: &GatewayConfig, reply: BackendReply) -> String {
    match ex.step(cfg, Event::BackendDone { reply }) {
        Action::Respond { body } => body,
        other => panic!("expected a response, got {:?}", other),
    }
}

fn full_run(strategy: Strategy, backend_body: &[u8]) -> String {
    let cfg = config(strategy);
    let mut ex = Exchange::new();
    start_call(&mut ex, &cfg, request("hello", None), Some("cats".to_string()));
    let reply = read_reply(strategy, backend_body);
    let body = finish(&mut ex, &cfg, reply);
    assert_eq!(ex.phase, Phase::Responded);
    body
}

#[test]
fn generate_backend_answer_is_returned() {
    assert_eq!(full_run(Strategy::Generate, br#"{"response":"X"}"#), r#"{"response":"X"}"#);
}

#[test]
fn generate_missing_field_gives_fallback() {
    assert_eq!(full_run(Strategy::Generate, br#"{"other":1}"#), r#"{"response":"No response field found"}"#);
}

#[test]
fn generate_non_string_field_gives_fallback() {
    assert_eq!(full_run(Strategy::Generate, br#"{"response":5}"#), r#"{"response":"No response field found"}"#);
}

#[test]
fn generate_malformed_body_gives_invalid() {
    assert_eq!(full_run(Strategy::Generate, b"not json"), r#"{"response":"Invalid response from Ollama"}"#);
}

#[test]
fn chat_answer_is_read_from_first_choice() {
    let body = br#"{"choices":[{"message":{"role":"assistant","content":"Y"}},{"message":{"content":"Z"}}]}"#;
    assert_eq!(full_run(Strategy::ChatCompletions, body), r#"{"response":"Y"}"#);
}

#[test]
fn chat_missing_content_gives_fallback() {
    assert_eq!(
        full_run(Strategy::ChatCompletions, br#"{"choices":[]}"#),
        r#"{"response":"No content field found in first choice"}"#
    );
}

#[test]
fn chat_malformed_body_gives_invalid() {
    assert_eq!(
        full_run(Strategy::ChatCompletions, b"{"),
        r#"{"response":"Invalid response from llama.cpp"}"#
    );
}

#[test]
fn unreachable_backend_gives_sentinel_and_frees_permit() {
    for (strategy, expected) in [
        (Strategy::Generate, r#"{"response":"Failed to contact Ollama"}"#),
        (Strategy::ChatCompletions, r#"{"response":"Failed to contact llama.cpp"}"#),
    ] {
        let cfg = config(strategy);
        let mut ex = Exchange::new();
        start_call(&mut ex, &cfg, request("p", None), None);
        assert_eq!(ex.phase, Phase::BackendCalled);
        assert_eq!(finish(&mut ex, &cfg, BackendReply::Unreachable), expected);
        assert_eq!(ex.phase, Phase::Responded);
        // a later request is admitted and served as usual
        let mut next = Exchange::new();
        start_call(&mut next, &cfg, request("q", None), None);
        assert_eq!(next.phase, Phase::BackendCalled);
    }
}

#[test]
fn history_replaces_prompt_in_messages() {
    let req = request("ignored", Some(vec![("user", "hi"), ("assistant", "yo")]));
    let pre = system_preamble("cats");
    let ms = build_messages(&req, &pre);
    assert_eq!(
        turns(&ms),
        vec![
            ("system".to_string(), pre.clone()),
            ("user".to_string(), "hi".to_string()),
            ("assistant".to_string(), "yo".to_string()),
        ]
    );
}

#[test]
fn no_history_sends_prompt_as_user_turn() {
    let req = request("what is up", None);
    let ms = build_messages(&req, "P");
    assert_eq!(
        turns(&ms),
        vec![("system".to_string(), "P".to_string()), ("user".to_string(), "what is up".to_string())]
    );
}

#[test]
fn empty_history_sends_only_preamble() {
    let req = request("x", Some(vec![]));
    let ms = build_messages(&req, "P");
    assert_eq!(turns(&ms), vec![("system".to_string(), "P".to_string())]);
}

#[test]
fn history_roles_are_not_revalidated() {
    let req = request("x", Some(vec![("robot", "beep")]));
    let ms = build_messages(&req, "P");
    assert_eq!(turns(&ms)[1], ("robot".to_string(), "beep".to_string()));
}

#[test]
fn malformed_body_is_rejected_without_backend_call() {
    let cfg = config(Strategy::ChatCompletions);
    let mut ex = Exchange::new();
    assert!(matches!(ex.step(&cfg, Event::BodyMalformed), Action::Reject));
    let later = vec![
        Event::BodyDecoded { request: request("p", None) },
        Event::PermitGranted { topics: None },
        Event::BackendDone { reply: BackendReply::Unreachable },
    ];
    let mut calls = 0;
    for ev in later {
        let a = ex.step(&cfg, ev);
        if matches!(a, Action::CallBackend { .. }) {
            calls += 1;
        }
        assert!(matches!(a, Action::Ignore));
    }
    assert_eq!(calls, 0);
    assert_eq!(ex.phase, Phase::Rejected);
}

#[test]
fn events_out_of_order_are_ignored() {
    let cfg = config(Strategy::Generate);
    let mut ex = Exchange::new();
    assert!(matches!(ex.step(&cfg, Event::PermitGranted { topics: None }), Action::Ignore));
    assert!(matches!(
        ex.step(&cfg, Event::BackendDone { reply: BackendReply::Malformed }),
        Action::Ignore
    ));
    assert_eq!(ex.phase, Phase::Received);
}

#[test]
fn prober_retries_until_success() {
    let mut p = ReadinessProber::new();
    let outcomes = [None, Some(503), Some(500), Some(200)];
    let mut actions = Vec::new();
    for o in outcomes {
        let a = p.observe(o);
        actions.push(a);
        if a == ProbeAction::Ready {
            break;
        }
    }
    assert_eq!(p.checks, 4);
    assert_eq!(
        actions,
        vec![
            ProbeAction::RetryAfter { millis: 1000 },
            ProbeAction::RetryAfter { millis: 1000 },
            ProbeAction::RetryAfter { millis: 1000 },
            ProbeAction::Ready,
        ]
    );
    assert_eq!(RETRY_DELAY_MS, 1000);
}

#[test]
fn prober_count_saturates() {
    let mut p = ReadinessProber { checks: u64::MAX };
    assert_eq!(p.observe(Some(204)), ProbeAction::Ready);
    assert_eq!(p.checks, u64::MAX);
}

#[test]
fn success_status_bounds() {
    assert!(!status_is_success(199));
    assert!(status_is_success(200));
    assert!(status_is_success(299));
    assert!(!status_is_success(300));
    assert!(!status_is_success(404));
}

#[test]
fn preamble_wraps_topics() {
    assert_eq!(
        system_preamble("cooking"),
        "You are a specialized AI assistant. You stay strictly on these topics: cooking. If a user asks about other topics, you MUST state that you do not have access and cannot help with those. NEVER pretend to have information outside these topics. You also DO NOT HAVE ACCESS to user accounts, passwords, or personal data."
    );
}

#[test]
fn topics_fall_back_to_default() {
    assert_eq!(topics_or_default(None), "General assistance");
    assert_eq!(DEFAULT_TOPICS, "General assistance");
    assert_eq!(topics_or_default(Some("dogs".to_string())), "dogs");
}

#[test]
fn config_defaults() {
    let c = GatewayConfig::from_settings(None, None, Strategy::Generate);
    assert_eq!(c.host, "http://ollama:11434");
    assert_eq!(c.model, "llama3.2");
    assert_eq!(DEFAULT_HOST, c.host);
    assert_eq!(DEFAULT_MODEL, c.model);
    let d = GatewayConfig::from_settings(Some("h".to_string()), Some("m".to_string()), Strategy::ChatCompletions);
    assert_eq!((d.host.as_str(), d.model.as_str()), ("h", "m"));
}

#[test]
fn urls_per_strategy() {
    assert_eq!(completion_url("http://h:1", Strategy::Generate), "http://h:1/api/generate");
    assert_eq!(completion_url("http://h:1", Strategy::ChatCompletions), "http://h:1/v1/chat/completions");
    assert_eq!(health_url("http://h:1", Strategy::Generate), "http://h:1/api/tags");
    assert_eq!(health_url("http://h:1", Strategy::ChatCompletions), "http://h:1/health");
}

#[test]
fn generate_request_body() {
    assert_eq!(
        encode_generate("llama3.2", "say \"hi\"", "S"),
        r#"{"model":"llama3.2","prompt":"say \"hi\"","system":"S","stream":false}"#
    );
}

#[test]
fn chat_request_body() {
    let ms = vec![ChatMessage::new("system", "S"), ChatMessage::new("user", "a\nb")];
    assert_eq!(
        encode_chat("m", &ms),
        r#"{"model":"m","messages":[{"role":"system","content":"S"},{"role":"user","content":"a\nb"}],"stream":false}"#
    );
    assert_eq!(encode_chat("m", &vec![]), r#"{"model":"m","messages":[],"stream":false}"#);
}

#[test]
fn request_body_through_gateway() {
    let cfg = config(Strategy::ChatCompletions);
    let mut ex = Exchange::new();
    let (url, body) = start_call(&mut ex, &cfg, request("p", Some(vec![("user", "hi"), ("assistant", "yo")])), Some("T".to_string()));
    assert_eq!(url, "http://backend:1/v1/chat/completions");
    let pre = system_preamble("T");
    let expected = format!(
        r#"{{"model":"m","messages":[{{"role":"system","content":{}}},{{"role":"user","content":"hi"}},{{"role":"assistant","content":"yo"}}],"stream":false}}"#,
        serde_json::to_string(&pre).unwrap()
    );
    assert_eq!(body, expected);
    let direct = encode_request(Strategy::ChatCompletions, "m", &request("p", Some(vec![("user", "hi"), ("assistant", "yo")])), &pre);
    assert_eq!(direct, expected);
}

#[test]
fn generate_body_through_gateway_uses_default_topics() {
    let cfg = config(Strategy::Generate);
    let mut ex = Exchange::new();
    let (url, body) = start_call(&mut ex, &cfg, request("why", None), None);
    assert_eq!(url, "http://backend:1/api/generate");
    let v: serde_json::Value = serde_json::from_str(&body).unwrap();
    assert_eq!(v["model"], "m");
    assert_eq!(v["prompt"], "why");
    assert_eq!(v["system"], system_preamble("General assistance").as_str());
    assert_eq!(v["stream"], false);
}

#[test]
fn response_body_escapes_text() {
    assert_eq!(encode_response("a\"b"), r#"{"response":"a\"b"}"#);
    assert_eq!(encode_response(""), r#"{"response":""}"#);
}

#[test]
fn response_text_per_reply() {
    let ok = BackendReply::Parsed { answer: Some("fine".to_string()) };
    assert_eq!(response_text(Strategy::Generate, &ok), "fine");
    assert_eq!(response_text(Strategy::ChatCompletions, &BackendReply::Parsed { answer: None }), "No content field found in first choice");
    assert_eq!(response_text(Strategy::Generate, &BackendReply::Malformed), "Invalid response from Ollama");
}

#[test]
fn read_reply_kinds() {
    assert!(matches!(read_reply(Strategy::Generate, b"[1,"), BackendReply::Malformed));
    assert!(matches!(read_reply(Strategy::Generate, b"{}"), BackendReply::Parsed { answer: None }));
    match read_reply(Strategy::Generate, br#"{"response":"r"}"#) {
        BackendReply::Parsed { answer: Some(a) } => assert_eq!(a, "r"),
        other => panic!("unexpected {:?}", other),
    }
}

#[test]
fn response_body_escapes_control_characters() {
    assert_eq!(
        encode_response("\u{1}\u{8}\t\n\u{c}\r\u{1f}\\/é"),
        r#"{"response":"\u0001\b\t\n\f\r\u001f\\/é"}"#
    );
}

#[test]
fn read_reply_chat_content_must_be_string() {
    let body = br#"{"choices":[{"message":{"content":7}}]}"#;
    assert!(matches!(read_reply(Strategy::ChatCompletions, body), BackendReply::Parsed { answer: None }));
    match read_reply(Strategy::ChatCompletions, br#"{"choices":[{"message":{"content":"c"}}]}"#) {
        BackendReply::Parsed { answer: Some(a) } => assert_eq!(a, "c"),
        other => panic!("unexpected {:?}", other),
    }
    assert!(matches!(read_reply(Strategy::ChatCompletions, br#"{"response":"r"}"#), BackendReply::Parsed { answer: None }));
}
