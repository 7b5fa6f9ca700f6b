use core_daemon::daemon::{
    chat_response, connected_event, continue_after_send, health_response, heartbeat_event,
    speak_response, speech_completed_event, speech_completed_event_at, speech_started_event_at,
    speech_voice, start_speech, stream_step, user_stop_event, user_stop_event_at, StreamAction,
    StreamInput,
};
use core_daemon::types::{ChatRequest, EventEnvelope, FieldValue, SpeakRequest};

fn text(e: &EventEnvelope, key: &str) -> String {
    match e.data.iter().find(|f| f.key == key).map(|f| &f.value) {
        Some(FieldValue::Text(s)) => s.clone(),
        other => panic!("field {} is not text: {:?}", key, other),
    }
}

#[test]
fn health_reports_ok() {
    let h = health_response("AI-OS Core Daemon");
    assert_eq!(h.service, "AI-OS Core Daemon");
    assert_eq!(h.status, "ok");
}

#[test]
fn chat_quotes_message_and_routes_it() {
    let r = chat_response(&ChatRequest { message: "open downloads".to_string() });
    assert_eq!(
        r.reply,
        "Sprint 1 scaffold active. Received: 'open downloads'. Tool execution will be added next."
    );
    assert_eq!(r.mode, "mock");
    assert_eq!(r.tool_preview.name, "open_app_or_file");
    let r = chat_response(&ChatRequest { message: "Remove X".to_string() });
    assert_eq!(r.tool_preview.name, "delete_file");
    assert!(r.reply.contains("'Remove X'"));
    assert!(r.reply.starts_with("Sprint 1 scaffold active"));
}

#[test]
fn voice_defaults_to_system_default() {
    assert_eq!(speech_voice(None), "system-default");
    assert_eq!(speech_voice(Some("Alex".to_string())), "Alex");
}

#[test]
fn start_speech_shares_request_id() {
    let (resp, started) = start_speech(SpeakRequest { text: "hello".to_string(), voice: None });
    assert!(resp.ok);
    assert_eq!(resp.mode, "mock");
    assert!(!resp.request_id.is_empty());
    assert_eq!(started.event, "speech_started");
    assert_eq!(started.source, "core-daemon");
    assert_eq!(text(&started, "request_id"), resp.request_id);
    assert_eq!(text(&started, "voice"), "system-default");
    assert_eq!(text(&started, "text"), "hello");
    let id: Vec<char> = resp.request_id.chars().collect();
    assert_eq!(id.len(), 36);
    for (i, c) in id.iter().enumerate() {
        if [8, 13, 18, 23].contains(&i) {
            assert_eq!(*c, '-');
        } else {
            assert!(c.is_ascii_hexdigit() && !c.is_ascii_uppercase());
        }
    }
    assert_eq!(id[14], '4');
    assert!(['8', '9', 'a', 'b'].contains(&id[19]));
    let (resp2, _) = start_speech(SpeakRequest { text: "x".to_string(), voice: Some("v".to_string()) });
    assert_ne!(resp.request_id, resp2.request_id);
}

#[test]
fn speech_events_have_their_payloads() {
    let s = speech_started_event_at("r".to_string(), "v".to_string(), "t".to_string(), "T".to_string());
    let keys: Vec<&str> = s.data.iter().map(|f| f.key.as_str()).collect();
    assert_eq!(keys, vec!["request_id", "voice", "text"]);
    assert_eq!(s.at, "T");

    let c = speech_completed_event_at("r".to_string(), "T".to_string());
    assert_eq!(c.event, "speech_stopped");
    assert_eq!(text(&c, "reason"), "mock_complete");
    assert_eq!(text(&c, "request_id"), "r");
    assert_eq!(text(&speech_completed_event("q".to_string()), "request_id"), "q");

    let u = user_stop_event_at("T".to_string());
    assert_eq!(u.event, "speech_stopped");
    assert_eq!(u.data.len(), 1);
    assert_eq!(text(&u, "reason"), "user_stop");
    assert!(!user_stop_event().at.is_empty());

    let r = speak_response("id".to_string());
    assert!(r.ok);
    assert_eq!(r.request_id, "id");
}

#[test]
fn stream_sends_heartbeats_and_events_then_closes() {
    let connected = connected_event();
    assert_eq!(connected.event, "connected");
    assert!(connected.data.is_empty());
    match stream_step(StreamInput::HeartbeatDue) {
        StreamAction::Send(e) => {
            assert_eq!(e.event, "heartbeat");
            assert!(e.data.is_empty());
        }
        StreamAction::Close => panic!("heartbeat must be sent"),
    }
    match stream_step(StreamInput::Received(user_stop_event())) {
        StreamAction::Send(e) => assert_eq!(e.event, "speech_stopped"),
        StreamAction::Close => panic!("event must be forwarded"),
    }
    assert!(matches!(stream_step(StreamInput::ReceiveFailed), StreamAction::Close));
    assert!(continue_after_send(true));
    assert!(!continue_after_send(false));
    assert_eq!(heartbeat_event().source, "core-daemon");
}

fn is_rfc3339_utc(s: &str) -> bool {
    let Some(body) = s.strip_suffix("+00:00") else { return false };
    let c: Vec<char> = body.chars().collect();
    let t = match c.iter().position(|&x| x == 'T') {
        Some(t) => t,
        None => return false,
    };
    let digits = |r: std::ops::Range<usize>| r.clone().all(|i| i < c.len() && c[i].is_ascii_digit());
    t >= 10
        && c[t - 3] == '-'
        && c[t - 6] == '-'
        && digits(t - 2..t)
        && digits(t - 5..t - 3)
        && digits(0..t - 6)
        && c.len() >= t + 9
        && c[t + 3] == ':'
        && c[t + 6] == ':'
        && digits(t + 1..t + 3)
        && digits(t + 4..t + 6)
        && digits(t + 7..t + 9)
        && (c.len() == t + 9 || (c[t + 9] == '.' && [4, 7, 10].contains(&(c.len() - t - 9)) && digits(t + 10..c.len())))
}

#[test]
fn events_are_stamped_in_rfc3339_utc() {
    let (_, started) = start_speech(SpeakRequest { text: "t".to_string(), voice: None });
    assert!(is_rfc3339_utc(&started.at), "{}", started.at);
    assert!(is_rfc3339_utc(&connected_event().at));
    assert!(is_rfc3339_utc(&heartbeat_event().at));
    assert!(is_rfc3339_utc(&user_stop_event().at));
    assert!(is_rfc3339_utc(&speech_completed_event("r".to_string()).at));
    assert!(is_rfc3339_utc("2026-02-28T00:00:00.123+00:00"));
    assert!(!is_rfc3339_utc("2026-02-28 00:00:00Z"));
}
