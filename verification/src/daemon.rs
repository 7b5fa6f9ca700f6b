use vstd::prelude::*;

use crate::classify_tool_preview;
use crate::events::{daemon_event, is_rfc3339_utc_text, now_rfc3339, text_field};
use crate::preview_for_message;
use crate::text::opt_view;
use crate::types::{
    payload_view, ChatRequest, ChatResponse, EventEnvelope, EventField, FieldValueView,
    HealthResponse, SpeakRequest, SpeakResponse,
};

verus! {

/// A lowercase hexadecimal digit.
pub open spec fn is_lower_hex(c: char) -> bool {
    ('0' <= c && c <= '9') || ('a' <= c && c <= 'f')
}

/// Text in the hyphenated lowercase form of a random (version 4, RFC 9562
/// variant) UUID: 36 characters, hyphens at 8, 13, 18 and 23, lowercase hex
/// digits elsewhere, the version digit `4` at 14 and one of `8`, `9`, `a`,
/// `b` at 19.
pub open spec fn is_uuid_v4_text(s: Seq<char>) -> bool {
    &&& s.len() == 36
    &&& forall|i: int|
        0 <= i < 36 ==> if i == 8 || i == 13 || i == 18 || i == 23 {
            s[i] == '-'
        } else {
            is_lower_hex(#[trigger] s[i])
        }
    &&& s[14] == '4'
    &&& (s[19] == '8' || s[19] == '9' || s[19] == 'a' || s[19] == 'b')
}

/// A fresh request id, as `uuid::Uuid::new_v4().to_string()` writes it.
/// The value is random; claimed is only its form, as the crate formats a
/// version 4 UUID (hyphenated, lowercase, version and variant bits set).
#[verifier::external_body]
fn new_request_id() -> (id: String)
    ensures
        is_uuid_v4_text(id@),
{
    uuid::Uuid::new_v4().to_string()
}

/// The health report of the daemon named `service`.
pub fn health_response(service: &str) -> (h: HealthResponse)
    ensures
        h.service@ == service@,
        h.status@ == "ok"@,
{
    HealthResponse { service: service.to_string(), status: "ok" }
}

/// The reply text to a chat message.
pub open spec fn chat_reply_text(message: Seq<char>) -> Seq<char> {
    "Sprint 1 scaffold active. Received: '"@ + message + "'. Tool execution will be added next."@
}

/// The reply to a chat message quotes the message whole.
pub proof fn lemma_chat_reply_quotes_message(message: Seq<char>)
    ensures
        crate::text::seq_contains(chat_reply_text(message), message),
{
    let prefix = "Sprint 1 scaffold active. Received: '"@;
    let reply = chat_reply_text(message);
    assert(reply.subrange(prefix.len() as int, (prefix.len() + message.len()) as int) =~= message);
}

/// The reply to a chat message begins with "Sprint 1 scaffold active".
pub proof fn lemma_chat_reply_documented_prefix(message: Seq<char>)
    ensures
        chat_reply_text(message).take(24) == "Sprint 1 scaffold active"@,
{
    reveal_strlit("Sprint 1 scaffold active. Received: '");
    reveal_strlit("Sprint 1 scaffold active");
    assert(chat_reply_text(message).take(24) =~= "Sprint 1 scaffold active"@);
}

/// Answers a chat message: a mock reply that quotes it, and the tool preview
/// that it routes to.
pub fn chat_response(req: &ChatRequest) -> (r: ChatResponse)
    ensures
        r.reply@ == chat_reply_text(req.message@),
        r.mode@ == "mock"@,
        r.tool_preview@ == preview_for_message(req.message@),
{
    let tool_preview = classify_tool_preview(req.message.as_str());
    let mut reply = String::from_str("Sprint 1 scaffold active. Received: '");
    reply.append(req.message.as_str());
    reply.append("'. Tool execution will be added next.");
    ChatResponse { reply, mode: "mock", tool_preview }
}

/// The voice of a speech request: the requested one, or the system default.
pub open spec fn voice_or_default(voice: Option<Seq<char>>) -> Seq<char> {
    match voice {
        Some(v) => v,
        None => "system-default"@,
    }
}

/// Picks the voice of a speech request.
pub fn speech_voice(voice: Option<String>) -> (v: String)
    ensures
        v@ == voice_or_default(opt_view(voice)),
{
    match voice {
        Some(v) => v,
        None => "system-default".to_string(),
    }
}

/// The payload of the event that starts a speech.
pub open spec fn started_payload(request_id: Seq<char>, voice: Seq<char>, text: Seq<char>) -> Seq<
    (Seq<char>, FieldValueView),
> {
    seq![
        ("request_id"@, FieldValueView::Text(request_id)),
        ("voice"@, FieldValueView::Text(voice)),
        ("text"@, FieldValueView::Text(text)),
    ]
}

/// The event that starts a speech, stamped with `at`.
pub fn speech_started_event_at(request_id: String, voice: String, text: String, at: String) -> (e:
    EventEnvelope)
    ensures
        e.event@ == "speech_started"@,
        e.at@ == at@,
        e.source@ == "core-daemon"@,
        payload_view(e.data@) == started_payload(request_id@, voice@, text@),
{
    let ghost (r, v, t) = (request_id@, voice@, text@);
    let mut data: Vec<EventField> = Vec::new();
    data.push(text_field("request_id", request_id));
    data.push(text_field("voice", voice));
    data.push(text_field("text", text));
    let e = daemon_event("speech_started", at, data);
    assert(payload_view(e.data@) =~= started_payload(r, v, t));
    e
}

/// The answer to an accepted speech request.
pub fn speak_response(request_id: String) -> (r: SpeakResponse)
    ensures
        r.ok,
        r.request_id@ == request_id@,
        r.mode@ == "mock"@,
{
    SpeakResponse { ok: true, request_id, mode: "mock" }
}

/// Accepts a speech request under a fresh request id: the answer to send back,
/// and the event announcing that the speech started, which carries the same
/// request id, the chosen voice and the text.
pub fn start_speech(req: SpeakRequest) -> (r: (SpeakResponse, EventEnvelope))
    ensures
        is_rfc3339_utc_text(r.1.at@),
        r.0.ok,
        r.0.mode@ == "mock"@,
        is_uuid_v4_text(r.0.request_id@),
        r.1.event@ == "speech_started"@,
        r.1.source@ == "core-daemon"@,
        payload_view(r.1.data@) == started_payload(
            r.0.request_id@,
            voice_or_default(opt_view(req.voice)),
            req.text@,
        ),
{
    let request_id = new_request_id();
    let voice = speech_voice(req.voice);
    let started = speech_started_event_at(request_id.clone(), voice, req.text, now_rfc3339());
    (speak_response(request_id), started)
}

/// The payload of the event that ends a mock speech started by `speak`.
pub open spec fn completed_payload(request_id: Seq<char>) -> Seq<(Seq<char>, FieldValueView)> {
    seq![
        ("request_id"@, FieldValueView::Text(request_id)),
        ("reason"@, FieldValueView::Text("mock_complete"@)),
    ]
}

/// The event that ends a mock speech started by `speak`, stamped with `at`.
pub fn speech_completed_event_at(request_id: String, at: String) -> (e: EventEnvelope)
    ensures
        e.event@ == "speech_stopped"@,
        e.at@ == at@,
        e.source@ == "core-daemon"@,
        payload_view(e.data@) == completed_payload(request_id@),
{
    let ghost r = request_id@;
    let mut data: Vec<EventField> = Vec::new();
    data.push(text_field("request_id", request_id));
    data.push(text_field("reason", "mock_complete".to_string()));
    let e = daemon_event("speech_stopped", at, data);
    assert(payload_view(e.data@) =~= completed_payload(r));
    e
}

/// The event that ends a mock speech started by `speak`, stamped now.
pub fn speech_completed_event(request_id: String) -> (e: EventEnvelope)
    ensures
        is_rfc3339_utc_text(e.at@),
        e.event@ == "speech_stopped"@,
        e.source@ == "core-daemon"@,
        payload_view(e.data@) == completed_payload(request_id@),
{
    speech_completed_event_at(request_id, now_rfc3339())
}

/// The payload of the event sent when the user stops the speech.
pub open spec fn user_stop_payload() -> Seq<(Seq<char>, FieldValueView)> {
    seq![("reason"@, FieldValueView::Text("user_stop"@))]
}

/// The event sent when the user stops the speech, stamped with `at`.
pub fn user_stop_event_at(at: String) -> (e: EventEnvelope)
    ensures
        e.event@ == "speech_stopped"@,
        e.at@ == at@,
        e.source@ == "core-daemon"@,
        payload_view(e.data@) == user_stop_payload(),
{
    let mut data: Vec<EventField> = Vec::new();
    data.push(text_field("reason", "user_stop".to_string()));
    let e = daemon_event("speech_stopped", at, data);
    assert(payload_view(e.data@) =~= user_stop_payload());
    e
}

/// The event sent when the user stops the speech, stamped now.
pub fn user_stop_event() -> (e: EventEnvelope)
    ensures
        is_rfc3339_utc_text(e.at@),
        e.event@ == "speech_stopped"@,
        e.source@ == "core-daemon"@,
        payload_view(e.data@) == user_stop_payload(),
{
    user_stop_event_at(now_rfc3339())
}

/// An event with an empty payload, stamped with `at`.
fn bare_event_at(event: &str, at: String) -> (e: EventEnvelope)
    ensures
        e.event@ == event@,
        e.at@ == at@,
        e.source@ == "core-daemon"@,
        e.data@.len() == 0,
{
    daemon_event(event, at, Vec::new())
}

/// The greeting sent to a client that subscribes to the event stream.
pub fn connected_event() -> (e: EventEnvelope)
    ensures
        is_rfc3339_utc_text(e.at@),
        e.event@ == "connected"@,
        e.source@ == "core-daemon"@,
        e.data@.len() == 0,
{
    bare_event_at("connected", now_rfc3339())
}

/// The keep-alive sent on a quiet event stream.
pub fn heartbeat_event() -> (e: EventEnvelope)
    ensures
        is_rfc3339_utc_text(e.at@),
        e.event@ == "heartbeat"@,
        e.source@ == "core-daemon"@,
        e.data@.len() == 0,
{
    bare_event_at("heartbeat", now_rfc3339())
}

/// What happened on a client's event stream while it waited.
pub enum StreamInput {
    /// The heartbeat interval passed with nothing to send.
    HeartbeatDue,
    /// An event was published.
    Received(EventEnvelope),
    /// The subscription failed (the channel closed or the client lagged behind).
    ReceiveFailed,
}

/// What to do next on a client's event stream.
pub enum StreamAction {
    /// Send this event to the client, then wait again.
    Send(EventEnvelope),
    /// Close the stream.
    Close,
}

/// Decides the next step of a client's event stream: a heartbeat when it is
/// due, every published event as it comes, and the end of the stream when the
/// subscription fails.
pub fn stream_step(input: StreamInput) -> (a: StreamAction)
    ensures
        input is HeartbeatDue ==> (a matches StreamAction::Send(e) && e.event@ == "heartbeat"@
            && e.source@ == "core-daemon"@ && e.data@.len() == 0 && is_rfc3339_utc_text(e.at@)),
        input matches StreamInput::Received(ev) ==> a == StreamAction::Send(ev),
        input is ReceiveFailed ==> a is Close,
{
    match input {
        StreamInput::HeartbeatDue => StreamAction::Send(heartbeat_event()),
        StreamInput::Received(ev) => StreamAction::Send(ev),
        StreamInput::ReceiveFailed => StreamAction::Close,
    }
}

/// Whether the stream goes on after a send: only when the client took the message.
pub fn continue_after_send(sent: bool) -> (go_on: bool)
    ensures
        go_on == sent,
{
    sent
}

/// The event that starts a speech names the request, the chosen voice and
/// the text to speak; the one that ends a mock speech names the same request;
/// the voice is the requested one, or "system-default" when none was asked for.
pub proof fn lemma_speech_event_fields(
    request_id: Seq<char>,
    voice: Option<Seq<char>>,
    text: Seq<char>,
)
    ensures
        started_payload(request_id, voice_or_default(voice), text).len() == 3,
        started_payload(request_id, voice_or_default(voice), text)[0] == ("request_id"@,
            FieldValueView::Text(request_id)),
        started_payload(request_id, voice_or_default(voice), text)[1] == ("voice"@,
            FieldValueView::Text(voice_or_default(voice))),
        started_payload(request_id, voice_or_default(voice), text)[2] == ("text"@,
            FieldValueView::Text(text)),
        voice matches Some(v) ==> voice_or_default(voice) == v,
        voice is None ==> voice_or_default(voice) == "system-default"@,
        completed_payload(request_id).len() == 2,
        completed_payload(request_id)[0] == ("request_id"@, FieldValueView::Text(request_id)),
        completed_payload(request_id)[1] == ("reason"@, FieldValueView::Text("mock_complete"@)),
        user_stop_payload() == seq![("reason"@, FieldValueView::Text("user_stop"@))],
{
}

/// The reply to a chat message is the documented opening, the message in
/// quotes, and the closing sentence.
pub proof fn lemma_chat_reply_shape(message: Seq<char>)
    ensures
        chat_reply_text(message) == "Sprint 1 scaffold active. Received: '"@ + message
            + "'. Tool execution will be added next."@,
{
}

} // verus!
