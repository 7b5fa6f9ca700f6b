use vstd::prelude::*;

verus! {

/// A chat message sent to the daemon.
#[derive(Debug)]
pub struct ChatRequest {
    pub message: String,
}

/// The tool that a chat message would route to, with its risk tier.
#[derive(Debug)]
pub struct ToolPreview {
    pub name: String,
    pub risk_tier: u8,
    pub requires_confirmation: bool,
    pub note: String,
}

impl View for ToolPreview {
    type V = (Seq<char>, u8, bool, Seq<char>);

    open spec fn view(&self) -> (Seq<char>, u8, bool, Seq<char>) {
        (self.name@, self.risk_tier, self.requires_confirmation, self.note@)
    }
}

/// The daemon's answer to a chat message.
#[derive(Debug)]
pub struct ChatResponse {
    pub reply: String,
    pub mode: &'static str,
    pub tool_preview: ToolPreview,
}

/// The daemon's health report.
#[derive(Debug)]
pub struct HealthResponse {
    pub service: String,
    pub status: &'static str,
}

/// A value carried by one field of an event's payload.
#[derive(Debug, Clone)]
pub enum FieldValue {
    Text(String),
    Flag(bool),
    Number(u64),
}

/// What a payload field's value stands for.
pub enum FieldValueView {
    Text(Seq<char>),
    Flag(bool),
    Number(u64),
}

impl View for FieldValue {
    type V = FieldValueView;

    open spec fn view(&self) -> FieldValueView {
        match self {
            FieldValue::Text(s) => FieldValueView::Text(s@),
            FieldValue::Flag(b) => FieldValueView::Flag(*b),
            FieldValue::Number(n) => FieldValueView::Number(*n),
        }
    }
}

/// One named field of an event's payload object.
#[derive(Debug, Clone)]
pub struct EventField {
    pub key: String,
    pub value: FieldValue,
}

impl View for EventField {
    type V = (Seq<char>, FieldValueView);

    open spec fn view(&self) -> (Seq<char>, FieldValueView) {
        (self.key@, self.value@)
    }
}

/// The payload of an event, field by field, as a sequence of (key, value) views.
pub open spec fn payload_view(fields: Seq<EventField>) -> Seq<(Seq<char>, FieldValueView)> {
    fields.map_values(|f: EventField| f@)
}

/// An event published on the daemon's event stream.
#[derive(Debug, Clone)]
pub struct EventEnvelope {
    pub event: String,
    pub at: String,
    pub source: &'static str,
    pub data: Vec<EventField>,
}

/// A request to speak a text aloud.
#[derive(Debug)]
pub struct SpeakRequest {
    pub text: String,
    pub voice: Option<String>,
}

/// The daemon's answer to a speak request.
#[derive(Debug)]
pub struct SpeakResponse {
    pub ok: bool,
    pub request_id: String,
    pub mode: &'static str,
}

/// The configured voice settings.
#[derive(Debug, Clone)]
pub struct VoiceSettings {
    pub provider: String,
    pub auto_speak: bool,
    pub default_voice: String,
}

/// A partial update of the voice settings.
#[derive(Debug)]
pub struct UpdateVoiceSettingsRequest {
    pub provider: Option<String>,
    pub auto_speak: Option<bool>,
    pub default_voice: Option<String>,
}

/// What the daemon found of the configured voice provider.
#[derive(Debug)]
pub struct VoiceProviderHealth {
    pub configured_provider: String,
    pub effective_provider: String,
    pub available: bool,
    pub detail: String,
}

/// A folder that the user opted in for indexing.
#[derive(Debug, Clone)]
pub struct IndexScope {
    pub id: String,
    pub path: String,
    pub enabled: bool,
    pub created_at: String,
}

impl View for IndexScope {
    type V = (Seq<char>, Seq<char>, bool, Seq<char>);

    open spec fn view(&self) -> (Seq<char>, Seq<char>, bool, Seq<char>) {
        (self.id@, self.path@, self.enabled, self.created_at@)
    }
}

/// A request to add an index scope.
#[derive(Debug)]
pub struct CreateIndexScopeRequest {
    pub path: String,
    pub enabled: Option<bool>,
}

/// The list of index scopes.
#[derive(Debug)]
pub struct IndexScopesResponse {
    pub scopes: Vec<IndexScope>,
}

/// The answer to a scope deletion.
#[derive(Debug)]
pub struct DeleteScopeResponse {
    pub ok: bool,
    pub deleted_id: Option<String>,
}

/// A search query.
#[derive(Debug)]
pub struct SearchQuery {
    pub q: String,
}

/// One search result.
#[derive(Debug)]
pub struct SearchResultItem {
    pub scope_id: String,
    pub path: String,
    pub match_reason: &'static str,
}

impl View for SearchResultItem {
    type V = (Seq<char>, Seq<char>, Seq<char>);

    open spec fn view(&self) -> (Seq<char>, Seq<char>, Seq<char>) {
        (self.scope_id@, self.path@, self.match_reason@)
    }
}

/// The results of a search.
#[derive(Debug)]
pub struct SearchResponse {
    pub query: String,
    pub results: Vec<SearchResultItem>,
}

} // verus!
