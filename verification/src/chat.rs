//! Chat requests, events and responses: the vendor-neutral vocabulary.

use std::time::Duration;

use vstd::prelude::*;

use crate::json::{Json, JsonTree};

verus! {

// ---------------------------------------------------------------------------
// Requests
// ---------------------------------------------------------------------------

/// The data of an image.
#[derive(Debug)]
pub enum ImageData {
    Url(String),
    Base64(String),
}

/// One piece of a message.
#[derive(Debug)]
pub enum ContentBlock {
    Text { text: String },
    Image { mime: String, data: ImageData },
}

/// A tool call that the model made earlier in the conversation.
#[derive(Debug)]
pub struct ToolCall {
    pub id: String,
    pub name: String,
    pub arguments: Json,
}

/// One message of a conversation.
#[derive(Debug)]
pub enum Message {
    User { content: Vec<ContentBlock> },
    Assistant { content: Vec<ContentBlock>, tool_calls: Vec<ToolCall> },
    Tool { tool_call_id: String, content: Vec<ContentBlock>, is_error: bool },
    System { content: Vec<ContentBlock> },
}

/// Which model a request asks for.
#[derive(Debug)]
pub enum ModelHint {
    /// The model with this name.
    Explicit(String),
    /// A model that routing has yet to pick.
    Unresolved,
}

impl ModelHint {
    /// The name of the model, where the hint gives one.
    pub open spec fn name(self) -> Option<Seq<char>> {
        match self {
            ModelHint::Explicit(name) => Some(name@),
            ModelHint::Unresolved => None,
        }
    }

    /// The name of the model, where the hint gives one.
    pub fn explicit(&self) -> (name: Option<&str>)
        ensures
            match name {
                Some(s) => self.name() == Some(s@),
                None => self.name() is None,
            },
    {
        match self {
            ModelHint::Explicit(name) => Some(name.as_str()),
            ModelHint::Unresolved => None,
        }
    }
}

/// A JSON schema and the name it goes by.
#[derive(Debug)]
pub struct JsonSchema {
    pub name: String,
    pub schema: Json,
    pub strict: bool,
}

impl JsonSchema {
    /// A schema that answers must conform to strictly.
    pub fn strict(name: &str, schema: Json) -> (out: JsonSchema)
        ensures
            out.name@ == name@,
            out.schema == schema,
            out.strict,
    {
        JsonSchema { name: name.to_string(), schema, strict: true }
    }
}

/// A tool that the model may call.
#[derive(Debug)]
pub struct ToolSpec {
    pub name: String,
    pub description: String,
    pub input_schema: JsonSchema,
}

/// Whether and which tool the model is to call.
#[derive(Debug)]
pub enum ToolChoice {
    /// The model decides.
    Auto,
    /// No tool at all.
    NoTool,
    /// Some tool, whichever.
    Required,
    /// The tool with this name.
    Specific(String),
}

/// How much the model may think before it answers.
#[derive(Clone, Copy, Debug, PartialEq, Eq)]
pub enum ThinkingMode {
    Off,
    Auto,
    /// At most this many tokens.
    Budget(u32),
}

/// What a caller wants of the prompt cache.
#[derive(Debug)]
pub enum CacheDirective {
    /// Cache the prompt up to its end, for this long.
    MarkBoundary { ttl: Duration },
    /// Use the cache entry with this handle.
    UseHandle { handle: String },
}

/// A request for one answer of a model.
#[derive(Debug)]
pub struct ChatRequest {
    pub model: ModelHint,
    pub system: Option<String>,
    pub messages: Vec<Message>,
    pub tools: Vec<ToolSpec>,
    pub tool_choice: ToolChoice,
    pub structured_output: Option<JsonSchema>,
    pub max_output_tokens: Option<u32>,
    /// The sampling temperature as JSON: a number, or null for one that is not finite.
    pub temperature: Option<Json>,
    pub stop_sequences: Vec<String>,
    pub thinking: ThinkingMode,
    pub cache_directives: Vec<CacheDirective>,
}

impl ChatRequest {
    /// A request with one user message, everything else left at its default.
    pub fn user(model: ModelHint, text: &str) -> (req: ChatRequest)
        ensures
            req.model == model,
            req.system is None,
            req.messages@.len() == 1,
            req.messages@[0] matches Message::User { content } && content@.len() == 1 && (
            content@[0] matches ContentBlock::Text { text: t } && t@ == text@),
            req.tools@.len() == 0,
            req.tool_choice is Auto,
            req.structured_output is None,
            req.max_output_tokens is None,
            req.temperature is None,
            req.stop_sequences@.len() == 0,
            req.thinking is Off,
            req.cache_directives@.len() == 0,
    {
        let mut content: Vec<ContentBlock> = Vec::new();
        content.push(ContentBlock::Text { text: text.to_string() });
        let mut messages: Vec<Message> = Vec::new();
        messages.push(Message::User { content });
        ChatRequest {
            model,
            system: None,
            messages,
            tools: Vec::new(),
            tool_choice: ToolChoice::Auto,
            structured_output: None,
            max_output_tokens: None,
            temperature: None,
            stop_sequences: Vec::new(),
            thinking: ThinkingMode::Off,
            cache_directives: Vec::new(),
        }
    }

    /// This request with a system prompt.
    pub fn with_system(self, text: &str) -> (req: ChatRequest)
        ensures
            req.system matches Some(s) && s@ == text@,
            req == (ChatRequest { system: req.system, ..self }),
    {
        ChatRequest { system: Some(text.to_string()), ..self }
    }
}

// ---------------------------------------------------------------------------
// Events and responses
// ---------------------------------------------------------------------------

/// Why the model stopped.
#[derive(Clone, Copy, Debug, PartialEq, Eq, Structural)]
pub enum StopReason {
    EndTurn,
    MaxTokens,
    StopSequence,
    ToolUse,
    Other,
}

/// The tokens of one call. `input_tokens` counts the whole prompt, the cached part and the part
/// written to the cache among it.
#[derive(Clone, Copy, Debug, PartialEq, Eq, Structural)]
pub struct Usage {
    pub input_tokens: u64,
    pub output_tokens: u64,
    pub cached_input_tokens: u64,
    pub cache_creation_tokens: u64,
    pub thinking_tokens: u64,
}

impl Usage {
    pub open spec fn zero() -> Usage {
        Usage {
            input_tokens: 0,
            output_tokens: 0,
            cached_input_tokens: 0,
            cache_creation_tokens: 0,
            thinking_tokens: 0,
        }
    }
}

impl Default for Usage {
    fn default() -> (usage: Usage)
        ensures
            usage == Usage::zero(),
    {
        Usage {
            input_tokens: 0,
            output_tokens: 0,
            cached_input_tokens: 0,
            cache_creation_tokens: 0,
            thinking_tokens: 0,
        }
    }
}

/// What the prompt cache contributed to a call.
#[derive(Clone, Copy, Debug, PartialEq, Eq, Structural)]
pub struct CacheHitInfo {
    pub cached_input_tokens: u64,
    pub used_explicit_handle: bool,
    pub replayed_from_cache: bool,
}

impl CacheHitInfo {
    /// This many tokens came from the cache, by no handle and without a replay.
    pub open spec fn tokens(n: u64) -> CacheHitInfo {
        CacheHitInfo {
            cached_input_tokens: n,
            used_explicit_handle: false,
            replayed_from_cache: false,
        }
    }
}

/// One event of an answer that is being streamed.
#[derive(Debug)]
pub enum ChatEvent {
    Started { actual_model: String, cache_hit: CacheHitInfo },
    Delta { text: String },
    ThinkingDelta { text: String },
    ToolCallStart { index: usize, id: String, name: String },
    ToolCallArgsDelta { index: usize, args_delta: String },
    ToolCallEnd { index: usize, id: String, parsed_args: Json },
    Finished { stop_reason: StopReason, usage: Usage },
}

/// What a [`ChatEvent`] says.
#[verifier::ext_equal]
pub enum EventView {
    Started { actual_model: Seq<char>, cache_hit: CacheHitInfo },
    Delta { text: Seq<char> },
    ThinkingDelta { text: Seq<char> },
    ToolCallStart { index: usize, id: Seq<char>, name: Seq<char> },
    ToolCallArgsDelta { index: usize, args_delta: Seq<char> },
    ToolCallEnd { index: usize, id: Seq<char>, parsed_args: JsonTree },
    Finished { stop_reason: StopReason, usage: Usage },
}

impl View for ChatEvent {
    type V = EventView;

    open spec fn view(&self) -> EventView {
        match *self {
            ChatEvent::Started { actual_model, cache_hit } => EventView::Started {
                actual_model: actual_model@,
                cache_hit,
            },
            ChatEvent::Delta { text } => EventView::Delta { text: text@ },
            ChatEvent::ThinkingDelta { text } => EventView::ThinkingDelta { text: text@ },
            ChatEvent::ToolCallStart { index, id, name } => EventView::ToolCallStart {
                index,
                id: id@,
                name: name@,
            },
            ChatEvent::ToolCallArgsDelta { index, args_delta } => EventView::ToolCallArgsDelta {
                index,
                args_delta: args_delta@,
            },
            ChatEvent::ToolCallEnd { index, id, parsed_args } => EventView::ToolCallEnd {
                index,
                id: id@,
                parsed_args: parsed_args.tree(),
            },
            ChatEvent::Finished { stop_reason, usage } => EventView::Finished {
                stop_reason,
                usage,
            },
        }
    }
}

impl ChatEvent {
    /// The event that opens the answer of `model`, with nothing from the cache.
    pub fn started(model: &str) -> (event: ChatEvent)
        ensures
            event@ == (EventView::Started {
                actual_model: model@,
                cache_hit: CacheHitInfo::tokens(0),
            }),
    {
        ChatEvent::Started {
            actual_model: model.to_string(),
            cache_hit: CacheHitInfo {
                cached_input_tokens: 0,
                used_explicit_handle: false,
                replayed_from_cache: false,
            },
        }
    }
}

/// What the events of a list say.
pub open spec fn event_views(events: Seq<ChatEvent>) -> Seq<EventView> {
    events.map_values(|e: ChatEvent| e@)
}

/// A whole answer.
#[derive(Debug)]
pub struct ChatResponse {
    pub actual_model: String,
    pub text: String,
    /// Absent where the answer never came to its end.
    pub stop_reason: Option<StopReason>,
    pub usage: Usage,
}

/// What a [`ChatResponse`] says.
#[verifier::ext_equal]
pub struct ResponseView {
    pub actual_model: Seq<char>,
    pub text: Seq<char>,
    pub stop_reason: Option<StopReason>,
    pub usage: Usage,
}

impl View for ChatResponse {
    type V = ResponseView;

    open spec fn view(&self) -> ResponseView {
        ResponseView {
            actual_model: self.actual_model@,
            text: self.text@,
            stop_reason: self.stop_reason,
            usage: self.usage,
        }
    }
}

impl ResponseView {
    /// The answer of which nothing has come yet.
    pub open spec fn empty() -> ResponseView {
        ResponseView {
            actual_model: Seq::empty(),
            text: Seq::empty(),
            stop_reason: None,
            usage: Usage::zero(),
        }
    }

    /// This answer after one more event. Thinking and tool calls are no part of it.
    pub open spec fn after(self, event: EventView) -> ResponseView {
        match event {
            EventView::Started { actual_model, .. } => ResponseView { actual_model, ..self },
            EventView::Delta { text } => ResponseView { text: self.text + text, ..self },
            EventView::Finished { stop_reason, usage } => ResponseView {
                stop_reason: Some(stop_reason),
                usage,
                ..self
            },
            _ => self,
        }
    }

    /// The answer that a row of events tells.
    pub open spec fn told_by(events: Seq<EventView>) -> ResponseView
        decreases events.len(),
    {
        if events.len() == 0 {
            ResponseView::empty()
        } else {
            ResponseView::told_by(events.drop_last()).after(events.last())
        }
    }
}

/// Puts an answer together from its events.
pub struct ChatResponseBuilder {
    response: ChatResponse,
}

impl View for ChatResponseBuilder {
    type V = ResponseView;

    closed spec fn view(&self) -> ResponseView {
        self.response@
    }
}

impl ChatResponseBuilder {
    /// A builder that has seen no event.
    pub fn new() -> (builder: ChatResponseBuilder)
        ensures
            builder@ == ResponseView::empty(),
    {
        ChatResponseBuilder {
            response: ChatResponse {
                actual_model: String::new(),
                text: String::new(),
                stop_reason: None,
                usage: Usage::default(),
            },
        }
    }

    /// Takes one more event in.
    pub fn apply(&mut self, event: ChatEvent)
        ensures
            final(self)@ == old(self)@.after(event@),
    {
        match event {
            ChatEvent::Started { actual_model, .. } => {
                self.response.actual_model = actual_model;
            },
            ChatEvent::Delta { text } => {
                self.response.text.append(text.as_str());
            },
            ChatEvent::Finished { stop_reason, usage } => {
                self.response.stop_reason = Some(stop_reason);
                self.response.usage = usage;
            },
            _ => {},
        }
    }

    /// The answer so far.
    pub fn finish(self) -> (response: ChatResponse)
        ensures
            response@ == self@,
    {
        self.response
    }
}

} // verus!
