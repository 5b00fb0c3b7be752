//! Translating a chat request into the body that the backend expects.

use vstd::prelude::*;

use crate::adapter::AnthropicAdapter;
use crate::chat::{
    CacheDirective, ChatRequest, ContentBlock, ImageData, Message, ThinkingMode, ToolCall,
    ToolChoice, ToolSpec,
};
use crate::error::{ErrorView, ProviderError};
use crate::json::{
    empty_object, items_tree, last_mut, lemma_items_push, lemma_items_tree, lemma_items_update,
    unsigned_tree, Json, JsonTree,
};
use crate::text::{same_text, texts};

verus! {

/// The name of the synthetic tool through which structured output is asked for.
pub const STRUCTURED_OUTPUT_TOOL: &'static str = "__respond_with__";

// ---------------------------------------------------------------------------
// Blocks and messages
// ---------------------------------------------------------------------------

/// A content block that holds text.
pub open spec fn text_block(text: Seq<char>) -> JsonTree {
    empty_object().with("type"@, JsonTree::Text("text"@)).with("text"@, JsonTree::Text(text))
}

/// Where the data of an image comes from.
pub open spec fn image_source(mime: Seq<char>, data: ImageData) -> JsonTree {
    match data {
        ImageData::Url(url) => empty_object().with("type"@, JsonTree::Text("url"@)).with(
            "url"@,
            JsonTree::Text(url@),
        ),
        ImageData::Base64(bytes) => empty_object().with("type"@, JsonTree::Text("base64"@)).with(
            "media_type"@,
            JsonTree::Text(mime),
        ).with("data"@, JsonTree::Text(bytes@)),
    }
}

/// A content block in the backend's form.
pub open spec fn block_tree(block: ContentBlock) -> JsonTree {
    match block {
        ContentBlock::Text { text } => text_block(text@),
        ContentBlock::Image { mime, data } => empty_object().with(
            "type"@,
            JsonTree::Text("image"@),
        ).with("source"@, image_source(mime@, data)),
    }
}

/// Content blocks in the backend's form.
pub open spec fn blocks_tree(blocks: Seq<ContentBlock>) -> Seq<JsonTree> {
    blocks.map_values(|b: ContentBlock| block_tree(b))
}

/// An earlier tool call in the backend's form.
pub open spec fn call_tree(call: ToolCall) -> JsonTree {
    empty_object().with("type"@, JsonTree::Text("tool_use"@)).with(
        "id"@,
        JsonTree::Text(call.id@),
    ).with("name"@, JsonTree::Text(call.name@)).with("input"@, call.arguments.tree())
}

/// Earlier tool calls in the backend's form.
pub open spec fn calls_tree(calls: Seq<ToolCall>) -> Seq<JsonTree> {
    calls.map_values(|c: ToolCall| call_tree(c))
}

/// The result of a tool call in the backend's form.
pub open spec fn result_block(id: Seq<char>, content: Seq<ContentBlock>, is_error: bool) -> JsonTree {
    let block = empty_object().with("type"@, JsonTree::Text("tool_result"@)).with(
        "tool_use_id"@,
        JsonTree::Text(id),
    ).with("content"@, JsonTree::Array(blocks_tree(content)));
    if is_error {
        block.with("is_error"@, JsonTree::Bool(true))
    } else {
        block
    }
}

/// A message with a role and content blocks.
pub open spec fn role_message(role: Seq<char>, content: Seq<JsonTree>) -> JsonTree {
    empty_object().with("role"@, JsonTree::Text(role)).with("content"@, JsonTree::Array(content))
}

/// A message in the backend's form. The backend has no roles for tools and for the system: a tool
/// result comes from the user, and so does a system message, marked as such by its first block.
pub open spec fn message_tree(message: Message) -> JsonTree {
    match message {
        Message::User { content } => role_message("user"@, blocks_tree(content@)),
        Message::Assistant { content, tool_calls } => role_message(
            "assistant"@,
            blocks_tree(content@) + calls_tree(tool_calls@),
        ),
        Message::Tool { tool_call_id, content, is_error } => role_message(
            "user"@,
            seq![result_block(tool_call_id@, content@, is_error)],
        ),
        Message::System { content } => role_message(
            "user"@,
            seq![text_block("[system]"@)] + blocks_tree(content@),
        ),
    }
}

/// Messages in the backend's form.
pub open spec fn messages_tree(messages: Seq<Message>) -> Seq<JsonTree> {
    messages.map_values(|m: Message| message_tree(m))
}

fn text_block_json(text: &str) -> (out: Json)
    ensures
        out.tree() == text_block(text@),
{
    let mut out = Json::object();
    out.set("type", Json::text("text"));
    out.set("text", Json::text(text));
    out
}

fn image_source_json(mime: &str, data: &ImageData) -> (out: Json)
    ensures
        out.tree() == image_source(mime@, *data),
{
    let mut out = Json::object();
    match data {
        ImageData::Url(url) => {
            out.set("type", Json::text("url"));
            out.set("url", Json::text(url.as_str()));
        },
        ImageData::Base64(bytes) => {
            out.set("type", Json::text("base64"));
            out.set("media_type", Json::text(mime));
            out.set("data", Json::text(bytes.as_str()));
        },
    }
    out
}

fn call_json(call: &ToolCall) -> (out: Json)
    ensures
        out.tree() == call_tree(*call),
{
    let mut out = Json::object();
    out.set("type", Json::text("tool_use"));
    out.set("id", Json::text(call.id.as_str()));
    out.set("name", Json::text(call.name.as_str()));
    out.set("input", call.arguments.clone());
    out
}

fn role_message_json(role: &str, content: Vec<Json>) -> (out: Json)
    ensures
        out.tree() == role_message(role@, items_tree(content@)),
{
    let mut out = Json::object();
    out.set("role", Json::text(role));
    out.set("content", Json::Array(content));
    out
}

/// Adds content blocks in the backend's form.
fn push_blocks(out: &mut Vec<Json>, blocks: &Vec<ContentBlock>)
    ensures
        items_tree(final(out)@) == items_tree(old(out)@) + blocks_tree(blocks@),
{
    let n: usize = blocks.len();
    let ghost before = items_tree(out@);
    assert(before + blocks_tree(blocks@).take(0) =~= before);
    for i in 0..n
        invariant
            n == blocks@.len(),
            items_tree(out@) == before + blocks_tree(blocks@).take(i as int),
    {
        let block = AnthropicAdapter::translate_block(&blocks[i]);
        proof {
            lemma_items_push(out@, block);
            assert(blocks_tree(blocks@).take(i + 1) =~= blocks_tree(blocks@).take(i as int).push(
                block_tree(blocks@[i as int]),
            ));
        }
        out.push(block);
        assert(items_tree(out@) =~= before + blocks_tree(blocks@).take(i + 1));
    }
    assert(blocks_tree(blocks@).take(n as int) =~= blocks_tree(blocks@));
}

/// Adds earlier tool calls in the backend's form.
fn push_calls(out: &mut Vec<Json>, calls: &Vec<ToolCall>)
    ensures
        items_tree(final(out)@) == items_tree(old(out)@) + calls_tree(calls@),
{
    let n: usize = calls.len();
    let ghost before = items_tree(out@);
    assert(before + calls_tree(calls@).take(0) =~= before);
    for i in 0..n
        invariant
            n == calls@.len(),
            items_tree(out@) == before + calls_tree(calls@).take(i as int),
    {
        let call = call_json(&calls[i]);
        proof {
            lemma_items_push(out@, call);
            assert(calls_tree(calls@).take(i + 1) =~= calls_tree(calls@).take(i as int).push(
                call_tree(calls@[i as int]),
            ));
        }
        out.push(call);
        assert(items_tree(out@) =~= before + calls_tree(calls@).take(i + 1));
    }
    assert(calls_tree(calls@).take(n as int) =~= calls_tree(calls@));
}

impl AnthropicAdapter {
    /// A content block in the backend's form.
    pub fn translate_block(block: &ContentBlock) -> (out: Json)
        ensures
            out.tree() == block_tree(*block),
    {
        match block {
            ContentBlock::Text { text } => text_block_json(text.as_str()),
            ContentBlock::Image { mime, data } => {
                let source = image_source_json(mime.as_str(), data);
                let mut out = Json::object();
                out.set("type", Json::text("image"));
                out.set("source", source);
                out
            },
        }
    }

    /// Content blocks in the backend's form, as an array.
    pub fn translate_content(blocks: &Vec<ContentBlock>) -> (out: Json)
        ensures
            out.tree() == JsonTree::Array(blocks_tree(blocks@)),
    {
        let mut items: Vec<Json> = Vec::new();
        push_blocks(&mut items, blocks);
        assert(items_tree(items@) =~= blocks_tree(blocks@));
        Json::Array(items)
    }

    /// A message in the backend's form.
    pub fn translate_message(message: &Message) -> (out: Json)
        ensures
            out.tree() == message_tree(*message),
    {
        match message {
            Message::User { content } => {
                let mut items: Vec<Json> = Vec::new();
                push_blocks(&mut items, content);
                assert(items_tree(items@) =~= blocks_tree(content@));
                role_message_json("user", items)
            },
            Message::Assistant { content, tool_calls } => {
                let mut items: Vec<Json> = Vec::new();
                push_blocks(&mut items, content);
                push_calls(&mut items, tool_calls);
                assert(items_tree(items@) =~= blocks_tree(content@) + calls_tree(tool_calls@));
                role_message_json("assistant", items)
            },
            Message::Tool { tool_call_id, content, is_error } => {
                let mut block = Json::object();
                block.set("type", Json::text("tool_result"));
                block.set("tool_use_id", Json::text(tool_call_id.as_str()));
                block.set("content", AnthropicAdapter::translate_content(content));
                if *is_error {
                    block.set("is_error", Json::Bool(true));
                }
                let mut items: Vec<Json> = Vec::new();
                proof {
                    lemma_items_push(items@, block);
                }
                items.push(block);
                assert(items_tree(items@) =~= seq![
                    result_block(tool_call_id@, content@, *is_error),
                ]);
                role_message_json("user", items)
            },
            Message::System { content } => {
                let mut items: Vec<Json> = Vec::new();
                let mark = text_block_json("[system]");
                proof {
                    lemma_items_push(items@, mark);
                }
                items.push(mark);
                push_blocks(&mut items, content);
                assert(items_tree(items@) =~= seq![text_block("[system]"@)] + blocks_tree(
                    content@,
                ));
                role_message_json("user", items)
            },
        }
    }
}

// ---------------------------------------------------------------------------
// Cache markers
// ---------------------------------------------------------------------------

/// Whether some directive asks for cache markers.
pub open spec fn wants_marker(directives: Seq<CacheDirective>) -> bool {
    exists|i: int| 0 <= i < directives.len() && (#[trigger] directives[i]) is MarkBoundary
}

/// The marker.
pub open spec fn marker() -> JsonTree {
    empty_object().with("type"@, JsonTree::Text("ephemeral"@))
}

/// A block with a cache marker on it.
pub open spec fn marked_block(block: JsonTree) -> JsonTree {
    block.with("cache_control"@, marker())
}

/// Blocks with a cache marker on the last of them.
pub open spec fn marked_blocks(blocks: Seq<JsonTree>) -> Seq<JsonTree> {
    if blocks.len() == 0 {
        blocks
    } else {
        blocks.update(blocks.len() - 1, marked_block(blocks.last()))
    }
}

/// A value with a cache marker on the last block of the array that stands under `key`.
pub open spec fn marked_under(v: JsonTree, key: Seq<char>) -> JsonTree {
    match v.field_items(key) {
        Some(blocks) => v.with(key, JsonTree::Array(marked_blocks(blocks))),
        None => v,
    }
}

/// Whether a message comes from the user.
pub open spec fn from_user(message: JsonTree) -> bool {
    message.field_text("role"@) == Some("user"@)
}

/// How many messages there are up to the last one from the user, that one included.
pub open spec fn through_last_user(messages: Seq<JsonTree>) -> nat
    decreases messages.len(),
{
    if messages.len() == 0 || from_user(messages.last()) {
        messages.len()
    } else {
        through_last_user(messages.drop_last())
    }
}

/// Messages with a cache marker on the last block of the last one that comes from the user.
pub open spec fn marked_messages(messages: Seq<JsonTree>) -> Seq<JsonTree> {
    let n = through_last_user(messages);
    if n == 0 {
        messages
    } else {
        messages.update(n - 1, marked_under(messages[n - 1], "content"@))
    }
}

/// A request body with cache markers on the last block of the system prompt and on the last block
/// of the last message from the user.
pub open spec fn marked_body(body: JsonTree) -> JsonTree {
    let body = marked_under(body, "system"@);
    match body.field_items("messages"@) {
        Some(messages) => body.with("messages"@, JsonTree::Array(marked_messages(messages))),
        None => body,
    }
}

/// Whether the last block of the array under `key`, if there is one, can carry a marker.
pub open spec fn markable_under(v: JsonTree, key: Seq<char>) -> bool {
    match v.field_items(key) {
        Some(blocks) => blocks.len() > 0 ==> blocks.last().takes_fields(),
        None => true,
    }
}

/// Whether the blocks that [`marked_body`] marks can carry a marker.
pub open spec fn markable(body: JsonTree) -> bool {
    &&& markable_under(body, "system"@)
    &&& match body.field_items("messages"@) {
        Some(messages) => through_last_user(messages) > 0 ==> markable_under(
            messages[through_last_user(messages) - 1],
            "content"@,
        ),
        None => true,
    }
}

/// Setting a member to what it is changes nothing.
pub proof fn lemma_with_same(v: JsonTree, key: Seq<char>)
    ensures
        v.field(key) matches Some(x) ==> v.with(key, x) == v,
{
    if let JsonTree::Object(m) = v {
        if m.dom().contains(key) {
            assert(m.insert(key, m[key]) =~= m);
        }
    }
}

fn marker_json() -> (out: Json)
    ensures
        out.tree() == marker(),
{
    let mut out = Json::object();
    out.set("type", Json::text("ephemeral"));
    out
}

/// Puts a cache marker on the last block of the array under `key`.
fn mark_under(v: &mut Json, key: &str)
    requires
        markable_under(old(v).tree(), key@),
    ensures
        final(v).tree() == marked_under(old(v).tree(), key@),
{
    proof {
        lemma_with_same(v.tree(), key@);
    }
    if let Some(found) = v.get_mut(key) {
        if let Json::Array(blocks) = found {
            proof {
                lemma_items_tree(blocks@);
            }
            if let Some(last) = last_mut(blocks) {
                last.set("cache_control", marker_json());
            }
        }
    }
}

/// Whether a message comes from the user.
fn is_from_user(message: &Json) -> (answer: bool)
    ensures
        answer == from_user(message.tree()),
{
    match message.get_str("role") {
        Some(role) => same_text(role, "user"),
        None => false,
    }
}

/// Puts a cache marker on the last block of the last message from the user.
fn mark_messages(messages: &mut Vec<Json>)
    requires
        ({
            let trees = items_tree(old(messages)@);
            through_last_user(trees) > 0 ==> markable_under(
                trees[through_last_user(trees) - 1],
                "content"@,
            )
        }),
    ensures
        items_tree(final(messages)@) == marked_messages(items_tree(old(messages)@)),
{
    let ghost trees = items_tree(messages@);
    proof {
        lemma_items_tree(messages@);
    }
    let mut n: usize = messages.len();
    assert(trees.take(n as int) =~= trees);
    while n > 0
        invariant
            *messages == *old(messages),
            trees == items_tree(messages@),
            trees.len() == messages@.len(),
            forall|i: int|
                0 <= i < messages@.len() ==> #[trigger] trees[i] == messages@[i].tree(),
            n <= messages@.len(),
            through_last_user(trees) == through_last_user(trees.take(n as int)),
            through_last_user(trees) > 0 ==> markable_under(
                trees[through_last_user(trees) - 1],
                "content"@,
            ),
        decreases n,
    {
        assert(trees.take(n as int).last() == trees[n - 1]);
        if is_from_user(&messages[n - 1]) {
            proof {
                lemma_items_update(messages@, n - 1);
            }
            mark_under(&mut messages[n - 1], "content");
            return;
        }
        assert(trees.take(n as int).drop_last() =~= trees.take(n - 1));
        n = n - 1;
    }
}

impl AnthropicAdapter {
    /// Puts cache markers on a request body where a directive asks for them: on the last block of
    /// the system prompt, and on the last block of the last message from the user.
    pub fn apply_cache_directives(body: &mut Json, directives: &Vec<CacheDirective>)
        requires
            wants_marker(directives@) ==> markable(old(body).tree()),
        ensures
            final(body).tree() == if wants_marker(directives@) {
                marked_body(old(body).tree())
            } else {
                old(body).tree()
            },
    {
        let mut wanted = false;
        let n: usize = directives.len();
        for i in 0..n
            invariant
                n == directives@.len(),
                wanted == exists|j: int| 0 <= j < i && (#[trigger] directives@[j]) is MarkBoundary,
        {
            if let CacheDirective::MarkBoundary { .. } = &directives[i] {
                wanted = true;
            }
        }
        if !wanted {
            return;
        }
        proof {
            reveal_strlit("system");
            reveal_strlit("messages");
            assert("system"@.len() != "messages"@.len());
        }
        mark_under(body, "system");
        proof {
            lemma_with_same(body.tree(), "messages"@);
        }
        if let Some(found) = body.get_mut("messages") {
            if let Json::Array(messages) = found {
                mark_messages(messages);
            }
        }
    }
}

// ---------------------------------------------------------------------------
// Requests
// ---------------------------------------------------------------------------

/// How many tokens an answer may have where the request does not say.
pub const DEFAULT_MAX_TOKENS: u32 = 4096;

/// How many tokens the model may think where the request leaves it to the backend.
pub const AUTO_THINKING_TOKENS: u32 = 4096;

/// Whether some tool has this name.
pub open spec fn names_tool(tools: Seq<ToolSpec>, name: Seq<char>) -> bool {
    exists|i: int| 0 <= i < tools.len() && (#[trigger] tools[i]).name@ == name
}

/// Whether the tool at `at` has the name of an earlier one.
pub open spec fn repeats(tools: Seq<ToolSpec>, at: int) -> bool {
    &&& 0 <= at < tools.len()
    &&& exists|i: int| 0 <= i < at && (#[trigger] tools[i]).name@ == tools[at].name@
}

/// Whether the tool at `at` is the first one with the name of an earlier one.
pub open spec fn first_repeat(tools: Seq<ToolSpec>, at: int) -> bool {
    &&& repeats(tools, at)
    &&& forall|i: int| 0 <= i < at ==> !#[trigger] repeats(tools, i)
}

/// How many tokens the answer may have.
pub open spec fn max_tokens(req: ChatRequest) -> u32 {
    match req.max_output_tokens {
        Some(n) => n,
        None => DEFAULT_MAX_TOKENS,
    }
}

/// What is wrong with a request, the first of what may be.
pub open spec fn request_fault(req: ChatRequest) -> Option<Seq<char>> {
    if req.model.name() is None {
        Some("model must be explicit"@)
    } else if req.messages@.len() == 0 {
        Some("anthropic: messages array must contain at least one message"@)
    } else if exists|at: int| first_repeat(req.tools@, at) {
        let at = choose|at: int| first_repeat(req.tools@, at);
        Some("anthropic: duplicate tool name `"@ + req.tools@[at].name@ + "` in request"@)
    } else if req.structured_output is Some && names_tool(req.tools@, STRUCTURED_OUTPUT_TOOL@) {
        Some(
            "anthropic: tool name `"@ + STRUCTURED_OUTPUT_TOOL@
                + "` is reserved for structured-output emulation"@,
        )
    } else if max_tokens(req) == 0 {
        Some("anthropic: max_output_tokens must be > 0"@)
    } else if req.structured_output is None && req.tools@.len() > 0 {
        match req.tool_choice {
            ToolChoice::Specific(name) if !names_tool(req.tools@, name@) => Some(
                "anthropic: tool_choice references unknown tool `"@ + name@ + "`"@,
            ),
            _ => None,
        }
    } else {
        None
    }
}

/// A tool in the backend's form.
pub open spec fn tool_tree(name: Seq<char>, description: Seq<char>, schema: JsonTree) -> JsonTree {
    empty_object().with("name"@, JsonTree::Text(name)).with(
        "description"@,
        JsonTree::Text(description),
    ).with("input_schema"@, schema)
}

/// The tools of a caller in the backend's form.
pub open spec fn own_tools(tools: Seq<ToolSpec>) -> Seq<JsonTree> {
    tools.map_values(
        |t: ToolSpec| tool_tree(t.name@, t.description@, t.input_schema.schema.tree()),
    )
}

/// The tools that are sent: those of the caller, and behind them the one through which structured
/// output is asked for.
pub open spec fn sent_tools(req: ChatRequest) -> Seq<JsonTree> {
    match req.structured_output {
        Some(schema) => own_tools(req.tools@).push(
            tool_tree(
                STRUCTURED_OUTPUT_TOOL@,
                "Return the response strictly conforming to the schema."@,
                schema.schema.tree(),
            ),
        ),
        None => own_tools(req.tools@),
    }
}

/// An object with a `type` and nothing else.
pub open spec fn typed(kind: Seq<char>) -> JsonTree {
    empty_object().with("type"@, JsonTree::Text(kind))
}

/// A caller's choice among the tools in the backend's form.
pub open spec fn choice_tree(choice: ToolChoice) -> JsonTree {
    match choice {
        ToolChoice::Auto => typed("auto"@),
        ToolChoice::NoTool => typed("none"@),
        ToolChoice::Required => typed("any"@),
        ToolChoice::Specific(name) => typed("tool"@).with("name"@, JsonTree::Text(name@)),
    }
}

/// The choice that is sent: for structured output its tool, else that of the caller, if there are
/// tools at all.
pub open spec fn sent_choice(req: ChatRequest) -> Option<JsonTree> {
    if req.structured_output is Some {
        Some(typed("tool"@).with("name"@, JsonTree::Text(STRUCTURED_OUTPUT_TOOL@)))
    } else if req.tools@.len() > 0 {
        Some(choice_tree(req.tool_choice))
    } else {
        None
    }
}

/// The thinking budget that is sent, if the model is to think.
pub open spec fn sent_thinking(mode: ThinkingMode) -> Option<JsonTree> {
    match mode {
        ThinkingMode::Off => None,
        ThinkingMode::Auto => Some(
            typed("enabled"@).with("budget_tokens"@, unsigned_tree(AUTO_THINKING_TOKENS as u64)),
        ),
        ThinkingMode::Budget(n) => Some(
            typed("enabled"@).with("budget_tokens"@, unsigned_tree(n as u64)),
        ),
    }
}

/// The system prompt that is sent: an array of blocks.
pub open spec fn sent_system(system: Option<String>) -> Option<JsonTree> {
    match system {
        Some(text) => Some(JsonTree::Array(seq![text_block(text@)])),
        None => None,
    }
}

/// The temperature that is sent.
pub open spec fn sent_temperature(temperature: Option<Json>) -> Option<JsonTree> {
    match temperature {
        Some(t) => Some(t.tree()),
        None => None,
    }
}

/// The stop sequences that are sent.
pub open spec fn sent_stops(stops: Seq<String>) -> Option<JsonTree> {
    if stops.len() == 0 {
        None
    } else {
        Some(JsonTree::Array(texts(stops).map_values(|s: Seq<char>| JsonTree::Text(s))))
    }
}

/// An object with one more member, if there is a value for it.
pub open spec fn with_some(v: JsonTree, key: Seq<char>, value: Option<JsonTree>) -> JsonTree {
    match value {
        Some(x) => v.with(key, x),
        None => v,
    }
}

/// The array of some values, if there are any.
pub open spec fn some_array(items: Seq<JsonTree>) -> Option<JsonTree> {
    if items.len() == 0 {
        None
    } else {
        Some(JsonTree::Array(items))
    }
}

/// The body of a request for `model`, before cache markers.
pub open spec fn plain_body(req: ChatRequest, model: Seq<char>) -> JsonTree {
    let body = empty_object().with("model"@, JsonTree::Text(model)).with(
        "messages"@,
        JsonTree::Array(messages_tree(req.messages@)),
    ).with("max_tokens"@, unsigned_tree(max_tokens(req) as u64)).with(
        "stream"@,
        JsonTree::Bool(true),
    );
    let body = with_some(body, "system"@, sent_system(req.system));
    let body = with_some(body, "temperature"@, sent_temperature(req.temperature));
    let body = with_some(body, "stop_sequences"@, sent_stops(req.stop_sequences@));
    let body = with_some(body, "tool_choice"@, sent_choice(req));
    let body = with_some(body, "tools"@, some_array(sent_tools(req)));
    with_some(body, "thinking"@, sent_thinking(req.thinking))
}

/// The body of a request for `model`.
pub open spec fn request_body(req: ChatRequest, model: Seq<char>) -> JsonTree {
    if wants_marker(req.cache_directives@) {
        marked_body(plain_body(req, model))
    } else {
        plain_body(req, model)
    }
}

/// What a request becomes.
pub open spec fn translated(req: ChatRequest) -> Result<JsonTree, ErrorView> {
    match request_fault(req) {
        Some(fault) => Err(ErrorView::InvalidRequest(fault)),
        None => Ok(request_body(req, req.model.name()->Some_0)),
    }
}

/// What the outcome of a translation says.
pub open spec fn translation_view(outcome: Result<Json, ProviderError>) -> Result<
    JsonTree,
    ErrorView,
> {
    match outcome {
        Ok(body) => Ok(body.tree()),
        Err(e) => Err(e@),
    }
}

/// The names of the members of a request body are ten different ones.
proof fn lemma_body_keys()
    ensures
        "model"@ != "tools"@,
        "messages"@ != "thinking"@,
        "stream"@ != "system"@,
        "temperature"@ != "tool_choice"@,
        "model"@.len() == 5,
        "tools"@.len() == 5,
        "messages"@.len() == 8,
        "thinking"@.len() == 8,
        "stream"@.len() == 6,
        "system"@.len() == 6,
        "temperature"@.len() == 11,
        "tool_choice"@.len() == 11,
        "max_tokens"@.len() == 10,
        "stop_sequences"@.len() == 14,
{
    reveal_strlit("model");
    reveal_strlit("tools");
    reveal_strlit("messages");
    reveal_strlit("thinking");
    reveal_strlit("stream");
    reveal_strlit("system");
    reveal_strlit("temperature");
    reveal_strlit("tool_choice");
    reveal_strlit("max_tokens");
    reveal_strlit("stop_sequences");
    assert("model"@[0] != "tools"@[0]);
    assert("messages"@[0] != "thinking"@[0]);
    assert("stream"@[1] != "system"@[1]);
    assert("temperature"@[1] != "tool_choice"@[1]);
}

/// Every member of a request body, before cache markers, is what the request says for it, and
/// there are no others.
pub proof fn law_body_members(req: ChatRequest, model: Seq<char>)
    ensures
        plain_body(req, model) is Object,
        plain_body(req, model).field("model"@) == Some(JsonTree::Text(model)),
        plain_body(req, model).field("messages"@) == Some(
            JsonTree::Array(messages_tree(req.messages@)),
        ),
        plain_body(req, model).field("max_tokens"@) == Some(unsigned_tree(max_tokens(req) as u64)),
        plain_body(req, model).field("stream"@) == Some(JsonTree::Bool(true)),
        plain_body(req, model).field("system"@) == sent_system(req.system),
        plain_body(req, model).field("temperature"@) == sent_temperature(req.temperature),
        plain_body(req, model).field("stop_sequences"@) == sent_stops(req.stop_sequences@),
        plain_body(req, model).field("tool_choice"@) == sent_choice(req),
        plain_body(req, model).field("tools"@) == some_array(sent_tools(req)),
        plain_body(req, model).field("thinking"@) == sent_thinking(req.thinking),
        forall|key: Seq<char>| #[trigger]
            plain_body(req, model).field(key) is Some ==> seq![
                "model"@,
                "messages"@,
                "max_tokens"@,
                "stream"@,
                "system"@,
                "temperature"@,
                "stop_sequences"@,
                "tool_choice"@,
                "tools"@,
                "thinking"@,
            ].contains(key),
{
    lemma_body_keys();
    let keys = seq![
        "model"@,
        "messages"@,
        "max_tokens"@,
        "stream"@,
        "system"@,
        "temperature"@,
        "stop_sequences"@,
        "tool_choice"@,
        "tools"@,
        "thinking"@,
    ];
    assert forall|key: Seq<char>| #[trigger] plain_body(req, model).field(key) is Some implies
        keys.contains(key) by {
        assert(keys[0] == "model"@ && keys[1] == "messages"@ && keys[2] == "max_tokens"@ && keys[3]
            == "stream"@ && keys[4] == "system"@ && keys[5] == "temperature"@ && keys[6]
            == "stop_sequences"@ && keys[7] == "tool_choice"@ && keys[8] == "tools"@ && keys[9]
            == "thinking"@);
    }
}

/// The content of every translated message is an array of objects.
pub proof fn lemma_message_content(message: Message)
    ensures
        message_tree(message).field_items("content"@) matches Some(blocks) && forall|i: int|
            0 <= i < blocks.len() ==> (#[trigger] blocks[i]) is Object,
{
}

pub proof fn lemma_through_last_user(messages: Seq<JsonTree>)
    ensures
        through_last_user(messages) <= messages.len(),
        through_last_user(messages) > 0 ==> from_user(messages[through_last_user(messages) - 1]),
        forall|i: int|
            through_last_user(messages) <= i < messages.len() ==> !from_user(
                #[trigger] messages[i],
            ),
    decreases messages.len(),
{
    if messages.len() > 0 && !from_user(messages.last()) {
        lemma_through_last_user(messages.drop_last());
        assert forall|i: int|
            through_last_user(messages) <= i < messages.len() implies !from_user(
            #[trigger] messages[i],
        ) by {
            if i < messages.len() - 1 {
                assert(messages.drop_last()[i] == messages[i]);
            }
        }
    }
}

/// Wherever a request body is to be marked, it can be.
proof fn lemma_body_markable(req: ChatRequest, model: Seq<char>)
    ensures
        markable(plain_body(req, model)),
{
    law_body_members(req, model);
    let trees = messages_tree(req.messages@);
    lemma_through_last_user(trees);
    let n = through_last_user(trees);
    if n > 0 {
        lemma_message_content(req.messages@[n - 1]);
    }
}

/// Finds the first tool with the name of an earlier one.
fn find_repeat(tools: &Vec<ToolSpec>) -> (found: Option<usize>)
    ensures
        match found {
            Some(at) => first_repeat(tools@, at as int),
            None => forall|at: int| !repeats(tools@, at),
        },
{
    let n: usize = tools.len();
    for at in 0..n
        invariant
            n == tools@.len(),
            forall|i: int| 0 <= i < at ==> !#[trigger] repeats(tools@, i),
    {
        for i in 0..at
            invariant
                at < n,
                n == tools@.len(),
                forall|j: int| 0 <= j < at ==> !#[trigger] repeats(tools@, j),
                forall|j: int|
                    0 <= j < i ==> (#[trigger] tools@[j]).name@ != tools@[at as int].name@,
        {
            if same_text(tools[i].name.as_str(), tools[at].name.as_str()) {
                assert(repeats(tools@, at as int));
                return Some(at);
            }
        }
    }
    None
}

/// Whether some tool has this name.
fn has_tool(tools: &Vec<ToolSpec>, name: &str) -> (found: bool)
    ensures
        found == names_tool(tools@, name@),
{
    let n: usize = tools.len();
    for i in 0..n
        invariant
            n == tools@.len(),
            forall|j: int| 0 <= j < i ==> (#[trigger] tools@[j]).name@ != name@,
    {
        if same_text(tools[i].name.as_str(), name) {
            return true;
        }
    }
    false
}

/// What is wrong with a request, the first of what may be.
fn find_fault(req: &ChatRequest) -> (fault: Option<String>)
    ensures
        match fault {
            Some(text) => request_fault(*req) == Some(text@),
            None => request_fault(*req) is None,
        },
{
    if req.model.explicit().is_none() {
        return Some("model must be explicit".to_string());
    }
    if req.messages.len() == 0 {
        return Some("anthropic: messages array must contain at least one message".to_string());
    }
    if let Some(at) = find_repeat(&req.tools) {
        let ghost chosen = choose|i: int| first_repeat(req.tools@, i);
        assert(first_repeat(req.tools@, chosen));
        assert(chosen == at);
        let mut text = "anthropic: duplicate tool name `".to_string();
        text.append(req.tools[at].name.as_str());
        text.append("` in request");
        return Some(text);
    }
    assert(!exists|at: int| first_repeat(req.tools@, at));
    if req.structured_output.is_some() && has_tool(&req.tools, STRUCTURED_OUTPUT_TOOL) {
        let mut text = "anthropic: tool name `".to_string();
        text.append(STRUCTURED_OUTPUT_TOOL);
        text.append("` is reserved for structured-output emulation");
        return Some(text);
    }
    if req.max_output_tokens.unwrap_or(DEFAULT_MAX_TOKENS) == 0 {
        return Some("anthropic: max_output_tokens must be > 0".to_string());
    }
    if req.structured_output.is_none() && req.tools.len() > 0 {
        if let ToolChoice::Specific(name) = &req.tool_choice {
            if !has_tool(&req.tools, name.as_str()) {
                let mut text = "anthropic: tool_choice references unknown tool `".to_string();
                text.append(name.as_str());
                text.append("`");
                return Some(text);
            }
        }
    }
    None
}

fn messages_json(messages: &Vec<Message>) -> (out: Json)
    ensures
        out.tree() == JsonTree::Array(messages_tree(messages@)),
{
    let mut items: Vec<Json> = Vec::new();
    let n: usize = messages.len();
    for i in 0..n
        invariant
            n == messages@.len(),
            items_tree(items@) =~= messages_tree(messages@).take(i as int),
    {
        let item = AnthropicAdapter::translate_message(&messages[i]);
        proof {
            lemma_items_push(items@, item);
        }
        items.push(item);
    }
    assert(items_tree(items@) =~= messages_tree(messages@));
    Json::Array(items)
}

fn tool_json(name: &str, description: &str, schema: &Json) -> (out: Json)
    ensures
        out.tree() == tool_tree(name@, description@, schema.tree()),
{
    let mut out = Json::object();
    out.set("name", Json::text(name));
    out.set("description", Json::text(description));
    out.set("input_schema", schema.clone());
    out
}

fn tools_json(req: &ChatRequest) -> (items: Vec<Json>)
    ensures
        items_tree(items@) == sent_tools(*req),
{
    let mut items: Vec<Json> = Vec::new();
    let n: usize = req.tools.len();
    for i in 0..n
        invariant
            n == req.tools@.len(),
            items_tree(items@) =~= own_tools(req.tools@).take(i as int),
    {
        let tool = &req.tools[i];
        let item = tool_json(
            tool.name.as_str(),
            tool.description.as_str(),
            &tool.input_schema.schema,
        );
        proof {
            lemma_items_push(items@, item);
        }
        items.push(item);
    }
    assert(items_tree(items@) =~= own_tools(req.tools@));
    if let Some(schema) = &req.structured_output {
        let item = tool_json(
            STRUCTURED_OUTPUT_TOOL,
            "Return the response strictly conforming to the schema.",
            &schema.schema,
        );
        proof {
            lemma_items_push(items@, item);
        }
        items.push(item);
    }
    items
}

fn typed_json(kind: &str) -> (out: Json)
    ensures
        out.tree() == typed(kind@),
{
    let mut out = Json::object();
    out.set("type", Json::text(kind));
    out
}

fn named_tool_json(name: &str) -> (out: Json)
    ensures
        out.tree() == typed("tool"@).with("name"@, JsonTree::Text(name@)),
{
    let mut out = typed_json("tool");
    out.set("name", Json::text(name));
    out
}

fn choice_json(req: &ChatRequest) -> (out: Option<Json>)
    ensures
        match out {
            Some(v) => sent_choice(*req) == Some(v.tree()),
            None => sent_choice(*req) is None,
        },
{
    if req.structured_output.is_some() {
        return Some(named_tool_json(STRUCTURED_OUTPUT_TOOL));
    }
    if req.tools.len() == 0 {
        return None;
    }
    Some(
        match &req.tool_choice {
            ToolChoice::Auto => typed_json("auto"),
            ToolChoice::NoTool => typed_json("none"),
            ToolChoice::Required => typed_json("any"),
            ToolChoice::Specific(name) => named_tool_json(name.as_str()),
        },
    )
}

fn thinking_json(budget: u32) -> (out: Json)
    ensures
        out.tree() == typed("enabled"@).with("budget_tokens"@, unsigned_tree(budget as u64)),
{
    let mut out = typed_json("enabled");
    out.set("budget_tokens", Json::unsigned(budget as u64));
    out
}

fn system_json(text: &str) -> (out: Json)
    ensures
        out.tree() == JsonTree::Array(seq![text_block(text@)]),
{
    let block = text_block_json(text);
    let mut items: Vec<Json> = Vec::new();
    proof {
        lemma_items_push(items@, block);
    }
    items.push(block);
    assert(items_tree(items@) =~= seq![text_block(text@)]);
    Json::Array(items)
}

fn body_json(req: &ChatRequest, model: &str) -> (body: Json)
    ensures
        body.tree() == plain_body(*req, model@),
{
    let mut body = Json::object();
    body.set("model", Json::text(model));
    body.set("messages", messages_json(&req.messages));
    let max_tokens: u32 = req.max_output_tokens.unwrap_or(DEFAULT_MAX_TOKENS);
    body.set("max_tokens", Json::unsigned(max_tokens as u64));
    body.set("stream", Json::Bool(true));
    if let Some(system) = &req.system {
        body.set("system", system_json(system.as_str()));
    }
    if let Some(temperature) = &req.temperature {
        body.set("temperature", temperature.clone());
    }
    if req.stop_sequences.len() > 0 {
        body.set("stop_sequences", Json::array_of_texts(&req.stop_sequences));
    }
    if let Some(choice) = choice_json(req) {
        body.set("tool_choice", choice);
    }
    let tools = tools_json(req);
    proof {
        lemma_items_tree(tools@);
    }
    if tools.len() > 0 {
        body.set("tools", Json::Array(tools));
    }
    match req.thinking {
        ThinkingMode::Off => {},
        ThinkingMode::Auto => {
            body.set("thinking", thinking_json(AUTO_THINKING_TOKENS));
        },
        ThinkingMode::Budget(budget) => {
            body.set("thinking", thinking_json(budget));
        },
    }
    body
}

impl AnthropicAdapter {
    /// Translates a request into the body that the backend expects, or says what is wrong with it.
    pub fn translate_request(&self, req: &ChatRequest) -> (outcome: Result<Json, ProviderError>)
        ensures
            translation_view(outcome) == translated(*req),
    {
        if let Some(fault) = find_fault(req) {
            return Err(ProviderError::InvalidRequest(fault));
        }
        match req.model.explicit() {
            Some(model) => {
                let mut body = body_json(req, model);
                proof {
                    lemma_body_markable(*req, model@);
                }
                AnthropicAdapter::apply_cache_directives(&mut body, &req.cache_directives);
                Ok(body)
            },
            None => Err(ProviderError::InvalidRequest("model must be explicit".to_string())),
        }
    }
}

} // verus!
