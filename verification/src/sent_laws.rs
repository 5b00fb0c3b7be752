//! What is sent of a request, told by the request and the members of the body alone.

use vstd::prelude::*;

use crate::chat::{
    CacheDirective, ChatRequest, ContentBlock, ImageData, Message, ModelHint, ThinkingMode,
    ToolCall, ToolChoice, ToolSpec,
};
use crate::error::ErrorView;
use crate::json::{JsonTree, NumberTree};
use crate::request::{
    block_tree, blocks_tree, call_tree, calls_tree, first_repeat, from_user, law_body_members,
    marked_blocks, marked_body, marked_messages, marked_under, message_tree, messages_tree, names_tool,
    plain_body, repeats, result_block, sent_tools, translated, wants_marker,
};
use crate::request_laws::{
    law_marked_members, law_marking_keeps_other_members, law_marks_last_user_message,
    lemma_no_repeat, lemma_unmarked_content,
};
use crate::text::decimal;

verus! {

// ---------------------------------------------------------------------------
// Blocks and messages
// ---------------------------------------------------------------------------

/// Whether a value is an object with no members but these, and perhaps a cache marker.
pub open spec fn only_members(v: JsonTree, keys: Set<Seq<char>>, marks: bool) -> bool {
    v is Object && forall|key: Seq<char>| #[trigger]
        v.field(key) is Some ==> keys.contains(key) || (marks && key == "cache_control"@)
}

/// Whether a value is a string member.
pub open spec fn says(v: JsonTree, key: Seq<char>, text: Seq<char>) -> bool {
    v.field(key) == Some(JsonTree::Text(text))
}

/// Whether a value shows where the data of an image comes from.
pub open spec fn shows_source(v: JsonTree, mime: Seq<char>, data: ImageData) -> bool {
    match data {
        ImageData::Url(url) => {
            &&& says(v, "type"@, "url"@)
            &&& says(v, "url"@, url@)
            &&& only_members(v, set!["type"@, "url"@], false)
        },
        ImageData::Base64(bytes) => {
            &&& says(v, "type"@, "base64"@)
            &&& says(v, "media_type"@, mime)
            &&& says(v, "data"@, bytes@)
            &&& only_members(v, set!["type"@, "media_type"@, "data"@], false)
        },
    }
}

/// Whether a value shows a content block: its text, or its image.
pub open spec fn shows_block(v: JsonTree, block: ContentBlock, marks: bool) -> bool {
    match block {
        ContentBlock::Text { text } => {
            &&& says(v, "type"@, "text"@)
            &&& says(v, "text"@, text@)
            &&& only_members(v, set!["type"@, "text"@], marks)
        },
        ContentBlock::Image { mime, data } => {
            &&& says(v, "type"@, "image"@)
            &&& v.field("source"@) matches Some(source) && shows_source(source, mime@, data)
            &&& only_members(v, set!["type"@, "source"@], marks)
        },
    }
}

/// Whether values show content blocks, one by one.
pub open spec fn shows_blocks(vs: Seq<JsonTree>, blocks: Seq<ContentBlock>) -> bool {
    vs.len() == blocks.len() && forall|j: int|
        0 <= j < vs.len() ==> shows_block(#[trigger] vs[j], blocks[j], false)
}

/// Whether a value shows an earlier tool call.
pub open spec fn shows_call(v: JsonTree, call: ToolCall) -> bool {
    &&& says(v, "type"@, "tool_use"@)
    &&& says(v, "id"@, call.id@)
    &&& says(v, "name"@, call.name@)
    &&& v.field("input"@) == Some(call.arguments.tree())
    &&& only_members(v, set!["type"@, "id"@, "name"@, "input"@], true)
}

/// Whether a value shows the result of a tool call: whose it is, everything that came out, and
/// whether it failed.
pub open spec fn shows_result(
    v: JsonTree,
    id: Seq<char>,
    content: Seq<ContentBlock>,
    is_error: bool,
) -> bool {
    &&& says(v, "type"@, "tool_result"@)
    &&& says(v, "tool_use_id"@, id)
    &&& v.field("content"@) matches Some(JsonTree::Array(inner)) && shows_blocks(inner, content)
    &&& is_error ==> v.field("is_error"@) == Some(JsonTree::Bool(true))
    &&& !is_error ==> v.field("is_error"@) is None
    &&& only_members(v, set!["type"@, "tool_use_id"@, "content"@, "is_error"@], true)
}

/// Whether content blocks show what a message holds, all of it and in order.
pub open spec fn shows_content(vs: Seq<JsonTree>, message: Message) -> bool {
    match message {
        Message::User { content } => {
            &&& vs.len() == content@.len()
            &&& forall|j: int|
                0 <= j < content@.len() ==> shows_block(#[trigger] vs[j], content@[j], true)
        },
        Message::Assistant { content, tool_calls } => {
            &&& vs.len() == content@.len() + tool_calls@.len()
            &&& forall|j: int|
                0 <= j < content@.len() ==> shows_block(#[trigger] vs[j], content@[j], true)
            &&& forall|j: int|
                content@.len() <= j < vs.len() ==> shows_call(
                    #[trigger] vs[j],
                    tool_calls@[j - content@.len()],
                )
        },
        Message::Tool { tool_call_id, content, is_error } => {
            &&& vs.len() == 1
            &&& shows_result(vs[0], tool_call_id@, content@, is_error)
        },
        Message::System { content } => {
            &&& vs.len() == content@.len() + 1
            &&& says(vs[0], "type"@, "text"@)
            &&& says(vs[0], "text"@, "[system]"@)
            &&& only_members(vs[0], set!["type"@, "text"@], true)
            &&& forall|j: int|
                1 <= j < vs.len() ==> shows_block(#[trigger] vs[j], content@[j - 1], true)
        },
    }
}

/// Whether a value shows a message: who speaks, and all that is said.
pub open spec fn shows_message(v: JsonTree, message: Message) -> bool {
    &&& says(
        v,
        "role"@,
        if message is Assistant {
            "assistant"@
        } else {
            "user"@
        },
    )
    &&& v.field("content"@) matches Some(JsonTree::Array(blocks)) && shows_content(blocks, message)
    &&& only_members(v, set!["role"@, "content"@], false)
}

/// The names of members are different ones.
proof fn lemma_names()
    ensures
        "type"@.len() == 4 && "text"@.len() == 4 && "data"@.len() == 4 && "name"@.len() == 4
            && "role"@.len() == 4,
        "type"@ != "text"@ && "type"@ != "data"@ && "type"@ != "name"@ && "type"@ != "role"@,
        "id"@.len() == 2 && "url"@.len() == 3 && "input"@.len() == 5 && "source"@.len() == 6,
        "content"@.len() == 7 && "is_error"@.len() == 8 && "media_type"@.len() == 10,
        "tool_use_id"@.len() == 11 && "description"@.len() == 11 && "input_schema"@.len() == 12,
        "cache_control"@.len() == 13 && "budget_tokens"@.len() == 13,
        "cache_control"@ != "budget_tokens"@,
{
    reveal_strlit("type");
    reveal_strlit("text");
    reveal_strlit("data");
    reveal_strlit("name");
    reveal_strlit("role");
    reveal_strlit("id");
    reveal_strlit("url");
    reveal_strlit("input");
    reveal_strlit("source");
    reveal_strlit("content");
    reveal_strlit("is_error");
    reveal_strlit("media_type");
    reveal_strlit("tool_use_id");
    reveal_strlit("description");
    reveal_strlit("input_schema");
    reveal_strlit("cache_control");
    reveal_strlit("budget_tokens");
    assert("type"@[1] != "text"@[1]);
    assert("type"@[0] != "data"@[0]);
    assert("type"@[0] != "name"@[0]);
    assert("type"@[0] != "role"@[0]);
    assert("cache_control"@[0] != "budget_tokens"@[0]);
}

/// A content block is shown as it is: a text by its characters, an image by its source.
pub proof fn law_block_is_shown(block: ContentBlock)
    ensures
        shows_block(block_tree(block), block, false),
{
    lemma_names();
}

/// Content blocks are shown one by one, in order.
pub proof fn law_blocks_are_shown(blocks: Seq<ContentBlock>)
    ensures
        shows_blocks(blocks_tree(blocks), blocks),
{
    assert forall|j: int| 0 <= j < blocks.len() implies shows_block(
        #[trigger] blocks_tree(blocks)[j],
        blocks[j],
        false,
    ) by {
        law_block_is_shown(blocks[j]);
    }
}

/// A message is shown whole, whoever speaks.
pub proof fn law_message_is_shown(message: Message)
    ensures
        shows_message(message_tree(message), message),
{
    lemma_names();
    match message {
        Message::User { content } => {
            law_blocks_are_shown(content@);
        },
        Message::Assistant { content, tool_calls } => {
            law_blocks_are_shown(content@);
            let n = content@.len();
            let vs = blocks_tree(content@) + calls_tree(tool_calls@);
            assert forall|j: int| 0 <= j < n implies shows_block(
                #[trigger] vs[j],
                content@[j],
                true,
            ) by {
                assert(vs[j] == blocks_tree(content@)[j]);
            }
            assert forall|j: int| n <= j < vs.len() implies shows_call(
                #[trigger] vs[j],
                tool_calls@[j - n],
            ) by {
                assert(vs[j] == call_tree(tool_calls@[j - n]));
            }
        },
        Message::Tool { tool_call_id, content, is_error } => {
            law_blocks_are_shown(content@);
            let v = result_block(tool_call_id@, content@, is_error);
            assert(v.field("content"@) == Some(JsonTree::Array(blocks_tree(content@))));
            assert(shows_result(v, tool_call_id@, content@, is_error));
        },
        Message::System { content } => {
            law_blocks_are_shown(content@);
            let vs = message_tree(message).field("content"@)->Some_0->Array_0;
            assert forall|j: int| 1 <= j < vs.len() implies shows_block(
                #[trigger] vs[j],
                content@[j - 1],
                true,
            ) by {
                assert(vs[j] == blocks_tree(content@)[j - 1]);
            }
        },
    }
}

/// A marker on a block leaves what the block shows.
proof fn lemma_marked_content(vs: Seq<JsonTree>, message: Message)
    requires
        shows_content(vs, message),
    ensures
        shows_content(marked_blocks(vs), message),
{
    lemma_names();
    let marked = marked_blocks(vs);
    assert forall|j: int, key: Seq<char>| 0 <= j < vs.len() && key != "cache_control"@ implies
        #[trigger] marked[j].field(key) == vs[j].field(key) by {}
    assert forall|j: int| 0 <= j < vs.len() && vs[j] is Object implies (#[trigger] marked[j]) is Object by {}
    match message {
        Message::User { content } => {
            assert forall|j: int| 0 <= j < content@.len() implies shows_block(
                #[trigger] marked[j],
                content@[j],
                true,
            ) by {
                lemma_same_block(vs[j], marked[j], content@[j]);
            }
        },
        Message::Assistant { content, tool_calls } => {
            assert forall|j: int| 0 <= j < content@.len() implies shows_block(
                #[trigger] marked[j],
                content@[j],
                true,
            ) by {
                lemma_same_block(vs[j], marked[j], content@[j]);
            }
            let n = content@.len();
            assert forall|j: int| n <= j < marked.len() implies shows_call(
                #[trigger] marked[j],
                tool_calls@[j - n],
            ) by {
                assert(shows_call(vs[j], tool_calls@[j - n]));
            }
        },
        Message::Tool { tool_call_id, content, is_error } => {
            assert(marked[0].field("type"@) == vs[0].field("type"@));
        },
        Message::System { content } => {
            assert(marked[0].field("type"@) == vs[0].field("type"@));
            assert forall|j: int| 1 <= j < marked.len() implies shows_block(
                #[trigger] marked[j],
                content@[j - 1],
                true,
            ) by {
                lemma_same_block(vs[j], marked[j], content@[j - 1]);
            }
        },
    }
}

proof fn lemma_same_block(v: JsonTree, w: JsonTree, block: ContentBlock)
    requires
        shows_block(v, block, true),
        w is Object,
        forall|key: Seq<char>|
            key != "cache_control"@ ==> #[trigger] w.field(key) == v.field(key),
    ensures
        shows_block(w, block, true),
{
    lemma_names();
}

proof fn lemma_marked_message(v: JsonTree, message: Message)
    requires
        shows_message(v, message),
    ensures
        shows_message(marked_under(v, "content"@), message),
{
    lemma_names();
    let blocks = v.field("content"@)->Some_0->Array_0;
    lemma_marked_content(blocks, message);
    reveal_strlit("role");
    reveal_strlit("content");
    let w = marked_under(v, "content"@);
    assert(w.field("content"@) == Some(JsonTree::Array(marked_blocks(blocks))));
    assert(w.field("role"@) == v.field("role"@));
    assert forall|key: Seq<char>| #[trigger] w.field(key) is Some implies set![
        "role"@,
        "content"@,
    ].contains(key) by {
        if key != "content"@ {
            assert(w.field(key) == v.field(key));
        }
    }
}

/// Every message of an accepted request is sent, in order, and each one shows all that the caller
/// put into it: texts, images, tool calls and tool results.
pub proof fn law_messages_are_shown(req: ChatRequest)
    requires
        translated(req) is Ok,
    ensures
        translated(req)->Ok_0.field("messages"@) matches Some(JsonTree::Array(sent)) && {
            &&& sent.len() == req.messages@.len()
            &&& forall|i: int|
                0 <= i < sent.len() ==> shows_message(#[trigger] sent[i], req.messages@[i])
        },
{
    let model = req.model.name()->Some_0;
    law_body_members(req, model);
    let plain = messages_tree(req.messages@);
    let body = translated(req)->Ok_0;
    assert forall|i: int| 0 <= i < plain.len() implies shows_message(
        #[trigger] plain[i],
        req.messages@[i],
    ) by {
        law_message_is_shown(req.messages@[i]);
    }
    if wants_marker(req.cache_directives@) {
        law_marked_members(plain_body(req, model));
        law_marks_last_user_message(plain);
        let sent = marked_messages(plain);
        assert(body.field_items("messages"@) == Some(sent));
        assert(body.field("messages"@) == Some(JsonTree::Array(sent)));
        assert forall|i: int| 0 <= i < sent.len() implies shows_message(
            #[trigger] sent[i],
            req.messages@[i],
        ) by {
            assert(shows_message(plain[i], req.messages@[i]));
            if sent[i] != plain[i] {
                lemma_marked_message(plain[i], req.messages@[i]);
            }
        }
    }
}

// ---------------------------------------------------------------------------
// Cache markers
// ---------------------------------------------------------------------------

/// Whether a caller asks for cache markers.
pub open spec fn asks_for_markers(directives: Seq<CacheDirective>) -> bool {
    exists|k: int| 0 <= k < directives.len() && (#[trigger] directives[k]) is MarkBoundary
}

/// Whether the message at `at` is the last that is not the assistant's.
pub open spec fn is_last_of_user(messages: Seq<Message>, at: int) -> bool {
    &&& 0 <= at < messages.len()
    &&& !(messages[at] is Assistant)
    &&& forall|j: int| at < j < messages.len() ==> (#[trigger] messages[j]) is Assistant
}

/// What a cache marker is.
pub open spec fn is_marker(v: JsonTree) -> bool {
    says(v, "type"@, "ephemeral"@) && only_members(v, set!["type"@], false)
}

/// Where a directive asks for it, the last content block of the last message that is not the
/// assistant's carries a cache marker. No other content block ever does.
pub proof fn law_marker_placement(req: ChatRequest, i: int, j: int)
    requires
        translated(req) is Ok,
        0 <= i < req.messages@.len(),
    ensures
        translated(req)->Ok_0.field("messages"@) matches Some(JsonTree::Array(sent)) && (
        sent[i].field("content"@) matches Some(JsonTree::Array(blocks)) && (0 <= j < blocks.len()
            ==> if asks_for_markers(req.cache_directives@) && is_last_of_user(req.messages@, i) && j
            == blocks.len() - 1 {
            blocks[j].field("cache_control"@) matches Some(m) && is_marker(m)
        } else {
            blocks[j].field("cache_control"@) is None
        })),
{
    lemma_names();
    reveal_strlit("role");
    reveal_strlit("content");
    reveal_strlit("user");
    reveal_strlit("assistant");
    assert("user"@.len() != "assistant"@.len());
    assert("role"@ != "content"@) by {
        assert("role"@.len() != "content"@.len());
    }
    let model = req.model.name()->Some_0;
    law_body_members(req, model);
    law_messages_are_shown(req);
    let plain = messages_tree(req.messages@);
    assert forall|k: int| 0 <= k < plain.len() implies from_user(#[trigger] plain[k]) == !(
    req.messages@[k] is Assistant) by {
        law_message_is_shown(req.messages@[k]);
        assert(says(plain[k], "role"@, if req.messages@[k] is Assistant { "assistant"@ } else { "user"@ }));
    }
    assert(wants_marker(req.cache_directives@) == asks_for_markers(req.cache_directives@));
    let before = plain[i].field("content"@)->Some_0->Array_0;
    law_message_is_shown(req.messages@[i]);
    assert(plain[i].field("content"@) == Some(JsonTree::Array(before)));
    assert forall|k: int| 0 <= k < before.len() implies (#[trigger] before[k]).field(
        "cache_control"@,
    ) is None by {
        lemma_unmarked_content(req.messages@[i], k);
    }
    if wants_marker(req.cache_directives@) {
        law_marked_members(plain_body(req, model));
        law_marks_last_user_message(plain);
        let sent = marked_messages(plain);
        assert(translated(req)->Ok_0.field("messages"@) == Some(JsonTree::Array(sent)));
        if is_last_of_user(req.messages@, i) {
            assert forall|k: int| i < k < plain.len() implies !from_user(#[trigger] plain[k]) by {
                assert(req.messages@[k] is Assistant);
            }
            assert(sent[i] == marked_under(plain[i], "content"@));
            assert(sent[i].field("content"@) == Some(JsonTree::Array(marked_blocks(before))));
        } else {
            if from_user(plain[i]) {
                let k = choose|k: int|
                    i < k < req.messages@.len() && !((#[trigger] req.messages@[k]) is Assistant);
                assert(from_user(plain[k]));
            }
            assert(sent[i] == plain[i]);
        }
    }
}

/// Marking an array puts a marker on its last element, if it has one, and changes nothing else. A
/// value without such an array is left alone.
pub proof fn law_marked_array(v: JsonTree, key: Seq<char>)
    ensures
        v.field(key) matches Some(JsonTree::Array(before)) ==> (marked_under(v, key).field(
            key,
        ) matches Some(JsonTree::Array(after)) && {
            &&& after.len() == before.len()
            &&& forall|j: int| 0 <= j < before.len() - 1 ==> #[trigger] after[j] == before[j]
            &&& before.len() > 0 ==> (after.last().field("cache_control"@) matches Some(m)
                && is_marker(m))
            &&& before.len() > 0 ==> forall|k: Seq<char>|
                k != "cache_control"@ ==> #[trigger] after.last().field(k) == before.last().field(
                    k,
                )
        }),
        v.field(key) matches Some(JsonTree::Array(_)) ==> forall|k: Seq<char>|
            k != key ==> #[trigger] marked_under(v, key).field(k) == v.field(k),
        !(v.field(key) matches Some(JsonTree::Array(_))) ==> marked_under(v, key) == v,
{
    lemma_names();
}

/// A message comes from the user exactly if its role says so.
pub proof fn law_user_messages(message: JsonTree)
    ensures
        from_user(message) <==> says(message, "role"@, "user"@),
{
}

/// A directive asks for markers exactly if it marks a boundary.
pub proof fn law_marker_directives(directives: Seq<CacheDirective>)
    ensures
        wants_marker(directives) == asks_for_markers(directives),
{
}

/// The system prompt is one text block at the top level; it carries a marker exactly where a
/// directive asks for one.
pub proof fn law_system_is_shown(req: ChatRequest)
    requires
        translated(req) is Ok,
    ensures
        match req.system {
            Some(text) => translated(req)->Ok_0.field("system"@) matches Some(
                JsonTree::Array(blocks),
            ) && {
                &&& blocks.len() == 1
                &&& says(blocks[0], "type"@, "text"@)
                &&& says(blocks[0], "text"@, text@)
                &&& only_members(blocks[0], set!["type"@, "text"@], true)
                &&& asks_for_markers(req.cache_directives@) ==> (blocks[0].field(
                    "cache_control"@,
                ) matches Some(m) && is_marker(m))
                &&& !asks_for_markers(req.cache_directives@) ==> blocks[0].field(
                    "cache_control"@,
                ) is None
            },
            None => translated(req)->Ok_0.field("system"@) is None,
        },
{
    lemma_names();
    reveal_strlit("system");
    reveal_strlit("messages");
    assert("system"@.len() != "messages"@.len());
    let model = req.model.name()->Some_0;
    law_body_members(req, model);
    assert(wants_marker(req.cache_directives@) == asks_for_markers(req.cache_directives@));
    if wants_marker(req.cache_directives@) {
        let plain = plain_body(req, model);
        law_marked_members(plain);
        if let Some(text) = req.system {
            let blocks = seq![crate::request::text_block(text@)];
            assert(plain.field_items("system"@) == Some(blocks));
            assert(marked_body(plain).field_items("system"@) == Some(marked_blocks(blocks)));
            assert(marked_body(plain).field("system"@) == Some(
                JsonTree::Array(marked_blocks(blocks)),
            ));
        } else {
            assert(marked_under(plain, "system"@) == plain);
            assert(marked_body(plain).field("system"@) is None);
        }
    }
}

// ---------------------------------------------------------------------------
// The other members
// ---------------------------------------------------------------------------

/// Whether a value is this number.
pub open spec fn is_number(v: JsonTree, n: u64) -> bool {
    v == JsonTree::Number(NumberTree { unsigned: Some(n), text: decimal(n as nat) })
}

proof fn lemma_plain_member(req: ChatRequest, key: Seq<char>)
    requires
        translated(req) is Ok,
        key != "system"@,
        key != "messages"@,
    ensures
        translated(req)->Ok_0.field(key) == plain_body(req, req.model.name()->Some_0).field(key),
{
    if wants_marker(req.cache_directives@) {
        law_marking_keeps_other_members(plain_body(req, req.model.name()->Some_0), key);
    }
}

proof fn lemma_top_names()
    ensures
        "model"@.len() == 5 && "tools"@.len() == 5 && "messages"@.len() == 8,
        "thinking"@.len() == 8 && "stream"@.len() == 6 && "system"@.len() == 6,
        "temperature"@.len() == 11 && "tool_choice"@.len() == 11,
        "max_tokens"@.len() == 10 && "stop_sequences"@.len() == 14,
        "messages"@ != "thinking"@ && "stream"@ != "system"@,
{
    reveal_strlit("model");
    reveal_strlit("tools");
    reveal_strlit("messages");
    reveal_strlit("thinking");
    reveal_strlit("stream");
    reveal_strlit("system");
    reveal_strlit("temperature");
    reveal_strlit("tool_choice");
    reveal_strlit("max_tokens");
    reveal_strlit("stop_sequences");
    assert("messages"@[0] != "thinking"@[0]);
    assert("stream"@[1] != "system"@[1]);
}

/// An accepted request names its model, is to be streamed, and says how many tokens the answer may
/// have: as many as the caller says, or else 4096.
pub proof fn law_model_and_limits_are_sent(req: ChatRequest)
    requires
        translated(req) is Ok,
    ensures
        req.model matches ModelHint::Explicit(name) && says(
            translated(req)->Ok_0,
            "model"@,
            name@,
        ),
        translated(req)->Ok_0.field("stream"@) == Some(JsonTree::Bool(true)),
        translated(req)->Ok_0.field("max_tokens"@) matches Some(n) && is_number(
            n,
            match req.max_output_tokens {
                Some(n) => n as u64,
                None => 4096,
            },
        ),
        match req.temperature {
            Some(t) => translated(req)->Ok_0.field("temperature"@) == Some(t.tree()),
            None => translated(req)->Ok_0.field("temperature"@) is None,
        },
{
    lemma_top_names();
    lemma_plain_member(req, "model"@);
    lemma_plain_member(req, "stream"@);
    lemma_plain_member(req, "max_tokens"@);
    lemma_plain_member(req, "temperature"@);
    law_body_members(req, req.model.name()->Some_0);
}

/// The stop sequences are sent in order, if there are any.
pub proof fn law_stop_sequences_are_sent(req: ChatRequest)
    requires
        translated(req) is Ok,
    ensures
        req.stop_sequences@.len() == 0 ==> translated(req)->Ok_0.field("stop_sequences"@) is None,
        req.stop_sequences@.len() > 0 ==> (translated(req)->Ok_0.field(
            "stop_sequences"@,
        ) matches Some(JsonTree::Array(stops)) && stops.len() == req.stop_sequences@.len()
            && forall|i: int|
            0 <= i < stops.len() ==> #[trigger] stops[i] == JsonTree::Text(
                req.stop_sequences@[i]@,
            )),
{
    lemma_top_names();
    lemma_plain_member(req, "stop_sequences"@);
    law_body_members(req, req.model.name()->Some_0);
}

/// A thinking budget is sent exactly if the model is to think: the caller's own, or else 4096
/// tokens.
pub proof fn law_thinking_is_sent(req: ChatRequest)
    requires
        translated(req) is Ok,
    ensures
        req.thinking is Off ==> translated(req)->Ok_0.field("thinking"@) is None,
        !(req.thinking is Off) ==> (translated(req)->Ok_0.field("thinking"@) matches Some(v) && {
            &&& says(v, "type"@, "enabled"@)
            &&& v.field("budget_tokens"@) matches Some(n) && is_number(
                n,
                match req.thinking {
                    ThinkingMode::Budget(b) => b as u64,
                    _ => 4096,
                },
            )
            &&& only_members(v, set!["type"@, "budget_tokens"@], false)
        }),
{
    lemma_names();
    lemma_top_names();
    lemma_plain_member(req, "thinking"@);
    law_body_members(req, req.model.name()->Some_0);
}

/// Whether a value shows a tool.
pub open spec fn shows_tool(
    v: JsonTree,
    name: Seq<char>,
    description: Seq<char>,
    schema: JsonTree,
) -> bool {
    &&& says(v, "name"@, name)
    &&& says(v, "description"@, description)
    &&& v.field("input_schema"@) == Some(schema)
    &&& only_members(v, set!["name"@, "description"@, "input_schema"@], false)
}

/// The tools are sent in order, each with its name, its description and its schema, and behind them
/// the one through which structured output is asked for. Without any, nothing is sent of tools.
pub proof fn law_tools_are_shown(req: ChatRequest)
    requires
        translated(req) is Ok,
    ensures
        ({
            let n = req.tools@.len();
            let body = translated(req)->Ok_0;
            &&& n == 0 && req.structured_output is None ==> body.field("tools"@) is None
            &&& n > 0 || req.structured_output is Some ==> (body.field("tools"@) matches Some(
                JsonTree::Array(tools),
            ) && {
                &&& tools.len() == n + if req.structured_output is Some {
                    1int
                } else {
                    0
                }
                &&& forall|i: int|
                    0 <= i < n ==> shows_tool(
                        #[trigger] tools[i],
                        req.tools@[i].name@,
                        req.tools@[i].description@,
                        req.tools@[i].input_schema.schema.tree(),
                    )
                &&& req.structured_output matches Some(schema) ==> shows_tool(
                    tools[n as int],
                    "__respond_with__"@,
                    "Return the response strictly conforming to the schema."@,
                    schema.schema.tree(),
                )
            })
        }),
{
    lemma_names();
    lemma_top_names();
    lemma_plain_member(req, "tools"@);
    law_body_members(req, req.model.name()->Some_0);
    let sent = sent_tools(req);
    assert forall|i: int| 0 <= i < req.tools@.len() implies shows_tool(
        #[trigger] sent[i],
        req.tools@[i].name@,
        req.tools@[i].description@,
        req.tools@[i].input_schema.schema.tree(),
    ) by {
        assert(sent[i] == crate::request::own_tools(req.tools@)[i]);
    }
}

/// What is sent of the choice among the tools: for structured output its own tool, whatever the
/// caller chose; else the caller's choice, if there are tools.
pub proof fn law_choice_is_sent(req: ChatRequest)
    requires
        translated(req) is Ok,
    ensures
        req.structured_output is None && req.tools@.len() == 0 ==> translated(req)->Ok_0.field(
            "tool_choice"@,
        ) is None,
        req.structured_output is Some ==> (translated(req)->Ok_0.field(
            "tool_choice"@,
        ) matches Some(v) && says(v, "type"@, "tool"@) && says(v, "name"@, "__respond_with__"@)
            && only_members(v, set!["type"@, "name"@], false)),
        req.structured_output is None && req.tools@.len() > 0 ==> (translated(req)->Ok_0.field(
            "tool_choice"@,
        ) matches Some(v) && match req.tool_choice {
            ToolChoice::Auto => says(v, "type"@, "auto"@) && only_members(v, set!["type"@], false),
            ToolChoice::NoTool => says(v, "type"@, "none"@) && only_members(
                v,
                set!["type"@],
                false,
            ),
            ToolChoice::Required => says(v, "type"@, "any"@) && only_members(
                v,
                set!["type"@],
                false,
            ),
            ToolChoice::Specific(name) => says(v, "type"@, "tool"@) && says(v, "name"@, name@)
                && only_members(v, set!["type"@, "name"@], false),
        }),
{
    lemma_names();
    lemma_top_names();
    lemma_plain_member(req, "tool_choice"@);
    law_body_members(req, req.model.name()->Some_0);
}

/// A body has no members but the ten that the other laws speak of.
pub proof fn law_nothing_else_is_sent(req: ChatRequest, key: Seq<char>)
    requires
        translated(req) is Ok,
        translated(req)->Ok_0.field(key) is Some,
    ensures
        key == "model"@ || key == "messages"@ || key == "max_tokens"@ || key == "stream"@ || key
            == "system"@ || key == "temperature"@ || key == "stop_sequences"@ || key
            == "tool_choice"@ || key == "tools"@ || key == "thinking"@,
{
    if key != "system"@ && key != "messages"@ {
        lemma_plain_member(req, key);
        law_body_members(req, req.model.name()->Some_0);
    }
}

// ---------------------------------------------------------------------------
// Refusals
// ---------------------------------------------------------------------------

/// Whether two tools have the same name, the later of them at `at`.
pub open spec fn named_again(tools: Seq<ToolSpec>, at: int) -> bool {
    0 <= at < tools.len() && exists|i: int|
        0 <= i < at && (#[trigger] tools[i]).name@ == tools[at].name@
}

/// Whether no tool has the name of another.
pub open spec fn distinct_names(tools: Seq<ToolSpec>) -> bool {
    forall|i: int, j: int|
        0 <= i < j < tools.len() ==> (#[trigger] tools[i]).name@ != (#[trigger] tools[j]).name@
}

/// Whether a request can be served as it stands.
pub open spec fn is_sound(req: ChatRequest) -> bool {
    &&& req.model is Explicit
    &&& req.messages@.len() > 0
    &&& distinct_names(req.tools@)
    &&& req.structured_output is Some ==> forall|i: int|
        0 <= i < req.tools@.len() ==> (#[trigger] req.tools@[i]).name@ != "__respond_with__"@
    &&& req.max_output_tokens != Some(0u32)
    &&& req.structured_output is None && req.tools@.len() > 0 ==> (
    req.tool_choice matches ToolChoice::Specific(name) ==> exists|i: int|
        0 <= i < req.tools@.len() && (#[trigger] req.tools@[i]).name@ == name@)
}

/// A request is accepted exactly if it is sound; any other is refused as invalid.
pub proof fn law_sound_requests_are_accepted(req: ChatRequest)
    ensures
        translated(req) is Ok <==> is_sound(req),
        translated(req) matches Err(e) ==> e is InvalidRequest,
{
    let tools = req.tools@;
    if exists|at: int| first_repeat(tools, at) {
        let at = choose|at: int| first_repeat(tools, at);
        let i = choose|i: int| 0 <= i < at && (#[trigger] tools[i]).name@ == tools[at].name@;
        assert(!distinct_names(tools)) by {
            assert(0 <= i < at < tools.len() && tools[i].name@ == tools[at].name@);
        }
    } else {
        lemma_no_repeat(tools);
        assert forall|i: int, j: int| 0 <= i < j < tools.len() implies (#[trigger] tools[i]).name@
            != (#[trigger] tools[j]).name@ by {
            assert(!repeats(tools, j));
        }
        assert(distinct_names(tools));
    }
    assert(names_tool(tools, "__respond_with__"@) <==> exists|i: int|
        0 <= i < tools.len() && (#[trigger] tools[i]).name@ == "__respond_with__"@);
}

/// Why a request is refused: the first of what is wrong with it, in a fixed order.
pub proof fn law_reasons_for_refusal(req: ChatRequest, at: int)
    ensures
        !(req.model is Explicit) ==> translated(req) == Err::<JsonTree, ErrorView>(
            ErrorView::InvalidRequest("model must be explicit"@),
        ),
        req.model is Explicit && req.messages@.len() == 0 ==> translated(req) == Err::<
            JsonTree,
            ErrorView,
        >(
            ErrorView::InvalidRequest(
                "anthropic: messages array must contain at least one message"@,
            ),
        ),
        req.model is Explicit && req.messages@.len() > 0 && named_again(req.tools@, at) && (forall|
            i: int,
        | 0 <= i < at ==> !#[trigger] named_again(req.tools@, i)) ==> translated(req) == Err::<
            JsonTree,
            ErrorView,
        >(
            ErrorView::InvalidRequest(
                "anthropic: duplicate tool name `"@ + req.tools@[at].name@ + "` in request"@,
            ),
        ),
        req.model is Explicit && req.messages@.len() > 0 && distinct_names(req.tools@)
            && req.structured_output is Some && 0 <= at < req.tools@.len()
            && req.tools@[at].name@ == "__respond_with__"@ ==> translated(req) == Err::<
            JsonTree,
            ErrorView,
        >(
            ErrorView::InvalidRequest(
                "anthropic: tool name `"@ + "__respond_with__"@
                    + "` is reserved for structured-output emulation"@,
            ),
        ),
        req.model is Explicit && req.messages@.len() > 0 && distinct_names(req.tools@) && (
        req.structured_output is Some ==> forall|i: int|
            0 <= i < req.tools@.len() ==> (#[trigger] req.tools@[i]).name@ != "__respond_with__"@)
            && req.max_output_tokens == Some(0u32) ==> translated(req) == Err::<
            JsonTree,
            ErrorView,
        >(ErrorView::InvalidRequest("anthropic: max_output_tokens must be > 0"@)),
        req.model is Explicit && req.messages@.len() > 0 && distinct_names(req.tools@)
            && req.structured_output is None && req.max_output_tokens != Some(0u32)
            && req.tools@.len() > 0 ==> (req.tool_choice matches ToolChoice::Specific(name) ==> (
        forall|i: int|
            0 <= i < req.tools@.len() ==> (#[trigger] req.tools@[i]).name@ != name@)
            ==> translated(req) == Err::<JsonTree, ErrorView>(
            ErrorView::InvalidRequest(
                "anthropic: tool_choice references unknown tool `"@ + name@ + "`"@,
            ),
        )),
{
    let tools = req.tools@;
    assert forall|i: int| #[trigger] named_again(tools, i) == repeats(tools, i) by {}
    if named_again(tools, at) && (forall|i: int| 0 <= i < at ==> !#[trigger] named_again(tools, i)) {
        assert forall|i: int| 0 <= i < at implies !#[trigger] repeats(tools, i) by {
            assert(!named_again(tools, i));
        }
        assert(first_repeat(tools, at));
        let chosen = choose|k: int| first_repeat(tools, k);
        assert(first_repeat(tools, chosen));
        assert(chosen == at);
    }
    if distinct_names(tools) {
        assert forall|k: int| !first_repeat(tools, k) by {
            if repeats(tools, k) {
                let i = choose|i: int| 0 <= i < k && (#[trigger] tools[i]).name@ == tools[k].name@;
                assert(tools[i].name@ != tools[k].name@);
            }
        }
    }
    if 0 <= at < tools.len() && tools[at].name@ == "__respond_with__"@ {
        assert(names_tool(tools, "__respond_with__"@));
    }
}

} // verus!
