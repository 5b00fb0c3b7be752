//! What holds of every translated request.

use vstd::prelude::*;

use crate::chat::{ChatRequest, Message, ToolSpec};
use crate::json::JsonTree;
use crate::request::{
    first_repeat, from_user, law_body_members, lemma_message_content, lemma_through_last_user,
    marked_block, marked_blocks, marked_body, marked_messages, marked_under, message_tree,
    messages_tree, names_tool, own_tools, plain_body, repeats, sent_choice, sent_tools, some_array,
    through_last_user, translated, wants_marker, STRUCTURED_OUTPUT_TOOL,
};

verus! {

// ---------------------------------------------------------------------------
// Cache markers
// ---------------------------------------------------------------------------

/// Marking changes nothing of a body but its system prompt and its messages.
pub proof fn law_marking_keeps_other_members(body: JsonTree, key: Seq<char>)
    requires
        key != "system"@,
        key != "messages"@,
    ensures
        marked_body(body).field(key) == body.field(key),
{
}

/// What marking makes of the system prompt and of the messages of a body.
pub proof fn law_marked_members(body: JsonTree)
    ensures
        marked_body(body).field_items("system"@) == match body.field_items("system"@) {
            Some(blocks) => Some(marked_blocks(blocks)),
            None => None,
        },
        marked_body(body).field_items("messages"@) == match body.field_items("messages"@) {
            Some(messages) => Some(marked_messages(messages)),
            None => None,
        },
{
    reveal_strlit("system");
    reveal_strlit("messages");
    assert("system"@.len() != "messages"@.len());
}

/// Marking changes one message at most, the last one that comes from the user; what the assistant
/// said is never marked. Of that message it changes the last content block alone, and of that
/// block the marker alone.
pub proof fn law_marks_last_user_message(messages: Seq<JsonTree>)
    ensures
        marked_messages(messages).len() == messages.len(),
        forall|i: int|
            0 <= i < messages.len() && (!from_user(messages[i]) || exists|j: int|
                i < j < messages.len() && from_user(#[trigger] messages[j]))
                ==> #[trigger] marked_messages(messages)[i] == messages[i],
        forall|i: int, key: Seq<char>|
            0 <= i < messages.len() && key != "content"@ ==> #[trigger] marked_messages(
                messages,
            )[i].field(key) == messages[i].field(key),
        forall|i: int|
            0 <= i < messages.len() && from_user(messages[i]) && (forall|j: int|
                i < j < messages.len() ==> !from_user(#[trigger] messages[j]))
                ==> #[trigger] marked_messages(messages)[i] == marked_under(
                messages[i],
                "content"@,
            ),
{
    lemma_through_last_user(messages);
    let n = through_last_user(messages);
    assert forall|i: int|
        0 <= i < messages.len() && from_user(messages[i]) && (forall|j: int|
            i < j < messages.len() ==> !from_user(
                #[trigger] messages[j],
            )) implies #[trigger] marked_messages(messages)[i] == marked_under(
        messages[i],
        "content"@,
    ) by {
        assert(i < n);
        assert(from_user(messages[n - 1]));
    }
}

/// Marking blocks changes the last of them alone, and of that one the marker alone.
pub proof fn law_marks_last_block(blocks: Seq<JsonTree>)
    ensures
        marked_blocks(blocks).len() == blocks.len(),
        forall|i: int|
            0 <= i < blocks.len() - 1 ==> #[trigger] marked_blocks(blocks)[i] == blocks[i],
        blocks.len() > 0 ==> marked_blocks(blocks).last().field_in("cache_control"@, "type"@)
            == Some(JsonTree::Text("ephemeral"@)),
        blocks.len() > 0 ==> forall|key: Seq<char>|
            key != "cache_control"@ ==> #[trigger] marked_blocks(blocks).last().field(key)
                == blocks.last().field(key),
{
}

proof fn lemma_marked_block_twice(block: JsonTree)
    ensures
        marked_block(marked_block(block)) == marked_block(block),
{
    let once = marked_block(block)->Object_0;
    assert(once.insert("cache_control"@, once["cache_control"@]) =~= once);
}

proof fn lemma_marked_under_twice(v: JsonTree, key: Seq<char>)
    ensures
        marked_under(marked_under(v, key), key) == marked_under(v, key),
{
    if let Some(blocks) = v.field_items(key) {
        let once = marked_blocks(blocks);
        if blocks.len() > 0 {
            lemma_marked_block_twice(blocks.last());
        }
        assert(marked_blocks(once) =~= once);
        let m = marked_under(v, key)->Object_0;
        assert(m.insert(key, JsonTree::Array(once)) =~= m);
    }
}

proof fn lemma_marked_messages_twice(messages: Seq<JsonTree>)
    ensures
        marked_messages(marked_messages(messages)) == marked_messages(messages),
{
    reveal_strlit("role");
    reveal_strlit("content");
    assert("role"@.len() != "content"@.len());
    let once = marked_messages(messages);
    law_marks_last_user_message(messages);
    lemma_through_last_user(messages);
    lemma_through_last_user(once);
    let n = through_last_user(messages);
    assert forall|i: int| 0 <= i < messages.len() implies from_user(#[trigger] once[i])
        == from_user(messages[i]) by {
        assert(once[i].field("role"@) == messages[i].field("role"@));
    }
    let k = through_last_user(once);
    if n < k {
        assert(!from_user(messages[k - 1]));
        assert(from_user(once[k - 1]));
    }
    if k < n {
        assert(from_user(messages[n - 1]));
        assert(!from_user(once[n - 1]));
    }
    if n > 0 {
        lemma_marked_under_twice(messages[n - 1], "content"@);
    }
    assert(marked_messages(once) =~= once);
}

/// Marking a body twice is marking it once.
pub proof fn law_marking_twice(body: JsonTree)
    ensures
        marked_body(marked_body(body)) == marked_body(body),
{
    reveal_strlit("system");
    reveal_strlit("messages");
    assert("system"@.len() != "messages"@.len());
    let once = marked_body(body);
    law_marked_members(body);
    if let Some(blocks) = body.field_items("system"@) {
        let twice = marked_blocks(marked_blocks(blocks));
        if blocks.len() > 0 {
            lemma_marked_block_twice(blocks.last());
        }
        assert(twice =~= marked_blocks(blocks));
        let m = once->Object_0;
        assert(m.insert("system"@, JsonTree::Array(twice)) =~= m);
    }
    assert(marked_under(once, "system"@) == once);
    if let Some(messages) = body.field_items("messages"@) {
        lemma_marked_messages_twice(messages);
        let m = once->Object_0;
        assert(m.insert("messages"@, JsonTree::Array(marked_messages(messages))) =~= m);
    }
}

// ---------------------------------------------------------------------------
// Whole requests
// ---------------------------------------------------------------------------

/// Of a request that is accepted, every message is sent, in order, and each under one of the two
/// roles that the backend knows; the cache markers leave the roles alone.
pub proof fn law_messages_sent(req: ChatRequest)
    requires
        translated(req) is Ok,
    ensures
        translated(req)->Ok_0.field_items("messages"@) matches Some(sent) && {
            &&& sent.len() == req.messages@.len()
            &&& sent.len() > 0
            &&& forall|i: int|
                0 <= i < sent.len() ==> (#[trigger] sent[i]).field_text("role"@) == Some(
                    if req.messages@[i] is Assistant {
                        "assistant"@
                    } else {
                        "user"@
                    },
                )
            &&& !wants_marker(req.cache_directives@) ==> sent == messages_tree(req.messages@)
        },
{
    reveal_strlit("role");
    reveal_strlit("content");
    assert("role"@.len() != "content"@.len());
    let model = req.model.name()->Some_0;
    law_body_members(req, model);
    let plain = messages_tree(req.messages@);
    let sent = translated(req)->Ok_0.field_items("messages"@)->Some_0;
    if wants_marker(req.cache_directives@) {
        law_marked_members(plain_body(req, model));
        law_marks_last_user_message(plain);
    }
    assert forall|i: int| 0 <= i < sent.len() implies (#[trigger] sent[i]).field_text("role"@)
        == Some(
        if req.messages@[i] is Assistant {
            "assistant"@
        } else {
            "user"@
        },
    ) by {
        assert(sent[i].field("role"@) == plain[i].field("role"@));
    }
}

/// The system prompt of a request stands at the top level of the body, as one text block, and
/// carries a cache marker exactly where a directive asks for one.
pub proof fn law_system_at_top_level(req: ChatRequest)
    requires
        translated(req) is Ok,
    ensures
        match req.system {
            Some(text) => translated(req)->Ok_0.field_items("system"@) matches Some(blocks) && {
                &&& blocks.len() == 1
                &&& blocks[0].field_text("type"@) == Some("text"@)
                &&& blocks[0].field_text("text"@) == Some(text@)
                &&& blocks[0].field("cache_control"@) is Some <==> wants_marker(
                    req.cache_directives@,
                )
            },
            None => translated(req)->Ok_0.field("system"@) is None,
        },
{
    reveal_strlit("type");
    reveal_strlit("text");
    reveal_strlit("cache_control");
    assert("type"@[1] != "text"@[1]);
    assert("cache_control"@.len() != "type"@.len());
    assert("cache_control"@.len() != "text"@.len());
    reveal_strlit("system");
    reveal_strlit("messages");
    assert("system"@.len() != "messages"@.len());
    let model = req.model.name()->Some_0;
    law_body_members(req, model);
    if wants_marker(req.cache_directives@) {
        law_marked_members(plain_body(req, model));
    }
}

/// Members other than the system prompt and the messages are what the request says for them,
/// markers or not.
proof fn lemma_unmarked_member(req: ChatRequest, key: Seq<char>)
    requires
        translated(req) is Ok,
        key != "system"@,
        key != "messages"@,
    ensures
        translated(req)->Ok_0.field(key) == plain_body(req, req.model.name()->Some_0).field(key),
{
    if wants_marker(req.cache_directives@) {
        law_marking_keeps_other_members(plain_body(req, req.model.name()->Some_0), key);
    }
}

proof fn lemma_tool_keys()
    ensures
        "tools"@.len() == 5,
        "tool_choice"@.len() == 11,
        "system"@.len() == 6,
        "messages"@.len() == 8,
        "name"@.len() == 4,
        "description"@.len() == 11,
        "input_schema"@.len() == 12,
        "type"@.len() == 4,
        "name"@ != "type"@,
{
    reveal_strlit("tools");
    reveal_strlit("tool_choice");
    reveal_strlit("system");
    reveal_strlit("messages");
    reveal_strlit("name");
    reveal_strlit("description");
    reveal_strlit("input_schema");
    reveal_strlit("type");
    assert("name"@[0] != "type"@[0]);
}

/// The tools that an accepted request sends are those of the caller, in order, and no two of them
/// have the same name.
pub proof fn law_tool_names_distinct(req: ChatRequest)
    requires
        translated(req) is Ok,
    ensures
        translated(req)->Ok_0.field("tools"@) == some_array(sent_tools(req)),
        sent_tools(req).take(req.tools@.len() as int) == own_tools(req.tools@),
        forall|i: int|
            0 <= i < req.tools@.len() ==> (#[trigger] sent_tools(req)[i]).field_text("name"@)
                == Some(req.tools@[i].name@),
        forall|i: int, j: int|
            0 <= i < j < sent_tools(req).len() ==> (#[trigger] sent_tools(req)[i]).field_text(
                "name"@,
            ) != (#[trigger] sent_tools(req)[j]).field_text("name"@),
{
    lemma_tool_keys();
    lemma_unmarked_member(req, "tools"@);
    law_body_members(req, req.model.name()->Some_0);
    let tools = req.tools@;
    let sent = sent_tools(req);
    assert(sent.take(tools.len() as int) =~= own_tools(tools));
    assert forall|i: int| 0 <= i < tools.len() implies (#[trigger] sent[i]).field_text("name"@)
        == Some(tools[i].name@) by {
        assert(sent[i] == own_tools(tools)[i]);
    }
    lemma_no_repeat(tools);
    assert forall|i: int, j: int| 0 <= i < j < sent.len() implies (#[trigger] sent[i]).field_text(
        "name"@,
    ) != (#[trigger] sent[j]).field_text("name"@) by {
        assert(sent[i].field_text("name"@) == Some(tools[i].name@));
        if j < tools.len() {
            assert(!repeats(tools, j));
            assert(sent[j].field_text("name"@) == Some(tools[j].name@));
        } else {
            assert(sent[j].field_text("name"@) == Some(STRUCTURED_OUTPUT_TOOL@));
            assert(!names_tool(tools, STRUCTURED_OUTPUT_TOOL@));
        }
    }
}

/// Where no tool is the first to repeat a name, none repeats one.
pub proof fn lemma_no_repeat(tools: Seq<ToolSpec>)
    requires
        !exists|at: int| first_repeat(tools, at),
    ensures
        forall|at: int| !#[trigger] repeats(tools, at),
{
    assert forall|at: int| !#[trigger] repeats(tools, at) by {
        lemma_no_repeat_at(tools, at);
    }
}

proof fn lemma_no_repeat_at(tools: Seq<ToolSpec>, at: int)
    requires
        !exists|i: int| first_repeat(tools, i),
    ensures
        !repeats(tools, at),
    decreases at,
{
    if repeats(tools, at) {
        assert forall|i: int| 0 <= i < at implies !#[trigger] repeats(tools, i) by {
            lemma_no_repeat_at(tools, i);
        }
        assert(first_repeat(tools, at));
    }
}

/// A request for structured output forces one tool: the last of the tools sent, which holds the
/// schema, whatever the caller's own choice is.
pub proof fn law_structured_output_forces_its_tool(req: ChatRequest)
    requires
        translated(req) is Ok,
        req.structured_output is Some,
    ensures
        translated(req)->Ok_0.field_in("tool_choice"@, "type"@) == Some(JsonTree::Text("tool"@)),
        translated(req)->Ok_0.field_in("tool_choice"@, "name"@) == Some(
            JsonTree::Text(STRUCTURED_OUTPUT_TOOL@),
        ),
        translated(req)->Ok_0.field_items("tools"@) matches Some(tools) && {
            &&& tools.len() == req.tools@.len() + 1
            &&& tools.last().field_text("name"@) == Some(STRUCTURED_OUTPUT_TOOL@)
            &&& tools.last().field("input_schema"@) == Some(
                req.structured_output->Some_0.schema.tree(),
            )
        },
{
    lemma_tool_keys();
    lemma_unmarked_member(req, "tools"@);
    lemma_unmarked_member(req, "tool_choice"@);
    law_body_members(req, req.model.name()->Some_0);
}

/// Whether one of some tools in the backend's form has this name.
pub open spec fn offers(tools: Seq<JsonTree>, name: Seq<char>) -> bool {
    exists|i: int| 0 <= i < tools.len() && (#[trigger] tools[i]).field_text("name"@) == Some(name)
}

/// Where an accepted request makes the model call one tool, that tool is among those sent; where
/// it sends no tools, it sends no choice either.
pub proof fn law_forced_tool_is_sent(req: ChatRequest)
    requires
        translated(req) is Ok,
    ensures
        match translated(req)->Ok_0.field("tool_choice"@) {
            Some(choice) => translated(req)->Ok_0.field_items("tools"@) matches Some(tools) && (
            choice.field_text("type"@) == Some("tool"@) ==> (choice.field_text(
                "name"@,
            ) matches Some(name) && offers(tools, name))),
            None => translated(req)->Ok_0.field("tools"@) is None,
        },
{
    lemma_tool_keys();
    lemma_unmarked_member(req, "tools"@);
    lemma_unmarked_member(req, "tool_choice"@);
    law_body_members(req, req.model.name()->Some_0);
    law_tool_names_distinct(req);
    let sent = sent_tools(req);
    let choice = sent_choice(req)->Some_0;
    if req.structured_output is Some {
        assert(choice.field_text("name"@) == Some(STRUCTURED_OUTPUT_TOOL@));
        assert(sent.last().field_text("name"@) == Some(STRUCTURED_OUTPUT_TOOL@));
        assert(sent[sent.len() - 1] == sent.last());
        assert(offers(sent, STRUCTURED_OUTPUT_TOOL@));
    } else if req.tools@.len() > 0 {
        reveal_strlit("tool");
        reveal_strlit("auto");
        reveal_strlit("none");
        reveal_strlit("any");
        assert("tool"@[0] != "auto"@[0]);
        assert("tool"@[0] != "none"@[0]);
        assert("tool"@.len() != "any"@.len());
        if req.tool_choice is Specific {
            let name = req.tool_choice->Specific_0@;
            assert(names_tool(req.tools@, name));
            let i = choose|i: int|
                0 <= i < req.tools@.len() && (#[trigger] req.tools@[i]).name@ == name;
            assert(choice.field_text("name"@) == Some(name));
            assert(sent[i].field_text("name"@) == Some(name));
            assert(offers(sent, name));
        } else {
            assert(choice.field_text("type"@) != Some("tool"@));
        }
    } else {
        assert(sent_choice(req) is None);
        assert(sent.len() == 0);
    }
}

/// No translated content block carries a cache marker by itself.
pub proof fn lemma_unmarked_content(message: Message, at: int)
    requires
        0 <= at < message_tree(message).field_items("content"@)->Some_0.len(),
    ensures
        message_tree(message).field_items("content"@)->Some_0[at].field("cache_control"@) is None,
{
    reveal_strlit("cache_control");
    reveal_strlit("type");
    reveal_strlit("text");
    reveal_strlit("source");
    reveal_strlit("id");
    reveal_strlit("name");
    reveal_strlit("input");
    reveal_strlit("tool_use_id");
    reveal_strlit("content");
    reveal_strlit("is_error");
    assert("cache_control"@.len() == 13 && "type"@.len() == 4 && "text"@.len() == 4
        && "source"@.len() == 6 && "id"@.len() == 2 && "name"@.len() == 4 && "input"@.len() == 5
        && "tool_use_id"@.len() == 11 && "content"@.len() == 7 && "is_error"@.len() == 8);
}

/// Whether the message at `at` is the last one that comes from the user.
pub open spec fn is_last_from_user(messages: Seq<JsonTree>, at: int) -> bool {
    &&& 0 <= at < messages.len()
    &&& from_user(messages[at])
    &&& forall|j: int| at < j < messages.len() ==> !from_user(#[trigger] messages[j])
}

/// Of all content blocks that an accepted request sends, one at most carries a cache marker: the
/// last one of the last message from the user, where a directive asks for it.
pub proof fn law_one_marked_content_block(req: ChatRequest, i: int, j: int)
    requires
        translated(req) is Ok,
        0 <= i < req.messages@.len(),
        0 <= j < message_tree(req.messages@[i]).field_items("content"@)->Some_0.len(),
    ensures
        ({
            let sent = translated(req)->Ok_0.field_items("messages"@)->Some_0;
            let blocks = sent[i].field_items("content"@)->Some_0;
            blocks[j].field("cache_control"@) is Some <==> wants_marker(req.cache_directives@)
                && is_last_from_user(messages_tree(req.messages@), i) && j == blocks.len() - 1
        }),
{
    let model = req.model.name()->Some_0;
    law_body_members(req, model);
    let plain = messages_tree(req.messages@);
    lemma_message_content(req.messages@[i]);
    lemma_unmarked_content(req.messages@[i], j);
    assert(plain[i] == message_tree(req.messages@[i]));
    if wants_marker(req.cache_directives@) {
        law_marked_members(plain_body(req, model));
        law_marks_last_user_message(plain);
        let blocks = plain[i].field_items("content"@)->Some_0;
        law_marks_last_block(blocks);
        if is_last_from_user(plain, i) {
            assert(marked_messages(plain)[i] == marked_under(plain[i], "content"@));
        } else {
            assert(marked_messages(plain)[i] == plain[i]);
        }
    }
}

} // verus!
