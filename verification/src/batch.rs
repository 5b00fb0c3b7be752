//! Batches of requests, answered together and later.

use vstd::prelude::*;

use crate::chat::{
    ChatEvent, ChatResponse, ChatResponseBuilder, ResponseView, StopReason, Usage,
};
use crate::decode::json_parse;
use crate::error::{ErrorView, ProviderError};
use crate::json::{items_tree, lemma_items_tree, or_text, or_zero, Json, JsonTree};
use crate::stream::{capped, parsed_view};
use crate::text::{
    blank, debug_form, decimal, ends_in_return, is_blank, lines, quoted, same_text, split_lines, texts, to_decimal,
};

verus! {

/// The name that a caller gives to one request of a batch.
#[derive(Debug)]
pub struct BatchItemId {
    pub name: String,
}

impl BatchItemId {
    pub fn new(name: &str) -> (id: BatchItemId)
        ensures
            id.name@ == name@,
    {
        BatchItemId { name: name.to_string() }
    }

    pub fn as_str(&self) -> (name: &str)
        ensures
            name@ == self.name@,
    {
        self.name.as_str()
    }
}

/// The name that the backend gives to a batch.
#[derive(Debug)]
pub struct BatchJobId {
    pub name: String,
}

impl BatchJobId {
    pub fn new(name: &str) -> (id: BatchJobId)
        ensures
            id.name@ == name@,
    {
        BatchJobId { name: name.to_string() }
    }

    pub fn as_str(&self) -> (name: &str)
        ensures
            name@ == self.name@,
    {
        self.name.as_str()
    }
}

/// How far a batch has come.
#[derive(Debug, PartialEq)]
pub enum BatchStatus {
    Submitted,
    /// Of `total` requests `processed` are done; `eta` is the expected end, in seconds since 1970.
    InProgress { processed: u32, total: Option<u32>, eta: Option<u64> },
    Completed,
    Failed { kind: String, message: String },
    Expired,
    Cancelled,
}

impl BatchStatus {
    /// Whether the batch will not change any more.
    pub open spec fn terminal(self) -> bool {
        !(self is Submitted || self is InProgress)
    }

    /// Whether the batch will not change any more.
    pub fn is_terminal(&self) -> (answer: bool)
        ensures
            answer == self.terminal(),
    {
        match self {
            BatchStatus::Submitted => false,
            BatchStatus::InProgress { .. } => false,
            _ => true,
        }
    }
}

// ---------------------------------------------------------------------------
// Status
// ---------------------------------------------------------------------------

/// One of the request counts of a batch, as a 32-bit number.
pub open spec fn request_count(v: JsonTree, name: Seq<char>) -> u32 {
    or_zero(
        match v.field_in("request_counts"@, name) {
            Some(n) => n.unsigned(),
            None => None,
        },
    ) as u32
}

/// How many requests of a batch are done, in one way or another.
pub open spec fn processed_count(v: JsonTree) -> int {
    request_count(v, "succeeded"@) + request_count(v, "errored"@) + request_count(v, "canceled"@)
        + request_count(v, "expired"@)
}

/// How many requests a batch has.
pub open spec fn total_count(v: JsonTree) -> int {
    processed_count(v) + request_count(v, "processing"@)
}

/// Whether the request counts add up to a 32-bit number.
pub open spec fn counts_fit(v: JsonTree) -> bool {
    total_count(v) <= u32::MAX
}

/// The status that the backend reports. A batch that has ended counts as cancelled or expired only
/// if every one of its requests was.
pub open spec fn status_of(v: JsonTree) -> Result<BatchStatus, ErrorView> {
    match v.field_text("processing_status"@) {
        None => Err(ErrorView::Parse("batch status: missing `processing_status`"@)),
        Some(word) => if word == "in_progress"@ || word == "canceling"@ {
            Ok(
                BatchStatus::InProgress {
                    processed: processed_count(v) as u32,
                    total: Some(total_count(v) as u32),
                    eta: None,
                },
            )
        } else if word == "ended"@ {
            if processed_count(v) > 0 && request_count(v, "canceled"@) == processed_count(v) {
                Ok(BatchStatus::Cancelled)
            } else if processed_count(v) > 0 && request_count(v, "expired"@) == processed_count(
                v,
            ) {
                Ok(BatchStatus::Expired)
            } else {
                Ok(BatchStatus::Completed)
            }
        } else {
            Err(
                ErrorView::Parse(
                    "batch status: unknown `processing_status` value: "@ + debug_form(word),
                ),
            )
        },
    }
}

/// What the outcome of reading a status says.
pub open spec fn status_view(outcome: Result<BatchStatus, ProviderError>) -> Result<
    BatchStatus,
    ErrorView,
> {
    match outcome {
        Ok(status) => Ok(status),
        Err(e) => Err(e@),
    }
}

fn read_count(v: &Json, name: &str) -> (count: u32)
    ensures
        count == request_count(v.tree(), name@),
{
    let n: u64 = match v.get_in("request_counts", name) {
        Some(n) => n.as_u64().unwrap_or(0),
        None => 0,
    };
    n as u32
}

/// Whether the request counts of a batch add up to a 32-bit number.
pub fn batch_counts_fit(v: &Json) -> (answer: bool)
    ensures
        answer == counts_fit(v.tree()),
{
    let processing: u64 = read_count(v, "processing") as u64;
    let succeeded: u64 = read_count(v, "succeeded") as u64;
    let errored: u64 = read_count(v, "errored") as u64;
    let canceled: u64 = read_count(v, "canceled") as u64;
    let expired: u64 = read_count(v, "expired") as u64;
    succeeded + errored + canceled + expired + processing <= u32::MAX as u64
}

/// The status that the backend reports. The counts, which are 32-bit numbers, must add up to one.
pub fn translate_anthropic_batch_status(v: &Json) -> (outcome: Result<BatchStatus, ProviderError>)
    requires
        v.tree().field_text("processing_status"@) is Some ==> counts_fit(v.tree()),
    ensures
        status_view(outcome) == status_of(v.tree()),
{
    let word = match v.get_str("processing_status") {
        Some(word) => word,
        None => {
            return Err(
                ProviderError::Parse("batch status: missing `processing_status`".to_string()),
            );
        },
    };
    let processing: u32 = read_count(v, "processing");
    let succeeded: u32 = read_count(v, "succeeded");
    let errored: u32 = read_count(v, "errored");
    let canceled: u32 = read_count(v, "canceled");
    let expired: u32 = read_count(v, "expired");
    let processed: u32 = succeeded + errored + canceled + expired;
    let total: Option<u32> = Some(processed + processing);
    if same_text(word, "in_progress") || same_text(word, "canceling") {
        Ok(BatchStatus::InProgress { processed, total, eta: None })
    } else if same_text(word, "ended") {
        if processed > 0 && canceled == processed {
            Ok(BatchStatus::Cancelled)
        } else if processed > 0 && expired == processed {
            Ok(BatchStatus::Expired)
        } else {
            Ok(BatchStatus::Completed)
        }
    } else {
        let mut text = "batch status: unknown `processing_status` value: ".to_string();
        text.append(quoted(word).as_str());
        Err(ProviderError::Parse(text))
    }
}

// ---------------------------------------------------------------------------
// Results
// ---------------------------------------------------------------------------

/// What became of one request of a batch.
#[derive(Debug)]
pub struct BatchResultItem {
    pub item_id: BatchItemId,
    pub result: Result<ChatResponse, ProviderError>,
}

/// What a [`BatchResultItem`] says.
#[verifier::ext_equal]
pub struct ItemView {
    pub id: Seq<char>,
    pub result: Result<ResponseView, ErrorView>,
}

impl View for BatchResultItem {
    type V = ItemView;

    open spec fn view(&self) -> ItemView {
        ItemView {
            id: self.item_id.name@,
            result: match self.result {
                Ok(response) => Ok(response@),
                Err(e) => Err(e@),
            },
        }
    }
}

/// The text of a content block; a block that is no text block has none.
pub open spec fn block_text(block: JsonTree) -> Seq<char> {
    if block.field_text("type"@) == Some("text"@) {
        or_text(block.field_text("text"@), Seq::empty())
    } else {
        Seq::empty()
    }
}

/// The texts of content blocks, one behind the other.
pub open spec fn blocks_text(blocks: Seq<JsonTree>) -> Seq<char>
    decreases blocks.len(),
{
    if blocks.len() == 0 {
        Seq::empty()
    } else {
        blocks_text(blocks.drop_last()) + block_text(blocks.last())
    }
}

/// The stop reason of a finished message. A word that is not known, or none, means the end of the
/// turn.
pub open spec fn message_stop_reason(word: Option<Seq<char>>) -> StopReason {
    if word == Some("max_tokens"@) {
        StopReason::MaxTokens
    } else if word == Some("stop_sequence"@) {
        StopReason::StopSequence
    } else if word == Some("tool_use"@) {
        StopReason::ToolUse
    } else {
        StopReason::EndTurn
    }
}

/// One of the token counts of a message.
pub open spec fn message_tokens(message: JsonTree, name: Seq<char>) -> u64 {
    or_zero(
        match message.field_in("usage"@, name) {
            Some(n) => n.unsigned(),
            None => None,
        },
    )
}

/// The answer that a finished message is: its text blocks one behind the other, and the counts. The
/// backend counts the tokens read from the cache and written to it apart from `input_tokens`; here
/// they are part of the input. Tool calls are no part of the answer.
pub open spec fn response_of(message: JsonTree) -> ResponseView {
    ResponseView {
        actual_model: or_text(message.field_text("model"@), "anthropic"@),
        text: match message.field_items("content"@) {
            Some(blocks) => blocks_text(blocks),
            None => Seq::empty(),
        },
        stop_reason: Some(message_stop_reason(message.field_text("stop_reason"@))),
        usage: Usage {
            input_tokens: capped(
                (message_tokens(message, "input_tokens"@) + message_tokens(
                    message,
                    "cache_read_input_tokens"@,
                ) + message_tokens(message, "cache_creation_input_tokens"@)) as nat,
            ),
            output_tokens: message_tokens(message, "output_tokens"@),
            cached_input_tokens: message_tokens(message, "cache_read_input_tokens"@),
            cache_creation_tokens: message_tokens(message, "cache_creation_input_tokens"@),
            thinking_tokens: 0,
        },
    }
}

/// A member of the `error` object of a result.
pub open spec fn error_member(result: JsonTree, name: Seq<char>, default: Seq<char>) -> Seq<char> {
    or_text(
        match result.field_in("error"@, name) {
            Some(v) => v.text(),
            None => None,
        },
        default,
    )
}

/// The error of a request that failed.
pub open spec fn item_error(result: JsonTree) -> ErrorView {
    let kind = error_member(result, "type"@, "error"@);
    let message = error_member(result, "message"@, "(no message)"@);
    if kind == "invalid_request_error"@ {
        ErrorView::InvalidRequest(message)
    } else if kind == "authentication_error"@ {
        ErrorView::Auth(message)
    } else if kind == "rate_limit_error"@ {
        ErrorView::RateLimited { retry_after: None }
    } else if kind == "overloaded_error"@ {
        ErrorView::ModelOverloaded
    } else {
        ErrorView::Internal("anthropic batch item error ("@ + kind + "): "@ + message)
    }
}

/// A complaint about a line of the results.
pub open spec fn line_complaint(number: nat, complaint: Seq<char>) -> ErrorView {
    ErrorView::Parse("batch results line "@ + decimal(number) + complaint)
}

/// What a line of the results says, given what it denotes. The outer result says whether the line
/// can be understood, the inner one what became of the request.
pub open spec fn item_outcome(number: nat, parsed: Result<JsonTree, Seq<char>>) -> Result<
    ItemView,
    ErrorView,
> {
    match parsed {
        Err(e) => Err(line_complaint(number, ": not JSON: "@ + e)),
        Ok(v) => match (v.field_text("custom_id"@), v.field("result"@)) {
            (None, _) => Err(line_complaint(number, ": missing custom_id"@)),
            (Some(_), None) => Err(line_complaint(number, ": missing result"@)),
            (Some(id), Some(result)) => match result.field_text("type"@) {
                None => Err(line_complaint(number, ": missing result.type"@)),
                Some(kind) => if kind == "succeeded"@ {
                    match result.field("message"@) {
                        None => Err(line_complaint(number, ": succeeded but missing message"@)),
                        Some(message) => Ok(ItemView { id, result: Ok(response_of(message)) }),
                    }
                } else if kind == "errored"@ {
                    Ok(ItemView { id, result: Err(item_error(result)) })
                } else if kind == "canceled"@ {
                    Ok(ItemView { id, result: Err(ErrorView::Internal("item cancelled"@)) })
                } else if kind == "expired"@ {
                    Ok(ItemView { id, result: Err(ErrorView::Internal("item expired"@)) })
                } else {
                    Ok(
                        ItemView {
                            id,
                            result: Err(
                                line_complaint(
                                    number,
                                    ": unknown result.type "@ + debug_form(kind),
                                ),
                            ),
                        },
                    )
                },
            },
        },
    }
}

/// What the first `n` lines of the results say. Blank lines are passed over; the first line that
/// cannot be understood spoils the rest.
pub open spec fn items_of_lines(lines: Seq<Seq<char>>, n: nat) -> Result<Seq<ItemView>, ErrorView>
    decreases n,
{
    if n == 0 {
        Ok(Seq::empty())
    } else {
        match items_of_lines(lines, (n - 1) as nat) {
            Err(e) => Err(e),
            Ok(items) => if blank(lines[n - 1]) {
                Ok(items)
            } else {
                match item_outcome(n, json_parse(lines[n - 1])) {
                    Ok(item) => Ok(items.push(item)),
                    Err(e) => Err(e),
                }
            },
        }
    }
}

/// What the results of a batch say.
pub open spec fn results_of(text: Seq<char>) -> Result<Seq<ItemView>, ErrorView> {
    items_of_lines(lines(text), lines(text).len())
}

/// Whether a carriage return at the end of a line makes no difference to what the line denotes.
pub open spec fn idle_return(line: Seq<char>) -> bool {
    !blank(line) && ends_in_return(line) ==> json_parse(line.drop_last()) == json_parse(line)
}

/// Whether that holds of every line of a text.
pub open spec fn idle_returns(text: Seq<char>) -> bool {
    forall|i: int| 0 <= i < lines(text).len() ==> idle_return(#[trigger] lines(text)[i])
}

/// What items say.
pub open spec fn item_views(items: Seq<BatchResultItem>) -> Seq<ItemView> {
    items.map_values(|i: BatchResultItem| i@)
}

/// What the outcome of reading results says.
pub open spec fn results_view(outcome: Result<Vec<BatchResultItem>, ProviderError>) -> Result<
    Seq<ItemView>,
    ErrorView,
> {
    match outcome {
        Ok(items) => Ok(item_views(items@)),
        Err(e) => Err(e@),
    }
}

/// What the outcome of reading one line says.
pub open spec fn item_view(outcome: Result<BatchResultItem, ProviderError>) -> Result<
    ItemView,
    ErrorView,
> {
    match outcome {
        Ok(item) => Ok(item@),
        Err(e) => Err(e@),
    }
}

fn read_tokens(message: &Json, name: &str) -> (tokens: u64)
    ensures
        tokens == message_tokens(message.tree(), name@),
{
    match message.get_in("usage", name) {
        Some(n) => n.as_u64().unwrap_or(0),
        None => 0,
    }
}

fn read_stop_reason(word: Option<&str>) -> (reason: StopReason)
    ensures
        reason == message_stop_reason(
            match word {
                Some(w) => Some(w@),
                None => None,
            },
        ),
{
    match word {
        Some(w) => if same_text(w, "max_tokens") {
            StopReason::MaxTokens
        } else if same_text(w, "stop_sequence") {
            StopReason::StopSequence
        } else if same_text(w, "tool_use") {
            StopReason::ToolUse
        } else {
            StopReason::EndTurn
        },
        None => StopReason::EndTurn,
    }
}

/// The answer that a finished message is.
pub fn anthropic_message_to_chat_response(message: &Json) -> (outcome: Result<
    ChatResponse,
    ProviderError,
>)
    ensures
        outcome matches Ok(response) && response@ == response_of(message.tree()),
{
    let mut builder = ChatResponseBuilder::new();
    let model = match message.get_str("model") {
        Some(model) => model,
        None => "anthropic",
    };
    builder.apply(ChatEvent::started(model));
    let ghost opened = builder@;
    if let Some(blocks) = message.get_array("content") {
        let n: usize = blocks.len();
        let ghost trees = items_tree(blocks@);
        proof {
            lemma_items_tree(blocks@);
            assert(trees.take(0).len() == 0);
            assert(opened.text + blocks_text(trees.take(0)) =~= opened.text);
        }
        for i in 0..n
            invariant
                n == blocks@.len(),
                trees.len() == n,
                forall|j: int| 0 <= j < n ==> #[trigger] trees[j] == blocks@[j].tree(),
                builder@ == (ResponseView { text: blocks_text(trees.take(i as int)), ..opened }),
                opened.text == Seq::<char>::empty(),
        {
            let block = &blocks[i];
            proof {
                assert(trees.take(i + 1).drop_last() =~= trees.take(i as int));
                assert(trees.take(i + 1).last() == trees[i as int]);
                assert(blocks_text(trees.take(i as int)) + Seq::<char>::empty() =~= blocks_text(
                    trees.take(i as int),
                ));
            }
            if let Some(kind) = block.get_str("type") {
                if same_text(kind, "text") {
                    if let Some(text) = block.get_str("text") {
                        builder.apply(ChatEvent::Delta { text: text.to_string() });
                    }
                }
            }
        }
        assert(trees.take(n as int) =~= trees);
    }
    let stop_reason = read_stop_reason(message.get_str("stop_reason"));
    let input: u64 = read_tokens(message, "input_tokens");
    let cached: u64 = read_tokens(message, "cache_read_input_tokens");
    let creation: u64 = read_tokens(message, "cache_creation_input_tokens");
    let usage = Usage {
        input_tokens: input.saturating_add(cached).saturating_add(creation),
        output_tokens: read_tokens(message, "output_tokens"),
        cached_input_tokens: cached,
        cache_creation_tokens: creation,
        thinking_tokens: 0,
    };
    builder.apply(ChatEvent::Finished { stop_reason, usage });
    Ok(builder.finish())
}

fn read_error_member(result: &Json, name: &str, default: &str) -> (text: String)
    ensures
        text@ == error_member(result.tree(), name@, default@),
{
    match result.get_in("error", name) {
        Some(v) => match v.as_str() {
            Some(text) => text.to_string(),
            None => default.to_string(),
        },
        None => default.to_string(),
    }
}

fn read_item_error(result: &Json) -> (error: ProviderError)
    ensures
        error@ == item_error(result.tree()),
{
    let kind = read_error_member(result, "type", "error");
    let message = read_error_member(result, "message", "(no message)");
    if same_text(kind.as_str(), "invalid_request_error") {
        ProviderError::InvalidRequest(message)
    } else if same_text(kind.as_str(), "authentication_error") {
        ProviderError::Auth(message)
    } else if same_text(kind.as_str(), "rate_limit_error") {
        ProviderError::RateLimited { retry_after: None }
    } else if same_text(kind.as_str(), "overloaded_error") {
        ProviderError::ModelOverloaded
    } else {
        let mut text = "anthropic batch item error (".to_string();
        text.append(kind.as_str());
        text.append("): ");
        text.append(message.as_str());
        ProviderError::Internal(text)
    }
}

fn complain(number: usize, complaint: &str) -> (error: ProviderError)
    ensures
        error@ == line_complaint(number as nat, complaint@),
{
    let mut text = "batch results line ".to_string();
    text.append(to_decimal(number as u64).as_str());
    text.append(complaint);
    ProviderError::Parse(text)
}

/// What a line of the results says, given its number and what it denotes.
pub fn batch_item(number: usize, parsed: Result<Json, String>) -> (outcome: Result<
    BatchResultItem,
    ProviderError,
>)
    ensures
        item_view(outcome) == item_outcome(number as nat, parsed_view(parsed)),
{
    let v = match parsed {
        Ok(v) => v,
        Err(e) => {
            let mut text = ": not JSON: ".to_string();
            text.append(e.as_str());
            return Err(complain(number, text.as_str()));
        },
    };
    let id = match v.get_str("custom_id") {
        Some(id) => id,
        None => {
            return Err(complain(number, ": missing custom_id"));
        },
    };
    let result = match v.get("result") {
        Some(result) => result,
        None => {
            return Err(complain(number, ": missing result"));
        },
    };
    let kind = match result.get_str("type") {
        Some(kind) => kind,
        None => {
            return Err(complain(number, ": missing result.type"));
        },
    };
    let outcome = if same_text(kind, "succeeded") {
        match result.get("message") {
            Some(message) => anthropic_message_to_chat_response(message),
            None => {
                return Err(complain(number, ": succeeded but missing message"));
            },
        }
    } else if same_text(kind, "errored") {
        Err(read_item_error(result))
    } else if same_text(kind, "canceled") {
        Err(ProviderError::Internal("item cancelled".to_string()))
    } else if same_text(kind, "expired") {
        Err(ProviderError::Internal("item expired".to_string()))
    } else {
        let mut text = ": unknown result.type ".to_string();
        text.append(quoted(kind).as_str());
        Err(complain(number, text.as_str()))
    };
    Ok(BatchResultItem { item_id: BatchItemId::new(id), result: outcome })
}

/// Reads the results of a batch: one JSON object a line. In results that can be read, a carriage
/// return at the end of a line makes no difference.
pub fn parse_anthropic_batch_results(text: &str) -> (outcome: Result<
    Vec<BatchResultItem>,
    ProviderError,
>)
    ensures
        results_view(outcome) == results_of(text@),
        outcome is Ok ==> idle_returns(text@),
{
    let rows = split_lines(text);
    let n: usize = rows.len();
    let ghost all = lines(text@);
    let mut items: Vec<BatchResultItem> = Vec::new();
    assert(item_views(items@) =~= Seq::<ItemView>::empty());
    for i in 0..n
        invariant
            n == rows@.len(),
            texts(rows@) == all,
            all == lines(text@),
            items_of_lines(all, i as nat) == Ok::<Seq<ItemView>, ErrorView>(item_views(items@)),
            forall|j: int| 0 <= j < i ==> idle_return(#[trigger] all[j]),
    {
        assert(rows@[i as int]@ == texts(rows@)[i as int]);
        if !is_blank(rows[i].as_str()) {
            match batch_item(i + 1, Json::parse(rows[i].as_str())) {
                Ok(item) => {
                    let ghost before = item_views(items@);
                    items.push(item);
                    assert(item_views(items@) =~= before.push(item@));
                },
                Err(e) => {
                    proof {
                        lemma_first_fault(all, (i + 1) as nat, n as nat);
                    }
                    return Err(e);
                },
            }
        }
    }
    Ok(items)
}

/// Once a line cannot be understood, what follows makes no difference.
pub proof fn lemma_first_fault(lines: Seq<Seq<char>>, n: nat, m: nat)
    requires
        n <= m,
        items_of_lines(lines, n) is Err,
    ensures
        items_of_lines(lines, m) == items_of_lines(lines, n),
    decreases m,
{
    if n < m {
        lemma_first_fault(lines, n, (m - 1) as nat);
    }
}

} // verus!
