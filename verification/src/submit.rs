//! The calls of the batch interface: what is sent for each, and what its answer means.

use reqwest::header::HeaderMap;
use vstd::prelude::*;

use crate::adapter::{
    address_outcome, address_view, batch_address, classified_answer, headers_outcome,
    headers_view, AnthropicAdapter, ResolvedAuth,
};
use crate::batch::{
    counts_fit, idle_returns, parse_anthropic_batch_results, results_of, results_view, status_of, status_view,
    translate_anthropic_batch_status, BatchItemId, BatchJobId, BatchResultItem, BatchStatus,
};
use crate::chat::ChatRequest;
use crate::error::{ErrorView, ProviderError};
use crate::http::{header_fields, url_parse};
use crate::json::{empty_object, items_tree, lemma_items_push, Json, JsonTree};
use crate::request::{translated, translation_view};
use crate::text::{decimal, to_decimal};

verus! {

// ---------------------------------------------------------------------------
// What is sent
// ---------------------------------------------------------------------------

/// The method of a call.
#[derive(Clone, Copy, Debug, PartialEq, Eq, Structural)]
pub enum HttpMethod {
    Get,
    Post,
}

/// A call to be made.
#[derive(Debug)]
pub struct HttpCall {
    pub method: HttpMethod,
    pub url: String,
    pub headers: HeaderMap,
    pub body: Option<Json>,
}

/// What an [`HttpCall`] says.
#[verifier::ext_equal]
pub struct CallView {
    pub method: HttpMethod,
    pub url: Seq<char>,
    pub headers: Map<Seq<char>, Seq<u8>>,
    pub body: Option<JsonTree>,
}

impl View for HttpCall {
    type V = CallView;

    open spec fn view(&self) -> CallView {
        CallView {
            method: self.method,
            url: self.url@,
            headers: header_fields(self.headers),
            body: match self.body {
                Some(v) => Some(v.tree()),
                None => None,
            },
        }
    }
}

/// A call put together from its headers and its URL, either of which may have failed.
pub open spec fn assembled(
    method: HttpMethod,
    headers: Result<Map<Seq<char>, Seq<u8>>, ErrorView>,
    url: Result<Seq<char>, ErrorView>,
    body: Option<JsonTree>,
) -> Result<CallView, ErrorView> {
    match (headers, url) {
        (Err(e), _) => Err(e),
        (Ok(_), Err(e)) => Err(e),
        (Ok(headers), Ok(url)) => Ok(CallView { method, url, headers, body }),
    }
}

/// The call to the batches under `suffix`.
pub open spec fn batch_call(
    adapter: AnthropicAdapter,
    method: HttpMethod,
    suffix: Seq<char>,
    auth: ResolvedAuth,
    body: Option<JsonTree>,
) -> Result<CallView, ErrorView> {
    assembled(
        method,
        headers_outcome(adapter.api_version@, auth),
        address_outcome(
            url_parse(batch_address(adapter.base_url@, suffix)),
            "bad anthropic batch url: "@,
        ),
        body,
    )
}

/// What the outcome of preparing a call says.
pub open spec fn call_view(outcome: Result<HttpCall, ProviderError>) -> Result<
    CallView,
    ErrorView,
> {
    match outcome {
        Ok(call) => Ok(call@),
        Err(e) => Err(e@),
    }
}

/// Puts a call together from its headers and its URL.
pub fn assemble_call(
    method: HttpMethod,
    headers: Result<HeaderMap, ProviderError>,
    url: Result<String, ProviderError>,
    body: Option<Json>,
) -> (outcome: Result<HttpCall, ProviderError>)
    ensures
        call_view(outcome) == assembled(
            method,
            headers_view(headers),
            address_view(url),
            match body {
                Some(v) => Some(v.tree()),
                None => None,
            },
        ),
{
    match headers {
        Err(e) => Err(e),
        Ok(headers) => match url {
            Err(e) => Err(e),
            Ok(url) => Ok(HttpCall { method, url, headers, body }),
        },
    }
}

/// One request of a batch in the backend's form.
pub open spec fn item_tree(id: BatchItemId, params: JsonTree) -> JsonTree {
    empty_object().with("custom_id"@, JsonTree::Text(id.name@)).with("params"@, params)
}

/// The requests of a batch in the backend's form. The first one that cannot be translated decides.
pub open spec fn items_sent(items: Seq<(BatchItemId, ChatRequest)>) -> Result<
    Seq<JsonTree>,
    ErrorView,
>
    decreases items.len(),
{
    if items.len() == 0 {
        Ok(Seq::empty())
    } else {
        match items_sent(items.drop_last()) {
            Err(e) => Err(e),
            Ok(sent) => match translated(items.last().1) {
                Err(e) => Err(e),
                Ok(params) => Ok(sent.push(item_tree(items.last().0, params))),
            },
        }
    }
}

/// The body that submits a batch.
pub open spec fn submission(items: Seq<(BatchItemId, ChatRequest)>) -> Result<
    JsonTree,
    ErrorView,
> {
    if items.len() == 0 {
        Err(ErrorView::InvalidRequest("batch submit: items list must not be empty"@))
    } else {
        match items_sent(items) {
            Err(e) => Err(e),
            Ok(sent) => Ok(empty_object().with("requests"@, JsonTree::Array(sent))),
        }
    }
}

/// Once a request cannot be translated, those behind it make no difference.
proof fn lemma_first_refusal(items: Seq<(BatchItemId, ChatRequest)>, n: int)
    requires
        0 <= n <= items.len(),
        items_sent(items.take(n)) is Err,
    ensures
        items_sent(items) == items_sent(items.take(n)),
    decreases items.len(),
{
    if n < items.len() {
        assert(items.drop_last().take(n) =~= items.take(n));
        lemma_first_refusal(items.drop_last(), n);
    } else {
        assert(items.take(n) =~= items);
    }
}

impl AnthropicAdapter {
    /// The body that submits a batch of requests.
    pub fn submit_body(&self, items: &Vec<(BatchItemId, ChatRequest)>) -> (outcome: Result<
        Json,
        ProviderError,
    >)
        ensures
            translation_view(outcome) == submission(items@),
    {
        let n: usize = items.len();
        if n == 0 {
            return Err(
                ProviderError::InvalidRequest(
                    "batch submit: items list must not be empty".to_string(),
                ),
            );
        }
        let mut sent: Vec<Json> = Vec::new();
        assert(items@.take(0).len() == 0);
        for i in 0..n
            invariant
                n == items@.len(),
                items_sent(items@.take(i as int)) == Ok::<Seq<JsonTree>, ErrorView>(
                    items_tree(sent@),
                ),
        {
            let ghost through = items@.take(i + 1);
            assert(through.drop_last() =~= items@.take(i as int));
            assert(through.last() == items@[i as int]);
            match self.translate_request(&items[i].1) {
                Ok(params) => {
                    let mut item = Json::object();
                    item.set("custom_id", Json::text(items[i].0.as_str()));
                    item.set("params", params);
                    proof {
                        lemma_items_push(sent@, item);
                    }
                    sent.push(item);
                },
                Err(e) => {
                    proof {
                        lemma_first_refusal(items@, i + 1);
                    }
                    return Err(e);
                },
            }
        }
        assert(items@.take(n as int) =~= items@);
        let mut body = Json::object();
        body.set("requests", Json::Array(sent));
        Ok(body)
    }

    fn call(
        &self,
        method: HttpMethod,
        suffix: &str,
        auth: &ResolvedAuth,
        body: Option<Json>,
    ) -> (outcome: Result<HttpCall, ProviderError>)
        ensures
            call_view(outcome) == batch_call(
                *self,
                method,
                suffix@,
                *auth,
                match body {
                    Some(v) => Some(v.tree()),
                    None => None,
                },
            ),
    {
        assemble_call(method, self.build_headers(auth), self.batch_url(suffix), body)
    }

    /// The call that submits a batch with the given body.
    pub fn submit_call(&self, body: Json, auth: &ResolvedAuth) -> (outcome: Result<
        HttpCall,
        ProviderError,
    >)
        ensures
            call_view(outcome) == batch_call(
                *self,
                HttpMethod::Post,
                ""@,
                *auth,
                Some(body.tree()),
            ),
    {
        self.call(HttpMethod::Post, "", auth, Some(body))
    }

    /// The call that asks for the status of a batch.
    pub fn status_call(&self, id: &BatchJobId, auth: &ResolvedAuth) -> (outcome: Result<
        HttpCall,
        ProviderError,
    >)
        ensures
            call_view(outcome) == batch_call(
                *self,
                HttpMethod::Get,
                "/"@ + id.name@,
                *auth,
                None,
            ),
    {
        let mut suffix = "/".to_string();
        suffix.append(id.as_str());
        self.call(HttpMethod::Get, suffix.as_str(), auth, None)
    }

    /// The call that fetches the results of a batch.
    pub fn results_call(&self, id: &BatchJobId, auth: &ResolvedAuth) -> (outcome: Result<
        HttpCall,
        ProviderError,
    >)
        ensures
            call_view(outcome) == batch_call(
                *self,
                HttpMethod::Get,
                "/"@ + id.name@ + "/results"@,
                *auth,
                None,
            ),
    {
        let mut suffix = "/".to_string();
        suffix.append(id.as_str());
        suffix.append("/results");
        self.call(HttpMethod::Get, suffix.as_str(), auth, None)
    }

    /// The call that cancels a batch.
    pub fn cancel_call(&self, id: &BatchJobId, auth: &ResolvedAuth) -> (outcome: Result<
        HttpCall,
        ProviderError,
    >)
        ensures
            call_view(outcome) == batch_call(
                *self,
                HttpMethod::Post,
                "/"@ + id.name@ + "/cancel"@,
                *auth,
                None,
            ),
    {
        let mut suffix = "/".to_string();
        suffix.append(id.as_str());
        suffix.append("/cancel");
        self.call(HttpMethod::Post, suffix.as_str(), auth, None)
    }
}

// ---------------------------------------------------------------------------
// What the answers mean
// ---------------------------------------------------------------------------

/// The answer to a call: what a success brings, or how it failed.
#[derive(Debug)]
pub enum Reply<T> {
    Success(T),
    Failure { status: u16, headers: HeaderMap, text: String },
}

impl<T> Reply<T> {
    /// Whether the status of a failure is one that exists.
    pub open spec fn well_formed(self) -> bool {
        self matches Reply::Failure { status, .. } ==> 100 <= status <= 999
    }
}

/// Whether a status stands for success.
pub fn is_success(status: u16) -> (answer: bool)
    ensures
        answer == (200 <= status < 300),
{
    200 <= status && status < 300
}

/// What a body that should be JSON came to. An error is the description of what is wrong with it.
pub type Payload = Result<Json, String>;

/// The identifier that the answer to a submission brings.
pub open spec fn submitted(reply: Reply<Payload>) -> Result<Seq<char>, ErrorView> {
    match reply {
        Reply::Failure { status, headers, text } => Err(
            classified_answer(status, header_fields(headers), text@),
        ),
        Reply::Success(Err(e)) => Err(
            ErrorView::Parse("batch submit: response not JSON: "@ + e@),
        ),
        Reply::Success(Ok(v)) => match v.tree().field_text("id"@) {
            Some(id) => Ok(id),
            None => Err(ErrorView::Parse("batch submit: response missing `id`"@)),
        },
    }
}

/// The status that the answer to a question for it brings.
pub open spec fn status_told(reply: Reply<Payload>) -> Result<BatchStatus, ErrorView> {
    match reply {
        Reply::Failure { status, headers, text } => Err(
            classified_answer(status, header_fields(headers), text@),
        ),
        Reply::Success(Err(e)) => Err(
            ErrorView::Parse("batch status: response not JSON: "@ + e@),
        ),
        Reply::Success(Ok(v)) => status_of(v.tree()),
    }
}

/// How a count that may be missing is displayed.
pub open spec fn optional_text(n: Option<u64>) -> Seq<char> {
    match n {
        Some(n) => "Some("@ + decimal(n as nat) + ")"@,
        None => "None"@,
    }
}

/// How the status of a batch that is not done is displayed.
pub open spec fn pending_text(status: BatchStatus) -> Seq<char> {
    match status {
        BatchStatus::InProgress { processed, total, eta } => "InProgress { processed: "@ + decimal(
            processed as nat,
        ) + ", total: "@ + optional_text(
            match total {
                Some(n) => Some(n as u64),
                None => None,
            },
        ) + ", eta: "@ + optional_text(eta) + " }"@,
        _ => "Submitted"@,
    }
}

fn optional_string(n: Option<u64>) -> (out: String)
    ensures
        out@ == optional_text(n),
{
    match n {
        Some(n) => {
            let mut out = "Some(".to_string();
            out.append(to_decimal(n).as_str());
            out.append(")");
            out
        },
        None => "None".to_string(),
    }
}

fn pending_string(status: &BatchStatus) -> (out: String)
    ensures
        out@ == pending_text(*status),
{
    match status {
        BatchStatus::InProgress { processed, total, eta } => {
            let mut out = "InProgress { processed: ".to_string();
            out.append(to_decimal(*processed as u64).as_str());
            out.append(", total: ");
            let total: Option<u64> = match *total {
                Some(n) => Some(n as u64),
                None => None,
            };
            out.append(optional_string(total).as_str());
            out.append(", eta: ");
            out.append(optional_string(*eta).as_str());
            out.append(" }");
            out
        },
        _ => "Submitted".to_string(),
    }
}

/// Whether the results of a batch can be fetched: only once it is done. To ask earlier is the
/// caller's mistake.
pub fn check_terminal(id: &BatchJobId, status: &BatchStatus) -> (outcome: Result<
    (),
    ProviderError,
>)
    ensures
        match outcome {
            Ok(_) => status.terminal(),
            Err(e) => !status.terminal() && e@ == ErrorView::InvalidRequest(
                "batch results: job "@ + id.name@ + " is not yet terminal (status: "@
                    + pending_text(*status) + ")"@,
            ),
        },
{
    if status.is_terminal() {
        return Ok(());
    }
    let mut text = "batch results: job ".to_string();
    text.append(id.as_str());
    text.append(" is not yet terminal (status: ");
    text.append(pending_string(status).as_str());
    text.append(")");
    Err(ProviderError::InvalidRequest(text))
}

impl AnthropicAdapter {
    /// What the answer to a submission means.
    pub fn submit_reply(&self, reply: Reply<Payload>) -> (outcome: Result<
        BatchJobId,
        ProviderError,
    >)
        requires
            reply.well_formed(),
        ensures
            match outcome {
                Ok(id) => submitted(reply) == Ok::<Seq<char>, ErrorView>(id.name@),
                Err(e) => submitted(reply) == Err::<Seq<char>, ErrorView>(e@),
            },
    {
        match reply {
            Reply::Failure { status, headers, text } => Err(
                self.classify_error(status, &headers, text.as_str()),
            ),
            Reply::Success(Err(e)) => {
                let mut text = "batch submit: response not JSON: ".to_string();
                text.append(e.as_str());
                Err(ProviderError::Parse(text))
            },
            Reply::Success(Ok(v)) => match v.get_str("id") {
                Some(id) => Ok(BatchJobId::new(id)),
                None => Err(
                    ProviderError::Parse("batch submit: response missing `id`".to_string()),
                ),
            },
        }
    }

    /// What the answer to a question for the status means. The counts must add up to a 32-bit
    /// number.
    pub fn status_reply(&self, reply: Reply<Payload>) -> (outcome: Result<
        BatchStatus,
        ProviderError,
    >)
        requires
            reply.well_formed(),
            reply matches Reply::Success(Ok(v)) ==> v.tree().field_text("processing_status"@) is Some
                ==> counts_fit(v.tree()),
        ensures
            status_view(outcome) == status_told(reply),
    {
        match reply {
            Reply::Failure { status, headers, text } => Err(
                self.classify_error(status, &headers, text.as_str()),
            ),
            Reply::Success(Err(e)) => {
                let mut text = "batch status: response not JSON: ".to_string();
                text.append(e.as_str());
                Err(ProviderError::Parse(text))
            },
            Reply::Success(Ok(v)) => translate_anthropic_batch_status(&v),
        }
    }

    /// What the answer to a question for the results means.
    pub fn results_reply(&self, reply: Reply<String>) -> (outcome: Result<
        Vec<BatchResultItem>,
        ProviderError,
    >)
        requires
            reply.well_formed(),
        ensures
            results_view(outcome) == match reply {
                Reply::Failure { status, headers, text } => Err(
                    classified_answer(status, header_fields(headers), text@),
                ),
                Reply::Success(text) => results_of(text@),
            },
            reply matches Reply::Success(text) ==> outcome is Ok ==> idle_returns(text@),
    {
        match reply {
            Reply::Failure { status, headers, text } => Err(
                self.classify_error(status, &headers, text.as_str()),
            ),
            Reply::Success(text) => parse_anthropic_batch_results(text.as_str()),
        }
    }

    /// What the answer to a cancellation means. A success may bring anything.
    pub fn cancel_reply(&self, reply: Reply<()>) -> (outcome: Result<(), ProviderError>)
        requires
            reply.well_formed(),
        ensures
            match outcome {
                Ok(_) => reply is Success,
                Err(e) => reply matches Reply::Failure { status, headers, text } && e@
                    == classified_answer(status, header_fields(headers), text@),
            },
    {
        match reply {
            Reply::Failure { status, headers, text } => Err(
                self.classify_error(status, &headers, text.as_str()),
            ),
            Reply::Success(_) => Ok(()),
        }
    }
}

} // verus!
