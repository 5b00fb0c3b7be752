use std::sync::Arc;

use reqwest::header::HeaderMap;

use tars_anthropic::adapter::ResolvedAuth;
use tars_anthropic::batch::{
    anthropic_message_to_chat_response, batch_counts_fit, batch_item,
    parse_anthropic_batch_results, translate_anthropic_batch_status, BatchItemId, BatchJobId,
    BatchResultItem, BatchStatus,
};
use tars_anthropic::chat::{ChatRequest, ModelHint, StopReason, Usage};
use tars_anthropic::error::ProviderError;
use tars_anthropic::json::Json;
use tars_anthropic::provider::{AnthropicProvider, AnthropicProviderBuilder, Auth};
use tars_anthropic::submit::{
    assemble_call, check_terminal, is_success, HttpMethod, Reply,
};

const SERVER: &str = "http://127.0.0.1:9000";

fn build_provider() -> Arc<AnthropicProvider<(), ()>> {
    AnthropicProviderBuilder::new("anthropic_test", Auth::inline("test-key"))
        .base_url(SERVER)
        .build((), ())
}

fn key() -> ResolvedAuth {
    ResolvedAuth::ApiKey("test-key".to_string())
}

fn request(text: &str) -> ChatRequest {
    ChatRequest::user(ModelHint::Explicit("opus-4-7".to_string()), text)
}

fn json(text: &str) -> Json {
    Json::parse(text).unwrap()
}

fn status_of(text: &str) -> Result<BatchStatus, ProviderError> {
    let v = json(text);
    assert!(batch_counts_fit(&v));
    build_provider().adapter.status_reply(Reply::Success(Ok(v)))
}

fn parse_error(outcome: Result<BatchResultItem, ProviderError>) -> String {
    match outcome {
        Err(ProviderError::Parse(m)) => m,
        other => panic!("expected Parse, got {other:?}"),
    }
}

#[test]
fn submit_posts_requests_array_and_returns_job_id() {
    let provider = build_provider();
    let body = provider
        .adapter
        .submit_body(&vec![
            (BatchItemId::new("draft-1"), request("draft one")),
            (BatchItemId::new("draft-2"), request("draft two")),
        ])
        .unwrap();
    let call = provider.adapter.submit_call(body, &key()).unwrap();
    assert_eq!(call.method, HttpMethod::Post);
    assert_eq!(call.url, format!("{SERVER}/v1/messages/batches"));
    assert_eq!(call.headers.get("x-api-key").unwrap(), "test-key");
    assert_eq!(call.headers.get("anthropic-version").unwrap(), "2023-06-01");
    let sent = call.body.unwrap();
    let requests = sent.get_array("requests").unwrap();
    assert_eq!(requests.len(), 2);
    assert_eq!(requests[0].get_str("custom_id"), Some("draft-1"));
    assert_eq!(requests[1].get_str("custom_id"), Some("draft-2"));
    let params = requests[1].get("params").unwrap();
    assert_eq!(params.get_str("model"), Some("opus-4-7"));

    let id = provider
        .adapter
        .submit_reply(Reply::Success(Json::parse(
            r#"{
                "id": "msgbatch_01abc",
                "type": "message_batch",
                "processing_status": "in_progress",
                "request_counts": {
                    "processing": 2,
                    "succeeded": 0,
                    "errored": 0,
                    "canceled": 0,
                    "expired": 0
                }
            }"#,
        )))
        .unwrap();
    assert_eq!(id.as_str(), "msgbatch_01abc");
}

#[test]
fn submit_empty_items_is_invalid_request() {
    let err = build_provider().adapter.submit_body(&vec![]).err().expect("must reject");
    assert!(matches!(err, ProviderError::InvalidRequest(_)));
    assert_eq!(
        err,
        ProviderError::InvalidRequest("batch submit: items list must not be empty".to_string())
    );
}

#[test]
fn status_translates_in_progress() {
    let provider = build_provider();
    let call = provider.adapter.status_call(&BatchJobId::new("msgbatch_01abc"), &key()).unwrap();
    assert_eq!(call.method, HttpMethod::Get);
    assert_eq!(call.url, format!("{SERVER}/v1/messages/batches/msgbatch_01abc"));
    assert!(call.body.is_none());
    let st = status_of(
        r#"{
            "id": "msgbatch_01abc",
            "processing_status": "in_progress",
            "request_counts": {
                "processing": 8,
                "succeeded": 2,
                "errored": 0,
                "canceled": 0,
                "expired": 0
            }
        }"#,
    )
    .unwrap();
    match st {
        BatchStatus::InProgress { processed, total, eta: _ } => {
            assert_eq!(processed, 2);
            assert_eq!(total, Some(10));
        }
        other => panic!("expected InProgress, got {other:?}"),
    }
}

#[test]
fn status_translates_ended_to_completed() {
    assert_eq!(
        status_of(
            r#"{
                "id": "msgbatch_done",
                "processing_status": "ended",
                "request_counts": {
                    "processing": 0,
                    "succeeded": 9,
                    "errored": 1,
                    "canceled": 0,
                    "expired": 0
                }
            }"#,
        )
        .unwrap(),
        BatchStatus::Completed,
    );
}

#[test]
fn status_all_expired_maps_to_expired() {
    assert_eq!(
        status_of(
            r#"{
                "id": "msgbatch_exp",
                "processing_status": "ended",
                "request_counts": {
                    "processing": 0,
                    "succeeded": 0,
                    "errored": 0,
                    "canceled": 0,
                    "expired": 5
                }
            }"#,
        )
        .unwrap(),
        BatchStatus::Expired,
    );
}

#[test]
fn results_parses_jsonl_with_mixed_outcomes() {
    let id = BatchJobId::new("msgbatch_done");
    let st = status_of(
        r#"{
            "id": "msgbatch_done",
            "processing_status": "ended",
            "request_counts": {
                "processing": 0,
                "succeeded": 1,
                "errored": 1,
                "canceled": 0,
                "expired": 0
            }
        }"#,
    )
    .unwrap();
    check_terminal(&id, &st).unwrap();
    let adapter = build_provider().adapter.clone();
    let call = adapter.results_call(&id, &key()).unwrap();
    assert_eq!(call.method, HttpMethod::Get);
    assert_eq!(call.url, format!("{SERVER}/v1/messages/batches/msgbatch_done/results"));

    let jsonl = r#"{"custom_id":"draft-1","result":{"type":"succeeded","message":{"id":"msg_1","type":"message","role":"assistant","model":"opus-4-7","content":[{"type":"text","text":"hello"}],"stop_reason":"end_turn","usage":{"input_tokens":10,"output_tokens":2}}}}
{"custom_id":"draft-2","result":{"type":"errored","error":{"type":"invalid_request_error","message":"bad prompt"}}}"#;
    let results = adapter.results_reply(Reply::Success(jsonl.to_string())).unwrap();
    assert_eq!(results.len(), 2);
    assert_eq!(results[0].item_id.as_str(), "draft-1");
    let succ = results[0].result.as_ref().expect("draft-1 should succeed");
    assert!(succ.text.contains("hello"));
    assert_eq!(succ.usage.input_tokens, 10);
    assert_eq!(succ.usage.output_tokens, 2);

    assert_eq!(results[1].item_id.as_str(), "draft-2");
    let err = results[1].result.as_ref().expect_err("draft-2 should fail");
    assert!(matches!(err, ProviderError::InvalidRequest(_)));
}

#[test]
fn results_on_non_terminal_returns_invalid_request_without_fetching() {
    let st = status_of(
        r#"{
            "processing_status": "in_progress",
            "request_counts": {
                "processing": 5,
                "succeeded": 0,
                "errored": 0,
                "canceled": 0,
                "expired": 0
            }
        }"#,
    )
    .unwrap();
    let err = check_terminal(&BatchJobId::new("msgbatch_pending"), &st)
        .err()
        .expect("must refuse on non-terminal");
    assert!(matches!(err, ProviderError::InvalidRequest(_)));
    assert_eq!(
        err,
        ProviderError::InvalidRequest(format!(
            "batch results: job msgbatch_pending is not yet terminal (status: {st:?})"
        ))
    );
}

#[test]
fn cancel_posts_to_cancel_endpoint() {
    let provider = build_provider();
    let call = provider.adapter.cancel_call(&BatchJobId::new("msgbatch_01abc"), &key()).unwrap();
    assert_eq!(call.method, HttpMethod::Post);
    assert_eq!(call.url, format!("{SERVER}/v1/messages/batches/msgbatch_01abc/cancel"));
    provider.adapter.cancel_reply(Reply::Success(())).unwrap();
}

#[test]
fn submit_propagates_http_error_via_classifier() {
    let provider = build_provider();
    provider.adapter.submit_body(&vec![(BatchItemId::new("x"), request("hi"))]).unwrap();
    let text = r#"{
        "type": "error",
        "error": {"type": "authentication_error", "message": "invalid x-api-key"}
    }"#;
    assert!(!is_success(401));
    let err = provider
        .adapter
        .submit_reply(Reply::Failure {
            status: 401,
            headers: HeaderMap::new(),
            text: text.to_string(),
        })
        .err()
        .expect("401 should error");
    assert!(
        !matches!(err, ProviderError::Network(_) | ProviderError::Parse(_)),
        "401 should not bubble as Network/Parse, got {err:?}"
    );
}

#[test]
fn first_refused_item_refuses_the_batch() {
    let mut empty = request("x");
    empty.messages.clear();
    let items = vec![
        (BatchItemId::new("a"), request("x")),
        (BatchItemId::new("b"), empty),
        (BatchItemId::new("c"), ChatRequest::user(ModelHint::Unresolved, "x")),
    ];
    assert_eq!(
        build_provider().adapter.submit_body(&items).unwrap_err(),
        ProviderError::InvalidRequest(
            "anthropic: messages array must contain at least one message".to_string()
        )
    );
}

#[test]
fn calls_need_a_key_and_an_address() {
    let mut adapter = build_provider().adapter.clone();
    let id = BatchJobId::new("j");
    assert!(matches!(
        adapter.status_call(&id, &ResolvedAuth::NoAuth),
        Err(ProviderError::Auth(_))
    ));
    Arc::get_mut(&mut adapter).unwrap().base_url = "nowhere".to_string();
    assert!(matches!(adapter.cancel_call(&id, &key()), Err(ProviderError::Internal(_))));
    assert!(matches!(
        adapter.results_call(&id, &ResolvedAuth::NoAuth),
        Err(ProviderError::Auth(_))
    ));
    let call = assemble_call(HttpMethod::Get, Ok(HeaderMap::new()), Ok("u".to_string()), None);
    assert_eq!(call.unwrap().url, "u");
}

#[test]
fn bad_replies_are_told_apart() {
    let adapter = build_provider().adapter.clone();
    assert_eq!(
        adapter.submit_reply(Reply::Success(Err("eof".to_string()))).unwrap_err(),
        ProviderError::Parse("batch submit: response not JSON: eof".to_string())
    );
    assert_eq!(
        adapter.submit_reply(Reply::Success(Ok(json(r#"{"id":3}"#)))).unwrap_err(),
        ProviderError::Parse("batch submit: response missing `id`".to_string())
    );
    assert_eq!(
        adapter.status_reply(Reply::Success(Err("eof".to_string()))).unwrap_err(),
        ProviderError::Parse("batch status: response not JSON: eof".to_string())
    );
    let busy = || Reply::Failure { status: 503, headers: HeaderMap::new(), text: String::new() };
    assert_eq!(adapter.status_reply(busy()).unwrap_err(), ProviderError::ModelOverloaded);
    let slow = Reply::Failure { status: 429, headers: HeaderMap::new(), text: String::new() };
    assert_eq!(
        adapter.results_reply(slow).unwrap_err(),
        ProviderError::RateLimited { retry_after: None }
    );
    let gone = Reply::Failure { status: 404, headers: HeaderMap::new(), text: "x".to_string() };
    assert_eq!(
        adapter.cancel_reply(gone).unwrap_err(),
        ProviderError::InvalidRequest("status 404 Not Found: x".to_string())
    );
}

#[test]
fn success_is_the_two_hundreds() {
    assert!(!is_success(199));
    assert!(is_success(200));
    assert!(is_success(299));
    assert!(!is_success(300));
}

#[test]
fn ended_batches_collapse_by_their_counts() {
    let ended = |counts: &str| {
        status_of(&format!(r#"{{"processing_status":"ended","request_counts":{counts}}}"#)).unwrap()
    };
    assert_eq!(ended(r#"{"canceled":3}"#), BatchStatus::Cancelled);
    assert_eq!(ended(r#"{"canceled":3,"expired":1}"#), BatchStatus::Completed);
    assert_eq!(ended(r#"{"canceled":3,"succeeded":1}"#), BatchStatus::Completed);
    assert_eq!(ended("{}"), BatchStatus::Completed);
    assert_eq!(ended("[1]"), BatchStatus::Completed);
    assert_eq!(
        status_of(r#"{"processing_status":"canceling","request_counts":{"errored":1}}"#).unwrap(),
        BatchStatus::InProgress { processed: 1, total: Some(1), eta: None }
    );
}

#[test]
fn unknown_status_words_are_quoted() {
    assert_eq!(
        status_of(r#"{"processing_status":"a\"b"}"#).unwrap_err(),
        ProviderError::Parse(
            r#"batch status: unknown `processing_status` value: "a\"b""#.to_string()
        )
    );
    assert_eq!(
        translate_anthropic_batch_status(&json("{}")).unwrap_err(),
        ProviderError::Parse("batch status: missing `processing_status`".to_string())
    );
}

#[test]
fn counts_must_add_up_to_32_bits() {
    let counts = |a: u64, b: u64| {
        batch_counts_fit(&json(&format!(
            r#"{{"request_counts":{{"succeeded":{a},"processing":{b}}}}}"#
        )))
    };
    assert!(counts(4294967295, 0));
    assert!(!counts(4294967295, 1));
    assert!(counts(4294967296, 4294967295));
}

#[test]
fn pending_statuses_are_displayed() {
    let refused = |status: BatchStatus| match check_terminal(&BatchJobId::new("j"), &status) {
        Err(ProviderError::InvalidRequest(m)) => {
            assert_eq!(
                m,
                format!("batch results: job j is not yet terminal (status: {status:?})")
            );
        }
        other => panic!("expected a refusal, got {other:?}"),
    };
    refused(BatchStatus::Submitted);
    refused(BatchStatus::InProgress { processed: 1, total: Some(20), eta: None });
    refused(BatchStatus::InProgress { processed: 0, total: None, eta: Some(1700000000) });
    let failed = BatchStatus::Failed { kind: "k".to_string(), message: "m".to_string() };
    for done in [BatchStatus::Completed, BatchStatus::Expired, BatchStatus::Cancelled, failed] {
        assert!(done.is_terminal());
        check_terminal(&BatchJobId::new("j"), &done).unwrap();
    }
}

#[test]
fn item_errors_have_their_kinds() {
    let error = |kind: &str| {
        let line = format!(
            r#"{{"custom_id":"i","result":{{"type":"errored","error":{{"type":"{kind}","message":"m"}}}}}}"#
        );
        batch_item(1, Json::parse(&line)).unwrap().result.unwrap_err()
    };
    let m = || "m".to_string();
    assert_eq!(error("invalid_request_error"), ProviderError::InvalidRequest(m()));
    assert_eq!(error("authentication_error"), ProviderError::Auth(m()));
    assert_eq!(error("rate_limit_error"), ProviderError::RateLimited { retry_after: None });
    assert_eq!(error("overloaded_error"), ProviderError::ModelOverloaded);
    assert_eq!(
        error("api_error"),
        ProviderError::Internal("anthropic batch item error (api_error): m".to_string())
    );
    let bare = batch_item(1, Json::parse(r#"{"custom_id":"i","result":{"type":"errored"}}"#));
    assert_eq!(
        bare.unwrap().result.unwrap_err(),
        ProviderError::Internal("anthropic batch item error (error): (no message)".to_string())
    );
}

#[test]
fn other_outcomes_stay_with_their_item() {
    let outcome = |kind: &str| {
        let line = format!(r#"{{"custom_id":"i","result":{{"type":"{kind}"}}}}"#);
        batch_item(7, Json::parse(&line)).unwrap().result.unwrap_err()
    };
    assert_eq!(outcome("canceled"), ProviderError::Internal("item cancelled".to_string()));
    assert_eq!(outcome("expired"), ProviderError::Internal("item expired".to_string()));
    assert_eq!(
        outcome("lost"),
        ProviderError::Parse(r#"batch results line 7: unknown result.type "lost""#.to_string())
    );
}

#[test]
fn bad_lines_are_named_by_their_number() {
    let read = |line: &str| parse_error(batch_item(12, Json::parse(line)));
    assert_eq!(read("{}"), "batch results line 12: missing custom_id");
    assert_eq!(read(r#"{"custom_id":"i"}"#), "batch results line 12: missing result");
    assert_eq!(
        read(r#"{"custom_id":"i","result":{}}"#),
        "batch results line 12: missing result.type"
    );
    assert_eq!(
        read(r#"{"custom_id":"i","result":{"type":"succeeded"}}"#),
        "batch results line 12: succeeded but missing message"
    );
    assert_eq!(
        parse_error(batch_item(12, Err("e".to_string()))),
        "batch results line 12: not JSON: e"
    );
    let text = "\n  \t\n{\"custom_id\":\"i\",\"result\":{\"type\":\"expired\"}}\r\n\nnope\n";
    assert_eq!(
        parse_anthropic_batch_results(text).unwrap_err(),
        ProviderError::Parse(
            "batch results line 5: not JSON: expected ident at line 1 column 2".to_string()
        )
    );
    assert_eq!(parse_anthropic_batch_results("\n \n").unwrap().len(), 0);
}

#[test]
fn finished_messages_become_answers() {
    let answer = anthropic_message_to_chat_response(&json(
        r#"{
            "content": [
                {"type": "text", "text": "one "},
                {"type": "tool_use", "text": "not this"},
                {"type": "text"},
                {"type": "text", "text": "two"}
            ],
            "stop_reason": "max_tokens",
            "usage": {
                "input_tokens": 3,
                "output_tokens": 4,
                "cache_read_input_tokens": 5,
                "cache_creation_input_tokens": 6
            }
        }"#,
    ))
    .unwrap();
    assert_eq!(answer.actual_model, "anthropic");
    assert_eq!(answer.text, "one two");
    assert_eq!(answer.stop_reason, Some(StopReason::MaxTokens));
    assert_eq!(answer.usage.input_tokens, 14);
    assert_eq!(answer.usage.output_tokens, 4);
    assert_eq!(answer.usage.cached_input_tokens, 5);
    assert_eq!(answer.usage.cache_creation_tokens, 6);
    assert_eq!(answer.usage.thinking_tokens, 0);
    let cached = anthropic_message_to_chat_response(&json(
        r#"{
            "model": "m",
            "content": [],
            "stop_reason": "end_turn",
            "usage": {
                "input_tokens": 10,
                "output_tokens": 2,
                "cache_read_input_tokens": 5,
                "cache_creation_input_tokens": 3
            }
        }"#,
    ))
    .unwrap();
    assert_eq!(
        cached.usage,
        Usage {
            input_tokens: 18,
            output_tokens: 2,
            cached_input_tokens: 5,
            cache_creation_tokens: 3,
            thinking_tokens: 0,
        }
    );
    let reason = |word: &str| {
        let message = json(&format!(r#"{{"model":"m","stop_reason":"{word}"}}"#));
        anthropic_message_to_chat_response(&message).unwrap().stop_reason
    };
    assert_eq!(reason("end_turn"), Some(StopReason::EndTurn));
    assert_eq!(reason("stop_sequence"), Some(StopReason::StopSequence));
    assert_eq!(reason("tool_use"), Some(StopReason::ToolUse));
    assert_eq!(reason("???"), Some(StopReason::EndTurn));
    let empty = anthropic_message_to_chat_response(&json("{}")).unwrap();
    assert_eq!(empty.text, "");
    assert_eq!(empty.stop_reason, Some(StopReason::EndTurn));
}

#[test]
fn joined_results_read_as_one_list() {
    let line = |id: &str| {
        format!(r#"{{"custom_id":"{id}","result":{{"type":"canceled"}}}}"#)
    };
    let ids = |text: &str| -> Vec<String> {
        let items = parse_anthropic_batch_results(text).unwrap();
        items.iter().map(|item| item.item_id.as_str().to_string()).collect()
    };
    let (a, b) = (line("a"), line("b"));
    assert_eq!(ids(&a), vec!["a"]);
    assert_eq!(ids(&format!("{a}\n{b}")), vec!["a", "b"]);
    assert_eq!(ids(&format!("{a}\n\n{b}\n")), vec!["a", "b"]);
    assert_eq!(ids(&format!("{a}\n \t\r\n{b}")), vec!["a", "b"]);
    assert_eq!(ids(&format!("\n{b}")), vec!["b"]);
    assert_eq!(ids(&format!("{a}\r")), vec!["a"]);
    assert_eq!(ids(&format!("{a}\r\n{b}\r")), vec!["a", "b"]);
    assert!(ids("").is_empty());
}
