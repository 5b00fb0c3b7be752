use tars_anthropic::adapter::{
    AnthropicAdapter, HttpProviderExtras, DEFAULT_API_VERSION, DEFAULT_BASE_URL,
};
use tars_anthropic::chat::{
    CacheHitInfo, ChatEvent, ChatResponseBuilder, StopReason, Usage,
};
use tars_anthropic::error::ProviderError;
use tars_anthropic::json::Json;
use tars_anthropic::sse::SseReader;
use tars_anthropic::stream::{
    events_of, map_stop_reason, parse_usage, read_event, SseEvent,
};
use tars_anthropic::tool_buffer::{finished_call, FinalizeError, PendingCall, ToolCallBuffer};

fn event(name: &str, data: &str) -> SseEvent {
    SseEvent { event: name.to_string(), data: data.to_string() }
}

fn parse(
    name: &str,
    data: &str,
    buf: &mut ToolCallBuffer,
) -> Result<Vec<ChatEvent>, ProviderError> {
    let adapter = AnthropicAdapter {
        base_url: DEFAULT_BASE_URL.to_string(),
        api_version: DEFAULT_API_VERSION.to_string(),
        extras: HttpProviderExtras::default(),
    };
    adapter.parse_event(&event(name, data), buf)
}

fn only(name: &str, data: &str, buf: &mut ToolCallBuffer) -> ChatEvent {
    let mut events = parse(name, data, buf).unwrap();
    assert_eq!(events.len(), 1);
    events.remove(0)
}

fn silent(name: &str, data: &str) -> bool {
    parse(name, data, &mut ToolCallBuffer::new()).unwrap().is_empty()
}

#[test]
fn map_stop_reasons() {
    assert_eq!(map_stop_reason("end_turn"), StopReason::EndTurn);
    assert_eq!(map_stop_reason("max_tokens"), StopReason::MaxTokens);
    assert_eq!(map_stop_reason("tool_use"), StopReason::ToolUse);
    assert_eq!(map_stop_reason("stop_sequence"), StopReason::StopSequence);
    assert_eq!(map_stop_reason("???"), StopReason::Other);
}

#[test]
fn usage_counts_the_whole_prompt() {
    let usage = |text: &str| parse_usage(&Json::parse(text).unwrap());
    let counted = usage(
        r#"{"input_tokens":1,"output_tokens":2,"cache_read_input_tokens":10,
            "cache_creation_input_tokens":100,"thinking_tokens":7}"#,
    );
    assert_eq!(
        counted,
        Usage {
            input_tokens: 111,
            output_tokens: 2,
            cached_input_tokens: 10,
            cache_creation_tokens: 100,
            thinking_tokens: 7,
        }
    );
    assert_eq!(usage(r#"{"output_thinking_tokens":8}"#).thinking_tokens, 8);
    assert_eq!(
        usage(r#"{"thinking_tokens":"x","output_thinking_tokens":8}"#).thinking_tokens,
        0
    );
    let huge = usage(r#"{"input_tokens":18446744073709551615,"cache_read_input_tokens":5}"#);
    assert_eq!(huge.input_tokens, u64::MAX);
    assert_eq!(usage("{}"), Usage::default());
    assert_eq!(usage(r#"{"input_tokens":-1,"output_tokens":1.5}"#), Usage::default());
}

#[test]
fn message_start_names_the_model() {
    let mut buf = ToolCallBuffer::new();
    match only(
        "message_start",
        r#"{"message":{"model":"m","usage":{"cache_read_input_tokens":9}}}"#,
        &mut buf,
    ) {
        ChatEvent::Started { actual_model, cache_hit } => {
            assert_eq!(actual_model, "m");
            assert_eq!(
                cache_hit,
                CacheHitInfo {
                    cached_input_tokens: 9,
                    used_explicit_handle: false,
                    replayed_from_cache: false,
                }
            );
        }
        other => panic!("unexpected {other:?}"),
    }
    match only("message_start", "{}", &mut buf) {
        ChatEvent::Started { actual_model, cache_hit } => {
            assert_eq!(actual_model, "");
            assert_eq!(cache_hit.cached_input_tokens, 0);
        }
        other => panic!("unexpected {other:?}"),
    }
}

#[test]
fn text_and_thought_are_forwarded() {
    let mut buf = ToolCallBuffer::new();
    let start = |kind: &str, key: &str, value: &str| {
        format!(r#"{{"index":0,"content_block":{{"type":"{kind}","{key}":"{value}"}}}}"#)
    };
    match only("content_block_start", &start("text", "text", "a"), &mut buf) {
        ChatEvent::Delta { text } => assert_eq!(text, "a"),
        other => panic!("unexpected {other:?}"),
    }
    match only("content_block_start", &start("thinking", "thinking", "b"), &mut buf) {
        ChatEvent::ThinkingDelta { text } => assert_eq!(text, "b"),
        other => panic!("unexpected {other:?}"),
    }
    assert!(silent("content_block_start", &start("text", "text", "")));
    assert!(silent("content_block_start", &start("thinking", "thinking", "")));
    assert!(silent("content_block_start", &start("image", "text", "x")));
    match only(
        "content_block_delta",
        r#"{"delta":{"type":"text_delta","text":""}}"#,
        &mut buf,
    ) {
        ChatEvent::Delta { text } => assert_eq!(text, ""),
        other => panic!("unexpected {other:?}"),
    }
    match only(
        "content_block_delta",
        r#"{"delta":{"type":"thinking_delta","thinking":"t"}}"#,
        &mut buf,
    ) {
        ChatEvent::ThinkingDelta { text } => assert_eq!(text, "t"),
        other => panic!("unexpected {other:?}"),
    }
    assert!(silent("content_block_delta", r#"{"delta":{"type":"text_delta"}}"#));
    assert!(silent("content_block_delta", r#"{"delta":{"type":"signature_delta"}}"#));
    assert!(silent("content_block_delta", "[]"));
}

#[test]
fn tool_calls_are_put_together() {
    let mut buf = ToolCallBuffer::new();
    let start = |index: usize, id: &str| {
        format!(
            r#"{{"index":{index},"content_block":{{"type":"tool_use","id":"{id}","name":"look"}}}}"#
        )
    };
    match only("content_block_start", &start(1, "t1"), &mut buf) {
        ChatEvent::ToolCallStart { index, id, name } => {
            assert_eq!((index, id.as_str(), name.as_str()), (1, "t1", "look"));
        }
        other => panic!("unexpected {other:?}"),
    }
    only("content_block_start", &start(2, "t2"), &mut buf);
    let delta = |index: usize, part: &str| {
        let part = part.replace('"', "\\\"");
        format!(
            r#"{{"index":{index},"delta":{{"type":"input_json_delta","partial_json":"{part}"}}}}"#
        )
    };
    match only("content_block_delta", &delta(1, "{\"q\":"), &mut buf) {
        ChatEvent::ToolCallArgsDelta { index, args_delta } => {
            assert_eq!((index, args_delta.as_str()), (1, "{\"q\":"));
        }
        other => panic!("unexpected {other:?}"),
    }
    only("content_block_delta", &delta(2, "[1"), &mut buf);
    only("content_block_delta", &delta(1, "3}"), &mut buf);
    match only("content_block_stop", r#"{"index":1}"#, &mut buf) {
        ChatEvent::ToolCallEnd { index, id, parsed_args } => {
            assert_eq!((index, id.as_str()), (1, "t1"));
            assert_eq!(parsed_args.get_u64("q"), Some(3));
        }
        other => panic!("unexpected {other:?}"),
    }
    assert!(parse("content_block_stop", r#"{"index":1}"#, &mut buf).unwrap().is_empty());
    assert!(parse("content_block_stop", r#"{"index":2}"#, &mut buf).unwrap().is_empty());
    assert!(parse("content_block_stop", "{}", &mut buf).unwrap().is_empty());
}

#[test]
fn call_without_fragments_has_no_arguments() {
    let mut buf = ToolCallBuffer::new();
    buf.on_start(0, "t".to_string(), "look".to_string());
    match only("content_block_stop", "{}", &mut buf) {
        ChatEvent::ToolCallEnd { parsed_args, .. } => assert!(parsed_args.is_object()),
        other => panic!("unexpected {other:?}"),
    }
}

#[test]
fn buffer_says_why_a_call_cannot_end() {
    let mut buf = ToolCallBuffer::new();
    buf.on_delta(3, "dropped");
    assert!(matches!(buf.finalize(3), Err(FinalizeError::NotStarted)));
    buf.on_start(3, "t".to_string(), "look".to_string());
    buf.on_delta(3, "{");
    assert!(matches!(buf.finalize(3), Err(FinalizeError::BadArguments(_))));
    assert!(buf.take(3).is_none());
    let call = || PendingCall {
        id: "t".to_string(),
        name: "look".to_string(),
        args: String::new(),
    };
    assert!(matches!(
        finished_call(call(), Err("e".to_string())),
        Err(FinalizeError::BadArguments(e)) if e == "e"
    ));
    let (id, name, args) = finished_call(call(), Ok(Json::unsigned(5))).unwrap();
    assert_eq!((id.as_str(), name.as_str(), args.as_u64()), ("t", "look", Some(5)));
}

#[test]
fn message_delta_reports_the_end() {
    let mut buf = ToolCallBuffer::new();
    assert!(silent("message_delta", r#"{"delta":{"stop_reason":"end_turn"}}"#));
    assert!(silent("message_delta", r#"{"delta":{"stop_reason":"end_turn"},"usage":3}"#));
    assert!(silent("message_delta", r#"{"usage":{}}"#));
    match only(
        "message_delta",
        r#"{"delta":{"stop_reason":"tool_use"},"usage":{"output_tokens":4}}"#,
        &mut buf,
    ) {
        ChatEvent::Finished { stop_reason, usage } => {
            assert_eq!(stop_reason, StopReason::ToolUse);
            assert_eq!(usage.output_tokens, 4);
        }
        other => panic!("unexpected {other:?}"),
    }
    assert!(buf.finished_emitted());
    assert!(parse("message_stop", "{}", &mut buf).unwrap().is_empty());
}

#[test]
fn message_stop_reports_the_end_once() {
    let mut buf = ToolCallBuffer::new();
    match only("message_stop", "{}", &mut buf) {
        ChatEvent::Finished { stop_reason, usage } => {
            assert_eq!(stop_reason, StopReason::Other);
            assert_eq!(usage, Usage::default());
        }
        other => panic!("unexpected {other:?}"),
    }
    assert!(parse("message_stop", "{}", &mut buf).unwrap().is_empty());
}

#[test]
fn events_without_a_message_are_passed_over() {
    assert!(silent("message_start", ""));
    assert!(silent("error", ""));
    assert!(silent("ping", "not json"));
    assert!(silent("brand_new", "{}"));
}

#[test]
fn failures_are_reported() {
    let fail = |name: &str, data: &str| {
        let mut buf = ToolCallBuffer::new();
        parse(name, data, &mut buf).unwrap_err()
    };
    assert_eq!(
        fail("error", r#"{"error":{"message":"overloaded"}}"#),
        ProviderError::Internal("overloaded".to_string())
    );
    let default = ProviderError::Internal("anthropic mid-stream error".to_string());
    assert_eq!(fail("error", "{}"), default);
    assert_eq!(fail("error", "nonsense"), default);
    assert_eq!(
        fail("message_start", "]"),
        ProviderError::Parse(
            "anthropic sse: expected value at line 1 column 1 (raw: ])".to_string()
        )
    );
}

#[test]
fn unreadable_data_is_quoted_up_to_its_limit() {
    let data = "é".repeat(101);
    let outcome =
        read_event(&event("x", &data), Err("bad".to_string()), &mut ToolCallBuffer::new());
    assert_eq!(
        outcome.unwrap_err(),
        ProviderError::Parse(format!("anthropic sse: bad (raw: {}…)", "é".repeat(100)))
    );
}

#[test]
fn events_of_takes_the_data_as_it_is() {
    let v = Json::parse(r#"{"delta":{"type":"text_delta","text":"x"}}"#).unwrap();
    let events = events_of("content_block_delta", &v, &mut ToolCallBuffer::new());
    assert!(matches!(&events[0], ChatEvent::Delta { text } if text == "x"));
}

#[test]
fn answers_are_told_by_their_events() {
    let mut buf = ToolCallBuffer::new();
    let mut builder = ChatResponseBuilder::new();
    for (name, data) in [
        ("message_start", r#"{"message":{"model":"m"}}"#),
        ("content_block_delta", r#"{"delta":{"type":"text_delta","text":"a"}}"#),
        ("content_block_delta", r#"{"delta":{"type":"thinking_delta","thinking":"-"}}"#),
        ("content_block_delta", r#"{"delta":{"type":"text_delta","text":"b"}}"#),
        ("message_stop", "{}"),
    ] {
        for event in parse(name, data, &mut buf).unwrap() {
            builder.apply(event);
        }
    }
    let answer = builder.finish();
    assert_eq!(answer.actual_model, "m");
    assert_eq!(answer.text, "ab");
    assert_eq!(answer.stop_reason, Some(StopReason::Other));
    assert!(ChatResponseBuilder::new().finish().stop_reason.is_none());
    assert!(matches!(ChatEvent::started("m"), ChatEvent::Started { actual_model, .. } if actual_model == "m"));
}

#[test]
fn streams_are_taken_apart() {
    let text = ": comment\nevent: a\ndata: 1\ndata:  2\nid: 9\n\nevent:b\n\ndata\r\n\r\ndata: lost";
    let told = |pieces: &[&str]| -> Vec<(String, String)> {
        let mut reader = SseReader::new();
        let mut out = Vec::new();
        for piece in pieces {
            for e in reader.read(piece) {
                out.push((e.event, e.data));
            }
        }
        out
    };
    let expected =
        vec![("a".to_string(), "1\n 2".to_string()), (String::new(), String::new())];
    assert_eq!(told(&[text]), expected);
    for (at, _) in text.match_indices('\n') {
        assert_eq!(told(&[&text[..=at], &text[at + 1..]]), expected);
    }
    assert!(told(&[""]).is_empty());
}
