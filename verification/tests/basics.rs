use std::sync::Arc;

use tars_anthropic::adapter::{HttpProviderExtras, DEFAULT_API_VERSION, DEFAULT_BASE_URL};
use tars_anthropic::http::parse_retry_after;
use tars_anthropic::json::{last_mut, Json};
use tars_anthropic::provider::{
    default_capabilities, AnthropicProviderBuilder, Auth, Modality, Pricing, PromptCacheKind,
    ProviderId, StructuredOutputMode,
};
use tars_anthropic::text::{
    contains_text, is_blank, parse_unsigned, same_text, split_lines, to_decimal,
    trim_end_slashes, truncate,
};

#[test]
fn truncation_keeps_whole_characters() {
    assert_eq!(truncate("hello", 5), "hello");
    assert_eq!(truncate("hello", 4), "hell…");
    assert_eq!(truncate("aé", 2), "a…");
    assert_eq!(truncate("aé", 3), "aé");
    assert_eq!(truncate("€", 0), "…");
    assert_eq!(truncate("", 0), "");
    assert_eq!(truncate("x😀y", 4), "x…");
    assert_eq!(truncate("x😀y", 5), "x😀…");
}

#[test]
fn texts_are_compared_and_searched() {
    assert!(same_text("é", "é"));
    assert!(!same_text("e", "é"));
    assert!(!same_text("a", "ab"));
    assert!(contains_text("max_tokens", "tok"));
    assert!(contains_text("", ""));
    assert!(!contains_text("tok", "token"));
    assert!(!contains_text("aab", "ba"));
}

#[test]
fn blank_is_white_space_throughout() {
    assert!(is_blank(""));
    assert!(is_blank(" \t\u{3000}"));
    assert!(!is_blank(" x "));
}

#[test]
fn slashes_are_stripped_from_the_end() {
    assert_eq!(trim_end_slashes("a//"), "a");
    assert_eq!(trim_end_slashes("/a"), "/a");
    assert_eq!(trim_end_slashes("//"), "");
}

#[test]
fn numbers_are_written_and_read() {
    assert_eq!(to_decimal(0), "0");
    assert_eq!(to_decimal(1090), "1090");
    assert_eq!(to_decimal(u64::MAX), "18446744073709551615");
    assert_eq!(parse_unsigned("18446744073709551615"), Some(u64::MAX));
    assert_eq!(parse_unsigned("18446744073709551616"), None);
    assert_eq!(parse_unsigned("007"), Some(7));
    assert_eq!(parse_unsigned(""), None);
    assert_eq!(parse_unsigned("1 "), None);
}

#[test]
fn lines_end_as_they_do() {
    for text in ["", "\n", "a", "a\n", "a\r\nb", "a\r", "\r\n\n", "a\nb\rc\r\r\n", "x\n\ny\n"] {
        let expected: Vec<&str> = text.lines().collect();
        assert_eq!(split_lines(text), expected, "{text:?}");
    }
}

#[test]
fn json_is_read() {
    let v = Json::parse(r#"{"a":[1,"x",null,true,-2.5],"a":{"b":{"c":3}}}"#).unwrap();
    assert_eq!(v.get_in("a", "b").and_then(|b| b.get_u64("c")), Some(3));
    assert!(Json::parse("{").is_err());
    let list = Json::parse(r#"[1,"x",null,true,-2.5,1e2]"#).unwrap();
    let items = list.as_array().unwrap();
    assert_eq!(items[0].as_u64(), Some(1));
    assert_eq!(items[1].as_str(), Some("x"));
    assert!(matches!(items[2], Json::Null));
    assert!(matches!(items[3], Json::Bool(true)));
    assert!(matches!(&items[4], Json::Number(n) if n.text == "-2.5" && n.unsigned.is_none()));
    assert_eq!(items[5].as_u64(), None);
    let value = serde_json::Value::from(vec![7u64]);
    assert_eq!(Json::from_value(&value).as_array().unwrap()[0].as_u64(), Some(7));
}

#[test]
fn json_is_changed() {
    let mut v = Json::object();
    v.set("k", Json::unsigned(1));
    v.set("k", Json::text("two"));
    let copy = v.clone();
    if let Some(x) = v.get_mut("k") {
        *x = Json::Null;
    }
    assert!(matches!(v.get("k"), Some(Json::Null)));
    assert_eq!(copy.get_str("k"), Some("two"));
    assert!(v.get_mut("absent").is_none());
    let mut null = Json::Null;
    null.set("a", Json::array_of_texts(&vec!["s".to_string()]));
    assert_eq!(null.get_array("a").unwrap()[0].as_str(), Some("s"));
    let mut items = vec![Json::Null, Json::Null];
    *last_mut(&mut items).unwrap() = Json::Bool(false);
    assert!(matches!(items[1], Json::Bool(false)));
    assert!(last_mut(&mut Vec::new()).is_none());
}

#[test]
fn retry_after_is_found() {
    let mut headers = reqwest::header::HeaderMap::new();
    assert_eq!(parse_retry_after(&headers), None);
    headers.insert("Retry-After", "2".parse().unwrap());
    assert_eq!(parse_retry_after(&headers), Some(std::time::Duration::from_secs(2)));
}

#[test]
fn defaults_of_the_builder() {
    let builder = AnthropicProviderBuilder::new("p", Auth::NoAuth);
    assert_eq!(builder.base_url, DEFAULT_BASE_URL);
    assert_eq!(builder.api_version, DEFAULT_API_VERSION);
    let provider = builder.build(Arc::new(1u8), "resolver");
    assert_eq!(provider.id().as_str(), "p");
    assert_eq!(*provider.http, 1);
    assert_eq!(provider.auth_resolver, "resolver");
    let caps = provider.capabilities();
    assert_eq!(caps.max_context_tokens, 200_000);
    assert_eq!(caps.max_output_tokens, 8_192);
    assert!(caps.supports_tool_use && caps.supports_parallel_tool_calls && caps.supports_vision);
    assert!(caps.supports_thinking && caps.supports_cancel && caps.streaming);
    assert_eq!(caps.supports_structured_output, StructuredOutputMode::ToolUseEmulation);
    assert_eq!(caps.prompt_cache, PromptCacheKind::ExplicitMarker);
    assert_eq!(caps.modalities_in, vec![Modality::Text, Modality::Image]);
    assert_eq!(caps.modalities_out, vec![Modality::Text]);
    assert_eq!(caps.pricing, Pricing::default());
}

#[test]
fn builder_settings_reach_the_provider() {
    let mut caps = default_capabilities();
    caps.max_output_tokens = 1;
    let extras = HttpProviderExtras { headers: vec![("a".to_string(), "b".to_string())] };
    let template = AnthropicProviderBuilder::new("p", Auth::inline("k"));
    let provider = template
        .clone()
        .base_url("x")
        .base_url("y")
        .api_version("z")
        .capabilities(caps)
        .extras(extras)
        .build((), ());
    assert_eq!(template.base_url, DEFAULT_BASE_URL);
    assert_eq!(provider.adapter.base_url, "y");
    assert_eq!(provider.adapter.api_version, "z");
    assert_eq!(provider.adapter.extras().headers.len(), 1);
    assert_eq!(provider.capabilities().max_output_tokens, 1);
    assert!(matches!(&provider.auth, Auth::Inline(k) if k == "k"));
    assert_eq!(ProviderId::new("q").as_str(), "q");
}
