use std::time::Duration;

use tars_anthropic::adapter::{
    AnthropicAdapter, HttpProviderExtras, DEFAULT_API_VERSION, DEFAULT_BASE_URL,
};
use tars_anthropic::chat::{
    CacheDirective, ChatRequest, ContentBlock, ImageData, JsonSchema, Message, ModelHint,
    ThinkingMode, ToolCall, ToolChoice, ToolSpec,
};
use tars_anthropic::error::ProviderError;
use tars_anthropic::json::Json;
use tars_anthropic::request::STRUCTURED_OUTPUT_TOOL;

fn adapter() -> AnthropicAdapter {
    AnthropicAdapter {
        base_url: DEFAULT_BASE_URL.to_string(),
        api_version: DEFAULT_API_VERSION.to_string(),
        extras: HttpProviderExtras::default(),
    }
}

fn opus() -> ModelHint {
    ModelHint::Explicit("opus-4-7".to_string())
}

fn text(s: &str) -> ContentBlock {
    ContentBlock::Text { text: s.to_string() }
}

fn tool(name: &str) -> ToolSpec {
    ToolSpec {
        name: name.to_string(),
        description: "d".to_string(),
        input_schema: JsonSchema::strict("S", Json::parse(r#"{"type":"object"}"#).unwrap()),
    }
}

fn at<'a>(v: &'a Json, key: &str, i: usize) -> &'a Json {
    &v.get_array(key).unwrap()[i]
}

fn boundary() -> CacheDirective {
    CacheDirective::MarkBoundary { ttl: Duration::from_secs(300) }
}

fn marked(block: &Json) -> bool {
    block.get_in("cache_control", "type").and_then(|t| t.as_str()) == Some("ephemeral")
}

fn refusal(req: &ChatRequest) -> String {
    match adapter().translate_request(req) {
        Err(ProviderError::InvalidRequest(m)) => m,
        other => panic!("expected InvalidRequest, got {other:?}"),
    }
}

#[test]
fn translate_request_promotes_system_to_top_level() {
    let a = adapter();
    let req = ChatRequest::user(opus(), "hello").with_system("you are concise");
    let body = a.translate_request(&req).unwrap();
    assert!(body.get("system").unwrap().as_array().is_some());
    assert_eq!(at(&body, "system", 0).get_str("type"), Some("text"));
    assert_eq!(at(&body, "system", 0).get_str("text"), Some("you are concise"));
    assert_eq!(body.get_str("model"), Some("opus-4-7"));
    assert!(matches!(body.get("stream"), Some(Json::Bool(true))));
}

#[test]
fn cache_marker_attaches_to_last_message_block() {
    let a = adapter();
    let mut req = ChatRequest::user(opus(), "context").with_system("sys");
    req.cache_directives.push(boundary());
    let body = a.translate_request(&req).unwrap();
    let last_block = at(at(&body, "messages", 0), "content", 0);
    assert_eq!(last_block.get("cache_control").unwrap().get_str("type"), Some("ephemeral"));
    let system = at(&body, "system", 0);
    assert_eq!(system.get("cache_control").unwrap().get_str("type"), Some("ephemeral"));
}

#[test]
fn structured_output_injects_forced_tool() {
    let a = adapter();
    let mut req = ChatRequest::user(opus(), "give json");
    req.structured_output =
        Some(JsonSchema::strict("Resp", Json::parse(r#"{"type":"object"}"#).unwrap()));
    let body = a.translate_request(&req).unwrap();
    assert_eq!(body.get("tool_choice").unwrap().get_str("type"), Some("tool"));
    assert_eq!(body.get("tool_choice").unwrap().get_str("name"), Some(STRUCTURED_OUTPUT_TOOL));
    let tools = body.get_array("tools").unwrap();
    assert!(tools.iter().any(|t| t.get_str("name") == Some(STRUCTURED_OUTPUT_TOOL)));
}

#[test]
fn minimal_request_has_four_members() {
    let body = adapter().translate_request(&ChatRequest::user(opus(), "hi")).unwrap();
    match &body {
        Json::Object(fields) => {
            let keys: Vec<&str> = fields.iter().map(|f| f.0.as_str()).collect();
            assert_eq!(keys, vec!["model", "messages", "max_tokens", "stream"]);
        }
        other => panic!("expected an object, got {other:?}"),
    }
    assert_eq!(body.get_u64("max_tokens"), Some(4096));
}

#[test]
fn every_member_is_sent() {
    let mut req = ChatRequest::user(opus(), "hi").with_system("s");
    req.max_output_tokens = Some(17);
    req.temperature = Some(Json::parse("0.5").unwrap());
    req.stop_sequences.push("END".to_string());
    req.tools.push(tool("look"));
    req.thinking = ThinkingMode::Budget(99);
    let body = adapter().translate_request(&req).unwrap();
    assert_eq!(body.get_u64("max_tokens"), Some(17));
    match body.get("temperature") {
        Some(Json::Number(n)) => assert_eq!(n.text, "0.5"),
        other => panic!("expected a number, got {other:?}"),
    }
    assert_eq!(at(&body, "stop_sequences", 0).as_str(), Some("END"));
    assert_eq!(at(&body, "tools", 0).get_str("name"), Some("look"));
    assert_eq!(at(&body, "tools", 0).get_str("description"), Some("d"));
    assert_eq!(
        at(&body, "tools", 0).get_in("input_schema", "type").and_then(|t| t.as_str()),
        Some("object")
    );
    assert_eq!(body.get_in("tool_choice", "type").and_then(|t| t.as_str()), Some("auto"));
    assert_eq!(body.get_in("thinking", "type").and_then(|t| t.as_str()), Some("enabled"));
    assert_eq!(body.get_in("thinking", "budget_tokens").and_then(|t| t.as_u64()), Some(99));
    req.thinking = ThinkingMode::Auto;
    let body = adapter().translate_request(&req).unwrap();
    assert_eq!(body.get_in("thinking", "budget_tokens").and_then(|t| t.as_u64()), Some(4096));
}

#[test]
fn tool_choices_have_their_words() {
    let mut req = ChatRequest::user(opus(), "hi");
    req.tool_choice = ToolChoice::Required;
    assert!(adapter().translate_request(&req).unwrap().get("tool_choice").is_none());
    req.tools.push(tool("look"));
    let kind = |req: &ChatRequest| {
        let body = adapter().translate_request(req).unwrap();
        let choice = body.get("tool_choice").unwrap();
        (choice.get_str("type").unwrap().to_string(), choice.get_str("name").map(str::to_string))
    };
    assert_eq!(kind(&req), ("any".to_string(), None));
    req.tool_choice = ToolChoice::NoTool;
    assert_eq!(kind(&req), ("none".to_string(), None));
    req.tool_choice = ToolChoice::Auto;
    assert_eq!(kind(&req), ("auto".to_string(), None));
    req.tool_choice = ToolChoice::Specific("look".to_string());
    assert_eq!(kind(&req), ("tool".to_string(), Some("look".to_string())));
    req.structured_output = Some(JsonSchema::strict("R", Json::object()));
    assert_eq!(kind(&req), ("tool".to_string(), Some(STRUCTURED_OUTPUT_TOOL.to_string())));
}

#[test]
fn faulty_requests_are_refused() {
    let mut req = ChatRequest::user(ModelHint::Unresolved, "hi");
    assert_eq!(refusal(&req), "model must be explicit");
    req.model = opus();
    req.messages.clear();
    assert_eq!(refusal(&req), "anthropic: messages array must contain at least one message");
    req = ChatRequest::user(opus(), "hi");
    req.tools.push(tool("a"));
    req.tools.push(tool("b"));
    req.tools.push(tool("b"));
    req.tools.push(tool("a"));
    assert_eq!(refusal(&req), "anthropic: duplicate tool name `b` in request");
    req = ChatRequest::user(opus(), "hi");
    req.tools.push(tool(STRUCTURED_OUTPUT_TOOL));
    assert!(adapter().translate_request(&req).is_ok());
    req.structured_output = Some(JsonSchema::strict("R", Json::object()));
    assert_eq!(
        refusal(&req),
        "anthropic: tool name `__respond_with__` is reserved for structured-output emulation"
    );
    req = ChatRequest::user(opus(), "hi");
    req.max_output_tokens = Some(0);
    assert_eq!(refusal(&req), "anthropic: max_output_tokens must be > 0");
    req = ChatRequest::user(opus(), "hi");
    req.tools.push(tool("a"));
    req.tool_choice = ToolChoice::Specific("z".to_string());
    assert_eq!(refusal(&req), "anthropic: tool_choice references unknown tool `z`");
}

#[test]
fn messages_take_the_roles_of_the_backend() {
    let user = AnthropicAdapter::translate_message(&Message::User { content: vec![text("u")] });
    assert_eq!(user.get_str("role"), Some("user"));
    assert_eq!(at(&user, "content", 0).get_str("text"), Some("u"));

    let assistant = AnthropicAdapter::translate_message(&Message::Assistant {
        content: vec![text("a")],
        tool_calls: vec![ToolCall {
            id: "t1".to_string(),
            name: "look".to_string(),
            arguments: Json::parse(r#"{"q":1}"#).unwrap(),
        }],
    });
    assert_eq!(assistant.get_str("role"), Some("assistant"));
    let call = at(&assistant, "content", 1);
    assert_eq!(call.get_str("type"), Some("tool_use"));
    assert_eq!(call.get_str("id"), Some("t1"));
    assert_eq!(call.get_str("name"), Some("look"));
    assert_eq!(call.get_in("input", "q").and_then(|q| q.as_u64()), Some(1));

    let result = AnthropicAdapter::translate_message(&Message::Tool {
        tool_call_id: "t1".to_string(),
        content: vec![text("42")],
        is_error: true,
    });
    assert_eq!(result.get_str("role"), Some("user"));
    let block = at(&result, "content", 0);
    assert_eq!(block.get_str("type"), Some("tool_result"));
    assert_eq!(block.get_str("tool_use_id"), Some("t1"));
    assert_eq!(at(block, "content", 0).get_str("text"), Some("42"));
    assert!(matches!(block.get("is_error"), Some(Json::Bool(true))));
    let fine = AnthropicAdapter::translate_message(&Message::Tool {
        tool_call_id: "t1".to_string(),
        content: vec![],
        is_error: false,
    });
    assert!(at(&fine, "content", 0).get("is_error").is_none());

    let system = AnthropicAdapter::translate_message(&Message::System { content: vec![text("s")] });
    assert_eq!(system.get_str("role"), Some("user"));
    assert_eq!(at(&system, "content", 0).get_str("text"), Some("[system]"));
    assert_eq!(at(&system, "content", 1).get_str("text"), Some("s"));
}

#[test]
fn images_keep_their_source() {
    let url = AnthropicAdapter::translate_block(&ContentBlock::Image {
        mime: "image/png".to_string(),
        data: ImageData::Url("http://x/y.png".to_string()),
    });
    assert_eq!(url.get_str("type"), Some("image"));
    assert_eq!(url.get("source").unwrap().get_str("type"), Some("url"));
    assert_eq!(url.get("source").unwrap().get_str("url"), Some("http://x/y.png"));
    let list = AnthropicAdapter::translate_content(&vec![ContentBlock::Image {
        mime: "image/png".to_string(),
        data: ImageData::Base64("AAAA".to_string()),
    }]);
    let source = list.as_array().unwrap()[0].get("source").unwrap();
    assert_eq!(source.get_str("type"), Some("base64"));
    assert_eq!(source.get_str("media_type"), Some("image/png"));
    assert_eq!(source.get_str("data"), Some("AAAA"));
}

#[test]
fn markers_skip_the_assistant() {
    let mut req = ChatRequest::user(opus(), "first");
    req.messages.push(Message::User { content: vec![text("one"), text("two")] });
    req.messages.push(Message::Assistant { content: vec![text("said")], tool_calls: vec![] });
    req.cache_directives.push(CacheDirective::UseHandle { handle: "h".to_string() });
    let plain = adapter().translate_request(&req).unwrap();
    assert!(!marked(at(at(&plain, "messages", 1), "content", 1)));
    req.cache_directives.push(boundary());
    req.cache_directives.push(boundary());
    let mut body = adapter().translate_request(&req).unwrap();
    for _ in 0..2 {
        assert!(!marked(at(at(&body, "messages", 0), "content", 0)));
        assert!(!marked(at(at(&body, "messages", 1), "content", 0)));
        assert!(marked(at(at(&body, "messages", 1), "content", 1)));
        assert!(!marked(at(at(&body, "messages", 2), "content", 0)));
        AnthropicAdapter::apply_cache_directives(&mut body, &vec![boundary()]);
    }
}

#[test]
fn markers_need_something_to_stand_on() {
    let mut body = Json::parse(r#"{"system":[],"messages":[{"role":"assistant"}]}"#).unwrap();
    AnthropicAdapter::apply_cache_directives(&mut body, &vec![boundary()]);
    assert!(body.get_array("system").unwrap().is_empty());
    let mut scalar = Json::Bool(true);
    AnthropicAdapter::apply_cache_directives(&mut scalar, &vec![boundary()]);
    assert!(matches!(scalar, Json::Bool(true)));
}
