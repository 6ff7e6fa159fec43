use std::sync::Arc;

use rmcp::handler::server::tool::{
    arguments_or_empty, lookup_parameter, missing_parameter, parameter_deserialize_error,
    parameters_deserialize_error, IntoCallToolResult, ToolBox,
};
use rmcp::model::{CallToolResult, Content, Tool};

fn tool(name: &str, description: &str) -> Tool {
    Tool {
        name: name.to_string(),
        description: description.to_string(),
        input_schema: Arc::new(serde_json::Map::new()),
    }
}

#[test]
fn added_tool_is_called_by_name() {
    let mut tb: ToolBox<u32> = ToolBox::new();
    tb.add(tool("increment", "Increment the counter by 1"), 1);
    tb.add(tool("decrement", "Decrement the counter by 1"), 2);
    assert_eq!(*tb.call("increment").unwrap(), 1);
    assert_eq!(*tb.call("decrement").unwrap(), 2);
}

#[test]
fn unknown_tool_is_an_invalid_params_error() {
    let tb: ToolBox<u32> = ToolBox::new();
    let e = tb.call("nothing").unwrap_err();
    assert_eq!(e.code.0, -32602);
    assert_eq!(e.message, "tool not found");
    assert!(e.data.is_none());
}

#[test]
fn removed_tool_is_gone() {
    let mut tb: ToolBox<u32> = ToolBox::new();
    tb.add(tool("echo", "Repeat what you say"), 5);
    tb.add(tool("say_hello", "Say hello"), 6);
    tb.remove::<(), ()>("echo");
    assert!(tb.call("echo").is_err());
    assert_eq!(*tb.call("say_hello").unwrap(), 6);
    tb.remove::<(), ()>("not there");
    assert_eq!(tb.list().len(), 1);
}

#[test]
fn adding_a_name_again_replaces() {
    let mut tb: ToolBox<u32> = ToolBox::new();
    tb.add(tool("echo", "first"), 1);
    tb.add(tool("echo", "second"), 2);
    assert_eq!(*tb.call("echo").unwrap(), 2);
    let list = tb.list();
    assert_eq!(list.len(), 1);
    assert_eq!(list[0].name, "echo");
    assert_eq!(list[0].description, "second");
}

#[test]
fn list_holds_each_tool_once() {
    let mut tb: ToolBox<u32> = ToolBox::new();
    tb.add(tool("a", "A"), 1);
    tb.add(tool("b", "B"), 2);
    tb.add(tool("c", "C"), 3);
    let mut names: Vec<String> = tb.list().into_iter().map(|t| t.name).collect();
    names.sort();
    assert_eq!(names, vec!["a".to_string(), "b".to_string(), "c".to_string()]);
}

#[test]
fn unit_is_empty_success() {
    let r = ().into_call_tool_result().unwrap();
    assert!(r.content.is_empty());
    assert_eq!(r.is_error, Some(false));
}

#[test]
fn string_is_text_success() {
    let r = "rain".to_string().into_call_tool_result().unwrap();
    assert_eq!(r.content.len(), 1);
    assert_eq!(r.content[0].raw.as_text().unwrap().text, "rain");
    assert_eq!(r.is_error, Some(false));
}

#[test]
fn err_becomes_failed_call_not_error() {
    let v: Result<String, String> = Err("boom".to_string());
    let r = v.into_call_tool_result().unwrap();
    assert_eq!(r.is_error, Some(true));
    assert_eq!(r.content[0].raw.as_text().unwrap().text, "boom");
    let v: Result<Content, String> = Ok(Content::text("fine"));
    let r = v.into_call_tool_result().unwrap();
    assert_eq!(r.is_error, Some(false));
    assert_eq!(r.content[0].raw.as_text().unwrap().text, "fine");
}

#[test]
fn call_tool_result_passes_through() {
    let v: Result<CallToolResult, rmcp::Error> = Ok(CallToolResult::error(vec![]));
    let r = v.into_call_tool_result().unwrap();
    assert_eq!(r.is_error, Some(true));
    let v: Result<CallToolResult, rmcp::Error> =
        Err(rmcp::Error::invalid_params("no".to_string(), None));
    let e = v.into_call_tool_result().unwrap_err();
    assert_eq!(e.message, "no");
}

#[test]
fn parameter_lookup() {
    let mut args = serde_json::Map::new();
    args.insert("city".to_string(), serde_json::Value::String("Harbin".to_string()));
    let some = Some(args);
    let v = lookup_parameter(&some, "city").unwrap();
    assert_eq!(v, serde_json::Value::String("Harbin".to_string()));
    let e = lookup_parameter(&some, "date").unwrap_err();
    assert_eq!(e.code.0, -32602);
    assert_eq!(e.message, "missing parameter date");
    let e = lookup_parameter(&None, "city").unwrap_err();
    assert_eq!(e.message, "missing parameter city");
}

#[test]
fn parameter_errors_name_the_field() {
    assert_eq!(missing_parameter("a").message, "missing parameter a");
    let e = parameter_deserialize_error("a", "invalid type");
    assert_eq!(e.message, "failed to deserialize parameter a: invalid type");
    assert_eq!(e.code.0, -32602);
    let e = parameters_deserialize_error("missing field `city`");
    assert_eq!(e.message, "failed to deserialize parameters: missing field `city`");
}

#[test]
fn no_arguments_read_as_empty_object() {
    assert!(arguments_or_empty(None).is_empty());
    let mut args = serde_json::Map::new();
    args.insert("k".to_string(), serde_json::Value::Bool(true));
    let r = arguments_or_empty(Some(args));
    assert_eq!(r.len(), 1);
}
