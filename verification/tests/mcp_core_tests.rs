use mcp_core::{
    Error, MCPBuilder, Message, Notification, Request, RequestStep, Response, ToolError,
    ToolRegistry, TransportError, MCP,
};
use serde_json::Value;
use std::cell::RefCell;
use std::collections::HashMap;

fn json(text: &str) -> Value {
    serde_json::from_str(text).unwrap()
}

fn invalid_json_error() -> serde_json::Error {
    serde_json::from_str::<Value>("invalid json").unwrap_err()
}

// Transport used by the tests: records what is sent, hands out queued messages.
struct MockTransport {
    received_messages: RefCell<Vec<String>>,
    messages_to_return: RefCell<Vec<String>>,
}

impl MockTransport {
    fn new() -> Self {
        MockTransport { received_messages: RefCell::new(Vec::new()), messages_to_return: RefCell::new(Vec::new()) }
    }

    fn send(&mut self, message: &str) -> Result<(), TransportError> {
        self.received_messages.borrow_mut().push(message.to_string());
        Ok(())
    }

    fn receive(&mut self) -> Result<String, TransportError> {
        let mut messages = self.messages_to_return.borrow_mut();
        if messages.is_empty() {
            Err(TransportError::ReadError("No messages available".to_string()))
        } else {
            Ok(messages.remove(0))
        }
    }
}

// Tool used by the tests: answers from a table keyed by the "key" parameter.
struct MockTool {
    name: String,
    calls: RefCell<Vec<Value>>,
    responses: RefCell<HashMap<String, Value>>,
}

impl MockTool {
    fn new(name: &str) -> Self {
        MockTool { name: name.to_string(), calls: RefCell::new(Vec::new()), responses: RefCell::new(HashMap::new()) }
    }

    fn add_response(&self, param_key: &str, response: Value) {
        self.responses.borrow_mut().insert(param_key.to_string(), response);
    }

    fn execute(&self, params: Value) -> Result<Value, ToolError> {
        self.calls.borrow_mut().push(params.clone());
        let key = match params.get("key") {
            Some(k) => k.as_str().unwrap_or_default().to_string(),
            None => "default".to_string(),
        };
        if let Some(response) = self.responses.borrow().get(&key) {
            Ok(response.clone())
        } else if key == "error" {
            Err(ToolError::ExecutionError("Test error".to_string()))
        } else {
            let mut object = serde_json::Map::new();
            object.insert("result".to_string(), Value::String("default".to_string()));
            object.insert("tool".to_string(), Value::String(self.name.clone()));
            Ok(Value::Object(object))
        }
    }
}

// Runs a request through the manager, executing the chosen tool in between.
fn process(mcp: &MCP<MockTransport, MockTool>, request: Request) -> Response {
    match mcp.start_request(request) {
        RequestStep::Execute { id, tool, params } => {
            let outcome = tool.execute(params);
            mcp.finish_request(id, outcome)
        },
        RequestStep::Respond(response) => response,
    }
}

fn request(id: &str, tool_name: &str, params: Value) -> Request {
    Request { id: id.to_string(), tool_name: tool_name.to_string(), params }
}

#[test]
fn test_transport_error() {
    let read_error = TransportError::ReadError("test read error".to_string());
    let write_error = TransportError::WriteError("test write error".to_string());
    let conn_error = TransportError::ConnectionError("test connection error".to_string());
    let json_error = TransportError::from(invalid_json_error());
    let other_error = TransportError::Other("generic error".to_string());

    assert!(read_error.to_string().contains("Read Error: test read error"));
    assert!(write_error.to_string().contains("Write Error: test write error"));
    assert!(conn_error.to_string().contains("Connection Error: test connection error"));
    assert!(json_error.to_string().contains("JSON Error:"));
    assert!(other_error.to_string().contains("generic error"));
}

#[test]
fn test_tool_error() {
    let invalid_params = ToolError::InvalidParams("test invalid params".to_string());
    let execution_error = ToolError::ExecutionError("test execution error".to_string());
    let tool_not_found = ToolError::ToolNotFound("test tool".to_string());
    let json_error = ToolError::from(invalid_json_error());
    let other_error = ToolError::Other("generic error".to_string());

    assert!(invalid_params.to_string().contains("Invalid Parameters: test invalid params"));
    assert!(execution_error.to_string().contains("Execution Error: test execution error"));
    assert!(tool_not_found.to_string().contains("Tool Not Found: test tool"));
    assert!(json_error.to_string().contains("JSON Error:"));
    assert!(other_error.to_string().contains("generic error"));
}

#[test]
fn test_mcp_builder() {
    let builder = MCPBuilder::new();
    let tool = MockTool::new("test-tool");
    let builder = builder.with_tool("test-tool", tool);
    let transport = MockTransport::new();
    let mcp = builder.build(transport);

    assert!(mcp.tools().contains_key("test-tool"));
    assert_eq!(mcp.tools().len(), 1);
}

#[test]
fn test_mcp_integration() {
    let transport = MockTransport::new();
    let tool = MockTool::new("test-tool");
    let mut mcp = MCPBuilder::new().with_tool("test-tool", tool).build(transport);

    assert!(mcp.transport().send("test message").is_ok());
    assert!(mcp.tools().contains_key("test-tool"));

    let result = mcp.run();
    assert!(result.is_ok());
    assert_eq!(*mcp.transport().received_messages.borrow(), vec!["test message".to_string()]);
}

#[test]
fn test_domain_messages() {
    let request = Request {
        id: "req-123".to_string(),
        tool_name: "test-tool".to_string(),
        params: json(r#"{"test": "value"}"#),
    };
    assert_eq!(request.id, "req-123");
    assert_eq!(request.tool_name, "test-tool");
    assert_eq!(request.params["test"], "value");

    let success_response = Response { id: "req-123".to_string(), result: Ok(json(r#"{"status": "success"}"#)) };
    assert_eq!(success_response.id, "req-123");
    assert!(success_response.result.is_ok());

    let error_response =
        Response { id: "req-456".to_string(), result: Err(Error::ToolNotFound("missing-tool".to_string())) };
    assert_eq!(error_response.id, "req-456");
    assert!(error_response.result.is_err());

    let notification = Notification {
        event: "tool-completed".to_string(),
        params: json(r#"{"tool": "test-tool", "status": "done"}"#),
    };
    assert_eq!(notification.event, "tool-completed");
    assert_eq!(notification.params["tool"], "test-tool");

    let message_request = Message::Request(request);
    let message_response = Message::Response(success_response);
    let message_notification = Message::Notification(notification);

    match message_request {
        Message::Request(req) => assert_eq!(req.tool_name, "test-tool"),
        _ => panic!("Expected Request variant"),
    }
    match message_response {
        Message::Response(resp) => assert!(resp.result.is_ok()),
        _ => panic!("Expected Response variant"),
    }
    match message_notification {
        Message::Notification(notif) => assert_eq!(notif.event, "tool-completed"),
        _ => panic!("Expected Notification variant"),
    }
}

#[test]
fn test_process_request() {
    let tool = MockTool::new("echo-tool");
    tool.add_response("echo", json(r#"{"echo": "hello world"}"#));
    let transport = MockTransport::new();
    let mcp = MCPBuilder::new().with_tool("echo-tool", tool).build(transport);

    let response = process(&mcp, request("req-1", "echo-tool", json(r#"{"key": "echo"}"#)));
    assert_eq!(response.id, "req-1");
    assert!(response.result.is_ok());
    let result = response.result.as_ref().unwrap();
    assert_eq!(result["echo"], "hello world");

    let error_response = process(&mcp, request("req-2", "nonexistent-tool", json("{}")));
    assert_eq!(error_response.id, "req-2");
    assert!(error_response.result.is_err());
    match error_response.result {
        Err(Error::ToolNotFound(name)) => assert_eq!(name, "nonexistent-tool"),
        _ => panic!("Expected ToolNotFound error"),
    }
}

#[test]
fn tool_receives_the_request_params() {
    let mcp = MCPBuilder::new().with_tool("test-tool", MockTool::new("test-tool")).build(MockTransport::new());
    let response = process(&mcp, request("r", "test-tool", json(r#"{"param": "value"}"#)));
    let result = response.result.unwrap();
    assert_eq!(result["result"], "default");
    assert_eq!(result["tool"], "test-tool");
    let tool = mcp.tools().get("test-tool").unwrap();
    let calls = tool.calls.borrow();
    assert_eq!(calls.len(), 1);
    assert_eq!(calls[0]["param"], "value");
}

#[test]
fn tool_failure_is_answered_as_tool_error_with_its_text() {
    let mcp = MCPBuilder::new().with_tool("t", MockTool::new("t")).build(MockTransport::new());
    let response = process(&mcp, request("req-9", "t", json(r#"{"key": "error"}"#)));
    assert_eq!(response.id, "req-9");
    match response.result {
        Err(Error::ToolError(text)) => assert_eq!(text, "Execution Error: Test error"),
        _ => panic!("Expected ToolError"),
    }
}

#[test]
fn finish_request_texts_for_each_tool_error() {
    let mcp: MCP<MockTransport, MockTool> = MCPBuilder::new().build(MockTransport::new());
    let cases = vec![
        (ToolError::InvalidParams("p".to_string()), "Invalid Parameters: p"),
        (ToolError::ExecutionError("e".to_string()), "Execution Error: e"),
        (ToolError::ToolNotFound("n".to_string()), "Tool Not Found: n"),
        (ToolError::Other("plain".to_string()), "plain"),
    ];
    for (error, expected) in cases {
        let response = mcp.finish_request("id".to_string(), Err(error));
        assert_eq!(response.id, "id");
        match response.result {
            Err(Error::ToolError(text)) => assert_eq!(text, expected),
            _ => panic!("Expected ToolError"),
        }
    }
    let response = mcp.finish_request("j".to_string(), Err(ToolError::from(invalid_json_error())));
    match response.result {
        Err(Error::ToolError(text)) => assert_eq!(text, format!("JSON Error: {}", invalid_json_error())),
        _ => panic!("Expected ToolError"),
    }
    let response = mcp.finish_request("k".to_string(), Err(ToolError::JsonError("bad input".to_string())));
    match response.result {
        Err(Error::ToolError(text)) => assert_eq!(text, "JSON Error: bad input"),
        _ => panic!("Expected ToolError"),
    }
}

#[test]
fn finish_request_passes_result_through() {
    let mcp: MCP<MockTransport, MockTool> = MCPBuilder::new().build(MockTransport::new());
    let response = mcp.finish_request("ok".to_string(), Ok(json(r#"{"a": [1, 2]}"#)));
    assert_eq!(response.id, "ok");
    assert_eq!(response.result.unwrap(), json(r#"{"a": [1, 2]}"#));
}

#[test]
fn manager_without_tools_refuses_every_request() {
    let mcp: MCP<MockTransport, MockTool> = MCPBuilder::default().build(MockTransport::new());
    assert!(mcp.tools().is_empty());
    let response = process(&mcp, request("x", "anything", json("null")));
    match response.result {
        Err(Error::ToolNotFound(name)) => assert_eq!(name, "anything"),
        _ => panic!("Expected ToolNotFound error"),
    }
}

#[test]
fn later_registration_replaces_earlier() {
    let mcp = MCPBuilder::new()
        .with_tool("t", MockTool::new("first"))
        .with_tool("u", MockTool::new("other"))
        .with_tool("t", MockTool::new("second"))
        .build(MockTransport::new());
    assert_eq!(mcp.tools().len(), 2);
    assert_eq!(mcp.tools().get("t").unwrap().name, "second");
    assert_eq!(mcp.tools().get("u").unwrap().name, "other");
    assert!(mcp.tools().get("v").is_none());
    let result = process(&mcp, request("r", "t", json("{}"))).result.unwrap();
    assert_eq!(result["tool"], "second");
}

#[test]
fn registry_insert_hands_back_replaced_tool() {
    let mut registry: ToolRegistry<u32> = ToolRegistry::new();
    assert!(registry.is_empty());
    assert_eq!(registry.insert("a".to_string(), 1), None);
    assert_eq!(registry.insert("b".to_string(), 2), None);
    assert_eq!(registry.insert("a".to_string(), 3), Some(1));
    assert_eq!(registry.len(), 2);
    assert_eq!(registry.get("a"), Some(&3));
    assert_eq!(registry.get("b"), Some(&2));
    assert!(!registry.contains_key("c"));
    assert!(registry.contains_key("b"));
    let mut names = registry.names();
    names.sort();
    assert_eq!(names, vec!["a".to_string(), "b".to_string()]);
    let mut pairs: Vec<(String, u32)> = registry.entries().into_iter().map(|(n, t)| (n.clone(), *t)).collect();
    pairs.sort();
    assert_eq!(pairs, vec![("a".to_string(), 3), ("b".to_string(), 2)]);
}

#[test]
fn same_request_twice_gets_the_same_answer() {
    let mcp = MCPBuilder::new().with_tool("t", MockTool::new("t")).build(MockTransport::new());
    let req = request("same", "t", json(r#"{"key": "error"}"#));
    let first = process(&mcp, req.clone());
    let second = process(&mcp, req);
    assert_eq!(first.id, second.id);
    match (first.result, second.result) {
        (Err(Error::ToolError(a)), Err(Error::ToolError(b))) => assert_eq!(a, b),
        _ => panic!("Expected ToolError twice"),
    }
    let missing = request("m", "absent", json("{}"));
    let first = process(&mcp, missing.clone());
    let second = process(&mcp, missing);
    match (first.result, second.result) {
        (Err(Error::ToolNotFound(a)), Err(Error::ToolNotFound(b))) => {
            assert_eq!(a, "absent");
            assert_eq!(b, "absent");
        },
        _ => panic!("Expected ToolNotFound twice"),
    }
}

#[test]
fn transport_receive_reports_read_error_when_empty() {
    let mut mcp: MCP<MockTransport, MockTool> = MCPBuilder::new().build(MockTransport::new());
    mcp.transport().messages_to_return.borrow_mut().push("response message".to_string());
    assert_eq!(mcp.transport().receive().unwrap(), "response message");
    match mcp.transport().receive() {
        Err(TransportError::ReadError(msg)) => assert_eq!(msg, "No messages available"),
        _ => panic!("Expected ReadError"),
    }
}

#[test]
fn domain_error_texts() {
    assert_eq!(Error::ToolError("x".to_string()).to_string(), "Tool Error: x");
    assert_eq!(Error::ToolNotFound("x".to_string()).to_string(), "Tool Not Found: x");
    assert_eq!(Error::InvalidParams("x".to_string()).to_string(), "Invalid Parameters: x");
    assert_eq!(Error::InternalError("x".to_string()).to_string(), "Internal Error: x");
}

#[test]
fn json_errors_convert_into_json_variants() {
    let rendered = invalid_json_error().to_string();
    let transport_error: TransportError = invalid_json_error().into();
    match &transport_error {
        TransportError::JsonError(text) => assert_eq!(*text, rendered),
        _ => panic!("Expected JsonError"),
    }
    assert_eq!(transport_error.to_string(), format!("JSON Error: {}", rendered));
    let tool_error: ToolError = invalid_json_error().into();
    match &tool_error {
        ToolError::JsonError(text) => assert_eq!(*text, rendered),
        _ => panic!("Expected JsonError"),
    }
    assert_eq!(tool_error.to_string(), format!("JSON Error: {}", rendered));
}

#[test]
fn clones_are_equal_copies() {
    let original = Request { id: "1".to_string(), tool_name: "t".to_string(), params: json(r#"{"k": 1}"#) };
    let copy = original.clone();
    assert_eq!(copy.id, "1");
    assert_eq!(copy.tool_name, "t");
    assert_eq!(copy.params, original.params);
    let response = Response { id: "2".to_string(), result: Err(Error::InvalidParams("bad".to_string())) };
    match response.clone().result {
        Err(Error::InvalidParams(m)) => assert_eq!(m, "bad"),
        _ => panic!("Expected InvalidParams"),
    }
}
