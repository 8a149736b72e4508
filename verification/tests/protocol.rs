use aegis_mcp::json::Json;
use aegis_mcp::message::{DecodeError, Payload, Response};
use aegis_mcp::server::AegisMcpServer;

fn reply_for(line: &str) -> Option<String> {
    let server = AegisMcpServer::new();
    server.handle_line(line)
}

fn parse(out: &str) -> serde_json::Value {
    serde_json::from_str(out).expect("reply line must be valid JSON")
}

#[test]
fn initialize_reply_carries_identity() {
    let out = reply_for(r#"{"jsonrpc":"2.0","id":1,"method":"initialize"}"#).unwrap();
    let v = parse(&out);
    assert_eq!(v["id"], serde_json::Value::from(1));
    assert_eq!(v["jsonrpc"], serde_json::Value::from("2.0"));
    let result = &v["result"];
    assert_eq!(result["protocolVersion"], serde_json::Value::from("2024-11-05"));
    assert!(result["serverInfo"].is_object());
    assert_eq!(result["serverInfo"]["name"], serde_json::Value::from("aegis-mcp-server"));
    assert_eq!(result["serverInfo"]["version"], serde_json::Value::from("0.1.0"));
    assert!(result["capabilities"]["tools"].is_object());
}

#[test]
fn tools_list_reply_holds_both_descriptors_in_order() {
    let out = reply_for(r#"{"jsonrpc":"2.0","id":2,"method":"tools/list"}"#).unwrap();
    let v = parse(&out);
    assert_eq!(v["id"], serde_json::Value::from(2));
    let tools = v["result"]["tools"].as_array().expect("tools must be an array");
    assert_eq!(tools.len(), 2);
    assert_eq!(tools[0]["name"], serde_json::Value::from("hello_world"));
    assert_eq!(tools[1]["name"], serde_json::Value::from("check_policy"));
    for t in tools {
        assert!(t["description"].is_string());
        assert!(t["inputSchema"].is_object());
        assert_eq!(t["inputSchema"]["type"], serde_json::Value::from("object"));
    }
    assert_eq!(
        tools[1]["inputSchema"]["required"],
        serde_json::Value::from(vec!["policy", "action", "resource"])
    );
}

#[test]
fn hello_world_call_greets_by_name() {
    let line = r#"{"jsonrpc":"2.0","id":3,"method":"tools/call","params":{"name":"hello_world","arguments":{"name":"Ada"}}}"#;
    let out = reply_for(line).unwrap();
    let v = parse(&out);
    assert_eq!(v["id"], serde_json::Value::from(3));
    let text = v["result"]["content"][0]["text"].as_str().unwrap();
    assert!(text.contains("Ada"));
    assert_eq!(text, "Hello, Ada! 🛡️ Welcome to Aegis MCP Server (Rust Edition)");
    assert_eq!(v["result"]["content"][0]["type"], serde_json::Value::from("text"));
}

#[test]
fn hello_world_without_name_greets_the_world() {
    let line = r#"{"jsonrpc":"2.0","id":30,"method":"tools/call","params":{"name":"hello_world","arguments":{}}}"#;
    let out = reply_for(line).unwrap();
    let v = parse(&out);
    let text = v["result"]["content"][0]["text"].as_str().unwrap();
    assert!(text.starts_with("Hello, World!"));
}

#[test]
fn unknown_tool_call_yields_error_reply() {
    let line = r#"{"jsonrpc":"2.0","id":4,"method":"tools/call","params":{"name":"nonexistent","arguments":{}}}"#;
    let out = reply_for(line).unwrap();
    let v = parse(&out);
    assert!(v.get("result").is_none());
    assert_eq!(v["error"]["code"], serde_json::Value::from(-32603));
    assert_eq!(v["error"]["message"], serde_json::Value::from("Unknown tool: nonexistent"));
}

#[test]
fn initialized_notification_gets_no_reply() {
    assert!(reply_for(r#"{"jsonrpc":"2.0","method":"notifications/initialized"}"#).is_none());
}

#[test]
fn initialized_notification_with_id_still_gets_no_reply() {
    assert!(
        reply_for(r#"{"jsonrpc":"2.0","id":9,"method":"notifications/initialized"}"#).is_none()
    );
}

#[test]
fn non_json_line_gets_no_reply_and_session_goes_on() {
    let server = AegisMcpServer::new();
    let lines = vec![
        String::from("not-json"),
        String::from(r#"{"jsonrpc":"2.0","id":5,"method":"initialize"}"#),
    ];
    let outs = server.run_session(&lines);
    assert_eq!(outs.len(), 1);
    let v = parse(&outs[0]);
    assert_eq!(v["id"], serde_json::Value::from(5));
    assert!(v["result"].is_object());
}

#[test]
fn blank_lines_yield_no_reply() {
    assert!(reply_for("").is_none());
    assert!(reply_for("   \t ").is_none());
}

#[test]
fn every_request_with_id_gets_exactly_one_reply_echoing_it() {
    let out = reply_for(r#"{"jsonrpc":"2.0","id":"abc-7","method":"bogus"}"#).unwrap();
    let v = parse(&out);
    assert_eq!(v["id"], serde_json::Value::from("abc-7"));
    assert_eq!(v["error"]["code"], serde_json::Value::from(-32601));
    assert_eq!(v["error"]["message"], serde_json::Value::from("Method not found: bogus"));
}

#[test]
fn notifications_get_no_reply_whatever_the_method() {
    assert!(reply_for(r#"{"jsonrpc":"2.0","method":"initialize"}"#).is_none());
    assert!(reply_for(r#"{"jsonrpc":"2.0","method":"tools/list"}"#).is_none());
    assert!(reply_for(r#"{"jsonrpc":"2.0","method":"bogus"}"#).is_none());
    assert!(reply_for(r#"{"jsonrpc":"2.0","id":null,"method":"initialize"}"#).is_none());
}

#[test]
fn tools_list_is_idempotent() {
    let server = AegisMcpServer::new();
    let a = server.handle_line(r#"{"jsonrpc":"2.0","id":1,"method":"tools/list"}"#).unwrap();
    let b = server.handle_line(r#"{"jsonrpc":"2.0","id":1,"method":"tools/list"}"#).unwrap();
    assert_eq!(a, b);
}

#[test]
fn encoded_reply_carries_exactly_one_of_result_and_error() {
    let success = Response { id: Some(Json::Int(1)), payload: Payload::Success(Json::Int(5)) };
    let line = aegis_mcp::codec::encode(success);
    let v = parse(&line);
    assert!(v.get("result").is_some());
    assert!(v.get("error").is_none());

    let failure = Response {
        id: None,
        payload: Payload::Failure(aegis_mcp::message::ErrorObj {
            code: -32603,
            message: String::from("boom"),
            data: None,
        }),
    };
    let line = aegis_mcp::codec::encode(failure);
    let v = parse(&line);
    assert!(v.get("error").is_some());
    assert!(v.get("result").is_none());
    assert_eq!(v["id"], serde_json::Value::Null);
}

#[test]
fn encode_writes_the_exact_compact_line() {
    let resp = Response { id: Some(Json::Int(1)), payload: Payload::Success(Json::Int(5)) };
    let line = aegis_mcp::codec::encode(resp);
    assert_eq!(line, r#"{"jsonrpc":"2.0","id":1,"result":5}"#);
    assert!(!line.contains('\n'));
}

#[test]
fn decode_tells_bad_text_from_bad_envelopes() {
    assert!(matches!(aegis_mcp::codec::decode("not-json"), Err(DecodeError::NotJson)));
    assert!(matches!(
        aegis_mcp::codec::decode(r#"{"jsonrpc":"1.0","id":1,"method":"x"}"#),
        Err(DecodeError::NotARequest)
    ));
    assert!(matches!(
        aegis_mcp::codec::decode(r#"{"jsonrpc":"2.0","id":1}"#),
        Err(DecodeError::NotARequest)
    ));
    let req = aegis_mcp::codec::decode(r#"{"jsonrpc":"2.0","id":1,"method":"x"}"#).unwrap();
    assert_eq!(req.method, "x");
    assert!(matches!(req.id, Some(Json::Int(1))));
    assert!(req.params.is_none());
}

#[test]
fn tools_call_without_params_or_name_is_refused() {
    let out = reply_for(r#"{"jsonrpc":"2.0","id":6,"method":"tools/call"}"#).unwrap();
    let v = parse(&out);
    assert_eq!(
        v["error"]["message"],
        serde_json::Value::from("Missing parameters for tool call")
    );
    let out =
        reply_for(r#"{"jsonrpc":"2.0","id":7,"method":"tools/call","params":{"arguments":{}}}"#)
            .unwrap();
    let v = parse(&out);
    assert_eq!(v["error"]["message"], serde_json::Value::from("Missing tool name"));
}

#[test]
fn error_replies_omit_the_absent_data_field() {
    let out = reply_for(r#"{"jsonrpc":"2.0","id":8,"method":"nope"}"#).unwrap();
    let v = parse(&out);
    assert!(v["error"].get("data").is_none());
    assert!(v["error"].get("code").is_some());
    assert!(v["error"].get("message").is_some());
}

#[test]
fn identifiers_of_any_shape_are_echoed_verbatim() {
    let out =
        reply_for(r#"{"jsonrpc":"2.0","id":{"k":[1,"two"]},"method":"initialize"}"#).unwrap();
    let v = parse(&out);
    assert_eq!(v["id"]["k"][0], serde_json::Value::from(1));
    assert_eq!(v["id"]["k"][1], serde_json::Value::from("two"));

    let big = i64::MAX;
    let line = format!(r#"{{"jsonrpc":"2.0","id":{},"method":"initialize"}}"#, big);
    let v = parse(&reply_for(&line).unwrap());
    assert_eq!(v["id"], serde_json::Value::from(big));
}

#[test]
fn numbers_outside_machine_integers_pass_through() {
    let v = parse(&reply_for(r#"{"jsonrpc":"2.0","id":2.5,"method":"initialize"}"#).unwrap());
    assert_eq!(v["id"], serde_json::Value::from(2.5));
    assert!(v["result"].is_object());

    let line = r#"{"jsonrpc":"2.0","id":18446744073709551615,"method":"initialize"}"#;
    let v = parse(&reply_for(line).unwrap());
    assert_eq!(v["id"], serde_json::Value::from(u64::MAX));

    let req = aegis_mcp::codec::decode(r#"{"jsonrpc":"2.0","id":2.5,"method":"x"}"#).unwrap();
    assert!(matches!(req.id, Some(Json::Num(ref s)) if s == "2.5"));
}

#[test]
fn fractional_numbers_in_tool_arguments_are_kept() {
    let line = r#"{"jsonrpc":"2.0","id":41,"method":"tools/call","params":{"name":"check_policy","arguments":{"policy":"p","action":"read","resource":"r","context":{"confidence":0.75}}}}"#;
    let v = parse(&reply_for(line).unwrap());
    let text = v["result"]["content"][0]["text"].as_str().unwrap();
    assert!(text.contains("\"confidence\": 0.75"));
}

#[test]
fn run_session_with_no_input_writes_nothing() {
    let server = AegisMcpServer::new();
    let outs = server.run_session(&Vec::new());
    assert!(outs.is_empty());
}
