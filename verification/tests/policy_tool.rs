use aegis_mcp::server::AegisMcpServer;

fn reply_for(line: &str) -> Option<String> {
    let server = AegisMcpServer::new();
    server.handle_line(line)
}

fn parse(out: &str) -> serde_json::Value {
    serde_json::from_str(out).expect("reply line must be valid JSON")
}

fn call_check_policy(args: &str, id: u32) -> serde_json::Value {
    let line = format!(
        r#"{{"jsonrpc":"2.0","id":{},"method":"tools/call","params":{{"name":"check_policy","arguments":{}}}}}"#,
        id, args
    );
    parse(&reply_for(&line).unwrap())
}

#[test]
fn check_policy_forwards_a_prompt_with_every_field() {
    let v = call_check_policy(
        r#"{"policy":"only admins may write","agent":"alice","action":"write","resource":"/etc/hosts"}"#,
        1,
    );
    let text = v["result"]["content"][0]["text"].as_str().unwrap();
    assert!(text.starts_with("# Policy Evaluation Request"));
    assert!(text.contains("only admins may write"));
    assert!(text.contains("- **Agent**: alice"));
    assert!(text.contains("- **Action**: write"));
    assert!(text.contains("- **Resource**: `/etc/hosts`"));
    assert!(text.contains("\"decision\": \"PERMIT\" | \"DENY\" | \"INDETERMINATE\""));
    assert!(!text.contains("## Additional Context:"));
    assert!(text.ends_with("Please evaluate the request carefully and return your decision."));
}

#[test]
fn check_policy_defaults_the_agent() {
    let v = call_check_policy(r#"{"policy":"p","action":"read","resource":"r"}"#, 2);
    let text = v["result"]["content"][0]["text"].as_str().unwrap();
    assert!(text.contains("- **Agent**: unknown-agent"));
}

#[test]
fn check_policy_includes_indented_context_when_given() {
    let v = call_check_policy(
        r#"{"policy":"p","action":"read","resource":"r","context":{"purpose":"demo"}}"#,
        3,
    );
    let text = v["result"]["content"][0]["text"].as_str().unwrap();
    assert!(text.contains("## Additional Context:"));
    assert!(text.contains("\"purpose\": \"demo\""));
}

#[test]
fn check_policy_names_the_missing_field() {
    let v = call_check_policy(r#"{"action":"read","resource":"r"}"#, 4);
    assert_eq!(v["error"]["message"], serde_json::Value::from("Missing policy"));
    let v = call_check_policy(r#"{"policy":"p","resource":"r"}"#, 5);
    assert_eq!(v["error"]["message"], serde_json::Value::from("Missing action"));
    let v = call_check_policy(r#"{"policy":"p","action":"read"}"#, 6);
    assert_eq!(v["error"]["message"], serde_json::Value::from("Missing resource"));
}

#[test]
fn check_policy_error_reply_has_no_result() {
    let v = call_check_policy(r#"{}"#, 7);
    assert!(v.get("result").is_none());
    assert_eq!(v["error"]["code"], serde_json::Value::from(-32603));
}
