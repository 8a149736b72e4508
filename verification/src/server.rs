//! The server: its identity, the dispatch table over the recognized control
//! methods, and the two demonstration tool handlers. Dispatch answers every
//! request exactly once and never answers a notification.

use crate::codec::{json_to_pretty, pretty_text_of};
use crate::json::{arr1, jstr, lookup, obj0, obj1, obj2, obj3, str_eq, wf, Json, JsonV};
use crate::message::{
    lemma_wf_obj1, lemma_wf_obj2, lemma_wf_obj3, opt_view, ErrorObj, ErrorObjV, Payload,
    PayloadV, Request, RequestV, Response, ResponseV, INTERNAL_ERROR, METHOD_NOT_FOUND,
};
use crate::registry::{
    descriptors_doc, lookup_tool, spec_lookup_tool, tool_descriptors, Tool,
};
use vstd::prelude::*;

verus! {

/// A tool handler's failure: the message the error reply will carry.
pub struct ToolError {
    pub message: String,
}

impl ToolError {
    fn new(message: &str) -> (e: ToolError)
        ensures
            e.message@ == message@,
    {
        ToolError { message: String::from_str(message) }
    }
}

/// The server: a name and a version, shown to callers of `initialize`.
pub struct AegisMcpServer {
    pub name: String,
    pub version: String,
}

/// Model of the server's identity.
#[verifier::ext_equal]
pub struct ServerIdV {
    pub name: Seq<char>,
    pub version: Seq<char>,
}

impl View for AegisMcpServer {
    type V = ServerIdV;

    open spec fn view(&self) -> ServerIdV {
        ServerIdV { name: self.name@, version: self.version@ }
    }
}

/// What `initialize` returns: protocol version, server identity, and the
/// declared capability set.
pub open spec fn initialize_result(sid: ServerIdV) -> JsonV {
    JsonV::Obj(
        seq![
            ("protocolVersion"@, JsonV::Str("2024-11-05"@)),
            (
                "serverInfo"@,
                JsonV::Obj(
                    seq![("name"@, JsonV::Str(sid.name)), ("version"@, JsonV::Str(sid.version))],
                ),
            ),
            (
                "capabilities"@,
                JsonV::Obj(seq![("tools"@, JsonV::Obj(Seq::<(Seq<char>, JsonV)>::empty()))]),
            ),
        ],
    )
}

/// What `tools/list` returns: the registry snapshot, in registration order.
pub open spec fn tools_list_result() -> JsonV {
    JsonV::Obj(seq![("tools"@, JsonV::Arr(descriptors_doc()))])
}

/// A tool result carrying one text block.
pub open spec fn content_doc(text: Seq<char>) -> JsonV {
    JsonV::Obj(
        seq![
            (
                "content"@,
                JsonV::Arr(
                    seq![
                        JsonV::Obj(
                            seq![("type"@, JsonV::Str("text"@)), ("text"@, JsonV::Str(text))],
                        ),
                    ],
                ),
            ),
        ],
    )
}

/// What the greeting tool returns: a text block greeting the caller by the
/// given name, or by a fixed fallback when none is given.
pub open spec fn spec_hello(args: JsonV) -> JsonV {
    content_doc(
        "Hello, "@ + (match lookup(args, "name"@) {
            Some(JsonV::Str(s)) => s,
            _ => "World"@,
        }) + "! 🛡️ Welcome to Aegis MCP Server (Rust Edition)"@,
    )
}

/// The prompt the policy tool forwards, up to the optional context section.
pub open spec fn prompt_head(
    policy: Seq<char>,
    agent: Seq<char>,
    action: Seq<char>,
    resource: Seq<char>,
) -> Seq<char> {
    "# Policy Evaluation Request\n\nPlease analyze this access request against the given policy and return a JSON decision.\n\n## Policy:\n```\n"@
        + policy + "\n```\n\n## Access Request:\n- **Agent**: "@ + agent + "\n- **Action**: "@
        + action + "\n- **Resource**: `"@ + resource + "`\n"@
}

/// The context section of the prompt, present when the request carried one.
pub open spec fn prompt_context(context: Option<JsonV>) -> Seq<char> {
    match context {
        Some(c) => "\n## Additional Context:\n```json\n"@ + pretty_text_of(c) + "\n```\n"@,
        None => Seq::<char>::empty(),
    }
}

/// The fixed closing of the prompt: the response format asked of the judge.
pub open spec fn prompt_tail() -> Seq<char> {
    "\n## Required Response Format:\nReturn a JSON object with the following structure:\n```json\n{\n  \"decision\": \"PERMIT\" | \"DENY\" | \"INDETERMINATE\",\n  \"reason\": \"Detailed explanation of the decision\",\n  \"confidence\": 0.0-1.0,\n  \"constraints\": [\"optional array of constraints to apply\"],\n  \"obligations\": [\"optional array of obligations to execute\"]\n}\n```\n\nPlease evaluate the request carefully and return your decision."@
}

/// The whole prompt the policy tool forwards.
pub open spec fn policy_prompt(
    policy: Seq<char>,
    agent: Seq<char>,
    action: Seq<char>,
    resource: Seq<char>,
    context: Option<JsonV>,
) -> Seq<char> {
    prompt_head(policy, agent, action, resource) + prompt_context(context) + prompt_tail()
}

/// What the policy tool returns: a text block carrying the formatted
/// evaluation prompt, or which required field is missing. The tool formats
/// the request for an outside judge; it evaluates nothing itself.
pub open spec fn spec_check_policy(args: JsonV) -> Result<JsonV, Seq<char>> {
    match lookup(args, "policy"@) {
        Some(JsonV::Str(policy)) => match lookup(args, "action"@) {
            Some(JsonV::Str(action)) => match lookup(args, "resource"@) {
                Some(JsonV::Str(resource)) => Ok(
                    content_doc(
                        policy_prompt(
                            policy,
                            match lookup(args, "agent"@) {
                                Some(JsonV::Str(s)) => s,
                                _ => "unknown-agent"@,
                            },
                            action,
                            resource,
                            lookup(args, "context"@),
                        ),
                    ),
                ),
                _ => Err("Missing resource"@),
            },
            _ => Err("Missing action"@),
        },
        _ => Err("Missing policy"@),
    }
}

/// The arguments value a `tools/call` hands its tool: absent means null.
pub open spec fn spec_args(p: JsonV) -> JsonV {
    match lookup(p, "arguments"@) {
        Some(a) => a,
        None => JsonV::Null,
    }
}

/// What `tools/call` returns for given parameters: the named tool's result,
/// or which part of the call was unusable.
pub open spec fn spec_call_tool(params: Option<JsonV>) -> Result<JsonV, Seq<char>> {
    match params {
        None => Err("Missing parameters for tool call"@),
        Some(p) => match lookup(p, "name"@) {
            Some(JsonV::Str(name)) => match spec_lookup_tool(name) {
                Some(Tool::HelloWorld) => Ok(spec_hello(spec_args(p))),
                Some(Tool::CheckPolicy) => spec_check_policy(spec_args(p)),
                None => Err("Unknown tool: "@ + name),
            },
            _ => Err("Missing tool name"@),
        },
    }
}

/// The reply to a request (identifier present, not the pure notification):
/// the recognized method's result, the handler's failure as an error object,
/// or the method-not-found error.
pub open spec fn spec_reply(sid: ServerIdV, req: RequestV) -> ResponseV {
    if req.method == "initialize"@ {
        ResponseV { id: req.id, payload: PayloadV::Success(initialize_result(sid)) }
    } else if req.method == "tools/list"@ {
        ResponseV { id: req.id, payload: PayloadV::Success(tools_list_result()) }
    } else if req.method == "tools/call"@ {
        match spec_call_tool(req.params) {
            Ok(v) => ResponseV { id: req.id, payload: PayloadV::Success(v) },
            Err(m) => ResponseV {
                id: req.id,
                payload: PayloadV::Failure(
                    ErrorObjV { code: INTERNAL_ERROR as int, message: m, data: None },
                ),
            },
        }
    } else {
        ResponseV {
            id: req.id,
            payload: PayloadV::Failure(
                ErrorObjV {
                    code: METHOD_NOT_FOUND as int,
                    message: "Method not found: "@ + req.method,
                    data: None,
                },
            ),
        }
    }
}

/// The whole dispatch: a notification (no identifier) gets no reply, the
/// pure notification method gets none either way, and every other message
/// with an identifier gets exactly one.
pub open spec fn spec_dispatch(sid: ServerIdV, req: RequestV) -> Option<ResponseV> {
    if req.id is None || req.method == "notifications/initialized"@ {
        None
    } else {
        Some(spec_reply(sid, req))
    }
}

/// A tool result carrying one text block.
fn content_of(text: String) -> (r: Json)
    ensures
        r@ == content_doc(text@),
{
    obj1("content", arr1(obj2("type", jstr("text"), "text", Json::Str(text))))
}

impl AegisMcpServer {
    /// A server under the fixed identity.
    pub fn new() -> (s: Self)
        ensures
            s@.name == "aegis-mcp-server"@,
            s@.version == "0.1.0"@,
    {
        AegisMcpServer {
            name: String::from_str("aegis-mcp-server"),
            version: String::from_str("0.1.0"),
        }
    }

    /// The `initialize` result; the parameters play no part in it.
    pub fn initialize(&self, _params: Option<Json>) -> (r: Json)
        ensures
            r@ == initialize_result(self@),
    {
        obj3(
            "protocolVersion",
            jstr("2024-11-05"),
            "serverInfo",
            obj2(
                "name",
                Json::Str(self.name.clone()),
                "version",
                Json::Str(self.version.clone()),
            ),
            "capabilities",
            obj1("tools", obj0()),
        )
    }

    /// The `tools/list` result: the registry snapshot.
    pub fn list_tools(&self) -> (r: Json)
        ensures
            r@ == tools_list_result(),
    {
        obj1("tools", Json::Arr(tool_descriptors()))
    }

    /// The `tools/call` result for the given parameters.
    pub fn call_tool(&self, params: Option<Json>) -> (r: Result<Json, ToolError>)
        ensures
            match r {
                Ok(v) => spec_call_tool(opt_view(params)) == Ok::<JsonV, Seq<char>>(v@),
                Err(e) => spec_call_tool(opt_view(params)) == Err::<JsonV, Seq<char>>(e.message@),
            },
    {
        let p = match params {
            None => {
                return Err(ToolError::new("Missing parameters for tool call"));
            },
            Some(p) => p,
        };
        let name = match p.get_field("name") {
            Some(Json::Str(s)) => s.clone(),
            _ => {
                return Err(ToolError::new("Missing tool name"));
            },
        };
        let args = match p.get_field("arguments") {
            Some(j) => j.deep_copy(),
            None => Json::Null,
        };
        match lookup_tool(name.as_str()) {
            Some(Tool::HelloWorld) => Ok(self.handle_hello_world(args)),
            Some(Tool::CheckPolicy) => match self.handle_check_policy(args) {
                Ok(v) => Ok(v),
                Err(e) => Err(e),
            },
            None => {
                let mut m = String::from_str("Unknown tool: ");
                m.append(name.as_str());
                Err(ToolError { message: m })
            },
        }
    }

    /// The greeting tool.
    pub fn handle_hello_world(&self, args: Json) -> (r: Json)
        ensures
            r@ == spec_hello(args@),
    {
        let name = match args.get_field("name") {
            Some(Json::Str(s)) => s.clone(),
            _ => String::from_str("World"),
        };
        let mut text = String::from_str("Hello, ");
        text.append(name.as_str());
        text.append("! 🛡️ Welcome to Aegis MCP Server (Rust Edition)");
        content_of(text)
    }

    /// The policy-prompt tool: formats the request for an outside judge and
    /// forwards it; it evaluates nothing itself.
    pub fn handle_check_policy(&self, args: Json) -> (r: Result<Json, ToolError>)
        ensures
            match r {
                Ok(v) => spec_check_policy(args@) == Ok::<JsonV, Seq<char>>(v@),
                Err(e) => spec_check_policy(args@) == Err::<JsonV, Seq<char>>(e.message@),
            },
    {
        let policy = match args.get_field("policy") {
            Some(Json::Str(s)) => s.clone(),
            _ => {
                return Err(ToolError::new("Missing policy"));
            },
        };
        let agent = match args.get_field("agent") {
            Some(Json::Str(s)) => s.clone(),
            _ => String::from_str("unknown-agent"),
        };
        let action = match args.get_field("action") {
            Some(Json::Str(s)) => s.clone(),
            _ => {
                return Err(ToolError::new("Missing action"));
            },
        };
        let resource = match args.get_field("resource") {
            Some(Json::Str(s)) => s.clone(),
            _ => {
                return Err(ToolError::new("Missing resource"));
            },
        };
        let mut prompt = String::from_str(
            "# Policy Evaluation Request\n\nPlease analyze this access request against the given policy and return a JSON decision.\n\n## Policy:\n```\n",
        );
        prompt.append(policy.as_str());
        prompt.append("\n```\n\n## Access Request:\n- **Agent**: ");
        prompt.append(agent.as_str());
        prompt.append("\n- **Action**: ");
        prompt.append(action.as_str());
        prompt.append("\n- **Resource**: `");
        prompt.append(resource.as_str());
        prompt.append("`\n");
        match args.get_field("context") {
            None => {},
            Some(c) => {
                prompt.append("\n## Additional Context:\n```json\n");
                let pretty = json_to_pretty(c);
                prompt.append(pretty.as_str());
                prompt.append("\n```\n");
            },
        }
        prompt.append(
            "\n## Required Response Format:\nReturn a JSON object with the following structure:\n```json\n{\n  \"decision\": \"PERMIT\" | \"DENY\" | \"INDETERMINATE\",\n  \"reason\": \"Detailed explanation of the decision\",\n  \"confidence\": 0.0-1.0,\n  \"constraints\": [\"optional array of constraints to apply\"],\n  \"obligations\": [\"optional array of obligations to execute\"]\n}\n```\n\nPlease evaluate the request carefully and return your decision.",
        );
        proof {
            assert(prompt@ =~= policy_prompt(
                policy@,
                agent@,
                action@,
                resource@,
                lookup(args@, "context"@),
            ));
        }
        Ok(content_of(prompt))
    }

    /// The dispatch table: one reply for a request, none for a notification.
    pub fn handle_request(&self, req: Request) -> (r: Option<Response>)
        ensures
            match r {
                Some(resp) => spec_dispatch(self@, req@) == Some(resp@),
                None => spec_dispatch(self@, req@) is None,
            },
    {
        let Request { id, method, params } = req;
        let id = match id {
            None => {
                return None;
            },
            Some(x) => x,
        };
        if str_eq(method.as_str(), "notifications/initialized") {
            return None;
        }
        if str_eq(method.as_str(), "initialize") {
            let v = self.initialize(params);
            Some(Response { id: Some(id), payload: Payload::Success(v) })
        } else if str_eq(method.as_str(), "tools/list") {
            let v = self.list_tools();
            Some(Response { id: Some(id), payload: Payload::Success(v) })
        } else if str_eq(method.as_str(), "tools/call") {
            match self.call_tool(params) {
                Ok(v) => Some(Response { id: Some(id), payload: Payload::Success(v) }),
                Err(e) => Some(
                    Response {
                        id: Some(id),
                        payload: Payload::Failure(
                            ErrorObj { code: INTERNAL_ERROR, message: e.message, data: None },
                        ),
                    },
                ),
            }
        } else {
            let mut m = String::from_str("Method not found: ");
            m.append(method.as_str());
            Some(
                Response {
                    id: Some(id),
                    payload: Payload::Failure(
                        ErrorObj { code: METHOD_NOT_FOUND, message: m, data: None },
                    ),
                },
            )
        }
    }
}

/// The field names of the handler results differ pairwise where they share
/// a map.
proof fn result_keys_distinct()
    ensures
        "protocolVersion"@ != "serverInfo"@,
        "protocolVersion"@ != "capabilities"@,
        "serverInfo"@ != "capabilities"@,
        "name"@ != "version"@,
        "type"@ != "text"@,
{
    reveal_strlit("protocolVersion");
    reveal_strlit("serverInfo");
    reveal_strlit("capabilities");
    reveal_strlit("name");
    reveal_strlit("version");
    reveal_strlit("type");
    reveal_strlit("text");
    assert("protocolVersion"@.len() == 15);
    assert("serverInfo"@.len() == 10);
    assert("capabilities"@.len() == 12);
    assert("name"@.len() == 4);
    assert("version"@.len() == 7);
    assert("type"@.len() == 4);
    assert("text"@.len() == 4);
    assert("type"@[2] == 'p' && "text"@[2] == 'x');
}

/// The `initialize` result is well formed within any budget that holds its
/// nesting.
pub proof fn lemma_initialize_result_wf(sid: ServerIdV, budget: nat)
    requires
        budget >= 3,
    ensures
        wf(initialize_result(sid), budget),
{
    result_keys_distinct();
    lemma_wf_obj2(
        ("name"@, JsonV::Str(sid.name)),
        ("version"@, JsonV::Str(sid.version)),
        (budget - 1) as nat,
    );
    let info = JsonV::Obj(
        seq![("name"@, JsonV::Str(sid.name)), ("version"@, JsonV::Str(sid.version))],
    );
    let none_caps = JsonV::Obj(Seq::<(Seq<char>, JsonV)>::empty());
    assert(wf(none_caps, (budget - 2) as nat));
    lemma_wf_obj1(("tools"@, none_caps), (budget - 1) as nat);
    let caps = JsonV::Obj(seq![("tools"@, none_caps)]);
    lemma_wf_obj3(
        ("protocolVersion"@, JsonV::Str("2024-11-05"@)),
        ("serverInfo"@, info),
        ("capabilities"@, caps),
        budget,
    );
}

/// The `tools/list` result is well formed within any budget that holds its
/// nesting.
pub proof fn lemma_tools_list_result_wf(budget: nat)
    requires
        budget >= 6,
    ensures
        wf(tools_list_result(), budget),
{
    crate::registry::lemma_hello_descriptor_wf((budget - 2) as nat);
    crate::registry::lemma_policy_descriptor_wf((budget - 2) as nat);
    crate::message::lemma_wf_arr2(
        crate::registry::hello_descriptor(),
        crate::registry::policy_descriptor(),
        (budget - 1) as nat,
    );
    lemma_wf_obj1(("tools"@, JsonV::Arr(descriptors_doc())), budget);
}

/// A one-text-block tool result is well formed within any budget that holds
/// its nesting.
pub proof fn lemma_content_doc_wf(text: Seq<char>, budget: nat)
    requires
        budget >= 3,
    ensures
        wf(content_doc(text), budget),
{
    result_keys_distinct();
    lemma_wf_obj2(
        ("type"@, JsonV::Str("text"@)),
        ("text"@, JsonV::Str(text)),
        (budget - 2) as nat,
    );
    let block = JsonV::Obj(seq![("type"@, JsonV::Str("text"@)), ("text"@, JsonV::Str(text))]);
    crate::message::lemma_wf_arr1(block, (budget - 1) as nat);
    lemma_wf_obj1(("content"@, JsonV::Arr(seq![block])), budget);
}

/// Whatever a tool call returns is well formed within any budget that holds
/// its nesting.
proof fn lemma_call_tool_wf(params: Option<JsonV>, budget: nat)
    requires
        budget >= 3,
    ensures
        spec_call_tool(params) matches Ok(v) ==> wf(v, budget),
{
    match params {
        None => {},
        Some(p) => match lookup(p, "name"@) {
            Some(JsonV::Str(name)) => match spec_lookup_tool(name) {
                Some(Tool::HelloWorld) => {
                    lemma_content_doc_wf(
                        "Hello, "@ + (match lookup(spec_args(p), "name"@) {
                            Some(JsonV::Str(s)) => s,
                            _ => "World"@,
                        }) + "! 🛡️ Welcome to Aegis MCP Server (Rust Edition)"@,
                        budget,
                    );
                },
                Some(Tool::CheckPolicy) => {
                    let args = spec_args(p);
                    match lookup(args, "policy"@) {
                        Some(JsonV::Str(policy)) => match lookup(args, "action"@) {
                            Some(JsonV::Str(action)) => match lookup(args, "resource"@) {
                                Some(JsonV::Str(resource)) => {
                                    lemma_content_doc_wf(
                                        policy_prompt(
                                            policy,
                                            match lookup(args, "agent"@) {
                                                Some(JsonV::Str(s)) => s,
                                                _ => "unknown-agent"@,
                                            },
                                            action,
                                            resource,
                                            lookup(args, "context"@),
                                        ),
                                        budget,
                                    );
                                },
                                _ => {},
                            },
                            _ => {},
                        },
                        _ => {},
                    }
                },
                None => {},
            },
            _ => {},
        },
    }
}

/// Every reply dispatch builds is well formed, given a well-formed request:
/// its wire document fits the parser's budget and parses back.
pub proof fn lemma_dispatch_wf(sid: ServerIdV, req: RequestV)
    requires
        crate::message::req_wf(req),
    ensures
        spec_dispatch(sid, req) matches Some(resp) ==> crate::message::resp_wf(resp),
{
    let inner = (crate::message::depth_limit() - 1) as nat;
    if !(req.id is None || req.method == "notifications/initialized"@) {
        if req.method == "initialize"@ {
            lemma_initialize_result_wf(sid, inner);
        } else if req.method == "tools/list"@ {
            lemma_tools_list_result_wf(inner);
        } else if req.method == "tools/call"@ {
            lemma_call_tool_wf(req.params, inner);
        }
    }
}

/// Every request that carries an identifier and names any method but the
/// pure notification gets exactly one reply, and the reply echoes the
/// identifier unchanged.
pub proof fn lemma_request_gets_reply(sid: ServerIdV, req: RequestV)
    requires
        req.id is Some,
        req.method != "notifications/initialized"@,
    ensures
        spec_dispatch(sid, req) matches Some(resp) && resp.id == req.id,
{
}

/// A notification — no identifier — gets no reply, whatever its method.
pub proof fn lemma_notification_no_reply(sid: ServerIdV, req: RequestV)
    requires
        req.id is None,
    ensures
        spec_dispatch(sid, req) is None,
{
}

/// Two `tools/list` requests get replies carrying the same payload: the
/// registry snapshot is one fixed, ordered value.
pub proof fn lemma_tools_list_idempotent(sid: ServerIdV, r1: RequestV, r2: RequestV)
    requires
        r1.method == "tools/list"@,
        r2.method == "tools/list"@,
        r1.id is Some,
        r2.id is Some,
    ensures
        spec_dispatch(sid, r1) matches Some(a) && spec_dispatch(sid, r2) matches Some(b)
            && a.payload == b.payload,
{
    assert("tools/list"@ != "notifications/initialized"@) by {
        reveal_strlit("tools/list");
        reveal_strlit("notifications/initialized");
    }
    assert("tools/list"@ != "initialize"@) by {
        reveal_strlit("tools/list");
        reveal_strlit("initialize");
        assert("tools/list"@[0] == 't');
        assert("initialize"@[0] == 'i');
    }
}

} // verus!
