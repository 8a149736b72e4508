//! The tool registry: the ordered descriptors of the tools this server
//! exposes, and the lookup that `tools/call` goes through. The set is
//! closed: every tool is a variant, and an unknown name is a distinct
//! outcome handled by the caller.

use crate::json::{arr1, arr3, arr_view, jstr, obj1, obj2, obj3, obj5, str_eq, wf, Json, JsonV};
use crate::message::{lemma_wf_arr1, lemma_wf_arr3, lemma_wf_obj1, lemma_wf_obj2, lemma_wf_obj3, lemma_wf_obj5};
use vstd::prelude::*;

verus! {

/// The tools this server exposes, in registration order.
#[derive(Clone, Copy, Debug, PartialEq, Eq, Structural)]
pub enum Tool {
    HelloWorld,
    CheckPolicy,
}

/// Descriptor of a schema property: its type and what it describes.
pub open spec fn prop_doc(ty: Seq<char>, desc: Seq<char>) -> JsonV {
    JsonV::Obj(seq![("type"@, JsonV::Str(ty)), ("description"@, JsonV::Str(desc))])
}

/// The descriptor of the greeting tool.
pub open spec fn hello_descriptor() -> JsonV {
    JsonV::Obj(
        seq![
            ("name"@, JsonV::Str("hello_world"@)),
            (
                "description"@,
                JsonV::Str("Returns a hello world message with the provided name"@),
            ),
            (
                "inputSchema"@,
                JsonV::Obj(
                    seq![
                        ("type"@, JsonV::Str("object"@)),
                        (
                            "properties"@,
                            JsonV::Obj(
                                seq![("name"@, prop_doc("string"@, "Name to greet"@))],
                            ),
                        ),
                        ("required"@, JsonV::Arr(seq![JsonV::Str("name"@)])),
                    ],
                ),
            ),
        ],
    )
}

/// The descriptor of the policy-prompt tool.
pub open spec fn policy_descriptor() -> JsonV {
    JsonV::Obj(
        seq![
            ("name"@, JsonV::Str("check_policy"@)),
            (
                "description"@,
                JsonV::Str(
                    "AI-powered natural language policy checker. Analyzes access requests against policies written in natural language and returns PERMIT/DENY/INDETERMINATE decisions."@,
                ),
            ),
            ("inputSchema"@, policy_schema()),
        ],
    )
}

/// The input schema of the policy-prompt tool.
pub open spec fn policy_schema() -> JsonV {
    JsonV::Obj(
        seq![
            ("type"@, JsonV::Str("object"@)),
            (
                "properties"@,
                JsonV::Obj(
                    seq![
                        ("policy"@, prop_doc("string"@, "Natural language policy to evaluate"@)),
                        ("agent"@, prop_doc("string"@, "Agent/user requesting access"@)),
                        (
                            "action"@,
                            prop_doc(
                                "string"@,
                                "Action being requested (read, write, delete, execute, etc.)"@,
                            ),
                        ),
                        (
                            "resource"@,
                            prop_doc(
                                "string"@,
                                "Resource being accessed (file path, API endpoint, etc.)"@,
                            ),
                        ),
                        (
                            "context"@,
                            JsonV::Obj(
                                seq![
                                    ("type"@, JsonV::Str("object"@)),
                                    (
                                        "description"@,
                                        JsonV::Str(
                                            "Additional context information (time, location, purpose, etc.)"@,
                                        ),
                                    ),
                                    ("additionalProperties"@, JsonV::Bool(true)),
                                ],
                            ),
                        ),
                    ],
                ),
            ),
            (
                "required"@,
                JsonV::Arr(
                    seq![JsonV::Str("policy"@), JsonV::Str("action"@), JsonV::Str("resource"@)],
                ),
            ),
        ],
    )
}

/// The registry snapshot: every descriptor, in registration order.
pub open spec fn descriptors_doc() -> Seq<JsonV> {
    seq![hello_descriptor(), policy_descriptor()]
}

/// The tool a name designates, if any.
pub open spec fn spec_lookup_tool(name: Seq<char>) -> Option<Tool> {
    if name == "hello_world"@ {
        Some(Tool::HelloWorld)
    } else if name == "check_policy"@ {
        Some(Tool::CheckPolicy)
    } else {
        None
    }
}

/// The field names of the descriptor documents differ pairwise where they
/// share a map.
proof fn schema_keys_distinct()
    ensures
        "name"@ != "description"@,
        "name"@ != "inputSchema"@,
        "description"@ != "inputSchema"@,
        "type"@ != "properties"@,
        "type"@ != "required"@,
        "properties"@ != "required"@,
        "type"@ != "description"@,
        "type"@ != "additionalProperties"@,
        "description"@ != "additionalProperties"@,
        "policy"@ != "agent"@,
        "policy"@ != "action"@,
        "policy"@ != "resource"@,
        "policy"@ != "context"@,
        "agent"@ != "action"@,
        "agent"@ != "resource"@,
        "agent"@ != "context"@,
        "action"@ != "resource"@,
        "action"@ != "context"@,
        "resource"@ != "context"@,
{
    reveal_strlit("name");
    reveal_strlit("description");
    reveal_strlit("inputSchema");
    reveal_strlit("type");
    reveal_strlit("properties");
    reveal_strlit("required");
    reveal_strlit("additionalProperties");
    reveal_strlit("policy");
    reveal_strlit("agent");
    reveal_strlit("action");
    reveal_strlit("resource");
    reveal_strlit("context");
    assert("name"@.len() == 4);
    assert("description"@.len() == 11);
    assert("inputSchema"@.len() == 11);
    assert("type"@.len() == 4);
    assert("properties"@.len() == 10);
    assert("required"@.len() == 8);
    assert("additionalProperties"@.len() == 20);
    assert("policy"@.len() == 6);
    assert("agent"@.len() == 5);
    assert("action"@.len() == 6);
    assert("resource"@.len() == 8);
    assert("context"@.len() == 7);
    assert("description"@[0] == 'd' && "inputSchema"@[0] == 'i');
    assert("policy"@[0] == 'p' && "action"@[0] == 'a');
    assert("name"@[0] == 'n' && "type"@[0] == 't' && "required"@[0] == 'r' && "resource"@[0]
        == 'r');
    assert("required"@[1] == 'e' && "resource"@[1] == 'e');
    assert("required"@[2] == 'q' && "resource"@[2] == 's');
}

/// A property descriptor is well formed within any positive budget.
proof fn lemma_prop_doc_wf(ty: Seq<char>, desc: Seq<char>, budget: nat)
    requires
        budget > 0,
    ensures
        wf(prop_doc(ty, desc), budget),
{
    schema_keys_distinct();
    lemma_wf_obj2(("type"@, JsonV::Str(ty)), ("description"@, JsonV::Str(desc)), budget);
}

/// The greeting tool's descriptor is well formed within any budget that
/// holds its nesting.
pub proof fn lemma_hello_descriptor_wf(budget: nat)
    requires
        budget >= 4,
    ensures
        wf(hello_descriptor(), budget),
{
    schema_keys_distinct();
    lemma_prop_doc_wf("string"@, "Name to greet"@, (budget - 3) as nat);
    let props = JsonV::Obj(seq![("name"@, prop_doc("string"@, "Name to greet"@))]);
    lemma_wf_obj1(("name"@, prop_doc("string"@, "Name to greet"@)), (budget - 2) as nat);
    lemma_wf_arr1(JsonV::Str("name"@), (budget - 2) as nat);
    let required = JsonV::Arr(seq![JsonV::Str("name"@)]);
    lemma_wf_obj3(
        ("type"@, JsonV::Str("object"@)),
        ("properties"@, props),
        ("required"@, required),
        (budget - 1) as nat,
    );
    let schema = JsonV::Obj(
        seq![("type"@, JsonV::Str("object"@)), ("properties"@, props), ("required"@, required)],
    );
    lemma_wf_obj3(
        ("name"@, JsonV::Str("hello_world"@)),
        ("description"@, JsonV::Str("Returns a hello world message with the provided name"@)),
        ("inputSchema"@, schema),
        budget,
    );
}

/// The policy tool's descriptor is well formed within any budget that holds
/// its nesting.
pub proof fn lemma_policy_descriptor_wf(budget: nat)
    requires
        budget >= 4,
    ensures
        wf(policy_descriptor(), budget),
{
    schema_keys_distinct();
    lemma_prop_doc_wf("string"@, "Natural language policy to evaluate"@, (budget - 3) as nat);
    lemma_prop_doc_wf("string"@, "Agent/user requesting access"@, (budget - 3) as nat);
    lemma_prop_doc_wf(
        "string"@,
        "Action being requested (read, write, delete, execute, etc.)"@,
        (budget - 3) as nat,
    );
    lemma_prop_doc_wf(
        "string"@,
        "Resource being accessed (file path, API endpoint, etc.)"@,
        (budget - 3) as nat,
    );
    let ctx = JsonV::Obj(
        seq![
            ("type"@, JsonV::Str("object"@)),
            (
                "description"@,
                JsonV::Str("Additional context information (time, location, purpose, etc.)"@),
            ),
            ("additionalProperties"@, JsonV::Bool(true)),
        ],
    );
    lemma_wf_obj3(
        ("type"@, JsonV::Str("object"@)),
        (
            "description"@,
            JsonV::Str("Additional context information (time, location, purpose, etc.)"@),
        ),
        ("additionalProperties"@, JsonV::Bool(true)),
        (budget - 3) as nat,
    );
    lemma_wf_obj5(
        ("policy"@, prop_doc("string"@, "Natural language policy to evaluate"@)),
        ("agent"@, prop_doc("string"@, "Agent/user requesting access"@)),
        (
            "action"@,
            prop_doc("string"@, "Action being requested (read, write, delete, execute, etc.)"@),
        ),
        (
            "resource"@,
            prop_doc("string"@, "Resource being accessed (file path, API endpoint, etc.)"@),
        ),
        ("context"@, ctx),
        (budget - 2) as nat,
    );
    lemma_wf_arr3(
        JsonV::Str("policy"@),
        JsonV::Str("action"@),
        JsonV::Str("resource"@),
        (budget - 2) as nat,
    );
    let required = JsonV::Arr(
        seq![JsonV::Str("policy"@), JsonV::Str("action"@), JsonV::Str("resource"@)],
    );
    lemma_wf_obj3(
        ("type"@, JsonV::Str("object"@)),
        (
            "properties"@,
            JsonV::Obj(
                seq![
                    ("policy"@, prop_doc("string"@, "Natural language policy to evaluate"@)),
                    ("agent"@, prop_doc("string"@, "Agent/user requesting access"@)),
                    (
                        "action"@,
                        prop_doc(
                            "string"@,
                            "Action being requested (read, write, delete, execute, etc.)"@,
                        ),
                    ),
                    (
                        "resource"@,
                        prop_doc(
                            "string"@,
                            "Resource being accessed (file path, API endpoint, etc.)"@,
                        ),
                    ),
                    ("context"@, ctx),
                ],
            ),
        ),
        ("required"@, required),
        (budget - 1) as nat,
    );
    lemma_wf_obj3(
        ("name"@, JsonV::Str("check_policy"@)),
        (
            "description"@,
            JsonV::Str(
                "AI-powered natural language policy checker. Analyzes access requests against policies written in natural language and returns PERMIT/DENY/INDETERMINATE decisions."@,
            ),
        ),
        ("inputSchema"@, policy_schema()),
        budget,
    );
}

/// Exact-match lookup of a tool by name.
pub fn lookup_tool(name: &str) -> (t: Option<Tool>)
    ensures
        t == spec_lookup_tool(name@),
{
    if str_eq(name, "hello_world") {
        Some(Tool::HelloWorld)
    } else if str_eq(name, "check_policy") {
        Some(Tool::CheckPolicy)
    } else {
        None
    }
}

/// A schema property descriptor.
fn prop_desc(ty: &str, desc: &str) -> (r: Json)
    ensures
        r@ == prop_doc(ty@, desc@),
{
    obj2("type", jstr(ty), "description", jstr(desc))
}

/// The full registry snapshot, in registration order.
pub fn tool_descriptors() -> (r: Vec<Json>)
    ensures
        arr_view(r@) == descriptors_doc(),
{
    let hello = obj3(
        "name",
        jstr("hello_world"),
        "description",
        jstr("Returns a hello world message with the provided name"),
        "inputSchema",
        obj3(
            "type",
            jstr("object"),
            "properties",
            obj1("name", prop_desc("string", "Name to greet")),
            "required",
            arr1(jstr("name")),
        ),
    );
    let policy = obj3(
        "name",
        jstr("check_policy"),
        "description",
        jstr(
            "AI-powered natural language policy checker. Analyzes access requests against policies written in natural language and returns PERMIT/DENY/INDETERMINATE decisions.",
        ),
        "inputSchema",
        obj3(
            "type",
            jstr("object"),
            "properties",
            obj5(
                "policy",
                prop_desc("string", "Natural language policy to evaluate"),
                "agent",
                prop_desc("string", "Agent/user requesting access"),
                "action",
                prop_desc("string", "Action being requested (read, write, delete, execute, etc.)"),
                "resource",
                prop_desc("string", "Resource being accessed (file path, API endpoint, etc.)"),
                "context",
                obj3(
                    "type",
                    jstr("object"),
                    "description",
                    jstr("Additional context information (time, location, purpose, etc.)"),
                    "additionalProperties",
                    Json::Bool(true),
                ),
            ),
            "required",
            arr3(jstr("policy"), jstr("action"), jstr("resource")),
        ),
    );
    let ghost gh = hello@;
    let ghost gp = policy@;
    let mut out: Vec<Json> = Vec::new();
    out.push(hello);
    out.push(policy);
    proof {
        broadcast use crate::json::lemma_arr_view_index;

        assert(gh =~~= hello_descriptor());
        assert(gp =~~= policy_descriptor());
        assert(arr_view(out@) =~= descriptors_doc());
    }
    out
}

} // verus!
