//! Protocol messages: the request envelope that one input line carries, the
//! reply envelope that one output line carries, and the documents both take
//! on the wire.

use crate::json::{keys_unique, lookup, lookup_in, wf, Json, JsonV};
use vstd::prelude::*;

verus! {

broadcast use vstd::string::group_string_axioms;

/// Code of a reply to a request whose method is not in the dispatch table.
pub const METHOD_NOT_FOUND: i64 = -32601;

/// Code of a reply to a recognized method whose handler failed.
pub const INTERNAL_ERROR: i64 = -32603;

/// One incoming message: a request when `id` is present, a notification
/// otherwise.
pub struct Request {
    pub id: Option<Json>,
    pub method: String,
    pub params: Option<Json>,
}

/// Model of a request.
#[verifier::ext_equal]
pub struct RequestV {
    pub id: Option<JsonV>,
    pub method: Seq<char>,
    pub params: Option<JsonV>,
}

/// The model of an optional document.
pub open spec fn opt_view(o: Option<Json>) -> Option<JsonV> {
    match o {
        Some(j) => Some(j@),
        None => None,
    }
}

impl View for Request {
    type V = RequestV;

    open spec fn view(&self) -> RequestV {
        RequestV { id: opt_view(self.id), method: self.method@, params: opt_view(self.params) }
    }
}

/// Why one line was dropped before dispatch.
#[derive(Clone, Copy, Debug, PartialEq, Eq, Structural)]
pub enum DecodeError {
    /// The line is not structured text.
    NotJson,
    /// The line is structured text but not a request envelope.
    NotARequest,
}

/// The request a structured document carries, if any: the protocol tag must
/// read `2.0`, the method must be a string, and a `null` identifier counts
/// as an absent one, as does a `null` parameter field.
pub open spec fn spec_request_of(v: JsonV) -> Option<RequestV> {
    if lookup(v, "jsonrpc"@) != Some(JsonV::Str("2.0"@)) {
        None
    } else {
        match lookup(v, "method"@) {
            Some(JsonV::Str(m)) => Some(
                RequestV {
                    id: match lookup(v, "id"@) {
                        Some(JsonV::Null) => None,
                        x => x,
                    },
                    method: m,
                    params: match lookup(v, "params"@) {
                        Some(JsonV::Null) => None,
                        x => x,
                    },
                },
            ),
            _ => None,
        }
    }
}

/// The error object an error reply carries.
pub struct ErrorObj {
    pub code: i64,
    pub message: String,
    pub data: Option<Json>,
}

/// Model of an error object.
#[verifier::ext_equal]
pub struct ErrorObjV {
    pub code: int,
    pub message: Seq<char>,
    pub data: Option<JsonV>,
}

impl View for ErrorObj {
    type V = ErrorObjV;

    open spec fn view(&self) -> ErrorObjV {
        ErrorObjV { code: self.code as int, message: self.message@, data: opt_view(self.data) }
    }
}

/// What a reply carries: exactly one of a result value and an error object.
pub enum Payload {
    Success(Json),
    Failure(ErrorObj),
}

/// Model of a reply's payload.
#[verifier::ext_equal]
pub enum PayloadV {
    Success(JsonV),
    Failure(ErrorObjV),
}

impl View for Payload {
    type V = PayloadV;

    open spec fn view(&self) -> PayloadV {
        match self {
            Payload::Success(v) => PayloadV::Success(v@),
            Payload::Failure(e) => PayloadV::Failure(e@),
        }
    }
}

/// One outgoing reply: the identifier copied from the originating request,
/// and its payload.
pub struct Response {
    pub id: Option<Json>,
    pub payload: Payload,
}

/// Model of a reply.
#[verifier::ext_equal]
pub struct ResponseV {
    pub id: Option<JsonV>,
    pub payload: PayloadV,
}

impl View for Response {
    type V = ResponseV;

    open spec fn view(&self) -> ResponseV {
        ResponseV { id: opt_view(self.id), payload: self.payload@ }
    }
}

/// An absent identifier goes on the wire as `null`.
pub open spec fn id_doc(id: Option<JsonV>) -> JsonV {
    match id {
        None => JsonV::Null,
        Some(v) => v,
    }
}

/// The document an error object takes on the wire; the detail field is
/// omitted when it is absent.
pub open spec fn error_doc(e: ErrorObjV) -> JsonV {
    match e.data {
        None => JsonV::Obj(
            seq![("code"@, JsonV::Int(e.code)), ("message"@, JsonV::Str(e.message))],
        ),
        Some(d) => JsonV::Obj(
            seq![("code"@, JsonV::Int(e.code)), ("message"@, JsonV::Str(e.message)), ("data"@, d)],
        ),
    }
}

/// The document a reply takes on the wire: the one of `result` and `error`
/// that the payload carries is present, the other is omitted.
pub open spec fn response_doc(r: ResponseV) -> JsonV {
    match r.payload {
        PayloadV::Success(v) => JsonV::Obj(
            seq![
                ("jsonrpc"@, JsonV::Str("2.0"@)),
                ("id"@, id_doc(r.id)),
                ("result"@, v),
            ],
        ),
        PayloadV::Failure(e) => JsonV::Obj(
            seq![
                ("jsonrpc"@, JsonV::Str("2.0"@)),
                ("id"@, id_doc(r.id)),
                ("error"@, error_doc(e)),
            ],
        ),
    }
}

/// The deepest nesting the parser accepts in one line of text.
pub open spec fn depth_limit() -> nat {
    127
}

/// A request is well formed when the documents it carries are: they came
/// out of one parsed line, so they sit at least one level inside it.
pub open spec fn req_wf(r: RequestV) -> bool {
    (match r.id {
        Some(v) => wf(v, (depth_limit() - 1) as nat),
        None => true,
    }) && (match r.params {
        Some(v) => wf(v, (depth_limit() - 1) as nat),
        None => true,
    })
}

/// A reply is well formed when the documents it carries are, with room for
/// the envelope around them: its wire document then fits the parser's
/// nesting budget and parses back.
pub open spec fn resp_wf(r: ResponseV) -> bool {
    (match r.id {
        Some(v) => wf(v, (depth_limit() - 1) as nat),
        None => true,
    }) && (match r.payload {
        PayloadV::Success(v) => wf(v, (depth_limit() - 1) as nat),
        PayloadV::Failure(e) => match e.data {
            Some(d) => wf(d, (depth_limit() - 2) as nat),
            None => true,
        },
    })
}

/// What a lookup finds in a three-field document.
proof fn lemma_lookup_in_3(
    a: (Seq<char>, JsonV),
    b: (Seq<char>, JsonV),
    c: (Seq<char>, JsonV),
    key: Seq<char>,
)
    ensures
        lookup_in(seq![a, b, c], key) == (if a.0 == key {
            Some(a.1)
        } else if b.0 == key {
            Some(b.1)
        } else if c.0 == key {
            Some(c.1)
        } else {
            Option::<JsonV>::None
        }),
{
    reveal_with_fuel(lookup_in, 5);
    let s = seq![a, b, c];
    assert(s.drop_first() =~= seq![b, c]);
    assert(seq![b, c].drop_first() =~= seq![c]);
    assert(seq![c].drop_first() =~= Seq::<(Seq<char>, JsonV)>::empty());
}

/// A reply document carries exactly one of the `result` and `error` fields:
/// never both, never neither.
pub proof fn lemma_reply_doc_exclusive(r: ResponseV)
    ensures
        (lookup(response_doc(r), "result"@) is Some) != (lookup(response_doc(r), "error"@)
            is Some),
{
    proof_keys_distinct();
    let d = response_doc(r);
    match r.payload {
        PayloadV::Success(v) => {
            lemma_lookup_in_3(
                ("jsonrpc"@, JsonV::Str("2.0"@)),
                ("id"@, id_doc(r.id)),
                ("result"@, v),
                "result"@,
            );
            lemma_lookup_in_3(
                ("jsonrpc"@, JsonV::Str("2.0"@)),
                ("id"@, id_doc(r.id)),
                ("result"@, v),
                "error"@,
            );
        },
        PayloadV::Failure(e) => {
            lemma_lookup_in_3(
                ("jsonrpc"@, JsonV::Str("2.0"@)),
                ("id"@, id_doc(r.id)),
                ("error"@, error_doc(e)),
                "result"@,
            );
            lemma_lookup_in_3(
                ("jsonrpc"@, JsonV::Str("2.0"@)),
                ("id"@, id_doc(r.id)),
                ("error"@, error_doc(e)),
                "error"@,
            );
        },
    }
}

/// The field names of the wire envelopes differ pairwise.
proof fn proof_keys_distinct()
    ensures
        "jsonrpc"@ != "result"@,
        "jsonrpc"@ != "error"@,
        "jsonrpc"@ != "id"@,
        "id"@ != "result"@,
        "id"@ != "error"@,
        "result"@ != "error"@,
        "code"@ != "message"@,
        "code"@ != "data"@,
        "message"@ != "data"@,
{
    reveal_strlit("jsonrpc");
    reveal_strlit("id");
    reveal_strlit("result");
    reveal_strlit("error");
    reveal_strlit("code");
    reveal_strlit("message");
    reveal_strlit("data");
    assert("jsonrpc"@.len() == 7);
    assert("id"@.len() == 2);
    assert("result"@.len() == 6);
    assert("error"@.len() == 5);
    assert("code"@.len() == 4);
    assert("message"@.len() == 7);
    assert("data"@.len() == 4);
    assert("code"@[0] == 'c' && "data"@[0] == 'd');
    assert("jsonrpc"@[0] == 'j' && "message"@[0] == 'm');
}

/// A one-field document with a well-formed value is well formed.
pub proof fn lemma_wf_obj1(a: (Seq<char>, JsonV), budget: nat)
    requires
        budget > 0,
        wf(a.1, (budget - 1) as nat),
    ensures
        wf(JsonV::Obj(seq![a]), budget),
{
    let fields = seq![a];
    assert(keys_unique(fields));
    assert forall|i: int| 0 <= i < fields.len() implies wf(
        #[trigger] fields[i].1,
        (budget - 1) as nat,
    ) by {
        assert(fields[0].1 == a.1);
    }
}

/// A one-item list with a well-formed item is well formed.
pub proof fn lemma_wf_arr1(v: JsonV, budget: nat)
    requires
        budget > 0,
        wf(v, (budget - 1) as nat),
    ensures
        wf(JsonV::Arr(seq![v]), budget),
{
    let items = seq![v];
    assert forall|i: int| 0 <= i < items.len() implies wf(
        #[trigger] items[i],
        (budget - 1) as nat,
    ) by {
        assert(items[0] == v);
    }
}

/// A three-item list of well-formed items is well formed.
pub proof fn lemma_wf_arr3(a: JsonV, b: JsonV, c: JsonV, budget: nat)
    requires
        budget > 0,
        wf(a, (budget - 1) as nat),
        wf(b, (budget - 1) as nat),
        wf(c, (budget - 1) as nat),
    ensures
        wf(JsonV::Arr(seq![a, b, c]), budget),
{
    let items = seq![a, b, c];
    assert forall|i: int| 0 <= i < items.len() implies wf(
        #[trigger] items[i],
        (budget - 1) as nat,
    ) by {
        if i == 0 {
            assert(items[0] == a);
        } else if i == 1 {
            assert(items[1] == b);
        } else {
            assert(items[2] == c);
        }
    }
}

/// A two-item list of well-formed items is well formed.
pub proof fn lemma_wf_arr2(a: JsonV, b: JsonV, budget: nat)
    requires
        budget > 0,
        wf(a, (budget - 1) as nat),
        wf(b, (budget - 1) as nat),
    ensures
        wf(JsonV::Arr(seq![a, b]), budget),
{
    let items = seq![a, b];
    assert forall|i: int| 0 <= i < items.len() implies wf(
        #[trigger] items[i],
        (budget - 1) as nat,
    ) by {
        if i == 0 {
            assert(items[0] == a);
        } else {
            assert(items[1] == b);
        }
    }
}

/// A five-field document with distinct keys and well-formed values is well
/// formed.
pub proof fn lemma_wf_obj5(
    a: (Seq<char>, JsonV),
    b: (Seq<char>, JsonV),
    c: (Seq<char>, JsonV),
    d: (Seq<char>, JsonV),
    e: (Seq<char>, JsonV),
    budget: nat,
)
    requires
        a.0 != b.0,
        a.0 != c.0,
        a.0 != d.0,
        a.0 != e.0,
        b.0 != c.0,
        b.0 != d.0,
        b.0 != e.0,
        c.0 != d.0,
        c.0 != e.0,
        d.0 != e.0,
        budget > 0,
        wf(a.1, (budget - 1) as nat),
        wf(b.1, (budget - 1) as nat),
        wf(c.1, (budget - 1) as nat),
        wf(d.1, (budget - 1) as nat),
        wf(e.1, (budget - 1) as nat),
    ensures
        wf(JsonV::Obj(seq![a, b, c, d, e]), budget),
{
    let fields = seq![a, b, c, d, e];
    assert(keys_unique(fields));
    assert forall|i: int| 0 <= i < fields.len() implies wf(
        #[trigger] fields[i].1,
        (budget - 1) as nat,
    ) by {
        if i == 0 {
            assert(fields[0].1 == a.1);
        } else if i == 1 {
            assert(fields[1].1 == b.1);
        } else if i == 2 {
            assert(fields[2].1 == c.1);
        } else if i == 3 {
            assert(fields[3].1 == d.1);
        } else {
            assert(fields[4].1 == e.1);
        }
    }
}

/// A two-field document with distinct keys and well-formed values is well
/// formed.
pub proof fn lemma_wf_obj2(a: (Seq<char>, JsonV), b: (Seq<char>, JsonV), budget: nat)
    requires
        budget > 0,
        a.0 != b.0,
        wf(a.1, (budget - 1) as nat),
        wf(b.1, (budget - 1) as nat),
    ensures
        wf(JsonV::Obj(seq![a, b]), budget),
{
    let fields = seq![a, b];
    assert(keys_unique(fields));
    assert forall|i: int| 0 <= i < fields.len() implies wf(
        #[trigger] fields[i].1,
        (budget - 1) as nat,
    ) by {
        if i == 0 {
            assert(fields[0].1 == a.1);
        } else {
            assert(fields[1].1 == b.1);
        }
    }
}

/// A three-field document with distinct keys and well-formed values is well
/// formed.
pub proof fn lemma_wf_obj3(
    a: (Seq<char>, JsonV),
    b: (Seq<char>, JsonV),
    c: (Seq<char>, JsonV),
    budget: nat,
)
    requires
        budget > 0,
        a.0 != b.0,
        a.0 != c.0,
        b.0 != c.0,
        wf(a.1, (budget - 1) as nat),
        wf(b.1, (budget - 1) as nat),
        wf(c.1, (budget - 1) as nat),
    ensures
        wf(JsonV::Obj(seq![a, b, c]), budget),
{
    let fields = seq![a, b, c];
    assert(keys_unique(fields));
    assert forall|i: int| 0 <= i < fields.len() implies wf(
        #[trigger] fields[i].1,
        (budget - 1) as nat,
    ) by {
        if i == 0 {
            assert(fields[0].1 == a.1);
        } else if i == 1 {
            assert(fields[1].1 == b.1);
        } else {
            assert(fields[2].1 == c.1);
        }
    }
}

/// A well-formed reply makes a wire document that is well formed within the
/// parser's budget.
pub proof fn lemma_response_doc_wf(r: ResponseV)
    requires
        resp_wf(r),
    ensures
        wf(response_doc(r), depth_limit()),
{
    proof_keys_distinct();
    let inner = (depth_limit() - 1) as nat;
    match r.payload {
        PayloadV::Success(v) => {
            lemma_wf_obj3(
                ("jsonrpc"@, JsonV::Str("2.0"@)),
                ("id"@, id_doc(r.id)),
                ("result"@, v),
                depth_limit(),
            );
        },
        PayloadV::Failure(e) => {
            match e.data {
                None => {
                    lemma_wf_obj2(
                        ("code"@, JsonV::Int(e.code)),
                        ("message"@, JsonV::Str(e.message)),
                        inner,
                    );
                },
                Some(d) => {
                    lemma_wf_obj3(
                        ("code"@, JsonV::Int(e.code)),
                        ("message"@, JsonV::Str(e.message)),
                        ("data"@, d),
                        inner,
                    );
                },
            }
            lemma_wf_obj3(
                ("jsonrpc"@, JsonV::Str("2.0"@)),
                ("id"@, id_doc(r.id)),
                ("error"@, error_doc(e)),
                depth_limit(),
            );
        },
    }
}

} // verus!
