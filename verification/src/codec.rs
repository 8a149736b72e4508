//! The message codec: one line of text to one request, one reply to one
//! line of text. Reading and writing the text form itself is serde_json's
//! work, taken on trust below; the envelope checks and the wire documents
//! are this crate's own and are verified.

use crate::json::{lemma_lookup_wf, num_text, str_eq, wf, Json, JsonV};
use crate::message::{
    depth_limit, error_doc, lemma_response_doc_wf, req_wf, resp_wf, response_doc,
    spec_request_of, DecodeError, ErrorObj, Payload, Request, Response,
};
use serde_json::Value;
use vstd::prelude::*;

verus! {

/// The document one line of text parses to, if any: what serde_json
/// accepts, as this crate's model holds it.
pub uninterp spec fn parsed_json(s: Seq<char>) -> Option<JsonV>;

/// The one line of compact text a document serializes to.
pub uninterp spec fn text_of(v: JsonV) -> Seq<char>;

/// The block of indented text a document serializes to.
pub uninterp spec fn pretty_text_of(v: JsonV) -> Seq<char>;

#[verifier::external_type_specification]
#[verifier::external_body]
pub struct ExValue(Value);

#[verifier::external_type_specification]
#[verifier::external_body]
pub struct ExNumber(serde_json::Number);

/// Converts one parsed number: a signed machine integer where it fits, the
/// exact serialized text otherwise.
#[verifier::external_body]
fn json_of_number(n: serde_json::Number) -> Json {
    match n.as_i64() {
        Some(i) => Json::Int(i),
        None => Json::Num(n.to_string()),
    }
}

/// Converts what serde_json parsed into this crate's document form, one arm
/// per variant.
#[verifier::external_body]
fn json_of_value(v: Value) -> Option<Json> {
    match v {
        Value::Null => Some(Json::Null),
        Value::Bool(b) => Some(Json::Bool(b)),
        Value::Number(n) => Some(json_of_number(n)),
        Value::String(s) => Some(Json::Str(s)),
        Value::Array(a) => a.into_iter().map(json_of_value).collect::<Option<Vec<Json>>>().map(
            Json::Arr,
        ),
        Value::Object(m) => m.into_iter().map(
            |e: (String, Value)| json_of_value(e.1).map(|j| (e.0, j)),
        ).collect::<Option<Vec<(String, Json)>>>().map(Json::Obj),
    }
}

/// Converts a document of this crate into serde_json's form, one arm per
/// variant.
#[verifier::external_body]
fn value_of_json(v: &Json) -> Value {
    match v {
        Json::Null => Value::Null,
        Json::Bool(b) => Value::Bool(*b),
        Json::Int(i) => Value::Number(serde_json::Number::from(*i)),
        Json::Num(s) => Value::Number(
            serde_json::from_str(s).unwrap_or_else(|_| serde_json::Number::from(0)),
        ),
        Json::Str(s) => Value::String(s.clone()),
        Json::Arr(items) => Value::Array(items.iter().map(value_of_json).collect()),
        Json::Obj(fields) => Value::Object(
            fields.iter().map(|f: &(String, Json)| (f.0.clone(), value_of_json(&f.1))).collect(),
        ),
    }
}

/// Relies on serde_json::from_str: whether a line parses, and to which
/// document, depends on its characters alone; a parsed map holds each key
/// once at every depth; every carried number text is the serializer's own,
/// so it reads back to the same number; and the parser refuses nesting past
/// a fixed budget, so what it accepts stays within it.
#[verifier::external_body]
fn parse_json_line(s: &str) -> (r: Option<Json>)
    ensures
        r matches Some(v) ==> parsed_json(s@) == Some(v@) && wf(v@, depth_limit()),
        r matches Some(v) ==> (v@ matches JsonV::Num(t) ==> num_text(t)),
        r is None ==> parsed_json(s@) is None,
{
    match serde_json::from_str::<serde_json::Value>(s) {
        Ok(v) => json_of_value(v),
        Err(_) => None,
    }
}

/// Relies on serde_json::to_string: the compact text of a document depends
/// on the document alone, carries no raw newline (a newline inside a string
/// is escaped), and parses back to the same document when no key repeats at
/// any depth and the nesting stays within the parser's budget.
#[verifier::external_body]
fn json_to_line(v: &Json) -> (r: String)
    ensures
        r@ == text_of(v@),
        forall|i: int| 0 <= i < r@.len() ==> r@[i] != '\n',
        wf(v@, depth_limit()) ==> parsed_json(r@) == Some(v@),
{
    match serde_json::to_string(&value_of_json(v)) {
        Ok(s) => s,
        Err(_) => String::new(),
    }
}

/// Relies on serde_json::to_string_pretty: the indented text of a document
/// depends on the document alone.
#[verifier::external_body]
pub(crate) fn json_to_pretty(v: &Json) -> (r: String)
    ensures
        r@ == pretty_text_of(v@),
{
    match serde_json::to_string_pretty(&value_of_json(v)) {
        Ok(s) => s,
        Err(_) => String::new(),
    }
}

/// One line of text to the request it carries, or why it carries none.
pub fn decode(line: &str) -> (r: Result<Request, DecodeError>)
    ensures
        match r {
            Ok(req) => parsed_json(line@) matches Some(doc) && spec_request_of(doc) == Some(req@)
                && req_wf(req@),
            Err(DecodeError::NotJson) => parsed_json(line@) is None,
            Err(DecodeError::NotARequest) => parsed_json(line@) matches Some(doc)
                && spec_request_of(doc) is None,
        },
{
    let doc = match parse_json_line(line) {
        None => {
            return Err(DecodeError::NotJson);
        },
        Some(d) => d,
    };
    let tag_ok = match doc.get_field("jsonrpc") {
        Some(Json::Str(s)) => str_eq(s.as_str(), "2.0"),
        _ => false,
    };
    if !tag_ok {
        return Err(DecodeError::NotARequest);
    }
    let method = match doc.get_field("method") {
        Some(Json::Str(s)) => s.clone(),
        _ => {
            return Err(DecodeError::NotARequest);
        },
    };
    let id = match doc.get_field("id") {
        None => None,
        Some(Json::Null) => None,
        Some(j) => {
            proof {
                lemma_lookup_wf(doc@, "id"@, depth_limit());
            }
            Some(j.deep_copy())
        },
    };
    let params = match doc.get_field("params") {
        None => None,
        Some(Json::Null) => None,
        Some(j) => {
            proof {
                lemma_lookup_wf(doc@, "params"@, depth_limit());
            }
            Some(j.deep_copy())
        },
    };
    Ok(Request { id, method, params })
}

/// The document an error object takes on the wire.
fn doc_of_error(e: ErrorObj) -> (d: Json)
    ensures
        d@ == error_doc(e@),
{
    let ghost ev = e@;
    let ErrorObj { code, message, data } = e;
    let mut fields: Vec<(String, Json)> = Vec::new();
    fields.push((String::from_str("code"), Json::Int(code)));
    fields.push((String::from_str("message"), Json::Str(message)));
    match data {
        None => {},
        Some(x) => {
            fields.push((String::from_str("data"), x));
        },
    }
    let d = Json::Obj(fields);
    proof {
        broadcast use crate::json::lemma_obj_view_index;

        let fs = crate::json::obj_view(fields@);
        assert(fs[0] == ("code"@, JsonV::Int(ev.code)));
        assert(fs[1] == ("message"@, JsonV::Str(ev.message)));
        match ev.data {
            None => {
                assert(fs =~= seq![
                    ("code"@, JsonV::Int(ev.code)),
                    ("message"@, JsonV::Str(ev.message)),
                ]);
            },
            Some(x) => {
                assert(fs[2] == ("data"@, x));
                assert(fs =~= seq![
                    ("code"@, JsonV::Int(ev.code)),
                    ("message"@, JsonV::Str(ev.message)),
                    ("data"@, x),
                ]);
            },
        }
    }
    d
}

/// The document a reply takes on the wire.
fn doc_of_response(resp: Response) -> (d: Json)
    ensures
        d@ == response_doc(resp@),
{
    let ghost rv = resp@;
    let Response { id, payload } = resp;
    let idj = match id {
        None => Json::Null,
        Some(j) => j,
    };
    let mut fields: Vec<(String, Json)> = Vec::new();
    fields.push((String::from_str("jsonrpc"), Json::Str(String::from_str("2.0"))));
    fields.push((String::from_str("id"), idj));
    match payload {
        Payload::Success(v) => {
            fields.push((String::from_str("result"), v));
        },
        Payload::Failure(e) => {
            let ed = doc_of_error(e);
            fields.push((String::from_str("error"), ed));
        },
    }
    let d = Json::Obj(fields);
    proof {
        broadcast use crate::json::lemma_obj_view_index;

        let fs = crate::json::obj_view(fields@);
        assert(fs[0] == ("jsonrpc"@, JsonV::Str("2.0"@)));
        assert(fs[1] == ("id"@, crate::message::id_doc(rv.id)));
        match rv.payload {
            crate::message::PayloadV::Success(v) => {
                assert(fs[2] == ("result"@, v));
                assert(fs =~= seq![
                    ("jsonrpc"@, JsonV::Str("2.0"@)),
                    ("id"@, crate::message::id_doc(rv.id)),
                    ("result"@, v),
                ]);
            },
            crate::message::PayloadV::Failure(e) => {
                assert(fs[2] == ("error"@, error_doc(e)));
                assert(fs =~= seq![
                    ("jsonrpc"@, JsonV::Str("2.0"@)),
                    ("id"@, crate::message::id_doc(rv.id)),
                    ("error"@, error_doc(e)),
                ]);
            },
        }
    }
    d
}

/// One reply to the one line of text it takes on the wire: a reply that
/// carries well-formed documents parses back, as a generic structured
/// document, to exactly its wire document.
pub fn encode(resp: Response) -> (line: String)
    ensures
        line@ == text_of(response_doc(resp@)),
        forall|i: int| 0 <= i < line@.len() ==> line@[i] != '\n',
        resp_wf(resp@) ==> parsed_json(line@) == Some(response_doc(resp@)),
{
    let ghost rv = resp@;
    let doc = doc_of_response(resp);
    proof {
        if resp_wf(rv) {
            lemma_response_doc_wf(rv);
        }
    }
    json_to_line(&doc)
}

} // verus!
