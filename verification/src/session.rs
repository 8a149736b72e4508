//! The session loop's pure core: one line in, at most one reply line out,
//! and a whole run as a function over the sequence of input lines. A line
//! that does not decode is dropped and the session goes on; only the caller
//! that owns the streams reads, writes and logs.

use crate::codec::{decode, encode, parsed_json, text_of};
use crate::json::lookup;
use crate::message::{lemma_reply_doc_exclusive, response_doc, spec_request_of};
use crate::server::{spec_dispatch, AegisMcpServer, ServerIdV};
use vstd::prelude::*;

verus! {

/// The reply line one input line gets, if any: none when the line does not
/// parse, carries no request, or carries a notification.
pub open spec fn step_spec(sid: ServerIdV, line: Seq<char>) -> Option<Seq<char>> {
    match parsed_json(line) {
        None => None,
        Some(doc) => match spec_request_of(doc) {
            None => None,
            Some(req) => match spec_dispatch(sid, req) {
                None => None,
                Some(resp) => Some(text_of(response_doc(resp))),
            },
        },
    }
}

/// The reply lines a whole run writes, in order: one per input line that
/// gets a reply, none for the rest.
pub open spec fn session_outputs(sid: ServerIdV, lines: Seq<Seq<char>>) -> Seq<Seq<char>>
    decreases lines.len(),
{
    if lines.len() == 0 {
        Seq::empty()
    } else {
        (match step_spec(sid, lines[0]) {
            Some(o) => seq![o],
            None => Seq::<Seq<char>>::empty(),
        }) + session_outputs(sid, lines.drop_first())
    }
}

/// The models of a sequence of lines.
pub open spec fn views_of(ss: Seq<String>) -> Seq<Seq<char>> {
    ss.map_values(|s: String| s@)
}

/// Appending one line to a run appends what that line alone yields.
proof fn lemma_outputs_snoc(sid: ServerIdV, ls: Seq<Seq<char>>, x: Seq<char>)
    ensures
        session_outputs(sid, ls.push(x)) == session_outputs(sid, ls) + (match step_spec(sid, x) {
            Some(o) => seq![o],
            None => Seq::<Seq<char>>::empty(),
        }),
    decreases ls.len(),
{
    reveal_with_fuel(session_outputs, 3);
    let added = (match step_spec(sid, x) {
        Some(o) => seq![o],
        None => Seq::<Seq<char>>::empty(),
    });
    if ls.len() == 0 {
        assert(ls.push(x)[0] == x);
        assert(ls.push(x).drop_first() =~= Seq::<Seq<char>>::empty());
        assert(added + Seq::<Seq<char>>::empty() =~= added);
        assert(session_outputs(sid, ls) + added =~= added);
    } else {
        assert(ls.push(x)[0] == ls[0]);
        assert(ls.push(x).drop_first() =~= ls.drop_first().push(x));
        lemma_outputs_snoc(sid, ls.drop_first(), x);
        let head = (match step_spec(sid, ls[0]) {
            Some(o) => seq![o],
            None => Seq::<Seq<char>>::empty(),
        });
        assert(head + (session_outputs(sid, ls.drop_first()) + added) =~= (head
            + session_outputs(sid, ls.drop_first())) + added);
    }
}

impl AegisMcpServer {
    /// One cycle of the loop: decode, dispatch, encode. The reply line
    /// carries no raw newline, and parses back, as a generic structured
    /// document, to one carrying exactly one of the `result` and `error`
    /// fields.
    pub fn handle_line(&self, line: &str) -> (out: Option<String>)
        ensures
            match out {
                Some(s) => step_spec(self@, line@) == Some(s@) && (forall|i: int|
                    0 <= i < s@.len() ==> s@[i] != '\n') && (parsed_json(s@) matches Some(d)
                    && ((lookup(d, "result"@) is Some) != (lookup(d, "error"@) is Some))),
                None => step_spec(self@, line@) is None,
            },
    {
        let req = match decode(line) {
            Err(_) => {
                return None;
            },
            Ok(r) => r,
        };
        let ghost rv = req@;
        match self.handle_request(req) {
            None => None,
            Some(resp) => {
                let ghost respv = resp@;
                proof {
                    crate::server::lemma_dispatch_wf(self@, rv);
                    lemma_reply_doc_exclusive(respv);
                }
                Some(encode(resp))
            },
        }
    }

    /// A whole run over a finished input: every line handled in order, the
    /// reply lines collected in order. One line's failure never ends the
    /// run.
    pub fn run_session(&self, lines: &Vec<String>) -> (outs: Vec<String>)
        ensures
            views_of(outs@) == session_outputs(self@, views_of(lines@)),
    {
        let ghost all = views_of(lines@);
        let mut outs: Vec<String> = Vec::new();
        let mut i: usize = 0;
        while i < lines.len()
            invariant
                0 <= i <= lines.len(),
                all == views_of(lines@),
                all.len() == lines@.len(),
                views_of(outs@) == session_outputs(self@, all.take(i as int)),
            decreases lines.len() - i,
        {
            let ghost prefix = all.take(i as int);
            let ghost before = views_of(outs@);
            match self.handle_line(lines[i].as_str()) {
                None => {},
                Some(o) => {
                    let ghost go = o@;
                    outs.push(o);
                    proof {
                        assert(views_of(outs@) =~= before.push(go));
                    }
                },
            }
            proof {
                lemma_outputs_snoc(self@, prefix, all[i as int]);
                assert(prefix.push(all[i as int]) =~= all.take(i as int + 1));
                assert(views_of(outs@) =~= session_outputs(self@, all.take(i as int + 1)));
            }
            i = i + 1;
        }
        proof {
            assert(all.take(lines@.len() as int) =~= all);
        }
        outs
    }
}

/// One undecodable line yields nothing and does not end the session: a
/// following line that carries a request with an identifier (and not the
/// pure notification method) gets exactly its one reply.
pub proof fn lemma_malformed_line_isolated(sid: ServerIdV, bad: Seq<char>, good: Seq<char>)
    requires
        parsed_json(bad) is None,
        parsed_json(good) matches Some(doc) && spec_request_of(doc) matches Some(req) && req.id
            is Some && req.method != "notifications/initialized"@,
    ensures
        step_spec(sid, good) is Some,
        session_outputs(sid, seq![bad, good]) == seq![step_spec(sid, good)->0],
{
    reveal_with_fuel(session_outputs, 4);
    let doc = parsed_json(good)->0;
    let req = spec_request_of(doc)->0;
    crate::server::lemma_request_gets_reply(sid, req);
    let ls = seq![bad, good];
    assert(ls.drop_first() =~= seq![good]);
    assert(seq![good].drop_first() =~= Seq::<Seq<char>>::empty());
    let reply = step_spec(sid, good)->0;
    assert(session_outputs(sid, seq![good]) =~= seq![reply]);
    assert(session_outputs(sid, ls) =~= seq![reply]);
}

} // verus!

