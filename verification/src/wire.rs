//! The wire format of the admin API. A status request is a GET on
//! [`status_path`]; an action request is a POST on [`action_path`] whose
//! body is built by [`action_request_json`]. Either answer carries a JSON
//! object that maps every known server to its status;
//! [`parse_status_response`] reads it. Server and status names travel as
//! their literal tags, bit-exact.

use vstd::prelude::*;

use crate::model::{ActionRequest, Server, ServerStatuses, Status, StatusMsg};

verus! {

/// Path of the status GET, sent once on load.
pub open spec fn spec_status_path() -> Seq<char> {
    "/vhadminapi/status"@
}

pub fn status_path() -> (r: &'static str)
    ensures
        r@ == spec_status_path(),
{
    "/vhadminapi/status"
}

/// Path of the action POST.
pub open spec fn spec_action_path() -> Seq<char> {
    "/vhadminapi/action"@
}

pub fn action_path() -> (r: &'static str)
    ensures
        r@ == spec_action_path(),
{
    "/vhadminapi/action"
}

/// The body of an action POST: `{"server":"<name>","action":"<tag>"}`.
pub open spec fn spec_action_request_json(req: ActionRequest) -> Seq<char> {
    "{\"server\":\""@ + req.server.spec_name() + "\",\"action\":\""@ + req.action.spec_tag()
        + "\"}"@
}

pub fn action_request_json(req: &ActionRequest) -> (r: String)
    ensures
        r@ == spec_action_request_json(*req),
{
    let mut out = String::from_str("{\"server\":\"");
    out.append(req.server.name().as_str());
    out.append("\",\"action\":\"");
    out.append(req.action.tag().as_str());
    out.append("\"}");
    out
}

// ---------------------------------------------------------------------------
// The status response.
// ---------------------------------------------------------------------------

/// The whitespace JSON allows between tokens. None of the tokens of a
/// status response contains such a character, so a response may be read
/// with all of them removed.
pub open spec fn is_json_ws(c: char) -> bool {
    c == ' ' || c == '\n' || c == '\r' || c == '\t'
}

/// `s` with every JSON whitespace character removed.
pub open spec fn strip_ws(s: Seq<char>) -> Seq<char> {
    s.filter(|c: char| !is_json_ws(c))
}

/// One entry of the response map: `"<name>":"<tag>"`.
pub open spec fn spec_entry(s: Server, st: Status) -> Seq<char> {
    "\""@ + s.spec_name() + "\":\""@ + st.spec_tag() + "\""@
}

/// A whole response body, whitespace removed, with the two entries in
/// one of the two orders: `{"servers":{<entry>,<entry>}}`.
pub open spec fn spec_status_json(st: ServerStatuses, default_first: bool) -> Seq<char> {
    if default_first {
        "{\"servers\":{"@ + spec_entry(Server::Default, st.default_status) + ","@ + spec_entry(
            Server::Rotis,
            st.rotis_status,
        ) + "}}"@
    } else {
        "{\"servers\":{"@ + spec_entry(Server::Rotis, st.rotis_status) + ","@ + spec_entry(
            Server::Default,
            st.default_status,
        ) + "}}"@
    }
}

/// When the text `s` is a well-formed status response reporting `st`:
/// stripped of whitespace it spells the response object for `st`, with
/// exactly one entry per known server, in either order.
pub open spec fn spec_response_matches(s: Seq<char>, st: ServerStatuses) -> bool {
    exists|default_first: bool| strip_ws(s) == spec_status_json(st, default_first)
}

// ---------------------------------------------------------------------------
// Helpers on character sequences.
// ---------------------------------------------------------------------------

/// Appends every character of `s` to `v`.
fn push_chars(v: &mut Vec<char>, s: &str)
    ensures
        final(v)@ == old(v)@ + s@,
{
    let n = s.unicode_len();
    let mut i: usize = 0;
    while i < n
        invariant
            n == s@.len(),
            0 <= i <= n,
            v@ == old(v)@ + s@.subrange(0, i as int),
        decreases n - i,
    {
        let c = s.get_char(i);
        v.push(c);
        proof {
            assert(s@.subrange(0, i + 1) =~= s@.subrange(0, i as int).push(s@[i as int]));
            assert(old(v)@ + s@.subrange(0, i + 1) =~= (old(v)@ + s@.subrange(0, i as int)).push(
                s@[i as int],
            ));
        }
        i += 1;
    }
    proof {
        assert(s@.subrange(0, n as int) =~= s@);
    }
}

/// Appends one response entry for `s` in status `st`.
fn push_entry(v: &mut Vec<char>, s: &Server, st: &Status)
    ensures
        final(v)@ == old(v)@ + spec_entry(*s, *st),
{
    push_chars(v, "\"");
    push_chars(v, s.name().as_str());
    push_chars(v, "\":\"");
    push_chars(v, st.tag().as_str());
    push_chars(v, "\"");
    proof {
        assert(v@ =~= old(v)@ + spec_entry(*s, *st));
    }
}

/// The response body that reports `st`, whitespace-free, with the
/// entries in the given order.
fn response_candidate(st: &ServerStatuses, default_first: bool) -> (v: Vec<char>)
    ensures
        v@ == spec_status_json(*st, default_first),
{
    let mut v: Vec<char> = Vec::new();
    push_chars(&mut v, "{\"servers\":{");
    if default_first {
        push_entry(&mut v, &Server::Default, &st.default_status);
        push_chars(&mut v, ",");
        push_entry(&mut v, &Server::Rotis, &st.rotis_status);
    } else {
        push_entry(&mut v, &Server::Rotis, &st.rotis_status);
        push_chars(&mut v, ",");
        push_entry(&mut v, &Server::Default, &st.default_status);
    }
    push_chars(&mut v, "}}");
    proof {
        assert(v@ =~= spec_status_json(*st, default_first));
    }
    v
}

/// The characters of `s` with JSON whitespace removed.
fn strip(s: &str) -> (v: Vec<char>)
    ensures
        v@ == strip_ws(s@),
{
    let n = s.unicode_len();
    let mut v: Vec<char> = Vec::new();
    let mut i: usize = 0;
    while i < n
        invariant
            n == s@.len(),
            0 <= i <= n,
            v@ == strip_ws(s@.subrange(0, i as int)),
        decreases n - i,
    {
        let c = s.get_char(i);
        proof {
            reveal_with_fuel(Seq::<char>::filter, 2);
            assert(s@.subrange(0, i + 1).drop_last() =~= s@.subrange(0, i as int));
            assert(s@.subrange(0, i + 1).last() == s@[i as int]);
        }
        if !(c == ' ' || c == '\n' || c == '\r' || c == '\t') {
            v.push(c);
        }
        i += 1;
    }
    proof {
        assert(s@.subrange(0, n as int) =~= s@);
    }
    v
}

/// The six statuses in a fixed order, for exhaustive enumeration.
pub open spec fn spec_status_at(i: int) -> Status {
    if i == 0 {
        Status::Stopped
    } else if i == 1 {
        Status::Starting
    } else if i == 2 {
        Status::Running
    } else if i == 3 {
        Status::ShuttingDown
    } else if i == 4 {
        Status::Updating
    } else {
        Status::Unknown
    }
}

fn status_at(i: usize) -> (st: Status)
    requires
        i < 6,
    ensures
        st == spec_status_at(i as int),
{
    if i == 0 {
        Status::Stopped
    } else if i == 1 {
        Status::Starting
    } else if i == 2 {
        Status::Running
    } else if i == 3 {
        Status::ShuttingDown
    } else if i == 4 {
        Status::Updating
    } else {
        Status::Unknown
    }
}

/// The position of `st` in the order of [`spec_status_at`].
pub open spec fn spec_status_index(st: Status) -> int {
    match st {
        Status::Stopped => 0,
        Status::Starting => 1,
        Status::Running => 2,
        Status::ShuttingDown => 3,
        Status::Updating => 4,
        Status::Unknown => 5,
    }
}

proof fn lemma_status_enumeration(st: Status)
    ensures
        0 <= spec_status_index(st) < 6,
        spec_status_at(spec_status_index(st)) == st,
{
}

/// Whether two character vectors spell the same text.
fn chars_eq(a: &Vec<char>, b: &Vec<char>) -> (r: bool)
    ensures
        r == (a@ == b@),
{
    if a.len() != b.len() {
        return false;
    }
    let mut i: usize = 0;
    while i < a.len()
        invariant
            a@.len() == b@.len(),
            0 <= i <= a@.len(),
            forall|j: int| 0 <= j < i ==> a@[j] == b@[j],
        decreases a@.len() - i,
    {
        if a[i] != b[i] {
            return false;
        }
        i += 1;
    }
    proof {
        assert(a@ =~= b@);
    }
    true
}

/// Searches every well-formed whitespace-free response body for the one
/// that spells exactly `stripped`: each pair of statuses, with the two
/// entries in either order.
fn find_match(stripped: &Vec<char>) -> (r: Option<(ServerStatuses, bool)>)
    ensures
        match r {
            Some(m) => stripped@ == spec_status_json(m.0, m.1),
            None => forall|st: ServerStatuses, df: bool| stripped@ != spec_status_json(st, df),
        },
{
    let mut oi: usize = 0;
    while oi < 2
        invariant
            0 <= oi <= 2,
            forall|st: ServerStatuses, dfx: bool|
                (if dfx {
                    oi >= 1
                } else {
                    oi >= 2
                }) ==> stripped@ != spec_status_json(st, dfx),
        decreases 2 - oi,
    {
        let df = oi == 0;
        let mut di: usize = 0;
        while di < 6
            invariant
                0 <= di <= 6,
                oi < 2,
                df == (oi == 0),
                forall|st: ServerStatuses, dfx: bool|
                    (if dfx {
                        oi >= 1
                    } else {
                        oi >= 2
                    }) ==> stripped@ != spec_status_json(st, dfx),
                forall|st: ServerStatuses|
                    spec_status_index(st.default_status) < di ==> stripped@ != spec_status_json(
                        st,
                        df,
                    ),
            decreases 6 - di,
        {
            let d = status_at(di);
            let mut ri: usize = 0;
            while ri < 6
                invariant
                    0 <= ri <= 6,
                    di < 6,
                    oi < 2,
                    df == (oi == 0),
                    d == spec_status_at(di as int),
                    forall|st: ServerStatuses, dfx: bool|
                        (if dfx {
                            oi >= 1
                        } else {
                            oi >= 2
                        }) ==> stripped@ != spec_status_json(st, dfx),
                    forall|st: ServerStatuses|
                        spec_status_index(st.default_status) < di ==> stripped@
                            != spec_status_json(st, df),
                    forall|st: ServerStatuses|
                        st.default_status == d && spec_status_index(st.rotis_status) < ri
                            ==> stripped@ != spec_status_json(st, df),
                decreases 6 - ri,
            {
                let rs = status_at(ri);
                let cand = ServerStatuses { default_status: d, rotis_status: rs };
                let cv = response_candidate(&cand, df);
                if chars_eq(stripped, &cv) {
                    return Some((cand, df));
                }
                proof {
                    assert forall|st: ServerStatuses|
                        st.default_status == d && spec_status_index(st.rotis_status) < ri
                            + 1 implies stripped@ != spec_status_json(st, df) by {
                        if spec_status_index(st.rotis_status) == ri {
                            lemma_status_enumeration(st.rotis_status);
                            assert(st == cand);
                        }
                    };
                }
                ri += 1;
            }
            proof {
                assert forall|st: ServerStatuses|
                    spec_status_index(st.default_status) < di + 1 implies stripped@
                    != spec_status_json(st, df) by {
                    if spec_status_index(st.default_status) == di {
                        lemma_status_enumeration(st.default_status);
                        lemma_status_enumeration(st.rotis_status);
                    }
                };
            }
            di += 1;
        }
        proof {
            assert forall|st: ServerStatuses, dfx: bool|
                (if dfx {
                    oi + 1 >= 1
                } else {
                    oi + 1 >= 2
                }) implies stripped@ != spec_status_json(st, dfx) by {
                if dfx == df {
                    lemma_status_enumeration(st.default_status);
                }
            };
        }
        oi += 1;
    }
    None
}

/// Reads a status response. Returns the reported statuses exactly when
/// the text, stripped of whitespace, is the response object for them;
/// returns nothing on any other text.
pub fn parse_status_response(s: &str) -> (r: Option<ServerStatuses>)
    ensures
        match r {
            Some(st) => spec_response_matches(s@, st),
            None => forall|st: ServerStatuses| !spec_response_matches(s@, st),
        },
{
    let stripped = strip(s);
    match find_match(&stripped) {
        Some(m) => {
            proof {
                assert(strip_ws(s@) == spec_status_json(m.0, m.1));
            }
            Some(m.0)
        },
        None => {
            proof {
                assert forall|st: ServerStatuses| !spec_response_matches(s@, st) by {
                    assert(forall|df: bool| strip_ws(s@) != spec_status_json(st, df));
                };
            }
            None
        },
    }
}

/// The event a finished status or action request feeds back to the page:
/// the reported statuses when the body reads as a status response, the
/// error event otherwise.
pub fn response_to_msg(body: &str) -> (m: StatusMsg)
    ensures
        match m {
            StatusMsg::StatusUpdate(st) => spec_response_matches(body@, st),
            StatusMsg::Error => forall|st: ServerStatuses| !spec_response_matches(body@, st),
            _ => false,
        },
{
    match parse_status_response(body) {
        Some(st) => StatusMsg::StatusUpdate(st),
        None => StatusMsg::Error,
    }
}

} // verus!
