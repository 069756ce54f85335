use vstd::prelude::*;
use crate::text::{decimal_text, natural_to_text};

verus! {

/// Whether Rocket knows a status code (`rocket::http::Status::from_code`
/// gives `Some` exactly for these).
pub open spec fn known_status(code: u16) -> bool {
    ||| 100 <= code <= 102
    ||| 200 <= code <= 208
    ||| code == 226
    ||| 300 <= code <= 305
    ||| 307 <= code <= 308
    ||| 400 <= code <= 418
    ||| 421 <= code <= 424
    ||| code == 426
    ||| 428 <= code <= 429
    ||| code == 431
    ||| code == 451
    ||| 500 <= code <= 508
    ||| 510 <= code <= 511
}

/// Calls `rocket::http::Status::from_code`, which gives the status of a
/// code from its table of standard codes and `None` for any other code.
#[verifier::external_body]
fn status_from_code(code: u16) -> (r: Option<u16>)
    ensures
        r == (if known_status(code) { Some(code) } else { None::<u16> }),
{
    rocket::http::Status::from_code(code).map(|s| s.code)
}

/// The path segments of a proxied request, joined by `/`.
pub open spec fn joined(segments: Seq<Seq<char>>) -> Seq<char>
    decreases segments.len(),
{
    if segments.len() == 0 {
        Seq::empty()
    } else if segments.len() == 1 {
        segments[0]
    } else {
        joined(segments.drop_last()) + "/"@ + segments.last()
    }
}

/// The query pairs of a proxied request as `k=v` joined by `&`.
pub open spec fn query_text(pairs: Seq<(Seq<char>, Seq<char>)>) -> Seq<char>
    decreases pairs.len(),
{
    if pairs.len() == 0 {
        Seq::empty()
    } else if pairs.len() == 1 {
        pairs[0].0 + "="@ + pairs[0].1
    } else {
        query_text(pairs.drop_last()) + "&"@ + pairs.last().0 + "="@ + pairs.last().1
    }
}

/// Views of query pairs.
pub open spec fn pairs_view(pairs: Seq<(String, String)>) -> Seq<(Seq<char>, Seq<char>)> {
    pairs.map_values(|p: (String, String)| (p.0@, p.1@))
}

/// Joins the segments of a proxied path with `/`.
pub fn join_segments(segments: &Vec<String>) -> (r: String)
    ensures
        r@ == joined(segments@.map_values(|s: String| s@)),
{
    let ghost views = segments@.map_values(|s: String| s@);
    let mut r = String::new();
    let mut i: usize = 0;
    proof { reveal_strlit("/"); }
    while i < segments.len()
        invariant
            i <= segments.len(),
            views == segments@.map_values(|s: String| s@),
            r@ == joined(views.take(i as int)),
        decreases segments.len() - i,
    {
        let ghost before = views.take(i as int);
        let ghost after = views.take(i as int + 1);
        assert(after.drop_last() =~= before);
        assert(after.last() == segments@[i as int]@);
        if i == 0 {
            r = segments[i].clone();
        } else {
            r = r.concat("/").concat(segments[i].as_str());
        }
        i = i + 1;
    }
    assert(views.take(segments@.len() as int) =~= views);
    r
}

/// The path requested from the frontend for `/resume_editor/<path>`: with
/// the query pairs appended when there are any.
pub open spec fn frontend_path_text(path: Seq<char>, pairs: Seq<(Seq<char>, Seq<char>)>) -> Seq<char> {
    if pairs.len() == 0 {
        "/resume_editor/"@ + path
    } else {
        "/resume_editor/"@ + path + "?"@ + query_text(pairs)
    }
}

/// The path requested from the frontend for `/resume_editor/<path>?<query>`.
pub fn frontend_path(path: &str, query: &Vec<(String, String)>) -> (r: String)
    ensures
        r@ == frontend_path_text(path@, pairs_view(query@)),
{
    let ghost pv = pairs_view(query@);
    proof {
        reveal_strlit("/resume_editor/");
        reveal_strlit("?");
        reveal_strlit("=");
        reveal_strlit("&");
    }
    let base = String::from_str("/resume_editor/").concat(path);
    if query.len() == 0 {
        return base;
    }
    let mut q = String::new();
    let mut i: usize = 0;
    while i < query.len()
        invariant
            i <= query.len(),
            pv == pairs_view(query@),
            q@ == query_text(pv.take(i as int)),
        decreases query.len() - i,
    {
        let ghost before = pv.take(i as int);
        let ghost after = pv.take(i as int + 1);
        assert(after.drop_last() =~= before);
        assert(after.last() == (query@[i as int].0@, query@[i as int].1@));
        let (k, v) = &query[i];
        if i == 0 {
            q = k.clone().concat("=").concat(v.as_str());
        } else {
            q = q.concat("&").concat(k.as_str()).concat("=").concat(v.as_str());
        }
        i = i + 1;
    }
    assert(pv.take(query@.len() as int) =~= pv);
    base.concat("?").concat(q.as_str())
}

/// The URL of the frontend server for a path.
pub fn upstream_url(port: u16, path: &str) -> (r: String)
    ensures
        r@ == "http://localhost:"@ + decimal_text(port as nat) + path@,
{
    let digits = natural_to_text(port as u64);
    String::from_str("http://localhost:").concat(digits.as_str()).concat(path)
}

/// What the frontend server answered.
pub struct UpstreamReply {
    pub status: u16,
    pub content_type: Option<String>,
    pub body: Vec<u8>,
}

/// The answer the proxy sends.
pub struct ProxyResponse {
    pub status: u16,
    pub content_type: Option<String>,
    pub body: Vec<u8>,
}

/// Status of a bad gateway.
pub open spec fn bad_gateway() -> u16 {
    502
}

/// The proxy's answer: a failed request to the frontend (sending it or
/// reading its body) is a bad gateway; otherwise the frontend's status when
/// it is a standard one (else bad gateway), content type and body.
pub fn proxy_response(upstream: Option<UpstreamReply>) -> (r: Result<ProxyResponse, u16>)
    ensures
        match upstream {
            None => r == Err::<ProxyResponse, u16>(bad_gateway()),
            Some(u) => r matches Ok(p) && {
                &&& p.status == (if known_status(u.status) { u.status } else { bad_gateway() })
                &&& p.content_type == u.content_type
                &&& p.body@ == u.body@
            },
        },
{
    match upstream {
        None => Err(502),
        Some(u) => {
            let status = match status_from_code(u.status) {
                Some(s) => s,
                None => 502,
            };
            Ok(ProxyResponse { status, content_type: u.content_type, body: u.body })
        },
    }
}

} // verus!
