//! Building the outbound request relayed to an upstream server: the
//! original method and path, the original headers overlaid with the
//! configured extra headers (the extras win on a shared name), and a
//! `Host` header forced to the upstream address.
use vstd::prelude::*;
use vstd::utf8::encode_utf8;

use crate::http::headers;
use crate::http::request::Request;
use crate::http::request::method_bytes;
use crate::scan;
use crate::wire;

verus! {

/// The name of the header forced to the upstream address.
pub open spec fn host_key() -> Seq<u8> {
    seq![72u8, 111u8, 115u8, 116u8]
}

/// Build the `Host` header name as a vector.
fn host_key_vec() -> (v: Vec<u8>)
    ensures
        v@ == host_key(),
{
    let mut v: Vec<u8> = Vec::new();
    v.push(72u8);
    v.push(111u8);
    v.push(115u8);
    v.push(116u8);
    proof {
        assert(v@ =~= host_key());
    }
    v
}

/// The configured extra headers, as character sequences.
pub open spec fn extras_view(a: Option<Vec<(String, String)>>) -> Seq<(Seq<char>, Seq<char>)> {
    match a {
        Option::None => Seq::empty(),
        Option::Some(v) => v.deep_view(),
    }
}

/// The base headers with the extra headers written over them, in order:
/// an extra header wins over an original one of the same name.
pub open spec fn overlay(
    base: Seq<(Seq<u8>, Seq<u8>)>,
    extras: Seq<(Seq<char>, Seq<char>)>,
) -> Seq<(Seq<u8>, Seq<u8>)>
    decreases extras.len(),
{
    if extras.len() == 0 {
        base
    } else {
        overlay(
            headers::insert_pair(base, encode_utf8(extras[0].0), encode_utf8(extras[0].1)),
            extras.drop_first(),
        )
    }
}

/// The headers sent upstream: the request's own, the extras written over
/// them, and `Host` forced to the upstream address last.
pub open spec fn upstream_headers(
    base: Seq<(Seq<u8>, Seq<u8>)>,
    extras: Seq<(Seq<char>, Seq<char>)>,
    to: Seq<char>,
) -> Seq<(Seq<u8>, Seq<u8>)> {
    headers::insert_pair(overlay(base, extras), host_key(), encode_utf8(to))
}

/// The rendering of the header entries from `i` on: one `name: value`
/// line each.
pub open spec fn render_from(hs: Seq<(Seq<u8>, Seq<u8>)>, i: int) -> Seq<u8>
    decreases hs.len() - i + 1,
{
    if i < 0 || i >= hs.len() {
        Seq::empty()
    } else {
        hs[i].0 + wire::colon_sp() + hs[i].1 + wire::crlf() + render_from(hs, i + 1)
    }
}

/// The full outbound request: a request line carrying the original method
/// and path and the engine's version, the header lines, and the blank
/// line.
pub open spec fn upstream_request(
    m: crate::http::request::Method,
    path: Seq<char>,
    hs: Seq<(Seq<u8>, Seq<u8>)>,
) -> Seq<u8> {
    method_bytes(m) + wire::sp() + encode_utf8(path) + wire::sp() + wire::http10() + wire::crlf()
        + render_from(hs, 0) + wire::crlf()
}

/// Build the bytes relayed upstream for a request matched to a proxy
/// route.
#[verifier::loop_isolation(false)]
pub fn build_upstream_request(
    req: &Request,
    to: &String,
    add_headers: &Option<Vec<(String, String)>>,
) -> (out: Vec<u8>)
    requires
        req.wf(),
    ensures
        out@ == upstream_request(
            req.method,
            req.path@,
            upstream_headers(req.headers@, extras_view(*add_headers), to@),
        ),
{
    let mut hm = req.headers.duplicate();
    let ghost base = req.headers@;
    match add_headers {
        Option::None => {},
        Option::Some(ex) => {
            let ghost exd = ex.deep_view();
            let n: usize = ex.len();
            proof {
                assert(exd.subrange(0, n as int) =~= exd);
            }
            let mut i: usize = 0;
            while i < n
                invariant
                    n == ex@.len(),
                    n == exd.len(),
                    i <= n,
                    hm.wf(),
                    overlay(hm@, exd.subrange(i as int, n as int)) == overlay(base, exd),
                decreases n - i,
            {
                let k = vstd::slice::slice_to_vec(ex[i].0.as_str().as_bytes());
                let v = vstd::slice::slice_to_vec(ex[i].1.as_str().as_bytes());
                let ghost pre = hm@;
                let ghost rest = exd.subrange(i as int, n as int);
                hm.insert(k, v);
                proof {
                    assert(exd[i as int] == (ex@[i as int].0@, ex@[i as int].1@));
                    assert(rest[0] == exd[i as int]);
                    assert(rest.drop_first() =~= exd.subrange(i + 1, n as int));
                    assert(overlay(pre, rest) == overlay(hm@, rest.drop_first()));
                }
                i = i + 1;
            }
            proof {
                assert(exd.subrange(n as int, n as int).len() == 0);
            }
        },
    }
    let hk = host_key_vec();
    let hv = vstd::slice::slice_to_vec(to.as_str().as_bytes());
    hm.insert(hk, hv);
    let ghost hs = hm@;
    proof {
        assert(hs == upstream_headers(base, extras_view(*add_headers), to@));
    }
    let mut out = req.method.token();
    out.push(32u8);
    scan::push_bytes(&mut out, req.path.as_str().as_bytes());
    out.push(32u8);
    let h10 = wire::http10_vec();
    scan::push_bytes(&mut out, h10.as_slice());
    let crlf_v = wire::crlf_vec();
    scan::push_bytes(&mut out, crlf_v.as_slice());
    let ghost pre = method_bytes(req.method) + wire::sp() + encode_utf8(req.path@) + wire::sp()
        + wire::http10() + wire::crlf();
    proof {
        assert(out@ =~= pre);
    }
    let colon_v = wire::colon_sp_vec();
    let n: usize = hm.len();
    let mut i: usize = 0;
    while i < n
        invariant
            n == hs.len(),
            i <= n,
            hm@ == hs,
            out@ + render_from(hs, i as int) =~= pre + render_from(hs, 0),
        decreases n - i,
    {
        let ghost before = out@;
        scan::push_bytes(&mut out, hm.key_at(i).as_slice());
        scan::push_bytes(&mut out, colon_v.as_slice());
        scan::push_bytes(&mut out, hm.value_at(i).as_slice());
        scan::push_bytes(&mut out, crlf_v.as_slice());
        proof {
            assert(out@ =~= before + (hs[i as int].0 + wire::colon_sp() + hs[i as int].1
                + wire::crlf()));
            assert(before + render_from(hs, i as int) =~= out@ + render_from(hs, i + 1));
        }
        i = i + 1;
    }
    scan::push_bytes(&mut out, crlf_v.as_slice());
    proof {
        assert(render_from(hs, n as int).len() == 0);
        assert(out@ =~= pre + render_from(hs, 0) + wire::crlf());
        assert(out@ =~= upstream_request(req.method, req.path@, hs));
    }
    out
}

} // verus!
