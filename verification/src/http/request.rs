//! Interpreting HTTP requests: from a raw byte buffer to a structured
//! request, or a precise account of why the buffer is not one.
use vstd::prelude::*;

use crate::http::headers;
use crate::http::headers::HeaderMap;
use crate::scan;
use crate::wire;

verus! {

/// The nine request methods of the protocol. Every one is recognized;
/// what is done with a request is decided by the matched route, not the
/// method.
#[derive(Debug, Clone, Copy, PartialEq, Eq, Structural)]
pub enum Method {
    Get,
    Head,
    Post,
    Put,
    Delete,
    Connect,
    Options,
    Trace,
    Patch,
}

/// Why a byte buffer was rejected as a request. Exactly one of these is
/// reported for every rejected buffer, and the parser's contract says
/// which.
#[derive(Debug, Clone, Copy, PartialEq, Eq, Structural)]
pub enum RequestError {
    /// The buffer holds no blank-line terminator.
    IncompleteRequest,
    /// The header block before the terminator exceeds the fixed maximum.
    HeaderTooLarge,
    /// The request line has fewer than three space-separated tokens.
    MalformedRequestLine,
    /// The method token is not one of the nine known methods.
    UnsupportedMethod,
    /// The version token is neither `HTTP/1.0` nor `HTTP/1.1`.
    UnsupportedVersion,
    /// The path token does not percent-decode to text.
    MalformedPath,
    /// A header line lacks the name/value separator.
    MalformedHeader,
}

/// The canonical wire token of each method.
pub open spec fn method_bytes(m: Method) -> Seq<u8> {
    match m {
        Method::Get => seq![71u8, 69u8, 84u8],
        Method::Head => seq![72u8, 69u8, 65u8, 68u8],
        Method::Post => seq![80u8, 79u8, 83u8, 84u8],
        Method::Put => seq![80u8, 85u8, 84u8],
        Method::Delete => seq![68u8, 69u8, 76u8, 69u8, 84u8, 69u8],
        Method::Connect => seq![67u8, 79u8, 78u8, 78u8, 69u8, 67u8, 84u8],
        Method::Options => seq![79u8, 80u8, 84u8, 73u8, 79u8, 78u8, 83u8],
        Method::Trace => seq![84u8, 82u8, 65u8, 67u8, 69u8],
        Method::Patch => seq![80u8, 65u8, 84u8, 67u8, 72u8],
    }
}

/// The method a token names, matched case-sensitively.
pub open spec fn method_of(tok: Seq<u8>) -> Option<Method> {
    if tok == method_bytes(Method::Get) {
        Some(Method::Get)
    } else if tok == method_bytes(Method::Head) {
        Some(Method::Head)
    } else if tok == method_bytes(Method::Post) {
        Some(Method::Post)
    } else if tok == method_bytes(Method::Put) {
        Some(Method::Put)
    } else if tok == method_bytes(Method::Delete) {
        Some(Method::Delete)
    } else if tok == method_bytes(Method::Connect) {
        Some(Method::Connect)
    } else if tok == method_bytes(Method::Options) {
        Some(Method::Options)
    } else if tok == method_bytes(Method::Trace) {
        Some(Method::Trace)
    } else if tok == method_bytes(Method::Patch) {
        Some(Method::Patch)
    } else {
        None
    }
}

impl Method {
    /// The wire token of this method, as a fresh vector.
    pub fn token(&self) -> (v: Vec<u8>)
        ensures
            v@ == method_bytes(*self),
    {
        let mut v: Vec<u8> = Vec::new();
        match self {
            Method::Get => {
                v.push(71u8);
                v.push(69u8);
                v.push(84u8);
            },
            Method::Head => {
                v.push(72u8);
                v.push(69u8);
                v.push(65u8);
                v.push(68u8);
            },
            Method::Post => {
                v.push(80u8);
                v.push(79u8);
                v.push(83u8);
                v.push(84u8);
            },
            Method::Put => {
                v.push(80u8);
                v.push(85u8);
                v.push(84u8);
            },
            Method::Delete => {
                v.push(68u8);
                v.push(69u8);
                v.push(76u8);
                v.push(69u8);
                v.push(84u8);
                v.push(69u8);
            },
            Method::Connect => {
                v.push(67u8);
                v.push(79u8);
                v.push(78u8);
                v.push(78u8);
                v.push(69u8);
                v.push(67u8);
                v.push(84u8);
            },
            Method::Options => {
                v.push(79u8);
                v.push(80u8);
                v.push(84u8);
                v.push(73u8);
                v.push(79u8);
                v.push(78u8);
                v.push(83u8);
            },
            Method::Trace => {
                v.push(84u8);
                v.push(82u8);
                v.push(65u8);
                v.push(67u8);
                v.push(69u8);
            },
            Method::Patch => {
                v.push(80u8);
                v.push(65u8);
                v.push(84u8);
                v.push(67u8);
                v.push(72u8);
            },
        }
        proof {
            assert(v@ =~= method_bytes(*self));
        }
        v
    }

    /// Recognize a method token.
    pub fn try_from(tok: &[u8]) -> (r: Result<Method, RequestError>)
        ensures
            match r {
                Ok(m) => method_of(tok@) == Some(m),
                Err(e) => method_of(tok@) is None && e == RequestError::UnsupportedMethod,
            },
    {
        let t0 = Method::Get.token();
        if scan::bytes_eq(tok, t0.as_slice()) {
            return Ok(Method::Get);
        }
        let t1 = Method::Head.token();
        if scan::bytes_eq(tok, t1.as_slice()) {
            return Ok(Method::Head);
        }
        let t2 = Method::Post.token();
        if scan::bytes_eq(tok, t2.as_slice()) {
            return Ok(Method::Post);
        }
        let t3 = Method::Put.token();
        if scan::bytes_eq(tok, t3.as_slice()) {
            return Ok(Method::Put);
        }
        let t4 = Method::Delete.token();
        if scan::bytes_eq(tok, t4.as_slice()) {
            return Ok(Method::Delete);
        }
        let t5 = Method::Connect.token();
        if scan::bytes_eq(tok, t5.as_slice()) {
            return Ok(Method::Connect);
        }
        let t6 = Method::Options.token();
        if scan::bytes_eq(tok, t6.as_slice()) {
            return Ok(Method::Options);
        }
        let t7 = Method::Trace.token();
        if scan::bytes_eq(tok, t7.as_slice()) {
            return Ok(Method::Trace);
        }
        let t8 = Method::Patch.token();
        if scan::bytes_eq(tok, t8.as_slice()) {
            return Ok(Method::Patch);
        }
        Err(RequestError::UnsupportedMethod)
    }
}

/// What percent-decoding makes of a path token, when the token and its
/// decoding are well-formed text. Named, not spelled out: the decoding is
/// a function of the token alone.
pub uninterp spec fn url_decoded(token: Seq<u8>) -> Option<Seq<char>>;

/// The bytes of `s`, each read as the character it encodes in ASCII.
pub open spec fn ascii_chars_of(s: Seq<u8>) -> Seq<char> {
    s.map_values(|b: u8| b as char)
}

/// A token of plain ASCII with no percent sign: decoding leaves it as it
/// is.
pub open spec fn plain_token(s: Seq<u8>) -> bool {
    forall|i: int| 0 <= i < s.len() ==> s[i] < 128 && s[i] != 37
}

/// Relies on urlencoding::decode: percent-decoding is deterministic in the
/// token, fails exactly when the decoded bytes are not text, and returns a
/// plain ASCII token without a percent sign unchanged. core::str::from_utf8
/// views the raw token as text first; its failure is folded into the name.
#[verifier::external_body]
fn url_decode(token: &[u8]) -> (r: Option<String>)
    ensures
        r is Some <==> url_decoded(token@) is Some,
        r matches Some(s) ==> Some(s@) == url_decoded(token@),
        r is Some || !plain_token(token@),
        r matches Some(s) ==> !plain_token(token@) || s@ == ascii_chars_of(token@),
{
    match core::str::from_utf8(token) {
        Result::Ok(s) => match urlencoding::decode(s) {
            Result::Ok(d) => Some(d.into_owned()),
            Result::Err(_) => None,
        },
        Result::Err(_) => None,
    }
}

/// The name and value of one header line, split on the first `": "`.
pub open spec fn header_pair_of(line: Seq<u8>) -> Option<(Seq<u8>, Seq<u8>)> {
    match scan::find_from(line, wire::colon_sp(), 0) {
        None => None,
        Some(i) => if 0 <= i && i + 2 <= line.len() {
            Some((line.subrange(0, i), line.subrange(i + 2, line.len() as int)))
        } else {
            None
        },
    }
}

/// Fold the header lines into the map started as `acc`, line by line; a
/// line without the separator spoils the whole block.
pub open spec fn headers_from(lines: Seq<Seq<u8>>, acc: Seq<(Seq<u8>, Seq<u8>)>) -> Option<
    Seq<(Seq<u8>, Seq<u8>)>,
>
    decreases lines.len(),
{
    if lines.len() == 0 {
        Some(acc)
    } else {
        match header_pair_of(lines[0]) {
            None => None,
            Some(p) => headers_from(lines.drop_first(), headers::insert_pair(acc, p.0, p.1)),
        }
    }
}

/// The structured content of a request, as mathematics: the method, the
/// decoded path, and the header map in first-appearance order.
pub ghost struct RequestModel {
    pub method: Method,
    pub path: Seq<char>,
    pub headers: Seq<(Seq<u8>, Seq<u8>)>,
}

/// What parsing makes of a byte buffer: the checks of the wire protocol,
/// in order. The terminator must be present; the header block must be
/// small enough; the request line must carry three tokens; the method and
/// version tokens must be known; the path must decode; every header line
/// must split into a name and a value.
pub open spec fn parse_request(s: Seq<u8>) -> Result<RequestModel, RequestError> {
    match scan::find_from(s, wire::terminator(), 0) {
        None => Err(RequestError::IncompleteRequest),
        Some(t) => {
            if !(0 <= t && t <= s.len()) {
                Err(RequestError::IncompleteRequest)
            } else {
                let block = s.subrange(0, t);
                if block.len() > wire::MAX_HEADER_SIZE {
                    Err(RequestError::HeaderTooLarge)
                } else {
                    let lines = scan::split_on(block, wire::crlf());
                    let toks = scan::split_on(lines[0], wire::sp());
                    if toks.len() < 3 {
                        Err(RequestError::MalformedRequestLine)
                    } else {
                        match method_of(toks[0]) {
                            None => Err(RequestError::UnsupportedMethod),
                            Some(m) => {
                                if toks[2] != wire::http10() && toks[2] != wire::http11() {
                                    Err(RequestError::UnsupportedVersion)
                                } else {
                                    match url_decoded(toks[1]) {
                                        None => Err(RequestError::MalformedPath),
                                        Some(p) => {
                                            match headers_from(lines.drop_first(), Seq::empty()) {
                                                None => Err(RequestError::MalformedHeader),
                                                Some(hs) => Ok(
                                                    RequestModel { method: m, path: p, headers: hs },
                                                ),
                                            }
                                        },
                                    }
                                }
                            },
                        }
                    }
                }
            }
        },
    }
}

/// A parsed request: the method, the percent-decoded path, and the
/// headers, with unique names and the last occurrence of a repeated name
/// winning.
#[derive(Debug)]
pub struct Request {
    pub method: Method,
    pub path: String,
    pub headers: HeaderMap,
}

impl Request {
    /// The mathematical content of this request.
    pub open spec fn model(&self) -> RequestModel {
        RequestModel { method: self.method, path: self.path@, headers: self.headers@ }
    }

    /// A request is well formed when its header names are unique.
    pub open spec fn wf(&self) -> bool {
        self.headers.wf()
    }

    /// Parse a raw byte buffer into a request, or say exactly why not.
    #[verifier::loop_isolation(false)]
    pub fn try_from(s: &[u8]) -> (r: Result<Request, RequestError>)
        ensures
            r matches Ok(req) ==> parse_request(s@) == Ok::<RequestModel, RequestError>(req.model()) && req.wf(),
            r matches Err(e) ==> parse_request(s@) == Err::<RequestModel, RequestError>(e),
            (scan::find_from(s@, wire::terminator(), 0) is None) <==> r == Err::<
                Request,
                RequestError,
            >(RequestError::IncompleteRequest),
            (match scan::find_from(s@, wire::terminator(), 0) {
                Some(t) => t > wire::MAX_HEADER_SIZE,
                None => false,
            }) <==> r == Err::<Request, RequestError>(RequestError::HeaderTooLarge),
    {
        let term = wire::terminator_vec();
        let t: usize = match scan::find_sub(s, term.as_slice(), 0) {
            None => {
                return Err(RequestError::IncompleteRequest);
            },
            Some(t) => t,
        };
        proof {
            scan::lemma_find_from(s@, wire::terminator(), 0);
            assert(scan::match_at(s@, wire::terminator(), t as int));
        }
        if t > wire::MAX_HEADER_SIZE {
            return Err(RequestError::HeaderTooLarge);
        }
        let block = scan::copy_range(s, 0, t);
        let crlf_v = wire::crlf_vec();
        let lines = scan::split_sub(block.as_slice(), crlf_v.as_slice());
        let ghost lm = scan::split_on(block@, wire::crlf());
        proof {
            scan::lemma_split_on_len(block@, wire::crlf());
        }
        let sp_v = wire::sp_vec();
        let toks = scan::split_sub(lines[0].as_slice(), sp_v.as_slice());
        let ghost tm = scan::split_on(lm[0], wire::sp());
        if toks.len() < 3 {
            return Err(RequestError::MalformedRequestLine);
        }
        let m = match Method::try_from(toks[0].as_slice()) {
            Err(e) => {
                return Err(e);
            },
            Ok(m) => m,
        };
        let h10 = wire::http10_vec();
        let h11 = wire::http11_vec();
        if !scan::bytes_eq(toks[2].as_slice(), h10.as_slice()) && !scan::bytes_eq(
            toks[2].as_slice(),
            h11.as_slice(),
        ) {
            return Err(RequestError::UnsupportedVersion);
        }
        let path = match url_decode(toks[1].as_slice()) {
            None => {
                return Err(RequestError::MalformedPath);
            },
            Some(p) => p,
        };
        let mut hm = HeaderMap::new();
        let colon_v = wire::colon_sp_vec();
        let n: usize = lines.len();
        let mut i: usize = 1;
        while i < n
            invariant
                1 <= i <= n,
                n == lines@.len(),
                n == lm.len(),
                lm == scan::split_on(block@, wire::crlf()),
                forall|j: int| 0 <= j < n ==> lines@[j]@ == lm[j],
                colon_v@ == wire::colon_sp(),
                hm.wf(),
                headers_from(lm.subrange(1, n as int), Seq::empty()) == headers_from(
                    lm.subrange(i as int, n as int),
                    hm@,
                ),
            decreases n - i,
        {
            let line = lines[i].as_slice();
            let ghost rest = lm.subrange(i as int, n as int);
            proof {
                assert(rest[0] == lm[i as int]);
                assert(rest.drop_first() =~= lm.subrange(i + 1, n as int));
            }
            match scan::find_sub(line, colon_v.as_slice(), 0) {
                None => {
                    proof {
                        assert(header_pair_of(lm[i as int]) is None);
                    }
                    return Err(RequestError::MalformedHeader);
                },
                Some(ci) => {
                    proof {
                        scan::lemma_find_from(line@, wire::colon_sp(), 0);
                        assert(scan::match_at(line@, wire::colon_sp(), ci as int));
                    }
                    let llen: usize = line.len();
                    assert(ci + 2 <= llen);
                    let k = scan::copy_range(line, 0, ci);
                    let v = scan::copy_range(line, ci + 2, llen);
                    proof {
                        assert(header_pair_of(lm[i as int]) == Some((k@, v@)));
                    }
                    hm.insert(k, v);
                },
            }
            i = i + 1;
        }
        proof {
            assert(lm.subrange(n as int, n as int).len() == 0);
            assert(headers_from(lm.subrange(1, n as int), Seq::empty()) == Some(hm@));
            assert(lm.subrange(1, n as int) =~= lm.drop_first());
        }
        Ok(Request { method: m, path, headers: hm })
    }
}

} // verus!
