//! Building responses and writing them in the one wire encoding every
//! response source shares: `HTTP/1.0 <status>\r\n\r\n[body\r\n]`. The
//! encoder is exact and invertible; a client-side parser reads the
//! encoding back, and a lemma proves the round trip.
use vstd::prelude::*;
use vstd::string::StringExecFns;

use crate::scan;
use crate::wire;

verus! {

/// The status of a response: one of the engine's own, or a status line
/// relayed verbatim from an upstream server.
#[derive(Debug, PartialEq, Eq)]
pub enum ResponseCode {
    Okay,
    NotFound,
    InternalServerError,
    BadRequest,
    BadGateway,
    Relayed(Vec<u8>),
}

/// The status text a code is written as, after the version token.
pub open spec fn status_text(c: ResponseCode) -> Seq<u8> {
    match c {
        ResponseCode::Okay => seq![50u8, 48u8, 48u8, 32u8, 79u8, 75u8],
        ResponseCode::NotFound => seq![
            52u8, 48u8, 52u8, 32u8, 78u8, 111u8, 116u8, 32u8, 70u8, 111u8, 117u8, 110u8, 100u8,
        ],
        ResponseCode::InternalServerError => seq![
            53u8, 48u8, 48u8, 32u8, 73u8, 110u8, 116u8, 101u8, 114u8, 110u8, 97u8, 108u8, 32u8,
            83u8, 101u8, 114u8, 118u8, 101u8, 114u8, 32u8, 69u8, 114u8, 114u8, 111u8, 114u8,
        ],
        ResponseCode::BadRequest => seq![
            52u8, 48u8, 48u8, 32u8, 66u8, 97u8, 100u8, 32u8, 82u8, 101u8, 113u8, 117u8, 101u8,
            115u8, 116u8,
        ],
        ResponseCode::BadGateway => seq![
            53u8, 48u8, 50u8, 32u8, 66u8, 97u8, 100u8, 32u8, 71u8, 97u8, 116u8, 101u8, 119u8,
            97u8, 121u8,
        ],
        ResponseCode::Relayed(v) => v@,
    }
}

/// A relayed status never masquerades as one of the engine's own texts:
/// parsing picks the named variant wherever one fits.
pub open spec fn canonical_code(c: ResponseCode) -> bool {
    match c {
        ResponseCode::Relayed(v) => {
            &&& v@ != status_text(ResponseCode::Okay)
            &&& v@ != status_text(ResponseCode::NotFound)
            &&& v@ != status_text(ResponseCode::InternalServerError)
            &&& v@ != status_text(ResponseCode::BadRequest)
            &&& v@ != status_text(ResponseCode::BadGateway)
        },
        _ => true,
    }
}

impl ResponseCode {
    /// The status text of this code, as a fresh vector.
    pub fn status_line(&self) -> (v: Vec<u8>)
        ensures
            v@ == status_text(*self),
    {
        let mut v: Vec<u8> = Vec::new();
        match self {
            ResponseCode::Okay => {
                v.push(50u8);
                v.push(48u8);
                v.push(48u8);
                v.push(32u8);
                v.push(79u8);
                v.push(75u8);
            },
            ResponseCode::NotFound => {
                v.push(52u8);
                v.push(48u8);
                v.push(52u8);
                v.push(32u8);
                v.push(78u8);
                v.push(111u8);
                v.push(116u8);
                v.push(32u8);
                v.push(70u8);
                v.push(111u8);
                v.push(117u8);
                v.push(110u8);
                v.push(100u8);
            },
            ResponseCode::InternalServerError => {
                v.push(53u8);
                v.push(48u8);
                v.push(48u8);
                v.push(32u8);
                v.push(73u8);
                v.push(110u8);
                v.push(116u8);
                v.push(101u8);
                v.push(114u8);
                v.push(110u8);
                v.push(97u8);
                v.push(108u8);
                v.push(32u8);
                v.push(83u8);
                v.push(101u8);
                v.push(114u8);
                v.push(118u8);
                v.push(101u8);
                v.push(114u8);
                v.push(32u8);
                v.push(69u8);
                v.push(114u8);
                v.push(114u8);
                v.push(111u8);
                v.push(114u8);
            },
            ResponseCode::BadRequest => {
                v.push(52u8);
                v.push(48u8);
                v.push(48u8);
                v.push(32u8);
                v.push(66u8);
                v.push(97u8);
                v.push(100u8);
                v.push(32u8);
                v.push(82u8);
                v.push(101u8);
                v.push(113u8);
                v.push(117u8);
                v.push(101u8);
                v.push(115u8);
                v.push(116u8);
            },
            ResponseCode::BadGateway => {
                v.push(53u8);
                v.push(48u8);
                v.push(50u8);
                v.push(32u8);
                v.push(66u8);
                v.push(97u8);
                v.push(100u8);
                v.push(32u8);
                v.push(71u8);
                v.push(97u8);
                v.push(116u8);
                v.push(101u8);
                v.push(119u8);
                v.push(97u8);
                v.push(121u8);
            },
            ResponseCode::Relayed(raw) => {
                let mut copy = scan::copy_range(raw.as_slice(), 0, raw.len());
                v.append(&mut copy);
            },
        }
        proof {
            assert(v@ =~= status_text(*self));
        }
        v
    }
}

/// The mathematical content of a response: its status text and its
/// optional payload.
pub ghost struct ResponseModel {
    pub status: Seq<u8>,
    pub body: Option<Seq<u8>>,
}

/// A response: a status and an optional payload, wired as one status line,
/// a blank line, and the payload.
#[derive(Debug, PartialEq, Eq)]
pub struct Response {
    pub code: ResponseCode,
    pub body: Option<Vec<u8>>,
}

/// The bytes a response is written as.
pub open spec fn encode_model(m: ResponseModel) -> Seq<u8> {
    wire::http10() + wire::sp() + m.status + wire::terminator() + (match m.body {
        Option::None => Seq::<u8>::empty(),
        Option::Some(b) => b + wire::crlf(),
    })
}

/// What a client makes of a response byte stream: the status text after
/// the first space of the status line, and the payload between the blank
/// line and the final line ending.
pub open spec fn parse_response(s: Seq<u8>) -> Option<ResponseModel> {
    match scan::find_from(s, wire::terminator(), 0) {
        None => None,
        Some(t) => {
            if !(0 <= t && t + 4 <= s.len()) {
                None
            } else {
                let line = s.subrange(0, t);
                match scan::find_from(line, wire::sp(), 0) {
                    None => None,
                    Some(sep) => {
                        if !(0 <= sep && sep + 1 <= line.len()) {
                            None
                        } else {
                            let status = line.subrange(sep + 1, line.len() as int);
                            let rest = s.subrange(t + 4, s.len() as int);
                            if rest.len() == 0 {
                                Some(ResponseModel { status, body: None })
                            } else if rest.len() >= 2 && rest.subrange(
                                rest.len() - 2,
                                rest.len() as int,
                            ) == wire::crlf() {
                                Some(
                                    ResponseModel {
                                        status,
                                        body: Some(rest.subrange(0, rest.len() - 2)),
                                    },
                                )
                            } else {
                                None
                            }
                        }
                    },
                }
            }
        },
    }
}

/// The status text of an upstream reply: what follows the first space on
/// its first line, when both the space and a line are there.
pub open spec fn upstream_status_of(s: Seq<u8>) -> Option<Seq<u8>> {
    let line = match scan::find_from(s, wire::crlf(), 0) {
        None => s,
        Some(e) => if 0 <= e && e <= s.len() {
            s.subrange(0, e)
        } else {
            s
        },
    };
    match scan::find_from(line, wire::sp(), 0) {
        None => None,
        Some(sep) => if 0 <= sep && sep + 1 <= line.len() {
            Some(line.subrange(sep + 1, line.len() as int))
        } else {
            None
        },
    }
}

/// The outcome of reading a file's contents.
pub enum ReadOutcome {
    Content(Vec<u8>),
    Failed,
}

/// What the filesystem said about a resolved path: a regular file (and
/// the outcome of reading it), a directory (and the outcome of reading
/// its index file), nothing at all, a failed probe, or an entry of some
/// other kind.
pub enum FsEntry {
    File(ReadOutcome),
    Dir(ReadOutcome),
    Missing,
    ProbeError,
    Other,
}

/// The response owed for a file read: the contents under `200 OK`, or a
/// bare `500` when a file that should exist cannot be read.
pub open spec fn file_response_model(o: ReadOutcome) -> ResponseModel {
    match o {
        ReadOutcome::Content(b) => ResponseModel {
            status: status_text(ResponseCode::Okay),
            body: Some(b@),
        },
        ReadOutcome::Failed => ResponseModel {
            status: status_text(ResponseCode::InternalServerError),
            body: None,
        },
    }
}

/// The response owed for a probed path: files and directory indexes are
/// served, a missing path is `404`, and a failed probe or an entry of any
/// other kind is `500`.
pub open spec fn static_response_model(e: FsEntry) -> ResponseModel {
    match e {
        FsEntry::File(o) => file_response_model(o),
        FsEntry::Dir(o) => file_response_model(o),
        FsEntry::Missing => ResponseModel {
            status: status_text(ResponseCode::NotFound),
            body: Some(status_text(ResponseCode::NotFound)),
        },
        FsEntry::ProbeError => ResponseModel {
            status: status_text(ResponseCode::InternalServerError),
            body: None,
        },
        FsEntry::Other => ResponseModel {
            status: status_text(ResponseCode::InternalServerError),
            body: None,
        },
    }
}

/// The response sent when the upstream could not be reached or answered
/// unintelligibly.
pub open spec fn upstream_failure_model() -> ResponseModel {
    ResponseModel {
        status: status_text(ResponseCode::BadGateway),
        body: Some(status_text(ResponseCode::BadGateway)),
    }
}

impl Response {
    /// The mathematical content of this response.
    pub open spec fn model(&self) -> ResponseModel {
        ResponseModel {
            status: status_text(self.code),
            body: match self.body {
                Option::None => None,
                Option::Some(b) => Some(b@),
            },
        }
    }

    /// Serialize the response: version, space, status text, blank line,
    /// then the payload and a line ending when there is a payload.
    pub fn encode(&self) -> (out: Vec<u8>)
        ensures
            out@ == encode_model(self.model()),
    {
        let mut out = wire::http10_vec();
        out.push(32u8);
        let st = self.code.status_line();
        scan::push_bytes(&mut out, st.as_slice());
        let term = wire::terminator_vec();
        scan::push_bytes(&mut out, term.as_slice());
        match &self.body {
            Option::None => {},
            Option::Some(b) => {
                scan::push_bytes(&mut out, b.as_slice());
                let crlf_v = wire::crlf_vec();
                scan::push_bytes(&mut out, crlf_v.as_slice());
            },
        }
        proof {
            assert(out@ =~= encode_model(self.model()));
        }
        out
    }

    /// Recognize a status text, preferring the engine's own codes and
    /// relaying anything else verbatim.
    fn code_from_status(st: Vec<u8>) -> (c: ResponseCode)
        ensures
            status_text(c) == st@,
            canonical_code(c),
    {
        let t = ResponseCode::Okay.status_line();
        if scan::bytes_eq(st.as_slice(), t.as_slice()) {
            return ResponseCode::Okay;
        }
        let t = ResponseCode::NotFound.status_line();
        if scan::bytes_eq(st.as_slice(), t.as_slice()) {
            return ResponseCode::NotFound;
        }
        let t = ResponseCode::InternalServerError.status_line();
        if scan::bytes_eq(st.as_slice(), t.as_slice()) {
            return ResponseCode::InternalServerError;
        }
        let t = ResponseCode::BadRequest.status_line();
        if scan::bytes_eq(st.as_slice(), t.as_slice()) {
            return ResponseCode::BadRequest;
        }
        let t = ResponseCode::BadGateway.status_line();
        if scan::bytes_eq(st.as_slice(), t.as_slice()) {
            return ResponseCode::BadGateway;
        }
        ResponseCode::Relayed(st)
    }

    /// Read a response byte stream back, as a client would.
    pub fn parse(s: &[u8]) -> (r: Option<Response>)
        ensures
            r is Some <==> parse_response(s@) is Some,
            r matches Some(resp) ==> Some(resp.model()) == parse_response(s@) && canonical_code(
                resp.code,
            ),
    {
        let term = wire::terminator_vec();
        let t: usize = match scan::find_sub(s, term.as_slice(), 0) {
            None => {
                return None;
            },
            Some(t) => t,
        };
        proof {
            scan::lemma_find_from(s@, wire::terminator(), 0);
            assert(scan::match_at(s@, wire::terminator(), t as int));
        }
        let n: usize = s.len();
        let line = vstd::slice::slice_subrange(s, 0, t);
        let sp_v = wire::sp_vec();
        let sep: usize = match scan::find_sub(line, sp_v.as_slice(), 0) {
            None => {
                return None;
            },
            Some(sep) => sep,
        };
        proof {
            scan::lemma_find_from(line@, wire::sp(), 0);
            assert(scan::match_at(line@, wire::sp(), sep as int));
        }
        let status = scan::copy_range(line, sep + 1, t);
        let rest = vstd::slice::slice_subrange(s, t + 4, n);
        let rlen: usize = rest.len();
        let body: Option<Vec<u8>> = if rlen == 0 {
            None
        } else {
            let crlf_v = wire::crlf_vec();
            if rlen >= 2 && scan::bytes_eq(
                vstd::slice::slice_subrange(rest, rlen - 2, rlen),
                crlf_v.as_slice(),
            ) {
                Some(scan::copy_range(rest, 0, rlen - 2))
            } else {
                return None;
            }
        };
        let code = Response::code_from_status(status);
        Some(Response { code, body })
    }

    /// The response for an upstream exchange: the upstream's status
    /// relayed over its full raw reply, or `502 Bad Gateway` when the
    /// reply has no readable status line.
    pub fn from_upstream(buf: Vec<u8>) -> (r: Response)
        ensures
            match upstream_status_of(buf@) {
                Some(st) => status_text(r.code) == st && canonical_code(r.code) && (r.body
                    matches Some(b) && b@ == buf@),
                None => r.model() == upstream_failure_model() && canonical_code(r.code),
            },
    {
        let crlf_v = wire::crlf_vec();
        let blen: usize = buf.len();
        let line: &[u8] = match scan::find_sub(buf.as_slice(), crlf_v.as_slice(), 0) {
            None => buf.as_slice(),
            Some(e) => {
                proof {
                    scan::lemma_find_from(buf@, wire::crlf(), 0);
                    assert(scan::match_at(buf@, wire::crlf(), e as int));
                }
                vstd::slice::slice_subrange(buf.as_slice(), 0, e)
            },
        };
        let sp_v = wire::sp_vec();
        match scan::find_sub(line, sp_v.as_slice(), 0) {
            None => Response::upstream_error(),
            Some(sep) => {
                proof {
                    scan::lemma_find_from(line@, wire::sp(), 0);
                    assert(scan::match_at(line@, wire::sp(), sep as int));
                }
                let llen: usize = line.len();
                let status = scan::copy_range(line, sep + 1, llen);
                let code = Response::code_from_status(status);
                Response { code, body: Some(buf) }
            },
        }
    }

    /// The response for a probed filesystem path.
    pub fn path(entry: FsEntry) -> (r: Response)
        ensures
            r.model() == static_response_model(entry),
            canonical_code(r.code),
    {
        match entry {
            FsEntry::File(o) => Response::file(o),
            FsEntry::Dir(o) => Response::dir(o),
            FsEntry::Missing => Response::not_found(),
            FsEntry::ProbeError => Response {
                code: ResponseCode::InternalServerError,
                body: None,
            },
            FsEntry::Other => Response { code: ResponseCode::InternalServerError, body: None },
        }
    }

    /// The response for a file read: its contents under `200 OK`, or a
    /// bare `500` when the read failed.
    pub fn file(outcome: ReadOutcome) -> (r: Response)
        ensures
            r.model() == file_response_model(outcome),
            canonical_code(r.code),
    {
        match outcome {
            ReadOutcome::Content(b) => Response { code: ResponseCode::Okay, body: Some(b) },
            ReadOutcome::Failed => Response { code: ResponseCode::InternalServerError, body: None },
        }
    }

    /// The response for a directory: what reading its index file (see
    /// [`index_path`]) yielded.
    pub fn dir(outcome: ReadOutcome) -> (r: Response)
        ensures
            r.model() == file_response_model(outcome),
            canonical_code(r.code),
    {
        Response::file(outcome)
    }

    /// The `404 Not Found` response for a path that is not there.
    pub fn not_found() -> (r: Response)
        ensures
            r.code == ResponseCode::NotFound,
            r.body matches Some(b) && b@ == status_text(ResponseCode::NotFound),
            canonical_code(r.code),
    {
        let body = ResponseCode::NotFound.status_line();
        Response { code: ResponseCode::NotFound, body: Some(body) }
    }

    /// The `400 Bad Request` response sent for every rejected request.
    pub fn bad_request() -> (r: Response)
        ensures
            r.code == ResponseCode::BadRequest,
            r.body matches Some(b) && b@ == status_text(ResponseCode::BadRequest),
            canonical_code(r.code),
    {
        let body = ResponseCode::BadRequest.status_line();
        Response { code: ResponseCode::BadRequest, body: Some(body) }
    }

    /// The `502 Bad Gateway` response sent when an upstream exchange
    /// failed; the client never sees the raw connection error.
    pub fn upstream_error() -> (r: Response)
        ensures
            r.model() == upstream_failure_model(),
            r.code == ResponseCode::BadGateway,
            canonical_code(r.code),
    {
        let body = ResponseCode::BadGateway.status_line();
        Response { code: ResponseCode::BadGateway, body: Some(body) }
    }
}

/// The index file a directory is served from.
pub fn index_path(path: &String) -> (r: String)
    ensures
        r@ == path@ + "/index.html"@,
{
    path.clone().concat("/index.html")
}

/// Law: writing a response and reading the bytes back as a client returns
/// exactly the status text and the payload that were written, for every
/// payload and every status text free of carriage returns.
#[verifier::rlimit(60)]
pub proof fn lemma_encode_parse_round_trip(m: ResponseModel)
    requires
        forall|i: int| 0 <= i < m.status.len() ==> m.status[i] != 13,
    ensures
        parse_response(encode_model(m)) == Some(m),
{
    let s = encode_model(m);
    let line = wire::http10() + wire::sp() + m.status;
    let t = line.len() as int;
    assert(forall|j: int| 0 <= j < 8 ==> line[j] == wire::http10()[j]);
    assert(forall|j: int| 0 <= j < t ==> line[j] != 13) by {
        assert(line[8] == 32);
        assert(forall|j: int| 9 <= j < t ==> line[j] == m.status[j - 9]);
    }
    assert(forall|j: int| 0 <= j < t ==> s[j] == line[j]);
    assert(s.subrange(t, t + 4) =~= wire::terminator());
    assert(scan::match_at(s, wire::terminator(), t));
    assert(wire::terminator()[0] == 13);
    scan::lemma_find_first(s, wire::terminator(), t);
    assert(s.subrange(0, t) =~= line);
    assert(scan::match_at(line, wire::sp(), 8)) by {
        assert(line.subrange(8, 9) =~= wire::sp());
    }
    assert(wire::sp()[0] == 32);
    assert(forall|j: int| 0 <= j < 8 ==> line[j] != 32) by {
        assert(forall|j: int| 0 <= j < 8 ==> wire::http10()[j] != 32);
    }
    scan::lemma_find_first(line, wire::sp(), 8);
    assert(line.subrange(9, t) =~= m.status);
    let rest = s.subrange(t + 4, s.len() as int);
    match m.body {
        Option::None => {
            assert(rest.len() == 0);
        },
        Option::Some(b) => {
            assert(rest =~= b + wire::crlf());
            assert(rest.len() >= 2);
            assert(rest.subrange(rest.len() - 2, rest.len() as int) =~= wire::crlf());
            assert(rest.subrange(0, rest.len() - 2) =~= b);
        },
    }
}

} // verus!
