//! The per-connection state machine: `Accepted → Reading → Routed →
//! Responding → Closed`. One step function decides, from the current
//! state and the event the caller observed, the next state and the one
//! action to perform. The caller does the reading, the filesystem probes,
//! the upstream exchange and the writing; every decision in between is
//! made, and proved, here. A connection is closed unconditionally after
//! one response, and a timed-out or failed step closes it without one.
use vstd::prelude::*;

use crate::http::Method;
use crate::http::Service;
use crate::http::Static;
use crate::http::proxy;
use crate::http::request::Request;
use crate::http::request::parse_request;
use crate::http::response::FsEntry;
use crate::http::response::Response;
use crate::http::response::ResponseModel;
use crate::http::response::encode_model;
use crate::http::response::static_response_model;
use crate::http::response::status_text;
use crate::http::response::upstream_failure_model;
use crate::http::response::upstream_status_of;
use crate::http::router::Router;
use crate::http::router::first_match;
use crate::http::router::lemma_first_match;
use crate::http::router::router_fits;

verus! {

/// Where a connection stands in its one request/response cycle.
#[derive(Debug, Clone, Copy, PartialEq, Eq, Structural)]
pub enum HandlerState {
    /// Just accepted; nothing read yet.
    Accepted,
    /// Waiting for the request bytes.
    Reading,
    /// A route matched; waiting for the filesystem or the upstream.
    Routed,
    /// The response is being written.
    Responding,
    /// Terminal; the connection is never reused.
    Closed,
}

/// What the caller observed since the last step.
pub enum ConnEvent {
    /// The connection was handed over.
    Start,
    /// One read returned these bytes.
    Data(Vec<u8>),
    /// The read returned nothing or failed: the peer went away early.
    ReadFailed,
    /// The filesystem probe and read for the fetched path finished.
    StaticResult(FsEntry),
    /// The upstream exchange finished: its raw reply, or nothing when the
    /// connect, write or read failed.
    UpstreamResult(Option<Vec<u8>>),
    /// The response write finished, well or badly.
    WriteDone(bool),
    /// A bounded step exceeded its deadline.
    TimedOut,
}

/// The one thing the caller is to do next.
pub enum ConnAction {
    /// Read the request bytes.
    Read,
    /// Probe this filesystem path and read the file or its index.
    FetchStatic(String),
    /// Send these bytes to this upstream address and read one reply.
    CallUpstream(Vec<u8>, String),
    /// Write these bytes to the client.
    Write(Vec<u8>),
    /// Close the connection.
    Close,
}

/// The model of the `400 Bad Request` reply sent for every rejected
/// request.
pub open spec fn bad_request_model() -> ResponseModel {
    ResponseModel {
        status: status_text(crate::http::response::ResponseCode::BadRequest),
        body: Some(status_text(crate::http::response::ResponseCode::BadRequest)),
    }
}

/// The model of the `404 Not Found` reply sent when no route matches.
pub open spec fn not_found_model() -> ResponseModel {
    ResponseModel {
        status: status_text(crate::http::response::ResponseCode::NotFound),
        body: Some(status_text(crate::http::response::ResponseCode::NotFound)),
    }
}

/// Drive one connection one step: from the state and the observed event
/// to the next state and the action owed. Every rejected request is
/// answered with `400`; an unrouted path with `404` (both policies are
/// deliberate, including for requests whose method is not `GET`); a
/// static or proxied result with its encoded response; a timeout, an
/// early end of input, or an event that does not belong to the state
/// closes the connection without a response.
pub fn step(state: HandlerState, event: ConnEvent, service: &Service, router: &Router) -> (r: (
    HandlerState,
    ConnAction,
))
    requires
        router_fits(router@, service.locations@),
    ensures
        ({
            let (s2, a) = r;
            match (state, event) {
                (HandlerState::Accepted, ConnEvent::Start) => s2 is Reading && a is Read,
                (HandlerState::Reading, ConnEvent::Data(buf)) => match parse_request(buf@) {
                    Err(_) => s2 is Responding && (a matches ConnAction::Write(w) && w@
                        == encode_model(bad_request_model())),
                    Ok(g) => match first_match(router@, g.path, 0) {
                        None => s2 is Responding && (a matches ConnAction::Write(w) && w@
                            == encode_model(not_found_model())),
                        Some(i) => match service.locations@[i].1 {
                            Method::Static(Static::Root { root }) => s2 is Routed && (a
                                matches ConnAction::FetchStatic(p) && p@ == root@ + g.path),
                            Method::Static(Static::Alias { alias }) => s2 is Routed && (a
                                matches ConnAction::FetchStatic(p) && p@ == alias@),
                            Method::Proxy { to, add_headers } => s2 is Routed && (a
                                matches ConnAction::CallUpstream(w, addr) && w@
                                == proxy::upstream_request(
                                g.method,
                                g.path,
                                proxy::upstream_headers(
                                    g.headers,
                                    proxy::extras_view(add_headers),
                                    to@,
                                ),
                            ) && addr@ == to@),
                        },
                    },
                },
                (HandlerState::Reading, ConnEvent::ReadFailed) => s2 is Closed && a is Close,
                (HandlerState::Routed, ConnEvent::StaticResult(e)) => s2 is Responding && (a
                    matches ConnAction::Write(w) && w@ == encode_model(static_response_model(e))),
                (HandlerState::Routed, ConnEvent::UpstreamResult(o)) => s2 is Responding && (a
                    matches ConnAction::Write(w) && w@ == match o {
                    Option::None => encode_model(upstream_failure_model()),
                    Option::Some(buf) => match upstream_status_of(buf@) {
                        Some(st) => encode_model(ResponseModel { status: st, body: Some(buf@) }),
                        None => encode_model(upstream_failure_model()),
                    },
                }),
                (HandlerState::Responding, ConnEvent::WriteDone(_)) => s2 is Closed && a is Close,
                _ => s2 is Closed && a is Close,
            }
        }),
{
    match (state, event) {
        (HandlerState::Accepted, ConnEvent::Start) => (HandlerState::Reading, ConnAction::Read),
        (HandlerState::Reading, ConnEvent::Data(buf)) => {
            match Request::try_from(buf.as_slice()) {
                Err(_) => {
                    let resp = Response::bad_request();
                    (HandlerState::Responding, ConnAction::Write(resp.encode()))
                },
                Ok(req) => {
                    match router.resolve(req.path.as_str()) {
                        None => {
                            let resp = Response::not_found();
                            (HandlerState::Responding, ConnAction::Write(resp.encode()))
                        },
                        Some(i) => {
                            proof {
                                lemma_first_match(router@, req.path@, 0);
                            }
                            match &service.locations[i].1 {
                                Method::Static(Static::Root { root }) => {
                                    let p = root.clone().concat(req.path.as_str());
                                    (HandlerState::Routed, ConnAction::FetchStatic(p))
                                },
                                Method::Static(Static::Alias { alias }) => {
                                    (HandlerState::Routed, ConnAction::FetchStatic(alias.clone()))
                                },
                                Method::Proxy { to, add_headers } => {
                                    let w = proxy::build_upstream_request(&req, to, add_headers);
                                    (HandlerState::Routed, ConnAction::CallUpstream(w, to.clone()))
                                },
                            }
                        },
                    }
                },
            }
        },
        (HandlerState::Routed, ConnEvent::StaticResult(e)) => {
            let resp = Response::path(e);
            (HandlerState::Responding, ConnAction::Write(resp.encode()))
        },
        (HandlerState::Routed, ConnEvent::UpstreamResult(o)) => {
            let resp = match o {
                Option::None => Response::upstream_error(),
                Option::Some(buf) => Response::from_upstream(buf),
            };
            (HandlerState::Responding, ConnAction::Write(resp.encode()))
        },
        (HandlerState::Responding, ConnEvent::WriteDone(_)) => {
            (HandlerState::Closed, ConnAction::Close)
        },
        _ => (HandlerState::Closed, ConnAction::Close),
    }
}

/// Law: the reply to a static request is a function of the request bytes
/// and the fetched file state alone; two identical requests over an
/// unchanged file are answered with byte-identical responses.
pub proof fn lemma_static_reply_deterministic(
    b1: Seq<u8>,
    b2: Seq<u8>,
    e1: FsEntry,
    e2: FsEntry,
)
    requires
        b1 == b2,
        e1 == e2,
    ensures
        encode_model(static_response_model(e1)) == encode_model(static_response_model(e2)),
        parse_request(b1) == parse_request(b2),
{
}

} // verus!
