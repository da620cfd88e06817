//! Routing, the per-connection state machine, the proxy request builder,
//! and the listener orchestration policy.
use litten::http::handler::{step, ConnAction, ConnEvent, HandlerState};
use litten::http::proxy::build_upstream_request;
use litten::http::request::Request;
use litten::http::response::{FsEntry, ReadOutcome};
use litten::http::router::{RoutePattern, Router};
use litten::http::{all_listeners_failed, Http, HttpError, Method, Service, Static};

fn root_route(pattern: &str, root: &str) -> (String, Method) {
    (
        pattern.to_string(),
        Method::Static(Static::Root {
            root: root.to_string(),
        }),
    )
}

fn alias_route(pattern: &str, alias: &str) -> (String, Method) {
    (
        pattern.to_string(),
        Method::Static(Static::Alias {
            alias: alias.to_string(),
        }),
    )
}

fn proxy_route(pattern: &str, to: &str) -> (String, Method) {
    (
        pattern.to_string(),
        Method::Proxy {
            to: to.to_string(),
            add_headers: None,
        },
    )
}

fn service_with(locations: Vec<(String, Method)>) -> Service {
    Service {
        listen: vec!["127.0.0.1:8080".to_string()],
        service_names: None,
        locations,
    }
}

fn write_bytes(action: ConnAction) -> Vec<u8> {
    match action {
        ConnAction::Write(w) => w,
        _ => panic!("expected a write action"),
    }
}

#[test]
fn pattern_compiles_and_matches() {
    let p = RoutePattern::compile("^/api").unwrap();
    assert!(p.matches("/api"));
    assert!(p.matches("/api/v1"));
    assert!(!p.matches("/other"));
    assert!(!p.matches("x/api"));
}

#[test]
fn invalid_pattern_is_rejected_at_build_time() {
    assert!(RoutePattern::compile("[").is_none());
    let locations = vec![root_route("^/$", "/srv"), root_route("[", "/bad")];
    match Router::build(&locations) {
        Err(HttpError::InvalidPattern(i)) => assert_eq!(i, 1),
        _ => panic!("expected the second pattern to be rejected"),
    }
}

#[test]
fn earliest_matching_pattern_wins() {
    let locations = vec![
        alias_route("^/api/special$", "/srv/special.html"),
        root_route("^/api", "/srv/api"),
        root_route("^/", "/srv/www"),
    ];
    let router = Router::build(&locations).unwrap();
    // Matches all three patterns: the first declared wins.
    assert_eq!(router.resolve("/api/special"), Some(0));
    // Matches the last two: the second declared wins.
    assert_eq!(router.resolve("/api/other"), Some(1));
    assert_eq!(router.resolve("/index.html"), Some(2));
    assert_eq!(router.resolve("no-slash"), None);
}

#[test]
fn handler_reads_after_accept_and_closes_after_write() {
    let svc = service_with(vec![root_route("^/", "/srv")]);
    let router = Router::build(&svc.locations).unwrap();
    let (s, a) = step(HandlerState::Accepted, ConnEvent::Start, &svc, &router);
    assert_eq!(s, HandlerState::Reading);
    assert!(matches!(a, ConnAction::Read));
    let (s, a) = step(
        HandlerState::Responding,
        ConnEvent::WriteDone(true),
        &svc,
        &router,
    );
    assert_eq!(s, HandlerState::Closed);
    assert!(matches!(a, ConnAction::Close));
}

#[test]
fn handler_closes_on_failed_read_and_on_timeout() {
    let svc = service_with(vec![root_route("^/", "/srv")]);
    let router = Router::build(&svc.locations).unwrap();
    let (s, a) = step(HandlerState::Reading, ConnEvent::ReadFailed, &svc, &router);
    assert_eq!(s, HandlerState::Closed);
    assert!(matches!(a, ConnAction::Close));
    for state in [
        HandlerState::Accepted,
        HandlerState::Reading,
        HandlerState::Routed,
        HandlerState::Responding,
    ] {
        let (s, a) = step(state, ConnEvent::TimedOut, &svc, &router);
        assert_eq!(s, HandlerState::Closed);
        assert!(matches!(a, ConnAction::Close));
    }
}

#[test]
fn rejected_request_gets_400() {
    let svc = service_with(vec![root_route("^/", "/srv")]);
    let router = Router::build(&svc.locations).unwrap();
    let (s, a) = step(
        HandlerState::Reading,
        ConnEvent::Data(b"GET /a/b/c HTTP/2.0\r\n\r\n".to_vec()),
        &svc,
        &router,
    );
    assert_eq!(s, HandlerState::Responding);
    assert_eq!(
        write_bytes(a).as_slice(),
        b"HTTP/1.0 400 Bad Request\r\n\r\n400 Bad Request\r\n".as_slice()
    );
}

#[test]
fn incomplete_request_gets_400() {
    let svc = service_with(vec![root_route("^/", "/srv")]);
    let router = Router::build(&svc.locations).unwrap();
    let (s, a) = step(
        HandlerState::Reading,
        ConnEvent::Data(b"GET / HTTP/1.1".to_vec()),
        &svc,
        &router,
    );
    assert_eq!(s, HandlerState::Responding);
    assert_eq!(
        write_bytes(a).as_slice(),
        b"HTTP/1.0 400 Bad Request\r\n\r\n400 Bad Request\r\n".as_slice()
    );
}

#[test]
fn configuration_carries_the_http_section() {
    let conf = litten::configuration::Configuration { http: None };
    assert!(conf.http.is_none());
    let conf = litten::configuration::Configuration {
        http: Some(Http {
            services: Vec::new(),
        }),
    };
    assert_eq!(conf.http.unwrap().plan_listeners(), Vec::new());
}

#[test]
fn unrouted_request_gets_404() {
    let svc = service_with(vec![root_route("^/only$", "/srv")]);
    let router = Router::build(&svc.locations).unwrap();
    let (s, a) = step(
        HandlerState::Reading,
        ConnEvent::Data(b"GET /elsewhere HTTP/1.1\r\n\r\n".to_vec()),
        &svc,
        &router,
    );
    assert_eq!(s, HandlerState::Responding);
    assert_eq!(
        write_bytes(a).as_slice(),
        b"HTTP/1.0 404 Not Found\r\n\r\n404 Not Found\r\n".as_slice()
    );
}

#[test]
fn root_route_serves_root_plus_request_path() {
    let svc = service_with(vec![root_route("^/$", "/srv/www")]);
    let router = Router::build(&svc.locations).unwrap();
    let (s, a) = step(
        HandlerState::Reading,
        ConnEvent::Data(b"GET / HTTP/1.1\r\nHost: x\r\n\r\n".to_vec()),
        &svc,
        &router,
    );
    assert_eq!(s, HandlerState::Routed);
    match a {
        ConnAction::FetchStatic(p) => assert_eq!(p, "/srv/www/"),
        _ => panic!("expected a static fetch"),
    }
    // The directory's index file exists and is read successfully.
    let index = b"<html>index</html>".to_vec();
    let (s, a) = step(
        HandlerState::Routed,
        ConnEvent::StaticResult(FsEntry::Dir(ReadOutcome::Content(index.clone()))),
        &svc,
        &router,
    );
    assert_eq!(s, HandlerState::Responding);
    let mut want = b"HTTP/1.0 200 OK\r\n\r\n".to_vec();
    want.extend_from_slice(&index);
    want.extend_from_slice(b"\r\n");
    assert_eq!(write_bytes(a), want);
}

#[test]
fn missing_file_under_root_route_gets_404() {
    let svc = service_with(vec![root_route("^/$", "/srv/www")]);
    let router = Router::build(&svc.locations).unwrap();
    let (_, a) = step(
        HandlerState::Reading,
        ConnEvent::Data(b"GET / HTTP/1.1\r\nHost: x\r\n\r\n".to_vec()),
        &svc,
        &router,
    );
    assert!(matches!(a, ConnAction::FetchStatic(_)));
    let (s, a) = step(
        HandlerState::Routed,
        ConnEvent::StaticResult(FsEntry::Missing),
        &svc,
        &router,
    );
    assert_eq!(s, HandlerState::Responding);
    assert_eq!(
        write_bytes(a).as_slice(),
        b"HTTP/1.0 404 Not Found\r\n\r\n404 Not Found\r\n".as_slice()
    );
}

#[test]
fn alias_route_ignores_the_request_path() {
    let svc = service_with(vec![alias_route("^/whatever", "/srv/fixed.html")]);
    let router = Router::build(&svc.locations).unwrap();
    let (_, a) = step(
        HandlerState::Reading,
        ConnEvent::Data(b"GET /whatever/deep/path HTTP/1.1\r\n\r\n".to_vec()),
        &svc,
        &router,
    );
    match a {
        ConnAction::FetchStatic(p) => assert_eq!(p, "/srv/fixed.html"),
        _ => panic!("expected a static fetch"),
    }
}

#[test]
fn unreachable_upstream_gets_502() {
    let svc = service_with(vec![proxy_route("^/api", "127.0.0.1:9000")]);
    let router = Router::build(&svc.locations).unwrap();
    let (s, a) = step(
        HandlerState::Reading,
        ConnEvent::Data(b"GET /api HTTP/1.1\r\nHost: x\r\n\r\n".to_vec()),
        &svc,
        &router,
    );
    assert_eq!(s, HandlerState::Routed);
    match a {
        ConnAction::CallUpstream(_, addr) => assert_eq!(addr, "127.0.0.1:9000"),
        _ => panic!("expected an upstream call"),
    }
    // The connect fails: the client still receives a full response.
    let (s, a) = step(
        HandlerState::Routed,
        ConnEvent::UpstreamResult(None),
        &svc,
        &router,
    );
    assert_eq!(s, HandlerState::Responding);
    assert_eq!(
        write_bytes(a).as_slice(),
        b"HTTP/1.0 502 Bad Gateway\r\n\r\n502 Bad Gateway\r\n".as_slice()
    );
}

#[test]
fn upstream_reply_is_relayed_through_the_handler() {
    let svc = service_with(vec![proxy_route("^/api", "127.0.0.1:9000")]);
    let router = Router::build(&svc.locations).unwrap();
    let raw = b"HTTP/1.0 200 OK\r\n\r\npayload".to_vec();
    let (s, a) = step(
        HandlerState::Routed,
        ConnEvent::UpstreamResult(Some(raw.clone())),
        &svc,
        &router,
    );
    assert_eq!(s, HandlerState::Responding);
    let mut want = b"HTTP/1.0 200 OK\r\n\r\n".to_vec();
    want.extend_from_slice(&raw);
    want.extend_from_slice(b"\r\n");
    assert_eq!(write_bytes(a), want);
}

#[test]
fn identical_requests_get_identical_replies() {
    let svc = service_with(vec![root_route("^/", "/srv/www")]);
    let router = Router::build(&svc.locations).unwrap();
    let buf = b"GET /page HTTP/1.1\r\nHost: x\r\n\r\n".to_vec();
    let file = b"same file contents".to_vec();
    let mut replies: Vec<Vec<u8>> = Vec::new();
    for _ in 0..2 {
        let (_, a) = step(
            HandlerState::Reading,
            ConnEvent::Data(buf.clone()),
            &svc,
            &router,
        );
        match a {
            ConnAction::FetchStatic(p) => assert_eq!(p, "/srv/www/page"),
            _ => panic!("expected a static fetch"),
        }
        let (_, a) = step(
            HandlerState::Routed,
            ConnEvent::StaticResult(FsEntry::File(ReadOutcome::Content(file.clone()))),
            &svc,
            &router,
        );
        replies.push(write_bytes(a));
    }
    assert_eq!(replies[0], replies[1]);
}

#[test]
fn upstream_request_carries_method_path_and_forced_host() {
    let req = Request::try_from(b"GET /x HTTP/1.1\r\nK: v\r\n\r\n".as_slice()).unwrap();
    let out = build_upstream_request(&req, &"up:1".to_string(), &None);
    assert_eq!(
        out.as_slice(),
        b"GET /x HTTP/1.0\r\nK: v\r\nHost: up:1\r\n\r\n".as_slice()
    );
}

#[test]
fn extra_headers_win_over_original_ones() {
    let req = Request::try_from(b"GET /x HTTP/1.1\r\nK: v\r\nL: w\r\n\r\n".as_slice()).unwrap();
    let extras = Some(vec![("K".to_string(), "replaced".to_string())]);
    let out = build_upstream_request(&req, &"up:1".to_string(), &extras);
    assert_eq!(
        out.as_slice(),
        b"GET /x HTTP/1.0\r\nK: replaced\r\nL: w\r\nHost: up:1\r\n\r\n".as_slice()
    );
}

#[test]
fn forced_host_overwrites_a_client_host_in_place() {
    let req = Request::try_from(b"GET /x HTTP/1.1\r\nHost: client\r\nA: b\r\n\r\n".as_slice())
        .unwrap();
    let out = build_upstream_request(&req, &"up:1".to_string(), &None);
    assert_eq!(
        out.as_slice(),
        b"GET /x HTTP/1.0\r\nHost: up:1\r\nA: b\r\n\r\n".as_slice()
    );
}

#[test]
fn listener_plan_flattens_services_in_order() {
    let http = Http {
        services: vec![
            Service {
                listen: vec!["0.0.0.0:80".to_string(), "[::]:80".to_string()],
                service_names: None,
                locations: vec![root_route("^/", "/srv")],
            },
            Service {
                listen: vec!["0.0.0.0:8080".to_string()],
                service_names: None,
                locations: vec![root_route("^/", "/srv2")],
            },
        ],
    };
    let plan = http.plan_listeners();
    assert_eq!(
        plan,
        vec![
            (0, "0.0.0.0:80".to_string()),
            (0, "[::]:80".to_string()),
            (1, "0.0.0.0:8080".to_string()),
        ]
    );
}

#[test]
fn process_gives_up_only_when_every_listener_failed() {
    assert!(all_listeners_failed(&vec![false, false]));
    assert!(!all_listeners_failed(&vec![false, true]));
    assert!(!all_listeners_failed(&vec![true]));
    assert!(all_listeners_failed(&Vec::new()));
}

#[test]
fn host_names_restrict_when_present() {
    let mut svc = service_with(vec![root_route("^/", "/srv")]);
    assert!(svc.accepts_host(b"anything"));
    svc.service_names = Some(Vec::new());
    assert!(svc.accepts_host(b"anything"));
    svc.service_names = Some(vec!["a.example".to_string()]);
    assert!(svc.accepts_host(b"a.example"));
    assert!(!svc.accepts_host(b"b.example"));
}
