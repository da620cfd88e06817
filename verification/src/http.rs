//! The request-lifecycle engine: configuration types for virtual services,
//! route compilation and first-match resolution, request parsing, response
//! encoding, and the per-connection state machine.
pub mod handler;
pub mod headers;
pub mod proxy;
pub mod request;
pub mod response;
pub mod router;

use vstd::prelude::*;

verus! {

/// Everything the engine serves: the list of configured virtual services.
#[derive(Clone)]
pub struct Http {
    pub services: Vec<Service>,
}

/// One virtual service: the addresses it listens on, the host names it
/// recognizes (none or an empty list means any host is accepted), and its
/// ordered route table. Route order is significant: the first pattern that
/// matches a request path wins.
#[derive(Clone)]
pub struct Service {
    pub listen: Vec<String>,
    pub service_names: Option<Vec<String>>,
    pub locations: Vec<(String, Method)>,
}

/// What a matched route does with a request: serve from the local
/// filesystem, or forward to an upstream server with extra headers added.
#[derive(Clone)]
pub enum Method {
    Static(Static),
    Proxy { to: String, add_headers: Option<Vec<(String, String)>> },
}

/// A static route action. `Root` serves `root` + the request path;
/// `Alias` always serves exactly `alias`, whatever the request path was.
#[derive(Clone)]
pub enum Static {
    Root { root: String },
    Alias { alias: String },
}

/// Failures surfaced by the engine at service-construction or serve time.
/// `InvalidPattern(i)` reports the first route whose pattern is not a valid
/// regular expression, found when the route table is compiled at startup.
#[derive(Debug, Clone, Copy, PartialEq, Eq, Structural)]
pub enum HttpError {
    ServeReturn,
    InvalidPattern(usize),
}

/// The one message the serving task reacts to.
#[derive(Debug, Clone, Copy)]
pub enum Msg {
    Init,
}

/// A host name is accepted when the service recognizes every host (no list,
/// or an empty list) or the name is in its list, compared byte for byte.
pub open spec fn host_accepted(names: Option<Seq<Seq<char>>>, host: Seq<u8>) -> bool {
    match names {
        Option::None => true,
        Option::Some(ns) => ns.len() == 0 || exists|i: int|
            0 <= i < ns.len() && vstd::utf8::encode_utf8(ns[i]) == host,
    }
}

/// The view of the optional host-name list as character sequences.
pub open spec fn names_view(names: Option<Vec<String>>) -> Option<Seq<Seq<char>>> {
    match names {
        Option::None => Option::None,
        Option::Some(ns) => Option::Some(ns.deep_view()),
    }
}

impl Service {
    /// Whether a request's `Host` header value is one this service
    /// recognizes.
    pub fn accepts_host(&self, host: &[u8]) -> (r: bool)
        ensures
            r == host_accepted(names_view(self.service_names), host@),
    {
        match &self.service_names {
            Option::None => true,
            Option::Some(ns) => {
                if ns.len() == 0 {
                    return true;
                }
                let n: usize = ns.len();
                let mut i: usize = 0;
                while i < n
                    invariant
                        self.service_names == Option::Some(*ns),
                        n == ns@.len(),
                        i <= n,
                        forall|j: int|
                            0 <= j < i ==> vstd::utf8::encode_utf8(ns.deep_view()[j]) != host@,
                    decreases n - i,
                {
                    if crate::scan::bytes_eq(ns[i].as_str().as_bytes(), host) {
                        proof {
                            let nsd = ns.deep_view();
                            assert(vstd::utf8::encode_utf8(nsd[i as int]) == host@);
                            assert(host_accepted(names_view(self.service_names), host@));
                        }
                        return true;
                    }
                    i = i + 1;
                }
                false
            },
        }
    }
}

/// Flatten the configured services into the listener plan: one entry per
/// listen address, carrying the index of the service it belongs to, in
/// configuration order.
pub open spec fn listener_plan(services: Seq<Service>, i: int) -> Seq<(usize, Seq<char>)>
    decreases services.len() - i,
{
    if i < 0 || i >= services.len() {
        Seq::empty()
    } else {
        services[i].listen.deep_view().map_values(|a: Seq<char>| ((i as usize), a))
            + listener_plan(services, i + 1)
    }
}

/// The tail of the listener plan that starts at service `i`.
fn plan_from(services: &Vec<Service>, i: usize) -> (r: Vec<(usize, String)>)
    requires
        i <= services@.len(),
    ensures
        r.deep_view() =~~= listener_plan(services@, i as int),
    decreases services@.len() - i,
{
    let n: usize = services.len();
    if i >= n {
        let r: Vec<(usize, String)> = Vec::new();
        return r;
    }
    let ghost lv = services@[i as int].listen.deep_view().map_values(
        |a: Seq<char>| ((i as usize), a),
    );
    let mut r: Vec<(usize, String)> = Vec::new();
    let m: usize = services[i].listen.len();
    let mut j: usize = 0;
    while j < m
        invariant
            i < services@.len(),
            m == services@[i as int].listen@.len(),
            j <= m,
            lv == services@[i as int].listen.deep_view().map_values(
                |a: Seq<char>| ((i as usize), a),
            ),
            r.deep_view() =~~= lv.subrange(0, j as int),
        decreases m - j,
    {
        r.push((i, services[i].listen[j].clone()));
        proof {
            assert(r.deep_view() =~~= lv.subrange(0, j + 1));
        }
        j = j + 1;
    }
    proof {
        assert(lv.subrange(0, m as int) =~~= lv);
    }
    let mut rest = plan_from(services, i + 1);
    let ghost rest_view = rest.deep_view();
    r.append(&mut rest);
    proof {
        assert(r.deep_view() =~~= lv + rest_view);
    }
    r
}

impl Http {
    /// The listeners to bind: every listen address of every service, each
    /// paired with its service's index.
    pub fn plan_listeners(&self) -> (r: Vec<(usize, String)>)
        ensures
            r.deep_view() =~~= listener_plan(self.services@, 0),
    {
        plan_from(&self.services, 0)
    }
}

/// The orchestrator's fatality rule: the process as a whole gives up only
/// when not a single listener could be bound. `results[i]` records whether
/// listener `i` bound successfully.
pub fn all_listeners_failed(results: &Vec<bool>) -> (r: bool)
    ensures
        r == forall|i: int| 0 <= i < results@.len() ==> !results@[i],
{
    let n: usize = results.len();
    let mut i: usize = 0;
    while i < n
        invariant
            n == results@.len(),
            i <= n,
            forall|j: int| 0 <= j < i ==> !results@[j],
        decreases n - i,
    {
        if results[i] {
            return false;
        }
        i = i + 1;
    }
    true
}

} // verus!
