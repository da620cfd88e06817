//! Route compilation and resolution: every pattern of a service's route
//! table is compiled once at construction, and a request path resolves to
//! the first pattern that matches it, strictly in declaration order.
use vstd::prelude::*;

use crate::http::HttpError;
use crate::http::Method;

verus! {

/// Declares the compiled regular-expression type of the regex crate, so
/// that a compiled pattern can live in a field; its values are opaque
/// here.
#[verifier::external_type_specification]
#[verifier::external_body]
pub struct ExRegex(regex::Regex);

/// Whether a pattern text is a valid regular expression: what
/// regex::Regex::new accepts, a function of the text alone.
pub uninterp spec fn regex_compiles(pattern: Seq<char>) -> bool;

/// Whether a regular expression matches a text: what
/// regex::Regex::is_match answers, a function of the pattern and the text
/// alone.
pub uninterp spec fn regex_accepts(pattern: Seq<char>, text: Seq<char>) -> bool;

/// A route pattern beside its compiled form. The compiled field is built
/// from the pattern text by [`RoutePattern::compile`] and nowhere else,
/// so the two never drift apart.
pub struct RoutePattern {
    pattern: String,
    compiled: regex::Regex,
}

impl View for RoutePattern {
    type V = Seq<char>;

    closed spec fn view(&self) -> Seq<char> {
        self.pattern@
    }
}

impl RoutePattern {
    /// Relies on regex::Regex::new: compilation succeeds exactly on the
    /// valid pattern texts, a function of the text alone.
    #[verifier::external_body]
    pub fn compile(pattern: &str) -> (r: Option<RoutePattern>)
        ensures
            r is Some <==> regex_compiles(pattern@),
            r matches Some(p) ==> p@ == pattern@,
    {
        match regex::Regex::new(pattern) {
            Result::Ok(re) => Some(RoutePattern { pattern: pattern.to_owned(), compiled: re }),
            Result::Err(_) => None,
        }
    }

    /// Relies on regex::Regex::is_match: whether the pattern matches a
    /// text depends on the pattern and the text alone. The compiled field
    /// was built from the pattern text by `compile`.
    #[verifier::external_body]
    pub fn matches(&self, text: &str) -> (r: bool)
        ensures
            r == regex_accepts(self@, text@),
    {
        self.compiled.is_match(text)
    }
}

/// The first pattern at or after `i` that matches `path`, if any.
pub open spec fn first_match(pats: Seq<Seq<char>>, path: Seq<char>, i: int) -> Option<int>
    decreases pats.len() - i + 1,
{
    if i < 0 || i >= pats.len() {
        None
    } else if regex_accepts(pats[i], path) {
        Some(i)
    } else {
        first_match(pats, path, i + 1)
    }
}

/// `first_match` returns exactly the first matching pattern at or after
/// `from`.
pub proof fn lemma_first_match(pats: Seq<Seq<char>>, path: Seq<char>, from: int)
    requires
        0 <= from,
    ensures
        match first_match(pats, path, from) {
            Some(k) => from <= k < pats.len() && regex_accepts(pats[k], path) && (forall|j: int|
                from <= j < k ==> !regex_accepts(pats[j], path)),
            None => forall|j: int| from <= j < pats.len() ==> !regex_accepts(pats[j], path),
        },
    decreases pats.len() - from + 1,
{
    if from >= pats.len() {
    } else if regex_accepts(pats[from], path) {
    } else {
        lemma_first_match(pats, path, from + 1);
    }
}

/// Law: among the patterns that match a path, the earliest declared one
/// wins, whatever matches later in the table.
pub proof fn lemma_earliest_match_wins(pats: Seq<Seq<char>>, path: Seq<char>, i: int)
    requires
        0 <= i < pats.len(),
        regex_accepts(pats[i], path),
    ensures
        first_match(pats, path, 0) matches Some(k) && 0 <= k <= i && regex_accepts(pats[k], path)
            && (forall|j: int| 0 <= j < k ==> !regex_accepts(pats[j], path)),
{
    lemma_first_match(pats, path, 0);
}

/// The compiled route table of one service: its patterns, in declaration
/// order. A router is valid for the table it was compiled from.
pub struct Router {
    routes: Vec<RoutePattern>,
}

impl View for Router {
    type V = Seq<Seq<char>>;

    closed spec fn view(&self) -> Seq<Seq<char>> {
        self.routes@.map_values(|p: RoutePattern| p@)
    }
}

/// A router carries exactly the patterns of a route table, in order.
pub open spec fn router_fits(rv: Seq<Seq<char>>, locations: Seq<(String, Method)>) -> bool {
    &&& rv.len() == locations.len()
    &&& forall|i: int| 0 <= i < rv.len() ==> rv[i] == locations[i].0@
}

impl Router {
    /// Compile a route table's patterns, in order, failing fast on the
    /// first invalid one.
    pub fn build(locations: &Vec<(String, Method)>) -> (r: Result<Router, HttpError>)
        ensures
            r matches Ok(router) ==> router_fits(router@, locations@) && (forall|i: int|
                0 <= i < locations@.len() ==> regex_compiles(locations@[i].0@)),
            r matches Err(e) ==> (e matches HttpError::InvalidPattern(i) && 0 <= (i as int)
                < locations@.len() && !regex_compiles(locations@[i as int].0@) && (forall|j: int|
                0 <= j < i as int ==> regex_compiles(locations@[j].0@))),
    {
        let mut routes: Vec<RoutePattern> = Vec::new();
        let n: usize = locations.len();
        let mut i: usize = 0;
        while i < n
            invariant
                n == locations@.len(),
                i <= n,
                routes@.len() == i,
                forall|j: int|
                    0 <= j < i ==> routes@.map_values(|p: RoutePattern| p@)[j]
                        == locations@[j].0@ && regex_compiles(locations@[j].0@),
            decreases n - i,
        {
            match RoutePattern::compile(locations[i].0.as_str()) {
                None => {
                    return Err(HttpError::InvalidPattern(i));
                },
                Some(p) => {
                    routes.push(p);
                },
            }
            i = i + 1;
        }
        Ok(Router { routes })
    }

    /// Resolve a request path to the index of the first route whose
    /// pattern matches it.
    pub fn resolve(&self, path: &str) -> (r: Option<usize>)
        ensures
            match r {
                Some(i) => Some(i as int) == first_match(self@, path@, 0),
                None => first_match(self@, path@, 0) is None,
            },
    {
        proof {
            lemma_first_match(self@, path@, 0);
        }
        let n: usize = self.routes.len();
        let mut i: usize = 0;
        while i < n
            invariant
                n == self.routes@.len(),
                n == self@.len(),
                i <= n,
                forall|j: int| 0 <= j < i ==> !regex_accepts(self@[j], path@),
            decreases n - i,
        {
            if self.routes[i].matches(path) {
                proof {
                    lemma_first_match(self@, path@, 0);
                    assert(regex_accepts(self@[i as int], path@));
                }
                return Some(i);
            }
            i = i + 1;
        }
        proof {
            lemma_first_match(self@, path@, 0);
        }
        None
    }
}

} // verus!
