//! Atomic predicates over one aspect of a request.

use vstd::prelude::*;

use crate::request::Request;
use crate::request::RequestView;
use crate::request::assoc_get;
use crate::request::assoc_get_ci;
use crate::request::lookup;
use crate::request::lookup_ci;
use crate::text::contains_seq;
use crate::text::contains_str;
use crate::value::Value;
use crate::value::ValueView;
use crate::value::coerce_spec;
use crate::value::contains_value;

verus! {

/// Matches when the named path parameter is present and its coerced
/// value is one of the configured values.
#[derive(Debug)]
pub struct PathParamMatcher {
    pub name: String,
    pub values: Vec<Value>,
}

/// Matches when the named header is present (name compared
/// case-insensitively) and its value contains any configured substring.
#[derive(Debug)]
pub struct HeaderContainsMatcher {
    pub name: String,
    pub values: Vec<String>,
}

/// Matches when the named query parameter is present and its value
/// contains any configured substring.
#[derive(Debug)]
pub struct QueryContainsMatcher {
    pub name: String,
    pub values: Vec<String>,
}

/// Matches when the request body contains any configured substring.
#[derive(Debug)]
pub struct BodyContainsMatcher {
    pub values: Vec<String>,
}

/// An atomic predicate over a normalized request.
#[derive(Debug)]
pub enum Matcher {
    PathParam(PathParamMatcher),
    HeaderContains(HeaderContainsMatcher),
    QueryContains(QueryContainsMatcher),
    BodyContains(BodyContainsMatcher),
}

/// The mathematical shape of a matcher.
pub enum MatcherView {
    PathParam { name: Seq<char>, values: Seq<ValueView> },
    HeaderContains { name: Seq<char>, values: Seq<Seq<char>> },
    QueryContains { name: Seq<char>, values: Seq<Seq<char>> },
    BodyContains { values: Seq<Seq<char>> },
}

impl View for Matcher {
    type V = MatcherView;

    open spec fn view(&self) -> MatcherView {
        match self {
            Matcher::PathParam(m) => MatcherView::PathParam {
                name: m.name@,
                values: m.values.deep_view(),
            },
            Matcher::HeaderContains(m) => MatcherView::HeaderContains {
                name: m.name@,
                values: m.values.deep_view(),
            },
            Matcher::QueryContains(m) => MatcherView::QueryContains {
                name: m.name@,
                values: m.values.deep_view(),
            },
            Matcher::BodyContains(m) => MatcherView::BodyContains { values: m.values.deep_view() },
        }
    }
}

impl DeepView for Matcher {
    type V = MatcherView;

    open spec fn deep_view(&self) -> MatcherView {
        self.view()
    }
}

/// The path-parameter predicate: the parameter must be present and its
/// coerced value must be a member of the configured set.
pub open spec fn path_param_holds(
    name: Seq<char>,
    values: Seq<ValueView>,
    req: RequestView,
) -> bool {
    match assoc_get(req.path_params, name) {
        Some(raw) => values.contains(coerce_spec(raw)),
        None => false,
    }
}

/// Any of the configured substrings occurs in the actual value.
pub open spec fn any_contained(subs: Seq<Seq<char>>, actual: Seq<char>) -> bool {
    exists|i: int| 0 <= i < subs.len() && contains_seq(actual, subs[i])
}

/// What a matcher asks of a request.
pub open spec fn matcher_holds(m: MatcherView, req: RequestView) -> bool {
    match m {
        MatcherView::PathParam { name, values } => path_param_holds(name, values, req),
        MatcherView::HeaderContains { name, values } => match assoc_get_ci(req.headers, name) {
            Some(actual) => any_contained(values, actual),
            None => false,
        },
        MatcherView::QueryContains { name, values } => match assoc_get(req.query, name) {
            Some(actual) => any_contained(values, actual),
            None => false,
        },
        MatcherView::BodyContains { values } => any_contained(values, req.body),
    }
}

/// Whether any of `values` occurs in `actual`, stopping at the first hit.
fn any_contains(values: &Vec<String>, actual: &str) -> (r: bool)
    ensures
        r == any_contained(values.deep_view(), actual@),
{
    let mut i: usize = 0;
    while i < values.len()
        invariant
            i <= values.len(),
            forall|j: int| 0 <= j < i ==> !contains_seq(actual@, values.deep_view()[j]),
        decreases values.len() - i,
    {
        if contains_str(actual, values[i].as_str()) {
            proof {
                assert(contains_seq(actual@, values.deep_view()[i as int]));
            }
            return true;
        }
        i += 1;
    }
    false
}

impl PathParamMatcher {
    /// Look the parameter up; absent means no match, never an error.
    pub fn matches(&self, req: &Request) -> (r: bool)
        ensures
            r == path_param_holds(self.name@, self.values.deep_view(), req@),
    {
        match lookup(&req.path_params, &self.name) {
            Some(raw) => {
                let v = Value::coerce(raw.as_str());
                contains_value(&self.values, &v)
            },
            None => false,
        }
    }
}

impl HeaderContainsMatcher {
    /// Look the header up by case-insensitive name; absent means no
    /// match.
    pub fn matches(&self, req: &Request) -> (r: bool)
        ensures
            r == matcher_holds(
                MatcherView::HeaderContains { name: self.name@, values: self.values.deep_view() },
                req@,
            ),
    {
        match lookup_ci(&req.headers, &self.name) {
            Some(actual) => any_contains(&self.values, actual.as_str()),
            None => false,
        }
    }
}

impl QueryContainsMatcher {
    /// Look the query parameter up; absent means no match.
    pub fn matches(&self, req: &Request) -> (r: bool)
        ensures
            r == matcher_holds(
                MatcherView::QueryContains { name: self.name@, values: self.values.deep_view() },
                req@,
            ),
    {
        match lookup(&req.query, &self.name) {
            Some(actual) => any_contains(&self.values, actual.as_str()),
            None => false,
        }
    }
}

impl BodyContainsMatcher {
    /// Search the raw body for any configured substring.
    pub fn matches(&self, req: &Request) -> (r: bool)
        ensures
            r == matcher_holds(MatcherView::BodyContains { values: self.values.deep_view() }, req@),
    {
        any_contains(&self.values, req.body.as_str())
    }
}

impl Matcher {
    /// Evaluate this matcher against a request: pure, total, never an
    /// error.
    pub fn matches(&self, req: &Request) -> (r: bool)
        ensures
            r == matcher_holds(self@, req@),
    {
        match self {
            Matcher::PathParam(m) => m.matches(req),
            Matcher::HeaderContains(m) => m.matches(req),
            Matcher::QueryContains(m) => m.matches(req),
            Matcher::BodyContains(m) => m.matches(req),
        }
    }
}

/// A path-parameter matcher is membership, nothing more: when the named
/// parameter is present and coerces to `v`, the matcher holds exactly
/// when `v` is in the configured set.
pub proof fn lemma_path_param_membership(
    name: Seq<char>,
    values: Seq<ValueView>,
    req: RequestView,
    v: ValueView,
)
    requires
        assoc_get(req.path_params, name) matches Some(raw) && coerce_spec(raw) == v,
    ensures
        path_param_holds(name, values, req) == values.contains(v),
{
}

/// The order in which the value set was declared is irrelevant: two sets
/// with the same members give the matcher the same verdict on every
/// request.
pub proof fn lemma_path_param_order_irrelevant(
    name: Seq<char>,
    values1: Seq<ValueView>,
    values2: Seq<ValueView>,
    req: RequestView,
)
    requires
        values1.to_set() == values2.to_set(),
    ensures
        path_param_holds(name, values1, req) == path_param_holds(name, values2, req),
{
    assert forall|v: ValueView| values1.contains(v) == values2.contains(v) by {
        assert(values1.to_set().contains(v) == values1.contains(v));
        assert(values2.to_set().contains(v) == values2.contains(v));
    }
}

fn clone_values(values: &Vec<Value>) -> (r: Vec<Value>)
    ensures
        r.deep_view() == values.deep_view(),
{
    let mut out: Vec<Value> = Vec::new();
    let mut i: usize = 0;
    while i < values.len()
        invariant
            i <= values.len(),
            out@.len() == i,
            out.deep_view() =~= values.deep_view().take(i as int),
        decreases values.len() - i,
    {
        let v = values[i].clone();
        let ghost old_out = out;
        out.push(v);
        proof {
            assert forall|j: int| 0 <= j <= i implies out.deep_view()[j]
                == values.deep_view().take(i + 1)[j] by {
                if j < i {
                    assert(old_out@.push(v)[j] == old_out@[j]);
                } else {
                    assert(old_out@.push(v)[j] == v);
                }
            }
            assert(out.deep_view() =~= values.deep_view().take(i + 1));
        }
        i += 1;
    }
    proof {
        assert(values.deep_view().take(values@.len() as int) =~= values.deep_view());
    }
    out
}

fn clone_strings(values: &Vec<String>) -> (r: Vec<String>)
    ensures
        r.deep_view() == values.deep_view(),
{
    let mut out: Vec<String> = Vec::new();
    let mut i: usize = 0;
    while i < values.len()
        invariant
            i <= values.len(),
            out@.len() == i,
            out.deep_view() =~= values.deep_view().take(i as int),
        decreases values.len() - i,
    {
        let v = values[i].clone();
        let ghost old_out = out;
        out.push(v);
        proof {
            assert forall|j: int| 0 <= j <= i implies out.deep_view()[j]
                == values.deep_view().take(i + 1)[j] by {
                if j < i {
                    assert(old_out@.push(v)[j] == old_out@[j]);
                } else {
                    assert(old_out@.push(v)[j] == v);
                }
            }
            assert(out.deep_view() =~= values.deep_view().take(i + 1));
        }
        i += 1;
    }
    proof {
        assert(values.deep_view().take(values@.len() as int) =~= values.deep_view());
    }
    out
}

impl Clone for PathParamMatcher {
    /// A copy with the same shape.
    fn clone(&self) -> (r: PathParamMatcher)
        ensures
            r.name@ == self.name@,
            r.values.deep_view() == self.values.deep_view(),
    {
        PathParamMatcher { name: self.name.clone(), values: clone_values(&self.values) }
    }
}

impl Clone for HeaderContainsMatcher {
    /// A copy with the same shape.
    fn clone(&self) -> (r: HeaderContainsMatcher)
        ensures
            r.name@ == self.name@,
            r.values.deep_view() == self.values.deep_view(),
    {
        HeaderContainsMatcher { name: self.name.clone(), values: clone_strings(&self.values) }
    }
}

impl Clone for QueryContainsMatcher {
    /// A copy with the same shape.
    fn clone(&self) -> (r: QueryContainsMatcher)
        ensures
            r.name@ == self.name@,
            r.values.deep_view() == self.values.deep_view(),
    {
        QueryContainsMatcher { name: self.name.clone(), values: clone_strings(&self.values) }
    }
}

impl Clone for BodyContainsMatcher {
    /// A copy with the same shape.
    fn clone(&self) -> (r: BodyContainsMatcher)
        ensures
            r.values.deep_view() == self.values.deep_view(),
    {
        BodyContainsMatcher { values: clone_strings(&self.values) }
    }
}

impl Clone for Matcher {
    /// A copy with the same shape.
    fn clone(&self) -> (r: Matcher)
        ensures
            r@ == self@,
    {
        match self {
            Matcher::PathParam(m) => Matcher::PathParam(m.clone()),
            Matcher::HeaderContains(m) => Matcher::HeaderContains(m.clone()),
            Matcher::QueryContains(m) => Matcher::QueryContains(m.clone()),
            Matcher::BodyContains(m) => Matcher::BodyContains(m.clone()),
        }
    }
}

} // verus!
