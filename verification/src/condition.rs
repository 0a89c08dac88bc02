//! A predicate/response pair: the unit a route selects from.

use vstd::prelude::*;

use crate::matcher::Matcher;
use crate::matcher::MatcherView;
use crate::matcher::matcher_holds;
use crate::matchers::Matchers;
use crate::matchers::MatchersView;
use crate::matchers::matchers_hold;
use crate::request::Request;
use crate::request::RequestView;
use crate::response::Response;
use crate::response::ResponseView;

verus! {

/// An optional predicate paired with a response template. When both a
/// single matcher and a tree are configured, only the single matcher
/// takes effect; when neither is, the condition always holds.
#[derive(Debug)]
pub struct Condition {
    pub matcher: Option<Matcher>,
    pub matchers: Option<Matchers>,
    pub response: Response,
}

/// The mathematical shape of a condition.
pub struct ConditionView {
    pub matcher: Option<MatcherView>,
    pub matchers: Option<MatchersView>,
    pub response: ResponseView,
}

impl View for Condition {
    type V = ConditionView;

    open spec fn view(&self) -> ConditionView {
        ConditionView {
            matcher: match self.matcher {
                Some(m) => Some(m@),
                None => None,
            },
            matchers: match self.matchers {
                Some(t) => Some(t@),
                None => None,
            },
            response: self.response@,
        }
    }
}

impl DeepView for Condition {
    type V = ConditionView;

    open spec fn deep_view(&self) -> ConditionView {
        self.view()
    }
}

/// Whether a condition accepts a request: the single matcher when
/// present, else the tree when present, else unconditionally true.
pub open spec fn condition_holds(c: ConditionView, req: RequestView) -> bool {
    match c.matcher {
        Some(m) => matcher_holds(m, req),
        None => match c.matchers {
            Some(t) => matchers_hold(t, req),
            None => true,
        },
    }
}

impl Condition {
    /// Evaluate this condition's predicate against a request.
    pub fn matches(&self, req: &Request) -> (r: bool)
        ensures
            r == condition_holds(self@, req@),
    {
        match &self.matcher {
            Some(m) => m.matches(req),
            None => match &self.matchers {
                Some(t) => t.matches(req),
                None => true,
            },
        }
    }
}

impl Clone for Condition {
    /// A copy with the same shape.
    fn clone(&self) -> (r: Condition)
        ensures
            r@ == self@,
    {
        Condition {
            matcher: match &self.matcher {
                Some(m) => Some(m.clone()),
                None => None,
            },
            matchers: match &self.matchers {
                Some(t) => Some(t.clone()),
                None => None,
            },
            response: self.response.clone(),
        }
    }
}

/// When both a single matcher and a tree are configured, the single
/// matcher alone decides; the tree's verdict never enters.
pub proof fn lemma_single_matcher_takes_precedence(c: ConditionView, m: MatcherView,
    req: RequestView)
    requires
        c.matcher == Some(m),
    ensures
        condition_holds(c, req) == matcher_holds(m, req),
{
}

} // verus!
