//! Boolean composition of matchers: AND / OR trees with short-circuit
//! evaluation.

use vstd::prelude::*;

use crate::matcher::Matcher;
use crate::matcher::MatcherView;
use crate::matcher::matcher_holds;
use crate::request::Request;
use crate::request::RequestView;

verus! {

/// A boolean composition of matchers.
#[derive(Debug)]
pub enum Matchers {
    And(Vec<Matcher>),
    Or(Vec<Matcher>),
}

/// The mathematical shape of a matcher tree.
pub enum MatchersView {
    And(Seq<MatcherView>),
    Or(Seq<MatcherView>),
}

impl View for Matchers {
    type V = MatchersView;

    open spec fn view(&self) -> MatchersView {
        match self {
            Matchers::And(ms) => MatchersView::And(ms.deep_view()),
            Matchers::Or(ms) => MatchersView::Or(ms.deep_view()),
        }
    }
}

/// Every matcher holds; vacuously true of none.
pub open spec fn all_hold(ms: Seq<MatcherView>, req: RequestView) -> bool {
    forall|i: int| 0 <= i < ms.len() ==> matcher_holds(ms[i], req)
}

/// Some matcher holds; vacuously false of none.
pub open spec fn any_holds(ms: Seq<MatcherView>, req: RequestView) -> bool {
    exists|i: int| 0 <= i < ms.len() && matcher_holds(ms[i], req)
}

/// What a matcher tree asks of a request.
pub open spec fn matchers_hold(t: MatchersView, req: RequestView) -> bool {
    match t {
        MatchersView::And(ms) => all_hold(ms, req),
        MatchersView::Or(ms) => any_holds(ms, req),
    }
}

impl Matchers {
    /// The empty composition: an Or of nothing, which no request
    /// satisfies.
    pub fn empty() -> (r: Matchers)
        ensures
            r@ == MatchersView::Or(Seq::<MatcherView>::empty()),
    {
        let ms: Vec<Matcher> = Vec::new();
        proof {
            assert(ms.deep_view() =~= Seq::<MatcherView>::empty());
        }
        Matchers::Or(ms)
    }

    /// Evaluate the tree with short-circuit semantics: an And stops at
    /// the first miss, an Or at the first hit.
    pub fn matches(&self, req: &Request) -> (r: bool)
        ensures
            r == matchers_hold(self@, req@),
    {
        match self {
            Matchers::And(ms) => {
                let mut i: usize = 0;
                while i < ms.len()
                    invariant
                        i <= ms.len(),
                        self@ == MatchersView::And(ms.deep_view()),
                        forall|j: int| 0 <= j < i ==> matcher_holds(ms.deep_view()[j], req@),
                    decreases ms.len() - i,
                {
                    if !ms[i].matches(req) {
                        proof {
                            assert(!matcher_holds(ms.deep_view()[i as int], req@));
                            if all_hold(ms.deep_view(), req@) {
                                assert(matcher_holds(ms.deep_view()[i as int], req@));
                            }
                        }
                        return false;
                    }
                    i += 1;
                }
                true
            },
            Matchers::Or(ms) => {
                let mut i: usize = 0;
                while i < ms.len()
                    invariant
                        i <= ms.len(),
                        self@ == MatchersView::Or(ms.deep_view()),
                        forall|j: int| 0 <= j < i ==> !matcher_holds(ms.deep_view()[j], req@),
                    decreases ms.len() - i,
                {
                    if ms[i].matches(req) {
                        proof {
                            assert(matcher_holds(ms.deep_view()[i as int], req@));
                            assert(any_holds(ms.deep_view(), req@));
                        }
                        return true;
                    }
                    i += 1;
                }
                false
            },
        }
    }
}

impl Clone for Matchers {
    /// A copy with the same shape.
    fn clone(&self) -> (r: Matchers)
        ensures
            r@ == self@,
    {
        match self {
            Matchers::And(ms) => Matchers::And(clone_matchers(ms)),
            Matchers::Or(ms) => Matchers::Or(clone_matchers(ms)),
        }
    }
}

fn clone_matchers(ms: &Vec<Matcher>) -> (r: Vec<Matcher>)
    ensures
        r.deep_view() == ms.deep_view(),
{
    let mut out: Vec<Matcher> = Vec::new();
    let mut i: usize = 0;
    while i < ms.len()
        invariant
            i <= ms.len(),
            out@.len() == i,
            out.deep_view() =~= ms.deep_view().take(i as int),
        decreases ms.len() - i,
    {
        let m = ms[i].clone();
        let ghost old_out = out;
        out.push(m);
        proof {
            assert forall|j: int| 0 <= j <= i implies out.deep_view()[j] == ms.deep_view().take(
                i + 1,
            )[j] by {
                if j < i {
                    assert(old_out@.push(m)[j] == old_out@[j]);
                } else {
                    assert(old_out@.push(m)[j] == m);
                }
            }
            assert(out.deep_view() =~= ms.deep_view().take(i + 1));
        }
        i += 1;
    }
    proof {
        assert(ms.deep_view().take(ms@.len() as int) =~= ms.deep_view());
    }
    out
}

/// An empty And accepts every request; an empty Or rejects every one.
pub proof fn lemma_empty_and_or(t: MatchersView, req: RequestView)
    ensures
        t matches MatchersView::And(ms) && ms.len() == 0 ==> matchers_hold(t, req),
        t matches MatchersView::Or(ms) && ms.len() == 0 ==> !matchers_hold(t, req),
{
}

} // verus!
