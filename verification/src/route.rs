//! Routes: a path, its methods, its ordered conditions and its CORS
//! setting, and how a request to the route becomes a response.

use vstd::prelude::*;
use vstd::utf8::encode_utf8;

use crate::body::Resolved;
use crate::body::ResolvedView;
use crate::body::resolve_spec;
use crate::condition::Condition;
use crate::condition::ConditionView;
use crate::condition::condition_holds;
use crate::method::Method;
use crate::method::method_name;
use crate::request::Request;
use crate::request::RequestView;
use crate::response::PendingResponse;
use crate::response::effective_body;

verus! {

/// A route: path template, allowed methods, optional CORS override, and
/// the ordered conditions tried against each request.
#[derive(Debug)]
pub struct Route {
    pub path: String,
    pub methods: Vec<Method>,
    pub enable_cors: Option<bool>,
    pub conditions: Vec<Condition>,
}

/// The mathematical shape of a route.
pub struct RouteView {
    pub path: Seq<char>,
    pub methods: Seq<Method>,
    pub enable_cors: Option<bool>,
    pub conditions: Seq<ConditionView>,
}

impl View for Route {
    type V = RouteView;

    open spec fn view(&self) -> RouteView {
        RouteView {
            path: self.path@,
            methods: self.methods@,
            enable_cors: self.enable_cors,
            conditions: self.conditions.deep_view(),
        }
    }
}

impl DeepView for Route {
    type V = RouteView;

    open spec fn deep_view(&self) -> RouteView {
        self.view()
    }
}

/// A route serves CORS when its (merged) flag says so; an unset flag
/// means off.
pub open spec fn cors_enabled(r: RouteView) -> bool {
    r.enable_cors == Some(true)
}

/// The first condition, in declaration order, that accepts the request.
pub open spec fn first_matching(conds: Seq<ConditionView>, req: RequestView) -> Option<int>
    decreases conds.len(),
{
    if conds.len() == 0 {
        None
    } else if condition_holds(conds[0], req) {
        Some(0)
    } else {
        match first_matching(conds.drop_first(), req) {
            Some(i) => Some(i + 1),
            None => None,
        }
    }
}

/// A position that matches, with none before it, is the selected one.
pub proof fn lemma_first_matching_at(conds: Seq<ConditionView>, req: RequestView, i: int)
    requires
        0 <= i < conds.len(),
        condition_holds(conds[i], req),
        forall|j: int| 0 <= j < i ==> !condition_holds(conds[j], req),
    ensures
        first_matching(conds, req) == Some(i),
    decreases i,
{
    if i > 0 {
        assert(!condition_holds(conds[0], req));
        assert forall|j: int| 0 <= j < i - 1 implies !condition_holds(
            conds.drop_first()[j],
            req,
        ) by {
            assert(conds.drop_first()[j] == conds[j + 1]);
        }
        assert(conds.drop_first()[i - 1] == conds[i]);
        lemma_first_matching_at(conds.drop_first(), req, i - 1);
    }
}

/// When no condition matches, none is selected.
pub proof fn lemma_first_matching_none(conds: Seq<ConditionView>, req: RequestView)
    requires
        forall|j: int| 0 <= j < conds.len() ==> !condition_holds(conds[j], req),
    ensures
        first_matching(conds, req) is None,
    decreases conds.len(),
{
    if conds.len() > 0 {
        assert forall|j: int| 0 <= j < conds.len() - 1 implies !condition_holds(
            conds.drop_first()[j],
            req,
        ) by {
            assert(conds.drop_first()[j] == conds[j + 1]);
        }
        lemma_first_matching_none(conds.drop_first(), req);
    }
}

/// Selection is the first declaration-order match, exactly: a selected
/// position matches and nothing before it does, and nothing is selected
/// only when nothing matches. Reordering conditions with overlapping
/// matches therefore changes which one answers.
pub proof fn lemma_first_matching_sound(conds: Seq<ConditionView>, req: RequestView)
    ensures
        first_matching(conds, req) matches Some(i) ==> 0 <= i < conds.len() && condition_holds(
            conds[i],
            req,
        ) && forall|j: int| 0 <= j < i ==> !condition_holds(conds[j], req),
        first_matching(conds, req) is None ==> forall|j: int|
            0 <= j < conds.len() ==> !condition_holds(conds[j], req),
    decreases conds.len(),
{
    if conds.len() > 0 && !condition_holds(conds[0], req) {
        lemma_first_matching_sound(conds.drop_first(), req);
        assert forall|j: int| 0 <= j < conds.len() - 1 implies conds.drop_first()[j] == conds[j
            + 1] by {}
        match first_matching(conds.drop_first(), req) {
            Some(i2) => {
                assert(first_matching(conds, req) == Some(i2 + 1));
                assert(condition_holds(conds.drop_first()[i2], req));
                assert forall|j: int| 0 <= j < i2 + 1 implies !condition_holds(conds[j], req) by {
                    if j > 0 {
                        assert(!condition_holds(conds.drop_first()[j - 1], req));
                    }
                }
            },
            None => {
                assert forall|j: int| 0 <= j < conds.len() implies !condition_holds(
                    conds[j],
                    req,
                ) by {
                    if j > 0 {
                        assert(!condition_holds(conds.drop_first()[j - 1], req));
                    }
                }
            },
        }
    }
}

/// The methods of a route joined by commas, in declaration order, as the
/// preflight answer advertises them.
pub open spec fn methods_joined(ms: Seq<Method>) -> Seq<char>
    decreases ms.len(),
{
    if ms.len() == 0 {
        Seq::<char>::empty()
    } else if ms.len() == 1 {
        method_name(ms[0])
    } else {
        methods_joined(ms.drop_last()) + ","@ + method_name(ms.last())
    }
}

/// The four CORS headers a CORS-enabled route appends: any origin, the
/// route's own methods, the Authorization header, and credentials.
pub open spec fn cors_header_list(ms: Seq<Method>) -> Seq<(Seq<char>, Seq<char>)> {
    seq![
        ("Access-Control-Allow-Origin"@, "*"@),
        ("Access-Control-Allow-Methods"@, methods_joined(ms)),
        ("Access-Control-Allow-Headers"@, "Authorization"@),
        ("Access-Control-Allow-Credentials"@, "true"@),
    ]
}

/// Which handler serves a method on a route.
#[derive(Clone, Copy, Debug, PartialEq, Eq, Structural)]
pub enum HandlerKind {
    Normal,
    Preflight,
}

/// How a route answers a method: a CORS-enabled route serves OPTIONS
/// with the synthetic preflight handler, overriding any configured
/// OPTIONS handling; its other configured methods get the normal
/// handler; everything else is unrouted.
pub open spec fn handler_for_spec(r: RouteView, m: Method) -> Option<HandlerKind> {
    if cors_enabled(r) && m is Options {
        Some(HandlerKind::Preflight)
    } else if r.methods.contains(m) {
        Some(HandlerKind::Normal)
    } else {
        None
    }
}

/// Join the route's methods with commas.
pub fn join_methods(methods: &Vec<Method>) -> (r: String)
    ensures
        r@ == methods_joined(methods@),
{
    let mut out = String::new();
    let mut i: usize = 0;
    while i < methods.len()
        invariant
            i <= methods.len(),
            out@ == methods_joined(methods@.take(i as int)),
        decreases methods.len() - i,
    {
        if i > 0 {
            out.append(",");
        }
        let name = methods[i].to_string();
        out.append(name.as_str());
        proof {
            assert(methods@.take(i + 1).drop_last() =~= methods@.take(i as int));
            assert(methods@.take(i + 1).last() == methods@[i as int]);
        }
        i += 1;
    }
    proof {
        assert(methods@.take(methods@.len() as int) =~= methods@);
    }
    out
}

impl Route {
    /// The effective CORS flag: set means itself, unset means off.
    pub fn cors_on(&self) -> (r: bool)
        ensures
            r == cors_enabled(self@),
    {
        match self.enable_cors {
            Some(b) => b,
            None => false,
        }
    }

    /// The four CORS headers for this route.
    pub fn cors_headers(&self) -> (r: Vec<(String, String)>)
        ensures
            r.deep_view() == cors_header_list(self@.methods),
    {
        let mut out: Vec<(String, String)> = Vec::new();
        out.push(("Access-Control-Allow-Origin".to_owned(), "*".to_owned()));
        out.push(("Access-Control-Allow-Methods".to_owned(), join_methods(&self.methods)));
        out.push(("Access-Control-Allow-Headers".to_owned(), "Authorization".to_owned()));
        out.push(("Access-Control-Allow-Credentials".to_owned(), "true".to_owned()));
        proof {
            assert(out.deep_view() =~= cors_header_list(self@.methods));
        }
        out
    }

    /// Which handler serves method `m` on this route.
    pub fn handler_for(&self, m: Method) -> (r: Option<HandlerKind>)
        ensures
            r == handler_for_spec(self@, m),
    {
        if self.cors_on() && m == Method::Options {
            return Some(HandlerKind::Preflight);
        }
        let mut i: usize = 0;
        while i < self.methods.len()
            invariant
                i <= self.methods.len(),
                forall|j: int| 0 <= j < i ==> self.methods@[j] != m,
        decreases self.methods.len() - i,
        {
            if self.methods[i] == m {
                proof {
                    assert(self@.methods[i as int] == m);
                    assert(self@.methods.contains(m));
                }
                return if self.cors_on() && m == Method::Options {
                    Some(HandlerKind::Preflight)
                } else {
                    Some(HandlerKind::Normal)
                };
            }
            i += 1;
        }
        proof {
            assert(!self@.methods.contains(m));
        }
        None
    }

    /// The first condition, in declaration order, that accepts the
    /// request; none when no condition matches.
    pub fn select_condition(&self, req: &Request) -> (r: Option<usize>)
        ensures
            match r {
                Some(i) => i < self@.conditions.len() && first_matching(self@.conditions, req@)
                    == Some(i as int),
                None => first_matching(self@.conditions, req@) is None,
            },
    {
        let mut i: usize = 0;
        while i < self.conditions.len()
            invariant
                i <= self.conditions.len(),
                forall|j: int|
                    0 <= j < i ==> !condition_holds(self.conditions.deep_view()[j], req@),
            decreases self.conditions.len() - i,
        {
            if self.conditions[i].matches(req) {
                proof {
                    lemma_first_matching_at(self.conditions.deep_view(), req@, i as int);
                }
                return Some(i);
            }
            i += 1;
        }
        proof {
            lemma_first_matching_none(self.conditions.deep_view(), req@);
        }
        None
    }

    /// Answer a normal (non-preflight) request: the first matching
    /// condition's response, with this route's CORS headers to append
    /// when CORS is on; a fixed 404 when nothing matches, without CORS
    /// headers.
    pub fn respond(&self, req: &Request) -> (r: PendingResponse)
        ensures
            match first_matching(self@.conditions, req@) {
                Some(i) => {
                    let c = self@.conditions[i];
                    &&& r.status == c.response.status
                    &&& r.headers.deep_view() == c.response.headers
                    &&& r.body@ == resolve_spec(effective_body(c.response))
                    &&& r.cors.deep_view() == if cors_enabled(self@) {
                        cors_header_list(self@.methods)
                    } else {
                        Seq::<(Seq<char>, Seq<char>)>::empty()
                    }
                },
                None => {
                    &&& r.status == 404
                    &&& r.headers.deep_view() == Seq::<(Seq<char>, Seq<char>)>::empty()
                    &&& r.cors.deep_view() == Seq::<(Seq<char>, Seq<char>)>::empty()
                    &&& r.body@ == ResolvedView::Ready(
                        encode_utf8("Unable to select response for input"@),
                    )
                },
            },
    {
        match self.select_condition(req) {
            Some(i) => {
                let mut pending = self.conditions[i].response.response();
                if self.cors_on() {
                    pending.cors = self.cors_headers();
                }
                pending
            },
            None => {
                let headers: Vec<(String, String)> = Vec::new();
                let cors: Vec<(String, String)> = Vec::new();
                let body = "Unable to select response for input".as_bytes_vec();
                proof {
                    assert(headers.deep_view() =~= Seq::<(Seq<char>, Seq<char>)>::empty());
                    assert(cors.deep_view() =~= Seq::<(Seq<char>, Seq<char>)>::empty());
                }
                PendingResponse { status: 404, headers, cors, body: Resolved::Ready(body) }
            },
        }
    }

    /// Answer a CORS preflight: status 200, no template headers, the
    /// four CORS headers to append, and an empty body.
    pub fn preflight_response(&self) -> (r: PendingResponse)
        ensures
            r.status == 200,
            r.headers.deep_view() == Seq::<(Seq<char>, Seq<char>)>::empty(),
            r.cors.deep_view() == cors_header_list(self@.methods),
            r.body@ == ResolvedView::Ready(Seq::<u8>::empty()),
    {
        let headers: Vec<(String, String)> = Vec::new();
        let body: Vec<u8> = Vec::new();
        proof {
            assert(headers.deep_view() =~= Seq::<(Seq<char>, Seq<char>)>::empty());
            assert(body@ =~= Seq::<u8>::empty());
        }
        PendingResponse {
            status: 200,
            headers,
            cors: self.cors_headers(),
            body: Resolved::Ready(body),
        }
    }
}

fn clone_conditions(conds: &Vec<Condition>) -> (r: Vec<Condition>)
    ensures
        r.deep_view() == conds.deep_view(),
{
    let mut out: Vec<Condition> = Vec::new();
    let mut i: usize = 0;
    while i < conds.len()
        invariant
            i <= conds.len(),
            out@.len() == i,
            out.deep_view() =~= conds.deep_view().take(i as int),
        decreases conds.len() - i,
    {
        let c = conds[i].clone();
        let ghost old_out = out;
        out.push(c);
        proof {
            assert forall|j: int| 0 <= j <= i implies out.deep_view()[j] == conds.deep_view().take(
                i + 1,
            )[j] by {
                if j < i {
                    assert(old_out@.push(c)[j] == old_out@[j]);
                } else {
                    assert(old_out@.push(c)[j] == c);
                }
            }
            assert(out.deep_view() =~= conds.deep_view().take(i + 1));
        }
        i += 1;
    }
    proof {
        assert(conds.deep_view().take(conds@.len() as int) =~= conds.deep_view());
    }
    out
}

impl Clone for Route {
    /// A copy with the same shape.
    fn clone(&self) -> (r: Route)
        ensures
            r@ == self@,
    {
        let mut methods: Vec<Method> = Vec::new();
        let mut i: usize = 0;
        while i < self.methods.len()
            invariant
                i <= self.methods.len(),
                methods@ =~= self.methods@.take(i as int),
            decreases self.methods.len() - i,
        {
            methods.push(self.methods[i]);
            proof {
                assert(methods@ =~= self.methods@.take(i + 1));
            }
            i += 1;
        }
        proof {
            assert(self.methods@.take(self.methods@.len() as int) =~= self.methods@);
        }
        Route {
            path: self.path.clone(),
            methods,
            enable_cors: self.enable_cors,
            conditions: clone_conditions(&self.conditions),
        }
    }
}

} // verus!
