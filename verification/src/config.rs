//! The top-level configuration document and its CORS merge.

use vstd::prelude::*;

use crate::options::Options;
use crate::options::OptionsView;
use crate::route::Route;
use crate::route::RouteView;

verus! {

/// The whole document: global options and the ordered routes.
#[derive(Debug)]
pub struct Config {
    pub options: Options,
    pub routes: Vec<Route>,
}

/// The mathematical shape of a configuration.
pub struct ConfigView {
    pub options: OptionsView,
    pub routes: Seq<RouteView>,
}

impl View for Config {
    type V = ConfigView;

    open spec fn view(&self) -> ConfigView {
        ConfigView { options: self.options@, routes: self.routes.deep_view() }
    }
}

/// The CORS merge of one route: a route that sets its own flag keeps
/// it; one that does not inherits the global default. Nothing else
/// changes.
pub open spec fn merged_route(r: RouteView, default_cors: Option<bool>) -> RouteView {
    RouteView {
        enable_cors: match r.enable_cors {
            Some(b) => Some(b),
            None => default_cors,
        },
        ..r
    }
}

impl Clone for Config {
    /// A copy with the same shape.
    fn clone(&self) -> (r: Config)
        ensures
            r@ == self@,
    {
        Config { options: self.options.clone(), routes: clone_routes(&self.routes) }
    }
}

fn clone_routes(routes: &Vec<Route>) -> (r: Vec<Route>)
    ensures
        r.deep_view() == routes.deep_view(),
{
    let mut out: Vec<Route> = Vec::new();
    let mut i: usize = 0;
    while i < routes.len()
        invariant
            i <= routes.len(),
            out@.len() == i,
            out.deep_view() =~= routes.deep_view().take(i as int),
        decreases routes.len() - i,
    {
        let rt = routes[i].clone();
        let ghost old_out = out;
        out.push(rt);
        proof {
            assert forall|j: int| 0 <= j <= i implies out.deep_view()[j] == routes.deep_view().take(
                i + 1,
            )[j] by {
                if j < i {
                    assert(old_out@.push(rt)[j] == old_out@[j]);
                } else {
                    assert(old_out@.push(rt)[j] == rt);
                }
            }
            assert(out.deep_view() =~= routes.deep_view().take(i + 1));
        }
        i += 1;
    }
    proof {
        assert(routes.deep_view().take(routes@.len() as int) =~= routes.deep_view());
    }
    out
}

impl Config {
    /// The configuration with the global CORS default pushed into every
    /// route that does not set its own flag; all else unchanged. This
    /// merge runs once, before the dispatch table is built.
    pub fn inherit_enable_cors(&self) -> (r: Config)
        ensures
            r@.options == self@.options,
            r@.routes.len() == self@.routes.len(),
            forall|i: int|
                0 <= i < self@.routes.len() ==> r@.routes[i] == merged_route(
                    self@.routes[i],
                    self@.options.enable_cors,
                ),
    {
        let ghost default_cors = self@.options.enable_cors;
        let mut routes: Vec<Route> = Vec::new();
        let mut i: usize = 0;
        while i < self.routes.len()
            invariant
                i <= self.routes.len(),
                routes@.len() == i,
                default_cors == self@.options.enable_cors,
                forall|j: int|
                    0 <= j < i ==> routes.deep_view()[j] == merged_route(
                        self.routes.deep_view()[j],
                        default_cors,
                    ),
            decreases self.routes.len() - i,
        {
            let mut rt = self.routes[i].clone();
            if rt.enable_cors.is_none() {
                rt.enable_cors = match self.options.enable_cors {
                    Some(b) => Some(b),
                    None => None,
                };
            }
            let ghost old_routes = routes;
            let ghost merged = rt;
            routes.push(rt);
            proof {
                assert(routes@[i as int] == merged);
                assert(merged@ == merged_route(self.routes.deep_view()[i as int], default_cors));
                assert forall|j: int| 0 <= j < i + 1 implies routes.deep_view()[j] == merged_route(
                    self.routes.deep_view()[j],
                    default_cors,
                ) by {
                    if j < i {
                        assert(old_routes@.push(merged)[j] == old_routes@[j]);
                        assert(routes@[j] == old_routes@[j]);
                        assert(routes.deep_view()[j] == old_routes.deep_view()[j]);
                    } else {
                        assert(old_routes@.push(merged)[j] == merged);
                        assert(routes@[j] == merged);
                        assert(routes.deep_view()[j] == merged@);
                    }
                }
            }
            i += 1;
        }
        Config { options: self.options.clone(), routes }
    }
}

} // verus!
