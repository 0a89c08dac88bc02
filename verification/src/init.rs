//! Building the starter configuration that `init` writes to disk, and
//! small path helpers around it.

use vstd::prelude::*;

use crate::body::Body;
use crate::body::BodyView;
use crate::body::FileRef;
use crate::condition::Condition;
use crate::condition::ConditionView;
use crate::config::Config;
use crate::matcher::BodyContainsMatcher;
use crate::matcher::HeaderContainsMatcher;
use crate::matcher::Matcher;
use crate::matcher::MatcherView;
use crate::matcher::PathParamMatcher;
use crate::matchers::Matchers;
use crate::matchers::MatchersView;
use crate::method::Method;
use crate::options::Options;
use crate::response::Response;
use crate::response::ResponseView;
use crate::route::Route;
use crate::route::RouteView;
use crate::value::Value;
use crate::value::ValueView;

verus! {

/// The greeting route: GET /hello serves the contents of hello.json.
pub open spec fn hello_route_view() -> RouteView {
    RouteView {
        path: "/hello"@,
        methods: seq![Method::Get],
        enable_cors: Some(false),
        conditions: seq![
            ConditionView {
                matcher: None,
                matchers: None,
                response: ResponseView {
                    status: 200,
                    headers: seq![("Content-Type"@, "application/json"@)],
                    body: Some(BodyView::File("hello.json"@)),
                },
            },
        ],
    }
}

/// The named greeting route: POST /hello/{name} answers bodies that
/// mention "hello".
pub open spec fn hello_name_route_view() -> RouteView {
    RouteView {
        path: "/hello/{name}"@,
        methods: seq![Method::Post],
        enable_cors: None,
        conditions: seq![
            ConditionView {
                matcher: Some(MatcherView::BodyContains { values: seq!["hello"@] }),
                matchers: None,
                response: ResponseView {
                    status: 200,
                    headers: Seq::empty(),
                    body: Some(BodyView::Text("Hello world"@)),
                },
            },
        ],
    }
}

/// The two-parameter route: GET /hello/{name}/{age} answers when the
/// name or the age takes a known value.
pub open spec fn hello_name_age_route_view() -> RouteView {
    RouteView {
        path: "/hello/{name}/{age}"@,
        methods: seq![Method::Get],
        enable_cors: None,
        conditions: seq![
            ConditionView {
                matcher: None,
                matchers: Some(
                    MatchersView::Or(
                        seq![
                            MatcherView::PathParam {
                                name: "name"@,
                                values: seq![ValueView::Str("mocked"@)],
                            },
                            MatcherView::PathParam {
                                name: "age"@,
                                values: seq![ValueView::Integer(42)],
                            },
                        ],
                    ),
                ),
                response: ResponseView {
                    status: 200,
                    headers: seq![("Content-Type"@, "application/json"@)],
                    body: None,
                },
            },
        ],
    }
}

/// The upload route: POST /upload accepts authorized requests.
pub open spec fn upload_route_view() -> RouteView {
    RouteView {
        path: "/upload"@,
        methods: seq![Method::Post],
        enable_cors: None,
        conditions: seq![
            ConditionView {
                matcher: Some(
                    MatcherView::HeaderContains {
                        name: "Authorization"@,
                        values: seq!["Basic"@, "Bearer"@],
                    },
                ),
                matchers: None,
                response: ResponseView {
                    status: 202,
                    headers: Seq::empty(),
                    body: Some(BodyView::Text("Accepted"@)),
                },
            },
        ],
    }
}

/// The four example routes of a fresh configuration, in order.
pub open spec fn example_routes_view() -> Seq<RouteView> {
    seq![
        hello_route_view(),
        hello_name_route_view(),
        hello_name_age_route_view(),
        upload_route_view(),
    ]
}

fn single_condition(c: Condition) -> (r: Vec<Condition>)
    ensures
        r.deep_view() == seq![c@],
{
    let ghost cv = c@;
    let mut out: Vec<Condition> = Vec::new();
    out.push(c);
    proof {
        assert(out.deep_view() =~= seq![cv]);
    }
    out
}

fn single_method(m: Method) -> (r: Vec<Method>)
    ensures
        r@ == seq![m],
{
    let mut out: Vec<Method> = Vec::new();
    out.push(m);
    proof {
        assert(out@ =~= seq![m]);
    }
    out
}

fn json_headers() -> (r: Vec<(String, String)>)
    ensures
        r.deep_view() == seq![("Content-Type"@, "application/json"@)],
{
    let mut out: Vec<(String, String)> = Vec::new();
    out.push(("Content-Type".to_owned(), "application/json".to_owned()));
    proof {
        assert(out.deep_view() =~= seq![("Content-Type"@, "application/json"@)]);
    }
    out
}

/// Build the example routes of a fresh configuration. The directory the
/// configuration lands in is accepted for symmetry with the caller but
/// does not influence the routes.
pub fn create_example_routes(_config_dir: String) -> (r: Vec<Route>)
    ensures
        r.deep_view() == example_routes_view(),
{
    let hello = Route {
        path: "/hello".to_owned(),
        methods: single_method(Method::Get),
        enable_cors: Some(false),
        conditions: single_condition(
            Condition {
                matcher: None,
                matchers: None,
                response: Response {
                    status: 200,
                    headers: json_headers(),
                    body: Some(Body::File(FileRef { path: "hello.json".to_owned() })),
                },
            },
        ),
    };
    let hello_name = Route {
        path: "/hello/{name}".to_owned(),
        methods: single_method(Method::Post),
        enable_cors: None,
        conditions: single_condition(
            Condition {
                matcher: Some(
                    Matcher::BodyContains(
                        BodyContainsMatcher { values: single_string("hello".to_owned()) },
                    ),
                ),
                matchers: None,
                response: Response {
                    status: 200,
                    headers: Vec::new(),
                    body: Some(Body::Text("Hello world".to_owned())),
                },
            },
        ),
    };
    let hello_name_age = Route {
        path: "/hello/{name}/{age}".to_owned(),
        methods: single_method(Method::Get),
        enable_cors: None,
        conditions: single_condition(
            Condition {
                matcher: None,
                matchers: Some(Matchers::Or(name_or_age_matchers())),
                response: Response { status: 200, headers: json_headers(), body: None },
            },
        ),
    };
    let upload = Route {
        path: "/upload".to_owned(),
        methods: single_method(Method::Post),
        enable_cors: None,
        conditions: single_condition(
            Condition {
                matcher: Some(
                    Matcher::HeaderContains(
                        HeaderContainsMatcher {
                            name: "Authorization".to_owned(),
                            values: basic_bearer(),
                        },
                    ),
                ),
                matchers: None,
                response: Response {
                    status: 202,
                    headers: Vec::new(),
                    body: Some(Body::Text("Accepted".to_owned())),
                },
            },
        ),
    };
    proof {
        assert(hello@ == hello_route_view());
        assert(hello_name@.conditions[0].response.headers =~= Seq::<(Seq<char>, Seq<char>)>::empty());
        assert(hello_name@.conditions =~= hello_name_route_view().conditions);
        assert(hello_name@ == hello_name_route_view());
        assert(hello_name_age@ == hello_name_age_route_view());
        assert(upload@.conditions[0].response.headers =~= Seq::<(Seq<char>, Seq<char>)>::empty());
        assert(upload@.conditions =~= upload_route_view().conditions);
        assert(upload@ == upload_route_view());
    }
    let mut out: Vec<Route> = Vec::new();
    out.push(hello);
    out.push(hello_name);
    out.push(hello_name_age);
    out.push(upload);
    proof {
        assert(out.deep_view() =~= example_routes_view());
    }
    out
}

fn single_string(s: String) -> (r: Vec<String>)
    ensures
        r.deep_view() == seq![s@],
{
    let ghost sv = s@;
    let mut out: Vec<String> = Vec::new();
    out.push(s);
    proof {
        assert(out.deep_view() =~= seq![sv]);
    }
    out
}

fn basic_bearer() -> (r: Vec<String>)
    ensures
        r.deep_view() == seq!["Basic"@, "Bearer"@],
{
    let mut out: Vec<String> = Vec::new();
    out.push("Basic".to_owned());
    out.push("Bearer".to_owned());
    proof {
        assert(out.deep_view() =~= seq!["Basic"@, "Bearer"@]);
    }
    out
}

fn name_or_age_matchers() -> (r: Vec<Matcher>)
    ensures
        r.deep_view() == seq![
            MatcherView::PathParam { name: "name"@, values: seq![ValueView::Str("mocked"@)] },
            MatcherView::PathParam { name: "age"@, values: seq![ValueView::Integer(42)] },
        ],
{
    let mut name_values: Vec<Value> = Vec::new();
    name_values.push(Value::Str("mocked".to_owned()));
    let mut age_values: Vec<Value> = Vec::new();
    age_values.push(Value::Integer(42));
    proof {
        assert(name_values.deep_view() =~= seq![ValueView::Str("mocked"@)]);
        assert(age_values.deep_view() =~= seq![ValueView::Integer(42)]);
    }
    let mut out: Vec<Matcher> = Vec::new();
    out.push(Matcher::PathParam(PathParamMatcher { name: "name".to_owned(), values: name_values }));
    out.push(Matcher::PathParam(PathParamMatcher { name: "age".to_owned(), values: age_values }));
    proof {
        assert(out.deep_view() =~= seq![
            MatcherView::PathParam { name: "name"@, values: seq![ValueView::Str("mocked"@)] },
            MatcherView::PathParam { name: "age"@, values: seq![ValueView::Integer(42)] },
        ]);
    }
    out
}

/// Build the configuration document that `init` writes: the given
/// options, and the example routes unless they were declined.
pub fn init_config(
    port: u16,
    address: String,
    enable_cors: bool,
    min_response_delay_ms: u64,
    max_response_delay_ms: u64,
    without_example_routes: bool,
    path: String,
) -> (r: Config)
    ensures
        r@.options.address == address@,
        r@.options.port == port,
        r@.options.enable_cors == Some(enable_cors),
        r@.options.min_response_delay_ms == Some(min_response_delay_ms),
        r@.options.max_response_delay_ms == Some(max_response_delay_ms),
        without_example_routes ==> r@.routes == Seq::<RouteView>::empty(),
        !without_example_routes ==> r@.routes == example_routes_view(),
{
    let routes = if without_example_routes {
        let empty: Vec<Route> = Vec::new();
        proof {
            assert(empty.deep_view() =~= Seq::<RouteView>::empty());
        }
        empty
    } else {
        let parent_dir = get_directory(path);
        create_example_routes(parent_dir)
    };
    Config {
        options: Options {
            address,
            port,
            enable_cors: Some(enable_cors),
            min_response_delay_ms: Some(min_response_delay_ms),
            max_response_delay_ms: Some(max_response_delay_ms),
        },
        routes,
    }
}

/// The contents of the greeting file that `init` lays down beside the
/// configuration.
pub fn hello_file_text() -> (r: String)
    ensures
        r@ == "{\n    \"message\": \"Hello, world!\"\n}"@,
{
    "{\n    \"message\": \"Hello, world!\"\n}".to_owned()
}

/// A path with its trailing separators removed.
pub open spec fn trim_trailing_seps(s: Seq<char>) -> Seq<char>
    decreases s.len(),
{
    if s.len() > 0 && s.last() == '/' {
        trim_trailing_seps(s.drop_last())
    } else {
        s
    }
}

/// Everything before the last separator, or empty when there is none.
pub open spec fn before_last_sep(t: Seq<char>) -> Seq<char>
    decreases t.len(),
{
    if t.len() == 0 {
        t
    } else if t.last() == '/' {
        t.drop_last()
    } else {
        before_last_sep(t.drop_last())
    }
}

/// The directory part of a path: the text before the final separator,
/// with trailing separators dropped; empty when the path has no
/// separator; "." for an empty path or one of separators alone; "/"
/// when the only separator left is the leading one.
pub open spec fn dir_of(s: Seq<char>) -> Seq<char> {
    let t = trim_trailing_seps(s);
    if t.len() == 0 {
        "."@
    } else if !t.contains('/') {
        Seq::<char>::empty()
    } else {
        let q = trim_trailing_seps(before_last_sep(t));
        if q.len() == 0 {
            "/"@
        } else {
            q
        }
    }
}

proof fn lemma_before_last_sep_at(t: Seq<char>, m: int)
    requires
        0 <= m < t.len(),
        t[m] == '/',
        forall|k: int| m < k < t.len() ==> t[k] != '/',
    ensures
        before_last_sep(t) == t.take(m),
    decreases t.len(),
{
    if m == t.len() - 1 {
        assert(t.drop_last() =~= t.take(m));
    } else {
        assert(t.last() != '/');
        assert forall|k: int| m < k < t.drop_last().len() implies t.drop_last()[k] != '/' by {
            assert(t.drop_last()[k] == t[k]);
        }
        lemma_before_last_sep_at(t.drop_last(), m);
        assert(t.drop_last().take(m) =~= t.take(m));
    }
}

fn trim_seps_end(s: &str, end: usize) -> (r: usize)
    requires
        end <= s@.len(),
    ensures
        r <= end,
        trim_trailing_seps(s@.take(end as int)) == s@.take(r as int),
        r > 0 ==> s@[r - 1] != '/',
{
    let mut e = end;
    while e > 0 && s.get_char(e - 1) == '/'
        invariant
            e <= end,
            end <= s@.len(),
            trim_trailing_seps(s@.take(end as int)) == trim_trailing_seps(s@.take(e as int)),
        decreases e,
    {
        proof {
            assert(s@.take(e as int).drop_last() =~= s@.take(e - 1));
        }
        e -= 1;
    }
    proof {
        if e > 0 {
            assert(trim_trailing_seps(s@.take(e as int)) == s@.take(e as int));
        } else {
            assert(s@.take(0) =~= Seq::<char>::empty());
        }
    }
    e
}

/// The directory a configuration path points into, as text: what stands
/// before the file's name.
pub fn get_directory(path: String) -> (r: String)
    ensures
        r@ == dir_of(path@),
{
    let s = path.as_str();
    let n = s.unicode_len();
    let t_end = trim_seps_end(s, n);
    proof {
        assert(s@.take(n as int) =~= s@);
    }
    if t_end == 0 {
        return ".".to_owned();
    }
    let ghost t = trim_trailing_seps(s@);
    // find the last separator within the trimmed prefix
    let mut j = t_end;
    while j > 0 && s.get_char(j - 1) != '/'
        invariant
            j <= t_end,
            t_end <= s@.len(),
            forall|k: int| j <= k < t_end ==> s@[k] != '/',
        decreases j,
    {
        j -= 1;
    }
    proof {
        assert(t == s@.take(t_end as int));
        assert forall|k: int| j <= k < t.len() implies t[k] != '/' by {
            assert(t[k] == s@[k]);
        }
    }
    if j == 0 {
        // no separator at all
        proof {
            assert forall|k: int| 0 <= k < t.len() implies t[k] != '/' by {
                assert(t[k] == s@[k]);
            }
            assert(!t.contains('/'));
        }
        return String::new();
    }
    proof {
        assert(t[j - 1] == s@[j - 1]);
        assert(t[j - 1] == '/');
        assert(t.contains('/'));
        lemma_before_last_sep_at(t, j - 1);
        assert(t.take(j - 1) =~= s@.take(j - 1));
    }
    let q_end = trim_seps_end(s, j - 1);
    if q_end == 0 {
        "/".to_owned()
    } else {
        s.substring_char(0, q_end).to_owned()
    }
}

} // verus!
