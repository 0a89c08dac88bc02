//! Route behavior: condition selection, CORS, dispatch and the
//! end-to-end shape of responses.

use mocked::body::Body;
use mocked::body::Resolved;
use mocked::condition::Condition;
use mocked::matcher::Matcher;
use mocked::matcher::PathParamMatcher;
use mocked::method::Method;
use mocked::request::Request;
use mocked::response::Response;
use mocked::route::HandlerKind;
use mocked::route::Route;
use mocked::value::Value;

fn get_request() -> Request {
    Request {
        headers: Vec::new(),
        path_params: Vec::new(),
        query: Vec::new(),
        body: String::new(),
    }
}

fn text_condition(matcher: Option<Matcher>, status: u16, text: &str) -> Condition {
    Condition {
        matcher,
        matchers: None,
        response: Response {
            status,
            headers: Vec::new(),
            body: Some(Body::Text(String::from(text))),
        },
    }
}

fn id_matcher(v: i64) -> Matcher {
    Matcher::PathParam(PathParamMatcher {
        name: String::from("id"),
        values: vec![Value::Integer(v)],
    })
}

#[test]
fn unconditioned_route_serves_its_response() {
    let route = Route {
        path: String::from("/hello"),
        methods: vec![Method::Get],
        enable_cors: None,
        conditions: vec![text_condition(None, 200, "hi")],
    };
    let done = route.respond(&get_request()).into_response();
    assert_eq!(done.status, 200);
    assert_eq!(done.body, b"hi".to_vec());
}

#[test]
fn path_param_route_matches_or_falls_through() {
    let route = Route {
        path: String::from("/items/{id}"),
        methods: vec![Method::Get],
        enable_cors: None,
        conditions: vec![text_condition(Some(id_matcher(42)), 200, "found")],
    };
    let mut req = get_request();
    req.path_params = vec![(String::from("id"), String::from("42"))];
    let done = route.respond(&req).into_response();
    assert_eq!(done.status, 200);
    assert_eq!(done.body, b"found".to_vec());

    req.path_params = vec![(String::from("id"), String::from("43"))];
    let done = route.respond(&req).into_response();
    assert_eq!(done.status, 404);
    assert_eq!(done.body, b"Unable to select response for input".to_vec());
}

#[test]
fn first_matching_condition_wins() {
    let route = Route {
        path: String::from("/items/{id}"),
        methods: vec![Method::Get],
        enable_cors: None,
        conditions: vec![
            text_condition(Some(id_matcher(1)), 201, "first"),
            text_condition(None, 202, "second"),
        ],
    };
    let mut req = get_request();
    req.path_params = vec![(String::from("id"), String::from("1"))];
    // both conditions match; the first declared answers
    let done = route.respond(&req).into_response();
    assert_eq!(done.status, 201);
    assert_eq!(done.body, b"first".to_vec());
}

#[test]
fn reordering_conditions_changes_the_response() {
    let reordered = Route {
        path: String::from("/items/{id}"),
        methods: vec![Method::Get],
        enable_cors: None,
        conditions: vec![
            text_condition(None, 202, "second"),
            text_condition(Some(id_matcher(1)), 201, "first"),
        ],
    };
    let mut req = get_request();
    req.path_params = vec![(String::from("id"), String::from("1"))];
    let done = reordered.respond(&req).into_response();
    assert_eq!(done.status, 202);
    assert_eq!(done.body, b"second".to_vec());
}

#[test]
fn preflight_carries_the_cors_headers() {
    let route = Route {
        path: String::from("/test"),
        methods: vec![Method::Post, Method::Put],
        enable_cors: Some(true),
        conditions: vec![text_condition(None, 200, "ok")],
    };
    let done = route.preflight_response().into_response();
    assert_eq!(done.status, 200);
    assert!(done.body.is_empty());
    assert_eq!(done.headers.len(), 4);
    assert_eq!(
        done.headers[0],
        (
            String::from("Access-Control-Allow-Origin"),
            String::from("*")
        )
    );
    assert_eq!(
        done.headers[1],
        (
            String::from("Access-Control-Allow-Methods"),
            String::from("POST,PUT")
        )
    );
    assert_eq!(
        done.headers[2],
        (
            String::from("Access-Control-Allow-Headers"),
            String::from("Authorization")
        )
    );
    assert_eq!(
        done.headers[3],
        (
            String::from("Access-Control-Allow-Credentials"),
            String::from("true")
        )
    );
}

#[test]
fn cors_route_appends_cors_headers_to_normal_responses() {
    let route = Route {
        path: String::from("/test"),
        methods: vec![Method::Post, Method::Put],
        enable_cors: Some(true),
        conditions: vec![Condition {
            matcher: None,
            matchers: None,
            response: Response {
                status: 200,
                headers: vec![(String::from("Content-Type"), String::from("text/plain"))],
                body: Some(Body::Text(String::from("ok"))),
            },
        }],
    };
    let done = route.respond(&get_request()).into_response();
    assert_eq!(done.status, 200);
    // the template's own header first, then the four CORS headers
    assert_eq!(done.headers.len(), 5);
    assert_eq!(
        done.headers[0],
        (String::from("Content-Type"), String::from("text/plain"))
    );
    assert_eq!(
        done.headers[1].0,
        String::from("Access-Control-Allow-Origin")
    );
    assert_eq!(
        done.headers[2],
        (
            String::from("Access-Control-Allow-Methods"),
            String::from("POST,PUT")
        )
    );
}

#[test]
fn route_without_cors_appends_nothing() {
    let route = Route {
        path: String::from("/test"),
        methods: vec![Method::Get],
        enable_cors: Some(false),
        conditions: vec![text_condition(None, 200, "ok")],
    };
    let done = route.respond(&get_request()).into_response();
    assert_eq!(done.headers.len(), 0);
}

#[test]
fn handler_selection_follows_cors_and_methods() {
    let cors_route = Route {
        path: String::from("/a"),
        methods: vec![Method::Get],
        enable_cors: Some(true),
        conditions: Vec::new(),
    };
    assert_eq!(
        cors_route.handler_for(Method::Options),
        Some(HandlerKind::Preflight)
    );
    assert_eq!(
        cors_route.handler_for(Method::Get),
        Some(HandlerKind::Normal)
    );
    assert_eq!(cors_route.handler_for(Method::Post), None);

    let plain_route = Route {
        path: String::from("/b"),
        methods: vec![Method::Get, Method::Options],
        enable_cors: None,
        conditions: Vec::new(),
    };
    assert_eq!(
        plain_route.handler_for(Method::Options),
        Some(HandlerKind::Normal)
    );
    assert_eq!(plain_route.handler_for(Method::Delete), None);
}

#[test]
fn file_backed_route_hands_out_a_directive() {
    let route = Route {
        path: String::from("/hello"),
        methods: vec![Method::Get],
        enable_cors: None,
        conditions: vec![Condition {
            matcher: None,
            matchers: None,
            response: Response {
                status: 200,
                headers: Vec::new(),
                body: Some(Body::File(mocked::body::FileRef {
                    path: String::from("hello.json"),
                })),
            },
        }],
    };
    let pending = route.respond(&get_request());
    match &pending.body {
        Resolved::FromFile(p) => assert_eq!(p, "hello.json"),
        Resolved::Ready(_) => panic!("a file-backed body asks for a read"),
    }
    // the read happens now, afresh for this request
    let done = pending.complete_with_file(Ok(b"{}".to_vec()));
    assert_eq!(done.status, 200);
    assert_eq!(done.body, b"{}".to_vec());
}

#[test]
fn missing_body_template_serves_empty_bytes() {
    let route = Route {
        path: String::from("/nothing"),
        methods: vec![Method::Get],
        enable_cors: None,
        conditions: vec![Condition {
            matcher: None,
            matchers: None,
            response: Response {
                status: 204,
                headers: Vec::new(),
                body: None,
            },
        }],
    };
    let done = route.respond(&get_request()).into_response();
    assert_eq!(done.status, 204);
    assert!(done.body.is_empty());
}

#[test]
fn query_condition_selects_by_substring() {
    let route = Route {
        path: String::from("/search"),
        methods: vec![Method::Get],
        enable_cors: None,
        conditions: vec![text_condition(
            Some(Matcher::QueryContains(
                mocked::matcher::QueryContainsMatcher {
                    name: String::from("q"),
                    values: vec![String::from("mock")],
                },
            )),
            200,
            "hit",
        )],
    };
    let mut req = get_request();
    req.query = vec![(String::from("q"), String::from("mocked data"))];
    let done = route.respond(&req).into_response();
    assert_eq!(done.status, 200);
    req.query = vec![(String::from("q"), String::from("real data"))];
    let done = route.respond(&req).into_response();
    assert_eq!(done.status, 404);
}

#[test]
fn method_names_join_with_commas() {
    let route = Route {
        path: String::from("/x"),
        methods: vec![
            Method::Get,
            Method::Post,
            Method::Put,
            Method::Patch,
            Method::Delete,
            Method::Head,
            Method::Options,
        ],
        enable_cors: Some(true),
        conditions: Vec::new(),
    };
    let headers = route.cors_headers();
    assert_eq!(
        headers[1].1,
        String::from("GET,POST,PUT,PATCH,DELETE,HEAD,OPTIONS")
    );
}
