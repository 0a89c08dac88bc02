//! Condition evaluation: single matcher before tree, true when neither
//! is configured.

use mocked::body::Body;
use mocked::condition::Condition;
use mocked::matcher::Matcher;
use mocked::matcher::PathParamMatcher;
use mocked::matchers::Matchers;
use mocked::request::Request;
use mocked::response::Response;
use mocked::value::Value;

fn request_with_params(params: Vec<(String, String)>) -> Request {
    Request {
        headers: Vec::new(),
        path_params: params,
        query: Vec::new(),
        body: String::new(),
    }
}

fn plain_response() -> Response {
    Response {
        status: 200,
        headers: Vec::new(),
        body: Some(Body::empty()),
    }
}

#[test]
fn test_single_matcher_is_evaluated_first() {
    let condition = Condition {
        matcher: Some(Matcher::PathParam(PathParamMatcher {
            name: String::from("foo"),
            values: vec![Value::Numeric("123.0".to_string())],
        })),
        matchers: Some(Matchers::Or(vec![Matcher::PathParam(PathParamMatcher {
            name: String::from("foo"),
            values: vec![Value::Numeric("234.0".to_string())],
        })])),
        response: plain_response(),
    };
    let mut req = request_with_params(vec![(String::from("foo"), String::from("234.0"))]);
    let matches = condition.matches(&req);
    assert!(!matches);
    req.path_params = vec![(String::from("foo"), String::from("123.0"))];
    let matches = condition.matches(&req);
    assert!(matches)
}

#[test]
fn test_matcher_is_evaluated() {
    let condition = Condition {
        matcher: None,
        matchers: Some(Matchers::Or(vec![Matcher::PathParam(PathParamMatcher {
            name: String::from("foo"),
            values: vec![Value::Numeric("234.0".to_string())],
        })])),
        response: plain_response(),
    };
    let req = request_with_params(vec![(String::from("foo"), String::from("234.0"))]);
    let matches = condition.matches(&req);
    assert!(matches);
}

#[test]
fn test_evaluates_to_true_if_no_matcher_is_defined() {
    let condition = Condition {
        matcher: None,
        matchers: None,
        response: plain_response(),
    };
    let req = request_with_params(vec![(String::from("foo"), String::from("234"))]);
    let matches = condition.matches(&req);
    assert!(matches);
}
