//! AND / OR composition of matchers.

use mocked::matcher::Matcher;
use mocked::matcher::PathParamMatcher;
use mocked::matchers::Matchers;
use mocked::request::Request;
use mocked::value::Value;

fn request_with_params(params: Vec<(String, String)>) -> Request {
    Request {
        headers: Vec::new(),
        path_params: params,
        query: Vec::new(),
        body: String::new(),
    }
}

fn create_or_matchers() -> Matchers {
    Matchers::Or(vec![
        Matcher::PathParam(PathParamMatcher {
            name: "a".to_string(),
            values: vec![Value::Numeric("1.0".to_string())],
        }),
        Matcher::PathParam(PathParamMatcher {
            name: "b".to_string(),
            values: vec![Value::Numeric("2.0".to_string())],
        }),
    ])
}

fn create_and_matchers() -> Matchers {
    Matchers::And(vec![
        Matcher::PathParam(PathParamMatcher {
            name: "a".to_string(),
            values: vec![Value::Numeric("1.0".to_string())],
        }),
        Matcher::PathParam(PathParamMatcher {
            name: "b".to_string(),
            values: vec![Value::Numeric("2.0".to_string())],
        }),
    ])
}

#[test]
fn test_or_is_true_when_one_is_true() {
    let m = create_or_matchers();
    let req = request_with_params(vec![
        ("a".to_string(), "0".to_string()),
        ("b".to_string(), "2.0".to_string()),
    ]);
    let matches = m.matches(&req);
    assert!(matches)
}

#[test]
fn test_or_is_false_when_both_are_false() {
    let m = create_or_matchers();
    let req = request_with_params(vec![("a".to_string(), "0".to_string())]);
    let matches = m.matches(&req);
    assert!(!matches)
}

#[test]
fn test_and_is_true_when_both_are_true() {
    let m = create_and_matchers();
    let req = request_with_params(vec![
        ("a".to_string(), "1.0".to_string()),
        ("b".to_string(), "2.0".to_string()),
    ]);
    let matches = m.matches(&req);
    assert!(matches)
}

#[test]
fn test_and_is_false_when_only_is_true() {
    let m = create_and_matchers();
    let req = request_with_params(vec![
        ("a".to_string(), "1.0".to_string()),
        ("b".to_string(), "0".to_string()),
    ]);
    let matches = m.matches(&req);
    assert!(!matches)
}

#[test]
fn empty_and_is_true() {
    let m = Matchers::And(Vec::new());
    let req = request_with_params(Vec::new());
    assert!(m.matches(&req));
}

#[test]
fn empty_or_is_false() {
    let m = Matchers::Or(Vec::new());
    let req = request_with_params(Vec::new());
    assert!(!m.matches(&req));
}

#[test]
fn empty_constructor_rejects_everything() {
    let m = Matchers::empty();
    let req = request_with_params(vec![("a".to_string(), "1.0".to_string())]);
    assert!(!m.matches(&req));
}
