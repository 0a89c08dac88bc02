//! Atomic matchers against normalized requests.

use mocked::matcher::BodyContainsMatcher;
use mocked::matcher::HeaderContainsMatcher;
use mocked::matcher::Matcher;
use mocked::matcher::PathParamMatcher;
use mocked::matcher::QueryContainsMatcher;
use mocked::request::Request;
use mocked::value::Value;

fn empty_request() -> Request {
    Request {
        headers: Vec::new(),
        path_params: Vec::new(),
        query: Vec::new(),
        body: String::new(),
    }
}

#[test]
fn test_body_contains_matches() {
    let bcm = BodyContainsMatcher {
        values: vec![String::from("foo"), String::from("bar")],
    };
    let mut req = empty_request();
    req.body = String::from("This is a foo body");
    let matches = bcm.matches(&req);
    assert!(matches)
}

#[test]
fn test_body_contains_matches_is_false() {
    let bcm = BodyContainsMatcher {
        values: vec![String::from("foo"), String::from("bar")],
    };
    let mut req = empty_request();
    req.body = String::from("This is a body");
    let matches = bcm.matches(&req);
    assert!(!matches)
}

#[test]
fn test_path_param_matches() {
    let ppm = Matcher::PathParam(PathParamMatcher {
        name: "param1".to_string(),
        values: vec![Value::Str("valueX".to_string())],
    });
    let mut req = empty_request();
    req.path_params = vec![("param1".to_string(), "valueX".to_string())];
    let matches = ppm.matches(&req);
    assert!(matches)
}

#[test]
fn test_query_param_matches() {
    let qcm = Matcher::QueryContains(QueryContainsMatcher {
        name: "search".to_string(),
        values: vec!["my-value".to_string()],
    });
    let mut req = empty_request();
    req.query = vec![("search".to_string(), "my-value".to_string())];
    let matches = qcm.matches(&req);
    assert!(matches)
}

#[test]
fn path_param_absent_is_false() {
    let ppm = PathParamMatcher {
        name: "id".to_string(),
        values: vec![Value::Integer(1)],
    };
    assert!(!ppm.matches(&empty_request()));
}

#[test]
fn path_param_membership_ignores_declared_order() {
    let forward = PathParamMatcher {
        name: "id".to_string(),
        values: vec![Value::Integer(1), Value::Integer(2)],
    };
    let backward = PathParamMatcher {
        name: "id".to_string(),
        values: vec![Value::Integer(2), Value::Integer(1)],
    };
    let mut req = empty_request();
    req.path_params = vec![("id".to_string(), "2".to_string())];
    assert!(forward.matches(&req));
    assert!(backward.matches(&req));
    req.path_params = vec![("id".to_string(), "3".to_string())];
    assert!(!forward.matches(&req));
    assert!(!backward.matches(&req));
}

#[test]
fn path_param_is_variant_sensitive() {
    // a configured float never matches a parameter that coerces to an integer
    let ppm = PathParamMatcher {
        name: "id".to_string(),
        values: vec![Value::Numeric("10.0".to_string())],
    };
    let mut req = empty_request();
    req.path_params = vec![("id".to_string(), "10".to_string())];
    assert!(!ppm.matches(&req));
    req.path_params = vec![("id".to_string(), "10.0".to_string())];
    assert!(ppm.matches(&req));
}

#[test]
fn header_lookup_is_case_insensitive() {
    let hcm = HeaderContainsMatcher {
        name: "authorization".to_string(),
        values: vec!["Basic".to_string()],
    };
    let mut req = empty_request();
    req.headers = vec![("Authorization".to_string(), "Basic foofoo".to_string())];
    assert!(hcm.matches(&req));
}

#[test]
fn header_value_match_is_case_sensitive() {
    let hcm = HeaderContainsMatcher {
        name: "Authorization".to_string(),
        values: vec!["basic".to_string()],
    };
    let mut req = empty_request();
    req.headers = vec![("Authorization".to_string(), "Basic foofoo".to_string())];
    assert!(!hcm.matches(&req));
}
