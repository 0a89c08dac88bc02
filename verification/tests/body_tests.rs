//! Body templates and their resolution.

use mocked::body::Body;
use mocked::body::FileRef;
use mocked::body::Resolved;
use mocked::response::PendingResponse;

#[test]
fn test_empty_body_is_formatted_correctly() {
    let b = Body::empty();
    let res = b.resolve();
    let expected: Vec<u8> = Vec::new();
    match res {
        Resolved::Ready(bytes) => assert_eq!(bytes, expected),
        Resolved::FromFile(_) => panic!("an empty body needs no file"),
    }
}

#[test]
fn text_body_resolves_to_utf8_bytes() {
    let b = Body::Text(String::from("hi"));
    match b.resolve() {
        Resolved::Ready(bytes) => assert_eq!(bytes, b"hi".to_vec()),
        Resolved::FromFile(_) => panic!("a text body needs no file"),
    }
}

#[test]
fn file_body_resolves_to_a_directive() {
    let b = Body::File(FileRef {
        path: String::from("hello.json"),
    });
    match b.resolve() {
        Resolved::Ready(_) => panic!("a file body asks for a read"),
        Resolved::FromFile(p) => assert_eq!(p, "hello.json"),
    }
}

#[test]
fn file_read_success_becomes_the_body() {
    let pending = PendingResponse {
        status: 200,
        headers: vec![(String::from("Content-Type"), String::from("text/plain"))],
        cors: Vec::new(),
        body: Resolved::FromFile(String::from("data.txt")),
    };
    let done = pending.complete_with_file(Ok(b"fresh contents".to_vec()));
    assert_eq!(done.status, 200);
    assert_eq!(done.body, b"fresh contents".to_vec());
    assert_eq!(done.headers.len(), 1);
}

#[test]
fn file_read_failure_becomes_a_500_with_diagnostic() {
    let pending = PendingResponse {
        status: 200,
        headers: vec![(String::from("Content-Type"), String::from("text/plain"))],
        cors: Vec::new(),
        body: Resolved::FromFile(String::from("missing.txt")),
    };
    let done = pending.complete_with_file(Err(String::from("no such file")));
    assert_eq!(done.status, 500);
    assert!(done.headers.is_empty());
    assert_eq!(
        done.body,
        b"Error creating response: no such file".to_vec()
    );
}
