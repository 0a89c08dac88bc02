//! Response templates and their materialization.

use vstd::prelude::*;
use vstd::utf8::encode_utf8;

use crate::body::Body;
use crate::body::BodyView;
use crate::body::Resolved;
use crate::body::ResolvedView;
use crate::body::resolve_spec;

verus! {

/// A response template from the configuration: status code, headers to
/// set, and an optional body.
#[derive(Debug)]
pub struct Response {
    pub status: u16,
    pub headers: Vec<(String, String)>,
    pub body: Option<Body>,
}

/// The mathematical shape of a response template.
pub struct ResponseView {
    pub status: u16,
    pub headers: Seq<(Seq<char>, Seq<char>)>,
    pub body: Option<BodyView>,
}

impl View for Response {
    type V = ResponseView;

    open spec fn view(&self) -> ResponseView {
        ResponseView {
            status: self.status,
            headers: self.headers.deep_view(),
            body: match self.body {
                Some(b) => Some(b@),
                None => None,
            },
        }
    }
}

/// The body a template materializes: its own body, or the empty body
/// when none is configured.
pub open spec fn effective_body(r: ResponseView) -> BodyView {
    match r.body {
        Some(b) => b,
        None => BodyView::Bytes(Seq::<u8>::empty()),
    }
}

/// A response materialized as far as possible without I/O. `headers`
/// come from the template; `cors` holds headers to append after the
/// body is settled, which survive even when a file read fails.
#[derive(Debug)]
pub struct PendingResponse {
    pub status: u16,
    pub headers: Vec<(String, String)>,
    pub cors: Vec<(String, String)>,
    pub body: Resolved,
}

/// A fully materialized response, ready for the wire.
#[derive(Debug)]
pub struct HttpResponse {
    pub status: u16,
    pub headers: Vec<(String, String)>,
    pub body: Vec<u8>,
}

/// The diagnostic text sent when a body's file cannot be read, with the
/// reading error's description appended.
pub open spec fn read_failure_text(detail: Seq<char>) -> Seq<char> {
    "Error creating response: "@ + detail
}

impl Clone for Response {
    /// A copy with the same shape.
    fn clone(&self) -> (r: Response)
        ensures
            r@ == self@,
    {
        Response {
            status: self.status,
            headers: crate::request::copy_pairs(&self.headers),
            body: match &self.body {
                Some(b) => Some(b.clone()),
                None => None,
            },
        }
    }
}

impl Response {
    /// Materialize this template without I/O: the status and headers as
    /// configured, and the body resolved as far as it goes. No CORS
    /// headers yet; the route appends its own.
    pub fn response(&self) -> (r: PendingResponse)
        ensures
            r.status == self.status,
            r.headers.deep_view() == self@.headers,
            r.cors.deep_view() == Seq::<(Seq<char>, Seq<char>)>::empty(),
            r.body@ == resolve_spec(effective_body(self@)),
    {
        let body = match &self.body {
            Some(b) => b.resolve_ref(),
            None => Body::empty().resolve(),
        };
        let r = PendingResponse {
            status: self.status,
            headers: crate::request::copy_pairs(&self.headers),
            cors: Vec::new(),
            body,
        };
        proof {
            assert(r.cors.deep_view() =~= Seq::<(Seq<char>, Seq<char>)>::empty());
        }
        r
    }
}

impl PendingResponse {
    /// Finish a response whose body needed no file read: the configured
    /// headers, with the CORS headers appended after them.
    pub fn into_response(self) -> (r: HttpResponse)
        requires
            self.body is Ready,
        ensures
            r.status == self.status,
            r.headers.deep_view() == self.headers.deep_view() + self.cors.deep_view(),
            self.body@ matches ResolvedView::Ready(b) ==> r.body@ == b,
    {
        let PendingResponse { status, headers, cors, body } = self;
        let mut hs = headers;
        let mut cs = cors;
        let ghost old_hs = hs;
        let ghost old_cs = cs;
        hs.append(&mut cs);
        proof {
            assert(hs.deep_view() =~= old_hs.deep_view() + old_cs.deep_view());
        }
        let bytes = match body {
            Resolved::Ready(v) => v,
            Resolved::FromFile(_) => Vec::new(),
        };
        HttpResponse { status, headers: hs, body: bytes }
    }

    /// Finish a response whose body asked for a file, given the outcome
    /// of that read. On success the bytes become the body; on failure
    /// the response is replaced by a 500 carrying a diagnostic, keeping
    /// only the CORS headers.
    pub fn complete_with_file(self, outcome: Result<Vec<u8>, String>) -> (r: HttpResponse)
        requires
            self.body is FromFile,
        ensures
            outcome matches Ok(bytes) ==> {
                &&& r.status == self.status
                &&& r.headers.deep_view() == self.headers.deep_view() + self.cors.deep_view()
                &&& r.body@ == bytes@
            },
            outcome matches Err(detail) ==> {
                &&& r.status == 500
                &&& r.headers.deep_view() == self.cors.deep_view()
                &&& r.body@ == encode_utf8(read_failure_text(detail@))
            },
    {
        let PendingResponse { status, headers, cors, body: _ } = self;
        match outcome {
            Ok(bytes) => {
                let mut hs = headers;
                let mut cs = cors;
                let ghost old_hs = hs;
                let ghost old_cs = cs;
                hs.append(&mut cs);
                proof {
                    assert(hs.deep_view() =~= old_hs.deep_view() + old_cs.deep_view());
                }
                HttpResponse { status, headers: hs, body: bytes }
            },
            Err(detail) => {
                let mut text = String::from_str("Error creating response: ");
                text.append(detail.as_str());
                HttpResponse { status: 500, headers: cors, body: text.as_str().as_bytes_vec() }
            },
        }
    }
}

} // verus!
