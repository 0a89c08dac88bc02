//! Response body templates and their resolution into bytes.

use vstd::prelude::*;
use vstd::utf8::encode_utf8;

verus! {

/// A file reference; the file is read afresh each time a response is
/// materialized, so edits are visible without a restart.
#[derive(Debug)]
pub struct FileRef {
    pub path: String,
}

/// A response body template: inline bytes, inline text, or a file to
/// read at response time.
#[derive(Debug)]
pub enum Body {
    Bytes(Vec<u8>),
    Text(String),
    File(FileRef),
}

/// The mathematical shape of a body template.
pub enum BodyView {
    Bytes(Seq<u8>),
    Text(Seq<char>),
    File(Seq<char>),
}

impl View for Body {
    type V = BodyView;

    open spec fn view(&self) -> BodyView {
        match self {
            Body::Bytes(v) => BodyView::Bytes(v@),
            Body::Text(s) => BodyView::Text(s@),
            Body::File(f) => BodyView::File(f.path@),
        }
    }
}

/// What a body template resolves to without doing I/O: the final bytes,
/// or the path of the file that must be read now.
#[derive(Debug)]
pub enum Resolved {
    Ready(Vec<u8>),
    FromFile(String),
}

/// The mathematical shape of a resolution outcome.
pub enum ResolvedView {
    Ready(Seq<u8>),
    FromFile(Seq<char>),
}

impl View for Resolved {
    type V = ResolvedView;

    open spec fn view(&self) -> ResolvedView {
        match self {
            Resolved::Ready(v) => ResolvedView::Ready(v@),
            Resolved::FromFile(p) => ResolvedView::FromFile(p@),
        }
    }
}

/// How a body template resolves: inline bytes stand as they are, text
/// becomes its UTF-8 encoding, and a file reference names the file to
/// read at this moment.
pub open spec fn resolve_spec(b: BodyView) -> ResolvedView {
    match b {
        BodyView::Bytes(v) => ResolvedView::Ready(v),
        BodyView::Text(s) => ResolvedView::Ready(encode_utf8(s)),
        BodyView::File(p) => ResolvedView::FromFile(p),
    }
}

impl Clone for FileRef {
    /// An equal copy.
    fn clone(&self) -> (r: FileRef)
        ensures
            r.path@ == self.path@,
    {
        FileRef { path: self.path.clone() }
    }
}

impl Clone for Body {
    /// A copy with the same shape.
    fn clone(&self) -> (r: Body)
        ensures
            r@ == self@,
    {
        match self {
            Body::Bytes(v) => {
                let w = v.clone();
                proof {
                    assert(w@ =~= v@);
                }
                Body::Bytes(w)
            },
            Body::Text(s) => Body::Text(s.clone()),
            Body::File(f) => Body::File(f.clone()),
        }
    }
}

impl Body {
    /// The empty body: zero bytes.
    pub fn empty() -> (r: Body)
        ensures
            r@ == BodyView::Bytes(Seq::<u8>::empty()),
    {
        let v: Vec<u8> = Vec::new();
        proof {
            assert(v@ =~= Seq::<u8>::empty());
        }
        Body::Bytes(v)
    }

    /// Resolve this template: immediate for bytes and text, a directive
    /// naming the file to read for a file reference.
    pub fn resolve(self) -> (r: Resolved)
        ensures
            r@ == resolve_spec(self@),
    {
        match self {
            Body::Bytes(v) => Resolved::Ready(v),
            Body::Text(s) => Resolved::Ready(s.as_str().as_bytes_vec()),
            Body::File(f) => Resolved::FromFile(f.path),
        }
    }

    /// Resolve without consuming the template.
    pub fn resolve_ref(&self) -> (r: Resolved)
        ensures
            r@ == resolve_spec(self@),
    {
        match self {
            Body::Bytes(v) => {
                let w = v.clone();
                proof {
                    assert(w@ =~= v@);
                }
                Resolved::Ready(w)
            },
            Body::Text(s) => Resolved::Ready(s.as_str().as_bytes_vec()),
            Body::File(f) => Resolved::FromFile(f.path.clone()),
        }
    }
}

} // verus!
