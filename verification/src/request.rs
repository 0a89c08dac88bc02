//! The normalized view of an incoming request, and lookups into its
//! key/value lists.

use vstd::prelude::*;

use crate::text::eq_ignore_case;
use crate::text::lower_seq;

verus! {

/// What the engine sees of one request, handed over by the HTTP layer:
/// headers, path parameters and query parameters as key/value lists, and
/// the body as text. Header names are compared case-insensitively; the
/// other keys exactly.
#[derive(Clone, Debug)]
pub struct Request {
    pub headers: Vec<(String, String)>,
    pub path_params: Vec<(String, String)>,
    pub query: Vec<(String, String)>,
    pub body: String,
}

/// The mathematical shape of a request: each list as a sequence of
/// key/value character sequences.
pub struct RequestView {
    pub headers: Seq<(Seq<char>, Seq<char>)>,
    pub path_params: Seq<(Seq<char>, Seq<char>)>,
    pub query: Seq<(Seq<char>, Seq<char>)>,
    pub body: Seq<char>,
}

impl View for Request {
    type V = RequestView;

    open spec fn view(&self) -> RequestView {
        RequestView {
            headers: self.headers.deep_view(),
            path_params: self.path_params.deep_view(),
            query: self.query.deep_view(),
            body: self.body@,
        }
    }
}

/// First-match lookup by exact key.
pub open spec fn assoc_get(pairs: Seq<(Seq<char>, Seq<char>)>, key: Seq<char>) -> Option<
    Seq<char>,
>
    decreases pairs.len(),
{
    if pairs.len() == 0 {
        None
    } else if pairs[0].0 == key {
        Some(pairs[0].1)
    } else {
        assoc_get(pairs.drop_first(), key)
    }
}

/// First-match lookup with ASCII-case-insensitive keys, as headers are
/// addressed.
pub open spec fn assoc_get_ci(pairs: Seq<(Seq<char>, Seq<char>)>, key: Seq<char>) -> Option<
    Seq<char>,
>
    decreases pairs.len(),
{
    if pairs.len() == 0 {
        None
    } else if lower_seq(pairs[0].0) == lower_seq(key) {
        Some(pairs[0].1)
    } else {
        assoc_get_ci(pairs.drop_first(), key)
    }
}

/// Duplicate a key/value list.
pub fn copy_pairs(pairs: &Vec<(String, String)>) -> (r: Vec<(String, String)>)
    ensures
        r.deep_view() == pairs.deep_view(),
{
    let mut out: Vec<(String, String)> = Vec::new();
    let mut i: usize = 0;
    while i < pairs.len()
        invariant
            i <= pairs.len(),
            out@.len() == i,
            out.deep_view() =~= pairs.deep_view().take(i as int),
        decreases pairs.len() - i,
    {
        let k = pairs[i].0.clone();
        let v = pairs[i].1.clone();
        let ghost old_out = out;
        let ghost pair = (k, v);
        out.push((k, v));
        proof {
            assert(out@ == old_out@.push(pair));
            assert forall|j: int| 0 <= j <= i implies out.deep_view()[j] == pairs.deep_view().take(
                i + 1,
            )[j] by {
                if j < i {
                    assert(old_out@.push(pair)[j] == old_out@[j]);
                } else {
                    assert(old_out@.push(pair)[j] == pair);
                    assert(pair.deep_view() == (pair.0@, pair.1@));
                }
            }
            assert(out.deep_view() =~= pairs.deep_view().take(i + 1));
        }
        i += 1;
    }
    proof {
        assert(pairs.deep_view().take(pairs@.len() as int) =~= pairs.deep_view());
    }
    out
}

/// Find the value for `key` in a key/value list, first match wins.
pub fn lookup<'a>(pairs: &'a Vec<(String, String)>, key: &String) -> (r: Option<&'a String>)
    ensures
        match r {
            Some(v) => assoc_get(pairs.deep_view(), key@) == Some(v@),
            None => assoc_get(pairs.deep_view(), key@) is None,
        },
{
    let ghost full = pairs.deep_view();
    proof {
        assert(full.skip(0) =~= full);
    }
    let mut i: usize = 0;
    while i < pairs.len()
        invariant
            i <= pairs.len(),
            full == pairs.deep_view(),
            full.len() == pairs.len(),
            assoc_get(full, key@) == assoc_get(full.skip(i as int), key@),
        decreases pairs.len() - i,
    {
        proof {
            assert(full.skip(i as int)[0] == full[i as int]);
            assert(full[i as int].0 == pairs@[i as int].0@);
            assert(full[i as int].1 == pairs@[i as int].1@);
        }
        if pairs[i].0 == *key {
            proof {
                assert(assoc_get(full.skip(i as int), key@) == Some(full[i as int].1));
            }
            return Some(&pairs[i].1);
        }
        proof {
            assert(full.skip(i as int).drop_first() =~= full.skip(i as int + 1));
        }
        i += 1;
    }
    proof {
        assert(full.skip(pairs.len() as int) =~= Seq::<(Seq<char>, Seq<char>)>::empty());
    }
    None
}

/// Find the value for header `key`, comparing names case-insensitively,
/// first match wins.
pub fn lookup_ci<'a>(pairs: &'a Vec<(String, String)>, key: &String) -> (r: Option<&'a String>)
    ensures
        match r {
            Some(v) => assoc_get_ci(pairs.deep_view(), key@) == Some(v@),
            None => assoc_get_ci(pairs.deep_view(), key@) is None,
        },
{
    let ghost full = pairs.deep_view();
    proof {
        assert(full.skip(0) =~= full);
    }
    let mut i: usize = 0;
    while i < pairs.len()
        invariant
            i <= pairs.len(),
            full == pairs.deep_view(),
            full.len() == pairs.len(),
            assoc_get_ci(full, key@) == assoc_get_ci(full.skip(i as int), key@),
        decreases pairs.len() - i,
    {
        proof {
            assert(full.skip(i as int)[0] == full[i as int]);
            assert(full[i as int].0 == pairs@[i as int].0@);
            assert(full[i as int].1 == pairs@[i as int].1@);
        }
        if eq_ignore_case(pairs[i].0.as_str(), key.as_str()) {
            proof {
                assert(assoc_get_ci(full.skip(i as int), key@) == Some(full[i as int].1));
            }
            return Some(&pairs[i].1);
        }
        proof {
            assert(full.skip(i as int).drop_first() =~= full.skip(i as int + 1));
        }
        i += 1;
    }
    proof {
        assert(full.skip(pairs.len() as int) =~= Seq::<(Seq<char>, Seq<char>)>::empty());
    }
    None
}

} // verus!
