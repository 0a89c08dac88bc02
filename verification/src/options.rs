//! Global options: where to bind, the CORS default, and the artificial
//! response delay window.

use vstd::prelude::*;

use crate::method::Method;

verus! {

/// The top-level options of a configuration. Address and port are
/// required by the document schema; the rest are optional.
#[derive(Debug)]
pub struct Options {
    pub address: String,
    pub port: u16,
    pub enable_cors: Option<bool>,
    pub min_response_delay_ms: Option<u64>,
    pub max_response_delay_ms: Option<u64>,
}

/// The mathematical shape of the options.
pub struct OptionsView {
    pub address: Seq<char>,
    pub port: u16,
    pub enable_cors: Option<bool>,
    pub min_response_delay_ms: Option<u64>,
    pub max_response_delay_ms: Option<u64>,
}

impl View for Options {
    type V = OptionsView;

    open spec fn view(&self) -> OptionsView {
        OptionsView {
            address: self.address@,
            port: self.port,
            enable_cors: self.enable_cors,
            min_response_delay_ms: self.min_response_delay_ms,
            max_response_delay_ms: self.max_response_delay_ms,
        }
    }
}

impl Clone for Options {
    /// A copy with the same shape.
    fn clone(&self) -> (r: Options)
        ensures
            r@ == self@,
    {
        Options {
            address: self.address.clone(),
            port: self.port,
            enable_cors: self.enable_cors,
            min_response_delay_ms: self.min_response_delay_ms,
            max_response_delay_ms: self.max_response_delay_ms,
        }
    }
}

/// The delay window: the lower bound defaults to 0, the upper bound to
/// the lower. A window whose configured upper bound lies below its lower
/// bound is clamped up to the lower bound instead of being handed to the
/// sampler as an invalid range.
pub open spec fn delay_window_spec(o: OptionsView) -> (u64, u64) {
    let lo = match o.min_response_delay_ms {
        Some(v) => v,
        None => 0u64,
    };
    let hi = match o.max_response_delay_ms {
        Some(v) => v,
        None => lo,
    };
    if hi < lo {
        (lo, lo)
    } else {
        (lo, hi)
    }
}

/// Whether a request's method is subject to the delay: OPTIONS
/// preflights bypass it so they stay fast.
pub open spec fn delay_applies(m: Method) -> bool {
    !(m is Options)
}

/// Relies on rand::random_range over `lo..=hi`: the sample lies in the
/// inclusive range. Nothing further is promised of a random draw.
#[verifier::external_body]
fn sample_in_range(lo: u64, hi: u64) -> (r: u64)
    requires
        lo <= hi,
    ensures
        lo <= r <= hi,
{
    rand::random_range(lo..=hi)
}

impl Options {
    /// The delay window as (lower, upper) milliseconds, upper at least
    /// lower.
    pub fn delay_window(&self) -> (r: (u64, u64))
        ensures
            r == delay_window_spec(self@),
            r.0 <= r.1,
    {
        let lo = match self.min_response_delay_ms {
            Some(v) => v,
            None => 0,
        };
        let hi = match self.max_response_delay_ms {
            Some(v) => v,
            None => lo,
        };
        if hi < lo {
            (lo, lo)
        } else {
            (lo, hi)
        }
    }

    /// The artificial delay for one request, in milliseconds: none for
    /// an OPTIONS request, otherwise a draw from the delay window. When
    /// the window is a single point, the delay is exactly that value.
    pub fn delay_for(&self, m: Method) -> (r: Option<u64>)
        ensures
            !delay_applies(m) ==> r is None,
            delay_applies(m) ==> (r matches Some(d) && delay_window_spec(self@).0 <= d
                <= delay_window_spec(self@).1),
    {
        match m {
            Method::Options => None,
            _ => {
                let (lo, hi) = self.delay_window();
                Some(sample_in_range(lo, hi))
            },
        }
    }
}

/// A window configured as a single point delays every non-OPTIONS
/// request by exactly that duration; with both bounds zero there is no
/// delay at all. OPTIONS requests are never delayed.
pub proof fn lemma_point_window_is_exact(o: OptionsView, v: u64)
    requires
        o.min_response_delay_ms == Some(v),
        o.max_response_delay_ms == Some(v),
    ensures
        delay_window_spec(o) == (v, v),
{
}

} // verus!
