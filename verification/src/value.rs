//! Typed comparison values coerced from raw path and query strings.

use vstd::prelude::*;

verus! {

/// A typed comparison value. A raw string coerces to the first form that
/// fits: a base-10 signed 64-bit integer; else a number by the YAML scalar
/// syntax, carried as its canonical rendering; else the string itself.
/// Equality is variant-sensitive: an Integer never equals a Numeric, even
/// when they denote the same quantity.
#[derive(Debug)]
pub enum Value {
    Integer(i64),
    Numeric(String),
    Str(String),
}

/// The mathematical shape of a value.
pub enum ValueView {
    Integer(int),
    Numeric(Seq<char>),
    Str(Seq<char>),
}

impl View for Value {
    type V = ValueView;

    open spec fn view(&self) -> ValueView {
        match self {
            Value::Integer(v) => ValueView::Integer(*v as int),
            Value::Numeric(k) => ValueView::Numeric(k@),
            Value::Str(s) => ValueView::Str(s@),
        }
    }
}

impl DeepView for Value {
    type V = ValueView;

    open spec fn deep_view(&self) -> ValueView {
        self.view()
    }
}

impl Clone for Value {
    /// A copy with the same shape.
    fn clone(&self) -> (r: Value)
        ensures
            r@ == self@,
    {
        match self {
            Value::Integer(v) => Value::Integer(*v),
            Value::Numeric(k) => Value::Numeric(k.clone()),
            Value::Str(s) => Value::Str(s.clone()),
        }
    }
}

impl PartialEq for Value {
    fn eq(&self, other: &Value) -> (r: bool) {
        match (self, other) {
            (Value::Integer(a), Value::Integer(b)) => *a == *b,
            (Value::Numeric(a), Value::Numeric(b)) => *a == *b,
            (Value::Str(a), Value::Str(b)) => *a == *b,
            _ => false,
        }
    }
}

impl vstd::std_specs::cmp::PartialEqSpecImpl for Value {
    open spec fn obeys_eq_spec() -> bool {
        true
    }

    open spec fn eq_spec(&self, other: &Value) -> bool {
        self@ == other@
    }
}

/// A decimal digit.
pub open spec fn is_digit(c: char) -> bool {
    48 <= c as u32 && c as u32 <= 57
}

/// The numeric value of a decimal digit.
pub open spec fn digit_val(c: char) -> int {
    c as u32 - 48
}

/// Every character of `s` is a decimal digit.
pub open spec fn all_digits(s: Seq<char>) -> bool {
    forall|i: int| 0 <= i < s.len() ==> is_digit(s[i])
}

/// The value of a digit string, most significant digit first.
pub open spec fn digits_val(s: Seq<char>) -> int
    decreases s.len(),
{
    if s.len() == 0 {
        0
    } else {
        digits_val(s.drop_last()) * 10 + digit_val(s.last())
    }
}

/// The digits of an integer literal: everything after one optional
/// leading sign.
pub open spec fn int_body(s: Seq<char>) -> Seq<char> {
    if s.len() > 0 && (s[0] == '+' || s[0] == '-') {
        s.drop_first()
    } else {
        s
    }
}

/// The literal carries a leading minus sign.
pub open spec fn is_negative_literal(s: Seq<char>) -> bool {
    s.len() > 0 && s[0] == '-'
}

/// The signed value denoted by an integer literal.
pub open spec fn int_literal_value(s: Seq<char>) -> int {
    if is_negative_literal(s) {
        -digits_val(int_body(s))
    } else {
        digits_val(int_body(s))
    }
}

/// `s` is an integer literal that a signed 64-bit integer can hold: one
/// optional sign, then at least one decimal digit, value in range.
pub open spec fn is_i64_literal(s: Seq<char>) -> bool {
    &&& int_body(s).len() > 0
    &&& all_digits(int_body(s))
    &&& i64::MIN <= int_literal_value(s) <= i64::MAX
}

proof fn lemma_digits_val_nonneg(s: Seq<char>)
    requires
        all_digits(s),
    ensures
        digits_val(s) >= 0,
    decreases s.len(),
{
    if s.len() > 0 {
        assert(all_digits(s.drop_last()));
        lemma_digits_val_nonneg(s.drop_last());
    }
}

proof fn lemma_digits_val_prefix(s: Seq<char>, k: int)
    requires
        all_digits(s),
        0 <= k <= s.len(),
    ensures
        digits_val(s.take(k)) <= digits_val(s),
    decreases s.len() - k,
{
    if k < s.len() {
        lemma_digits_val_prefix(s, k + 1);
        assert(s.take(k + 1).drop_last() =~= s.take(k));
        assert(all_digits(s.take(k)));
        lemma_digits_val_nonneg(s.take(k));
        assert(digits_val(s.take(k + 1)) == digits_val(s.take(k)) * 10 + digit_val(s[k]));
    } else {
        assert(s.take(k) =~= s);
    }
}

/// Parse a base-10 signed 64-bit integer: one optional sign, then decimal
/// digits; anything else, or a value out of range, is rejected.
pub fn parse_i64(s: &str) -> (r: Option<i64>)
    ensures
        is_i64_literal(s@) ==> r == Some(int_literal_value(s@) as i64),
        !is_i64_literal(s@) ==> r is None,
{
    let len = s.unicode_len();
    let mut start: usize = 0;
    let mut neg = false;
    if len > 0 {
        let c0 = s.get_char(0);
        if c0 == '+' {
            start = 1;
        } else if c0 == '-' {
            neg = true;
            start = 1;
        }
    }
    proof {
        if start == 0 {
            assert(int_body(s@) =~= s@);
        } else {
            assert(int_body(s@) =~= s@.skip(1));
        }
        assert(is_negative_literal(s@) == neg);
    }
    if start >= len {
        // no digits at all
        assert(int_body(s@).len() == 0);
        return None;
    }
    let ghost body = int_body(s@);
    // the magnitude an i64 can hold, by sign
    let bound: u64 = if neg {
        9223372036854775808
    } else {
        9223372036854775807
    };
    let mut acc: u64 = 0;
    let mut i: usize = start;
    proof {
        assert(body.take(0) =~= Seq::<char>::empty());
    }
    while i < len
        invariant
            start <= i <= len,
            len == s@.len(),
            start <= 1,
            body == int_body(s@),
            body =~= s@.skip(start as int) || body =~= s@,
            body.len() == len - start,
            forall|j: int| 0 <= j < i - start ==> is_digit(body[j]),
            acc == digits_val(body.take(i - start)),
            acc <= bound,
            neg == is_negative_literal(s@),
            bound == if neg {
                9223372036854775808u64
            } else {
                9223372036854775807u64
            },
        decreases len - i,
    {
        let c = s.get_char(i);
        let u = c as u32;
        proof {
            assert(body[i - start] == s@[i as int]);
        }
        if u < 48 || u > 57 {
            // a non-digit: not an integer literal
            assert(!all_digits(body));
            return None;
        }
        let d = (u - 48) as u64;
        let wide: u128 = (acc as u128) * 10 + (d as u128);
        proof {
            assert(body.take(i - start + 1).drop_last() =~= body.take(i - start));
            assert(digits_val(body.take(i - start + 1)) == acc * 10 + d);
        }
        if wide > bound as u128 {
            // the value can only grow from here, so it cannot fit
            proof {
                if all_digits(body) {
                    lemma_digits_val_prefix(body, i - start + 1);
                    lemma_digits_val_nonneg(body);
                    assert(digits_val(body) > bound);
                }
            }
            return None;
        }
        acc = wide as u64;
        i += 1;
    }
    proof {
        assert(body.take(len - start) =~= body);
        assert(all_digits(body));
        assert(digits_val(body) == acc);
        lemma_digits_val_nonneg(body);
    }
    if neg {
        if acc == 9223372036854775808 {
            Some(i64::MIN)
        } else {
            Some(-(acc as i64))
        }
    } else {
        Some(acc as i64)
    }
}

/// What the outside numeric parse yields for a raw scalar: the canonical
/// rendering of the number it denotes, if it denotes one.
pub uninterp spec fn numeric_key_of(s: Seq<char>) -> Option<Seq<char>>;

/// Relies on serde_yaml::Number: its FromStr accepts a scalar by the YAML
/// number syntax and its Display renders the parsed number canonically;
/// both depend on the characters alone.
#[verifier::external_body]
fn numeric_key(s: &str) -> (r: Option<String>)
    ensures
        r.deep_view() == numeric_key_of(s@),
{
    s.parse::<serde_yaml::Number>().ok().map(|n| n.to_string())
}

/// The value a raw string coerces to: an Integer when it is a signed
/// 64-bit decimal literal, else a Numeric when it is a YAML number, else
/// the string itself.
pub open spec fn coerce_spec(s: Seq<char>) -> ValueView {
    if is_i64_literal(s) {
        ValueView::Integer(int_literal_value(s))
    } else {
        match numeric_key_of(s) {
            Some(k) => ValueView::Numeric(k),
            None => ValueView::Str(s),
        }
    }
}

impl Value {
    /// Coerce a raw path or query string into a typed comparison value.
    /// Total: every string coerces to exactly one value.
    pub fn coerce(raw: &str) -> (r: Value)
        ensures
            r@ == coerce_spec(raw@),
    {
        match parse_i64(raw) {
            Some(v) => Value::Integer(v),
            None => match numeric_key(raw) {
                Some(k) => Value::Numeric(k),
                None => Value::Str(String::from_str(raw)),
            },
        }
    }
}

/// Membership of a value in a configured value set.
pub fn contains_value(values: &Vec<Value>, v: &Value) -> (r: bool)
    ensures
        r == values.deep_view().contains(v@),
{
    let mut i: usize = 0;
    while i < values.len()
        invariant
            i <= values.len(),
            forall|j: int| 0 <= j < i ==> values.deep_view()[j] != v@,
        decreases values.len() - i,
    {
        if values[i] == *v {
            proof {
                assert(values.deep_view()[i as int] == v@);
            }
            return true;
        }
        i += 1;
    }
    proof {
        assert(!values.deep_view().contains(v@));
    }
    false
}

} // verus!
