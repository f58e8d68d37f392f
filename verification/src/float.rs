use vstd::prelude::*;

use crate::json::{json_opt_view, Json, JsonValue};
use crate::number::{all_digits, digits_value, dot_mark, exp_mark, pow10};
use crate::text::{chars_of, is_digit, lowered, string_of, strip_leading, to_ascii_lowercase};

verus! {

/// The most significant digits a number text keeps in its mantissa.
pub open spec fn kept_digits() -> nat {
    18
}

/// Whether `s`, its sign taken off, names an infinity or not-a-number (any letter case).
pub open spec fn special_word(s: Seq<char>) -> bool {
    lowered(s) == "inf"@ || lowered(s) == "infinity"@ || lowered(s) == "nan"@
}

/// The value of an exponent text: an optional sign and at least one digit.
pub open spec fn exponent_value(t: Seq<char>) -> Option<int> {
    let neg = t.len() > 0 && t[0] == '-';
    let plus = t.len() > 0 && t[0] == '+';
    let body = if neg || plus { t.drop_first() } else { t };
    if body.len() > 0 && all_digits(body) {
        Some(if neg { -digits_value(body) } else { digits_value(body) })
    } else {
        None
    }
}

/// `x` saturated to the range of `i32`.
pub open spec fn clamp_i32(x: int) -> int {
    if x > i32::MAX { i32::MAX as int } else if x < i32::MIN { i32::MIN as int } else { x }
}

/// The text `t` without its sign, and whether that sign is `-`.
pub open spec fn unsigned_part(t: Seq<char>) -> (bool, Seq<char>) {
    if t.len() > 0 && (t[0] == '-' || t[0] == '+') { (t[0] == '-', t.drop_first()) } else { (false, t) }
}

/// A mantissa text `digits[.digits]` with at least one digit: the value of its first
/// significant digits, the number of digits after its point, and the number of digits cut.
pub open spec fn mantissa_value(mant: Seq<char>) -> Option<(int, int, int)> {
    let dm = dot_mark(mant);
    let a = mant.subrange(0, dm);
    let b = if dm < mant.len() { mant.subrange(dm + 1, mant.len() as int) } else { Seq::<char>::empty() };
    let sig = strip_leading(a + b, '0');
    let kept = if sig.len() > kept_digits() { sig.subrange(0, kept_digits() as int) } else { sig };
    if all_digits(a) && all_digits(b) && a.len() + b.len() > 0 {
        Some((digits_value(kept), b.len() as int, sig.len() - kept.len()))
    } else {
        None
    }
}

/// A decimal text without its sign, in this library's JSON model.
pub open spec fn decimal_value(neg: bool, s: Seq<char>) -> Option<Json> {
    let em = exp_mark(s);
    let x = if em < s.len() { exponent_value(s.subrange(em + 1, s.len() as int)) } else { Some(0) };
    match (mantissa_value(s.subrange(0, em)), x) {
        (Some((m, f, cut)), Some(x)) => Some(Json::Decimal(if neg { -m } else { m }, clamp_i32(x - f + cut))),
        _ => None,
    }
}

/// What `str::parse::<f64>` accepts, in this library's JSON model: an infinity or
/// not-a-number is null (as JSON writes it); a decimal `digits[.digits][e[sign]digits]` with at
/// least one digit before the exponent is `mantissa * 10^exponent`, the mantissa cut to its
/// first significant digits (toward zero) and the exponent raised by the digits cut and
/// saturated to the range of `i32`.
pub open spec fn f64_text(t: Seq<char>) -> Option<Json> {
    let (neg, s) = unsigned_part(t);
    if special_word(s) { Some(Json::Null) } else { decimal_value(neg, s) }
}

fn slice_of(cs: &Vec<char>, from: usize, to: usize) -> (r: Vec<char>)
    requires
        from <= to <= cs@.len(),
    ensures
        r@ == cs@.subrange(from as int, to as int),
{
    let mut r: Vec<char> = Vec::new();
    let mut i = from;
    while i < to
        invariant
            from <= i <= to <= cs@.len(),
            r@ =~= cs@.subrange(from as int, i as int),
        decreases to - i,
    {
        r.push(cs[i]);
        i = i + 1;
    }
    r
}

fn first_of(cs: &Vec<char>, a: char, b: char) -> (r: usize)
    ensures
        r <= cs@.len(),
        forall|j: int| 0 <= j < r ==> cs@[j] != a && cs@[j] != b,
        r < cs@.len() ==> (cs@[r as int] == a || cs@[r as int] == b),
{
    let mut i: usize = 0;
    while i < cs.len()
        invariant
            i <= cs@.len(),
            forall|j: int| 0 <= j < i ==> cs@[j] != a && cs@[j] != b,
        decreases cs@.len() - i,
    {
        if cs[i] == a || cs[i] == b {
            return i;
        }
        i = i + 1;
    }
    i
}

fn all_digit_chars(cs: &Vec<char>) -> (r: bool)
    ensures
        r == all_digits(cs@),
{
    let mut i: usize = 0;
    while i < cs.len()
        invariant
            i <= cs@.len(),
            forall|j: int| 0 <= j < i ==> is_digit(#[trigger] cs@[j]),
        decreases cs@.len() - i,
    {
        if !('0' <= cs[i] && cs[i] <= '9') {
            return false;
        }
        i = i + 1;
    }
    true
}

proof fn lemma_digits_push(s: Seq<char>, c: char)
    ensures
        digits_value(s.push(c)) == digits_value(s) * 10 + (c as int - '0' as int),
{
    assert(s.push(c).drop_last() =~= s);
}

proof fn lemma_digits_nonneg(s: Seq<char>)
    requires
        all_digits(s),
    ensures
        digits_value(s) >= 0,
    decreases s.len(),
{
    if s.len() > 0 {
        lemma_digits_nonneg(s.drop_last());
    }
}

proof fn lemma_pow10_18()
    ensures
        pow10(18) == 1_000_000_000_000_000_000,
{
    reveal_with_fuel(pow10, 19);
}

proof fn lemma_pow10_grows(a: nat, b: nat)
    requires
        a <= b,
    ensures
        pow10(a) <= pow10(b),
    decreases b,
{
    if a < b {
        lemma_pow10_grows(a, (b - 1) as nat);
        lemma_pow10_positive((b - 1) as nat);
    }
}

proof fn lemma_pow10_positive(n: nat)
    ensures
        pow10(n) >= 1,
    decreases n,
{
    if n > 0 {
        lemma_pow10_positive((n - 1) as nat);
    }
}

/// The value of at most 18 digits.
fn digits_i64(cs: &Vec<char>) -> (r: i64)
    requires
        all_digits(cs@),
        cs@.len() <= kept_digits(),
    ensures
        r == digits_value(cs@),
        0 <= r < pow10(18),
{
    let mut v: i64 = 0;
    let mut i: usize = 0;
    proof { lemma_pow10_18(); }
    while i < cs.len()
        invariant
            i <= cs@.len() <= 18,
            all_digits(cs@),
            pow10(18) == 1_000_000_000_000_000_000,
            v == digits_value(cs@.subrange(0, i as int)),
            0 <= v < pow10(i as nat),
        decreases cs@.len() - i,
    {
        let d = cs[i];
        assert(is_digit(cs@[i as int]));
        proof {
            lemma_digits_push(cs@.subrange(0, i as int), d);
            assert(cs@.subrange(0, i + 1) =~= cs@.subrange(0, i as int).push(d));
            lemma_pow10_grows((i + 1) as nat, 18);
            assert(pow10((i + 1) as nat) == 10 * pow10(i as nat));
        }
        v = v * 10 + ((d as u32 - '0' as u32) as i64);
        i = i + 1;
    }
    proof { lemma_pow10_grows(i as nat, 18); }
    assert(cs@.subrange(0, cs@.len() as int) =~= cs@);
    v
}

/// The largest exponent magnitude kept exactly while reading an exponent: beyond it the
/// saturated result no longer depends on the value.
pub open spec fn exponent_cap() -> int {
    0x1_0000_0000_0000_0000_0000
}

/// The value of an exponent text, saturated to plus or minus `exponent_cap()`.
fn exponent_of(cs: &Vec<char>) -> (r: Option<i128>)
    ensures
        match r {
            Some(v) => exponent_value(cs@) matches Some(x) && (
                if x >= exponent_cap() { v == exponent_cap() }
                else if x <= -exponent_cap() { v == -exponent_cap() }
                else { v == x }),
            None => exponent_value(cs@) is None,
        },
{
    let n = cs.len();
    let neg = n > 0 && cs[0] == '-';
    let plus = n > 0 && cs[0] == '+';
    let start: usize = if neg || plus { 1 } else { 0 };
    let body = slice_of(cs, start, n);
    assert(body@ == (if neg || plus { cs@.drop_first() } else { cs@ }));
    if body.len() == 0 || !all_digit_chars(&body) {
        return None;
    }
    let cap: i128 = 0x1_0000_0000_0000_0000_0000;
    let mut v: i128 = 0;
    let mut i: usize = 0;
    while i < body.len()
        invariant
            i <= body@.len(),
            all_digits(body@),
            cap == exponent_cap(),
            v == (if digits_value(body@.subrange(0, i as int)) >= cap { cap as int } else { digits_value(body@.subrange(0, i as int)) }),
        decreases body@.len() - i,
    {
        let d = body[i];
        assert(is_digit(body@[i as int]));
        proof {
            lemma_digits_push(body@.subrange(0, i as int), d);
            assert(body@.subrange(0, i + 1) =~= body@.subrange(0, i as int).push(d));
            lemma_digits_nonneg(body@.subrange(0, i as int));
        }
        let next = v * 10 + ((d as u32 - '0' as u32) as i128);
        v = if next >= cap { cap } else { next };
        i = i + 1;
    }
    assert(body@.subrange(0, body@.len() as int) =~= body@);
    proof { lemma_digits_nonneg(body@); }
    Some(if neg { -v } else { v })
}

proof fn lemma_strip_leading_from(s: Seq<char>, c: char, z: int)
    requires
        0 <= z <= s.len(),
        forall|j: int| 0 <= j < z ==> s[j] == c,
        z == s.len() || s[z] != c,
    ensures
        strip_leading(s, c) == s.subrange(z, s.len() as int),
    decreases z,
{
    if z > 0 {
        lemma_strip_leading_from(s.drop_first(), c, z - 1);
        assert(s.drop_first().subrange(z - 1, s.drop_first().len() as int) =~= s.subrange(z, s.len() as int));
    } else {
        assert(s.subrange(0, s.len() as int) =~= s);
    }
}

/// The mantissa of a decimal text (`mantissa_value`).
fn read_mantissa(mant: &Vec<char>) -> (r: Option<(i64, usize, usize)>)
    ensures
        match r {
            Some((m, f, cut)) => mantissa_value(mant@) == Some((m as int, f as int, cut as int)) && 0 <= m < pow10(18),
            None => mantissa_value(mant@) is None,
        },
{
    let dm = first_of(mant, '.', '.');
    assert(dot_mark(mant@) == dm as int) by {
        if dm < mant@.len() {
            let w = choose|i: int| 0 <= i < mant@.len() && mant@[i] == '.' && forall|j: int| 0 <= j < i ==> mant@[j] != '.';
            assert(w == dm as int);
        }
    }
    let a = slice_of(mant, 0, dm);
    let b = if dm < mant.len() { slice_of(mant, dm + 1, mant.len()) } else { Vec::new() };
    if !all_digit_chars(&a) || !all_digit_chars(&b) || a.len() + b.len() == 0 {
        return None;
    }
    let mut d = slice_of(&a, 0, a.len());
    assert(d@ =~= a@);
    let mut k: usize = 0;
    while k < b.len()
        invariant
            k <= b@.len(),
            d@ =~= a@ + b@.subrange(0, k as int),
        decreases b@.len() - k,
    {
        d.push(b[k]);
        k = k + 1;
    }
    assert(b@.subrange(0, b@.len() as int) =~= b@);
    assert(d@ == a@ + b@);
    let mut z: usize = 0;
    while z < d.len() && d[z] == '0'
        invariant
            z <= d@.len(),
            forall|j: int| 0 <= j < z ==> d@[j] == '0',
        decreases d@.len() - z,
    {
        z = z + 1;
    }
    proof { lemma_strip_leading_from(d@, '0', z as int); }
    let sig_len = d.len() - z;
    let kl: usize = if sig_len > 18 { 18 } else { sig_len };
    let kept = slice_of(&d, z, z + kl);
    let ghost sig = d@.subrange(z as int, d@.len() as int);
    assert(kept@ == (if sig.len() > kept_digits() { sig.subrange(0, kept_digits() as int) } else { sig })) by {
        if sig.len() > 18 {
            assert(kept@ =~= sig.subrange(0, 18));
        } else {
            assert(kept@ =~= sig);
        }
    }
    assert forall|j: int| 0 <= j < kept@.len() implies is_digit(#[trigger] kept@[j]) by {
        assert(kept@[j] == d@[z + j]);
        if z + j < a@.len() {
            assert(d@[z + j] == a@[z + j]);
        } else {
            assert(d@[z + j] == b@[z + j - a@.len()]);
        }
    }
    let m = digits_i64(&kept);
    Some((m, b.len(), sig_len - kl))
}

/// A decimal text without its sign (`decimal_value`).
fn read_decimal(neg: bool, s: &Vec<char>) -> (r: Option<JsonValue>)
    ensures
        json_opt_view(r) == decimal_value(neg, s@),
{
    let em = first_of(s, 'e', 'E');
    assert(exp_mark(s@) == em as int) by {
        if em < s@.len() {
            let w = choose|i: int| 0 <= i < s@.len() && (s@[i] == 'e' || s@[i] == 'E')
                && forall|j: int| 0 <= j < i ==> !(s@[j] == 'e' || s@[j] == 'E');
            assert(w == em as int);
        }
    }
    let mant = slice_of(s, 0, em);
    let x: i128 = if em < s.len() {
        match exponent_of(&slice_of(s, em + 1, s.len())) {
            Some(v) => v,
            None => return None,
        }
    } else {
        0
    };
    let (m, f, cut) = match read_mantissa(&mant) {
        Some(p) => p,
        None => return None,
    };
    let raw: i128 = x - (f as i128) + (cut as i128);
    let e: i32 = if raw > i32::MAX as i128 { i32::MAX } else if raw < i32::MIN as i128 { i32::MIN } else { raw as i32 };
    proof { lemma_pow10_18(); }
    Some(JsonValue::Decimal(if neg { -m } else { m }, e))
}

/// `str::parse::<f64>`, read into this library's JSON model (`f64_text`).
pub fn parse_f64_text(t: &str) -> (r: Option<JsonValue>)
    ensures
        json_opt_view(r) == f64_text(t@),
{
    let cs = chars_of(t);
    let n = cs.len();
    let neg = n > 0 && cs[0] == '-';
    let signed = n > 0 && (cs[0] == '-' || cs[0] == '+');
    let s = slice_of(&cs, if signed { 1 } else { 0 }, n);
    assert(unsigned_part(t@) == (neg, s@)) by {
        if !signed {
            assert(cs@.subrange(0, n as int) =~= cs@);
        }
    }
    let low = to_ascii_lowercase(string_of(s.as_slice()).as_str());
    if crate::json::str_equal(low.as_str(), "inf") || crate::json::str_equal(low.as_str(), "infinity")
        || crate::json::str_equal(low.as_str(), "nan") {
        return Some(JsonValue::Null);
    }
    read_decimal(neg, &s)
}

/// A number divided by a thousand (`value / 1000.0`): a decimal's exponent lowered by three,
/// saturated at the least `i32`; null (an infinity or not-a-number) stays null.
pub open spec fn per_thousand(j: Json) -> Json {
    match j {
        Json::Decimal(m, e) => Json::Decimal(m, if e - 3 < i32::MIN { i32::MIN as int } else { e - 3 }),
        _ => j,
    }
}

/// A number divided by a thousand (`per_thousand`).
pub fn per_thousand_value(v: JsonValue) -> (r: JsonValue)
    ensures
        r@ == per_thousand(v@),
{
    match v {
        JsonValue::Decimal(m, e) => JsonValue::Decimal(m, if e < i32::MIN + 3 { i32::MIN } else { e - 3 }),
        other => other,
    }
}

} // verus!
