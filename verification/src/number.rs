use vstd::prelude::*;

use crate::text::is_digit;

verus! {

/// The value of a string of decimal digits.
pub open spec fn digits_value(s: Seq<char>) -> int
    decreases s.len(),
{
    if s.len() == 0 {
        0
    } else {
        digits_value(s.drop_last()) * 10 + (s.last() as int - '0' as int)
    }
}

/// Whether every character of `s` is a decimal digit.
pub open spec fn all_digits(s: Seq<char>) -> bool {
    forall|i: int| 0 <= i < s.len() ==> is_digit(#[trigger] s[i])
}

/// The number of consecutive digits of `t` starting at `from`.
pub open spec fn digit_run(t: Seq<char>, from: int) -> int
    decreases t.len() - from,
{
    if 0 <= from < t.len() && is_digit(t[from]) {
        1 + digit_run(t, from + 1)
    } else {
        0
    }
}

/// `str::parse::<i64>`: an optional sign followed by at least one decimal digit,
/// with a value that fits in an `i64`.
pub open spec fn parsed_int(t: Seq<char>) -> Option<int> {
    let neg = t.len() > 0 && t[0] == '-';
    let plus = t.len() > 0 && t[0] == '+';
    let body = if neg || plus { t.drop_first() } else { t };
    let v = if neg { -digits_value(body) } else { digits_value(body) };
    if body.len() > 0 && all_digits(body) && i64::MIN <= v <= i64::MAX {
        Some(v)
    } else {
        None
    }
}

proof fn lemma_digits_value_push(s: Seq<char>, c: char)
    ensures
        digits_value(s.push(c)) == digits_value(s) * 10 + (c as int - '0' as int),
{
    assert(s.push(c).drop_last() =~= s);
}

proof fn lemma_digits_value_nonneg(s: Seq<char>)
    requires
        all_digits(s),
    ensures
        digits_value(s) >= 0,
    decreases s.len(),
{
    if s.len() > 0 {
        lemma_digits_value_nonneg(s.drop_last());
    }
}

proof fn lemma_digits_value_mono(s: Seq<char>, c: char)
    requires
        all_digits(s),
        is_digit(c),
    ensures
        digits_value(s.push(c)) >= digits_value(s),
{
    lemma_digits_value_push(s, c);
    lemma_digits_value_nonneg(s);
}

/// Parses a decimal integer the way `str::parse::<i64>` does.
pub fn parse_int(t: &str) -> (r: Option<i64>)
    ensures
        match r {
            Some(v) => parsed_int(t@) == Some(v as int),
            None => parsed_int(t@) is None,
        },
{
    let cs = crate::text::chars_of(t);
    let n = cs.len();
    let neg = n > 0 && cs[0] == '-';
    let plus = n > 0 && cs[0] == '+';
    let start: usize = if neg || plus { 1 } else { 0 };
    let ghost body = if neg || plus { t@.drop_first() } else { t@ };
    if start >= n {
        assert(body.len() == 0);
        return None;
    }
    let mut acc: i64 = 0;
    let mut i: usize = start;
    while i < n
        invariant
            start <= i <= n,
            n == cs@.len(),
            cs@ == t@,
            neg == (t@.len() > 0 && t@[0] == '-'),
            plus == (t@.len() > 0 && t@[0] == '+'),
            body == (if neg || plus { t@.drop_first() } else { t@ }),
            start == (if neg || plus { 1usize } else { 0usize }),
            body == cs@.subrange(start as int, n as int),
            all_digits(cs@.subrange(start as int, i as int)),
            acc as int == if neg { -digits_value(cs@.subrange(start as int, i as int)) } else { digits_value(cs@.subrange(start as int, i as int)) },
        decreases n - i,
    {
        let c = cs[i];
        if !('0' <= c && c <= '9') {
            assert(body[i - start] == c);
            assert(!all_digits(body));
            assert(neg == (t@.len() > 0 && t@[0] == '-'));
            assert(plus == (t@.len() > 0 && t@[0] == '+'));
            assert(body == (if neg || plus { t@.drop_first() } else { t@ }));
            assert(parsed_int(t@) is None);
            return None;
        }
        let d: i64 = ((c as u32) - ('0' as u32)) as i64;
        let ghost prev = cs@.subrange(start as int, i as int);
        proof {
            assert(cs@.subrange(start as int, i + 1) =~= prev.push(c));
            lemma_digits_value_push(prev, c);
            lemma_digits_value_nonneg(prev);
        }
        let next: i128 = if neg { (acc as i128) * 10 - (d as i128) } else { (acc as i128) * 10 + (d as i128) };
        if next < (i64::MIN as i128) || next > (i64::MAX as i128) {
            proof {
                lemma_rest_overflows(cs@, start as int, i as int, n as int, neg);
                assert(body =~= cs@.subrange(start as int, n as int));
            }
            return None;
        }
        acc = next as i64;
        i = i + 1;
    }
    assert(cs@.subrange(start as int, n as int) == body);
    Some(acc)
}

proof fn lemma_rest_overflows(cs: Seq<char>, start: int, i: int, n: int, neg: bool)
    requires
        0 <= start <= i < n == cs.len(),
        all_digits(cs.subrange(start, i + 1)),
        neg ==> -digits_value(cs.subrange(start, i + 1)) < i64::MIN,
        !neg ==> digits_value(cs.subrange(start, i + 1)) > i64::MAX,
    ensures
        all_digits(cs.subrange(start, n)) ==> (if neg { -digits_value(cs.subrange(start, n)) < i64::MIN } else { digits_value(cs.subrange(start, n)) > i64::MAX }),
    decreases n - i,
{
    if i + 1 < n && all_digits(cs.subrange(start, n)) {
        let p = cs.subrange(start, i + 1);
        assert(cs.subrange(start, i + 2) =~= p.push(cs[i + 1]));
        assert(is_digit(cs.subrange(start, n)[i + 1 - start]));
        lemma_digits_value_mono(p, cs[i + 1]);
        assert(all_digits(cs.subrange(start, i + 2))) by {
            assert forall|k: int| 0 <= k < i + 2 - start implies is_digit(#[trigger] cs.subrange(start, i + 2)[k]) by {
                assert(cs.subrange(start, i + 2)[k] == cs.subrange(start, n)[k]);
            }
        }
        lemma_rest_overflows(cs, start, i + 1, n, neg);
    } else if i + 1 == n {
    }
}


/// The position of the first character of `t` that satisfies `is_exp`, or the length of `t`.
pub open spec fn exp_mark(t: Seq<char>) -> int {
    if exists|i: int| 0 <= i < t.len() && (t[i] == 'e' || t[i] == 'E') {
        choose|i: int| 0 <= i < t.len() && (t[i] == 'e' || t[i] == 'E')
            && forall|j: int| 0 <= j < i ==> !(t[j] == 'e' || t[j] == 'E')
    } else {
        t.len() as int
    }
}

/// The position of the first `.` in `t`, or the length of `t`.
pub open spec fn dot_mark(t: Seq<char>) -> int {
    if exists|i: int| 0 <= i < t.len() && t[i] == '.' {
        choose|i: int| 0 <= i < t.len() && t[i] == '.' && forall|j: int| 0 <= j < i ==> t[j] != '.'
    } else {
        t.len() as int
    }
}

/// The value of a decimal number text (digits with an optional sign, point and exponent)
/// as `mantissa * 10^exponent`, when both fit.
pub open spec fn decimal_parts(t: Seq<char>) -> Option<(int, int)> {
    let em = exp_mark(t);
    let mant = t.subrange(0, em);
    let exp = if em < t.len() { parsed_int(t.subrange(em + 1, t.len() as int)) } else { Some(0) };
    let dm = dot_mark(mant);
    let digits = if dm < mant.len() { mant.subrange(0, dm) + mant.subrange(dm + 1, mant.len() as int) } else { mant };
    let frac = if dm < mant.len() { mant.len() - dm - 1 } else { 0 };
    match (parsed_int(digits), exp) {
        (Some(m), Some(x)) => if i32::MIN <= x - frac <= i32::MAX {
            Some((m, x - frac))
        } else {
            None
        },
        _ => None,
    }
}

fn find_char(cs: &Vec<char>, a: char, b: char) -> (r: usize)
    ensures
        r <= cs@.len(),
        forall|j: int| 0 <= j < r ==> cs@[j] != a && cs@[j] != b,
        r < cs@.len() ==> (cs@[r as int] == a || cs@[r as int] == b),
{
    let mut i: usize = 0;
    while i < cs.len()
        invariant
            i <= cs@.len(),
            forall|j: int| 0 <= j < i ==> cs@[j] != a && cs@[j] != b,
        decreases cs@.len() - i,
    {
        if cs[i] == a || cs[i] == b {
            return i;
        }
        i = i + 1;
    }
    i
}

fn slice_chars(cs: &Vec<char>, from: usize, to: usize) -> (r: Vec<char>)
    requires
        from <= to <= cs@.len(),
    ensures
        r@ == cs@.subrange(from as int, to as int),
{
    let mut r: Vec<char> = Vec::new();
    let mut i = from;
    while i < to
        invariant
            from <= i <= to <= cs@.len(),
            r@ =~= cs@.subrange(from as int, i as int),
        decreases to - i,
    {
        r.push(cs[i]);
        i = i + 1;
    }
    r
}

/// Reads a JSON number text as `mantissa * 10^exponent`.
pub fn parse_decimal(t: &str) -> (r: Option<(i64, i32)>)
    ensures
        match r {
            Some((m, e)) => decimal_parts(t@) == Some((m as int, e as int)),
            None => decimal_parts(t@) is None,
        },
{
    let cs = crate::text::chars_of(t);
    let em = find_char(&cs, 'e', 'E');
    assert(exp_mark(t@) == em as int) by {
        if em < cs@.len() {
            let w = choose|i: int| 0 <= i < t@.len() && (t@[i] == 'e' || t@[i] == 'E')
                && forall|j: int| 0 <= j < i ==> !(t@[j] == 'e' || t@[j] == 'E');
            assert(w == em as int);
        }
    }
    let mant = slice_chars(&cs, 0, em);
    let exp: Option<i64> = if em < cs.len() {
        let rest = slice_chars(&cs, em + 1, cs.len());
        let rs = crate::text::string_of(rest.as_slice());
        assert(rs@ == t@.subrange(em + 1, t@.len() as int));
        parse_int(rs.as_str())
    } else {
        Some(0)
    };
    let dm = find_char(&mant, '.', '.');
    assert(dot_mark(mant@) == dm as int) by {
        if dm < mant@.len() {
            let w = choose|i: int| 0 <= i < mant@.len() && mant@[i] == '.' && forall|j: int| 0 <= j < i ==> mant@[j] != '.';
            assert(w == dm as int);
        }
    }
    let mut digits = slice_chars(&mant, 0, dm);
    let frac: usize = if dm < mant.len() { mant.len() - dm - 1 } else { 0 };
    if dm < mant.len() {
        let tail = slice_chars(&mant, dm + 1, mant.len());
        let mut k: usize = 0;
        let ghost d0 = digits@;
        while k < tail.len()
            invariant
                k <= tail@.len(),
                digits@ =~= d0 + tail@.subrange(0, k as int),
            decreases tail@.len() - k,
        {
            digits.push(tail[k]);
            k = k + 1;
        }
        assert(tail@.subrange(0, tail@.len() as int) =~= tail@);
    }
    assert(mant@ == t@.subrange(0, exp_mark(t@)));
    assert(digits@ == (if dm < mant@.len() { mant@.subrange(0, dm as int) + mant@.subrange(dm + 1, mant@.len() as int) } else { mant@ })) by {
        if dm == mant@.len() {
            assert(mant@.subrange(0, dm as int) =~= mant@);
        }
    }
    let m = parse_int(crate::text::string_of(digits.as_slice()).as_str());
    match (m, exp) {
        (Some(m), Some(x)) => {
            let e: i128 = (x as i128) - (frac as i128);
            if e < (i32::MIN as i128) || e > (i32::MAX as i128) {
                return None;
            }
            Some((m, e as i32))
        },
        _ => None,
    }
}


/// The decimal text of a natural number.
pub open spec fn nat_text(n: nat) -> Seq<char>
    decreases n,
{
    if n < 10 {
        seq![(('0' as int) + n) as char]
    } else {
        nat_text(n / 10).push((('0' as int) + n % 10) as char)
    }
}

/// The decimal text of an integer, with `-` in front of a negative one (`i64`'s `Display`).
pub open spec fn int_text(i: int) -> Seq<char> {
    if i < 0 {
        seq!['-'] + nat_text((-i) as nat)
    } else {
        nat_text(i as nat)
    }
}

/// `i64::to_string`, which writes the number in decimal with a leading `-` when negative.
#[verifier::external_body]
pub(crate) fn int_to_string(i: i64) -> (r: String)
    ensures
        r@ == int_text(i as int),
{
    i.to_string()
}


/// `str::parse::<usize>`: an optional `+` followed by at least one decimal digit, with a
/// value that fits in a `usize`.
pub open spec fn parsed_usize(t: Seq<char>) -> Option<int> {
    let body = if t.len() > 0 && t[0] == '+' { t.drop_first() } else { t };
    if body.len() > 0 && all_digits(body) && digits_value(body) <= usize::MAX {
        Some(digits_value(body))
    } else {
        None
    }
}

/// Parses a decimal number the way `str::parse::<usize>` does.
pub fn parse_usize(t: &str) -> (r: Option<usize>)
    ensures
        match r {
            Some(v) => parsed_usize(t@) == Some(v as int),
            None => parsed_usize(t@) is None,
        },
{
    let cs = crate::text::chars_of(t);
    let n = cs.len();
    let plus = n > 0 && cs[0] == '+';
    let start: usize = if plus { 1 } else { 0 };
    let ghost body = if plus { t@.drop_first() } else { t@ };
    if start >= n {
        assert(body.len() == 0);
        return None;
    }
    let mut acc: usize = 0;
    let mut i: usize = start;
    while i < n
        invariant
            start <= i <= n,
            n == cs@.len(),
            cs@ == t@,
            plus == (t@.len() > 0 && t@[0] == '+'),
            body == (if plus { t@.drop_first() } else { t@ }),
            start == (if plus { 1usize } else { 0usize }),
            body == cs@.subrange(start as int, n as int),
            all_digits(cs@.subrange(start as int, i as int)),
            acc as int == digits_value(cs@.subrange(start as int, i as int)),
        decreases n - i,
    {
        let c = cs[i];
        if !('0' <= c && c <= '9') {
            assert(body[i - start] == c);
            assert(!all_digits(body));
            return None;
        }
        let d: usize = ((c as u32) - ('0' as u32)) as usize;
        let ghost prev = cs@.subrange(start as int, i as int);
        proof {
            assert(cs@.subrange(start as int, i + 1) =~= prev.push(c));
            lemma_digits_value_push(prev, c);
            lemma_digits_value_nonneg(prev);
        }
        if acc > (usize::MAX - d) / 10 {
            proof {
                assert(digits_value(cs@.subrange(start as int, i + 1)) > usize::MAX) by(nonlinear_arith)
                    requires
                        acc > (usize::MAX - d) / 10,
                        digits_value(cs@.subrange(start as int, i + 1)) == acc * 10 + d,
                        d <= 9;
                lemma_rest_overflows_u(cs@, start as int, i as int, n as int);
                assert(body =~= cs@.subrange(start as int, n as int));
            }
            return None;
        }
        acc = acc * 10 + d;
        i = i + 1;
    }
    assert(cs@.subrange(start as int, n as int) == body);
    Some(acc)
}

proof fn lemma_rest_overflows_u(cs: Seq<char>, start: int, i: int, n: int)
    requires
        0 <= start <= i < n == cs.len(),
        all_digits(cs.subrange(start, i + 1)),
        digits_value(cs.subrange(start, i + 1)) > usize::MAX,
    ensures
        all_digits(cs.subrange(start, n)) ==> digits_value(cs.subrange(start, n)) > usize::MAX,
    decreases n - i,
{
    if i + 1 < n && all_digits(cs.subrange(start, n)) {
        let p = cs.subrange(start, i + 1);
        assert(cs.subrange(start, i + 2) =~= p.push(cs[i + 1]));
        assert(is_digit(cs.subrange(start, n)[i + 1 - start]));
        lemma_digits_value_mono(p, cs[i + 1]);
        assert(all_digits(cs.subrange(start, i + 2))) by {
            assert forall|k: int| 0 <= k < i + 2 - start implies is_digit(#[trigger] cs.subrange(start, i + 2)[k]) by {
                assert(cs.subrange(start, i + 2)[k] == cs.subrange(start, n)[k]);
            }
        }
        lemma_rest_overflows_u(cs, start, i + 1, n);
    }
}

/// `usize::to_string`: the decimal text of `n`.
pub fn usize_text(n: usize) -> (r: String)
    ensures
        r@ == nat_text(n as nat),
    decreases n,
{
    let digit = crate::text::char_from_ascii(48 + (n % 10) as u32);
    if n < 10 {
        let mut s = String::new();
        crate::text::push_char(&mut s, digit);
        assert(s@ =~= nat_text(n as nat));
        s
    } else {
        let mut s = usize_text(n / 10);
        crate::text::push_char(&mut s, digit);
        assert(s@ =~= nat_text(n as nat));
        s
    }
}


/// `10^n`.
pub open spec fn pow10(n: nat) -> int
    decreases n,
{
    if n == 0 { 1 } else { 10 * pow10((n - 1) as nat) }
}

/// `x` saturated to the range of `i64`, as a float-to-integer `as` cast does.
pub open spec fn clamp_i64(x: int) -> int {
    if x > i64::MAX { i64::MAX as int } else if x < i64::MIN { i64::MIN as int } else { x }
}

/// `m * 10^t`, rounded toward zero and saturated to the range of `i64`.
pub open spec fn scaled_value(m: int, t: int) -> int {
    if t >= 0 {
        clamp_i64(m * pow10(t as nat))
    } else if m >= 0 {
        m / pow10((-t) as nat)
    } else {
        -((-m) / pow10((-t) as nat))
    }
}

/// The multiplier suffix of a compact count: its power of ten.
pub open spec fn suffix_power(c: char) -> Option<int> {
    if c == 'K' || c == 'k' { Some(3) }
    else if c == 'M' || c == 'm' { Some(6) }
    else if c == 'B' || c == 'b' { Some(9) }
    else { None }
}

/// `parse_compact_count`: a count such as `1,234` or `1.2K`, without its commas, read as a
/// decimal number times the suffix's multiplier, rounded toward zero.
pub open spec fn compact_count(s: Seq<char>) -> Option<int> {
    let v = crate::extract::without_char(crate::text::trimmed(s), ',');
    if v.len() == 0 {
        None
    } else {
        let (num, p) = match suffix_power(v.last()) {
            Some(p) => (v.drop_last(), p),
            None => (v, 0),
        };
        match decimal_parts(num) {
            Some((m, e)) => Some(scaled_value(m, e + p)),
            None => None,
        }
    }
}

proof fn lemma_pow10_pos(n: nat)
    ensures
        pow10(n) >= 1,
    decreases n,
{
    if n > 0 {
        lemma_pow10_pos((n - 1) as nat);
    }
}

proof fn lemma_pow10_mono(a: nat, b: nat)
    requires
        a <= b,
    ensures
        pow10(a) <= pow10(b),
    decreases b,
{
    if a < b {
        lemma_pow10_mono(a, (b - 1) as nat);
        lemma_pow10_pos((b - 1) as nat);
    }
}

/// Once `x * 10` leaves the range of `i64`, so does `x * 10^k` for every `k >= 1`, on the
/// same side.
proof fn lemma_scale_out(x: int, k: nat)
    requires
        k >= 1,
        x * 10 > i64::MAX || x * 10 < i64::MIN,
    ensures
        x > 0 ==> x * pow10(k) > i64::MAX,
        x < 0 ==> x * pow10(k) < i64::MIN,
    decreases k,
{
    if k > 1 {
        lemma_scale_out(x, (k - 1) as nat);
        lemma_pow10_pos((k - 1) as nat);
        assert(x * pow10(k) == (x * pow10((k - 1) as nat)) * 10) by (nonlinear_arith)
            requires pow10(k) == 10 * pow10((k - 1) as nat);
        if x > 0 {
            assert((x * pow10((k - 1) as nat)) * 10 > x * pow10((k - 1) as nat)) by (nonlinear_arith)
                requires x * pow10((k - 1) as nat) > 0;
        } else {
            assert((x * pow10((k - 1) as nat)) * 10 < x * pow10((k - 1) as nat)) by (nonlinear_arith)
                requires x * pow10((k - 1) as nat) < 0;
        }
    } else {
        reveal_with_fuel(pow10, 2);
        assert(pow10(1) == 10);
    }
}

/// `(x / 10^i) / 10 == x / 10^(i+1)` for `x >= 0`.
proof fn lemma_div_step(x: int, i: nat)
    requires
        x >= 0,
    ensures
        (x / pow10(i)) / 10 == x / pow10(i + 1),
{
    lemma_pow10_pos(i);
    assert(pow10(i + 1) == pow10(i) * 10);
    vstd::arithmetic::div_mod::lemma_div_denominator(x, pow10(i), 10);
}

/// Once `x / 10^i` is zero, so is `x / 10^j` for every `j >= i`.
proof fn lemma_div_zero(x: int, i: nat, j: nat)
    requires
        x >= 0,
        i <= j,
        x / pow10(i) == 0,
    ensures
        x / pow10(j) == 0,
{
    lemma_pow10_pos(i);
    lemma_pow10_mono(i, j);
    assert(x < pow10(i)) by {
        vstd::arithmetic::div_mod::lemma_fundamental_div_mod(x, pow10(i));
    }
    vstd::arithmetic::div_mod::lemma_basic_div(x, pow10(j));
}

/// `m * 10^t`, rounded toward zero and saturated to the range of `i64`.
fn scale_by_power(m: i64, t: i64) -> (r: i64)
    requires
        t > i64::MIN,
    ensures
        r == scaled_value(m as int, t as int),
{
    if m == 0 {
        proof {
            if t >= 0 {
                assert(0 * pow10(t as nat) == 0);
            } else {
                lemma_pow10_pos((-t) as nat);
            }
        }
        return 0;
    }
    if t >= 0 {
        let mut cur: i64 = m;
        let mut i: i64 = 0;
        while i < t
            invariant
                0 <= i <= t,
                m != 0,
                cur as int == m * pow10(i as nat),
            decreases t - i,
        {
            if cur > 922337203685477580 || cur < -922337203685477580 {
                proof {
                    lemma_scale_out(cur as int, (t - i) as nat);
                    assert(m * pow10(t as nat) == cur * pow10((t - i) as nat)) by {
                        lemma_pow_add(i as nat, (t - i) as nat);
                        assert(m * (pow10(i as nat) * pow10((t - i) as nat)) == (m * pow10(i as nat)) * pow10((t - i) as nat)) by (nonlinear_arith);
                    }
                }
                return if cur > 0 { i64::MAX } else { i64::MIN };
            }
            cur = cur * 10;
            i = i + 1;
            proof {
                assert(m * pow10(i as nat) == (m * pow10((i - 1) as nat)) * 10) by (nonlinear_arith)
                    requires pow10(i as nat) == 10 * pow10((i - 1) as nat);
            }
        }
        cur
    } else {
        let neg = m < 0;
        let mag: i128 = if neg { -(m as i128) } else { m as i128 };
        let mut cur: i128 = mag;
        let mut i: i64 = 0;
        let k: i64 = -t;
        assert(mag as int / pow10(0) == mag as int);
        while i < k && cur != 0
            invariant
                0 <= i <= k,
                k == -t,
                mag >= 0,
                mag as int == if neg { -m } else { m as int },
                cur as int == mag as int / pow10(i as nat),
                cur >= 0,
            decreases k - i,
        {
            proof { lemma_div_step(mag as int, i as nat); }
            cur = cur / 10;
            i = i + 1;
        }
        proof {
            if i < k {
                lemma_div_zero(mag as int, i as nat, k as nat);
            }
            lemma_pow10_pos(k as nat);
            vstd::arithmetic::div_mod::lemma_div_is_ordered_by_denominator(mag as int, 1, pow10(k as nat));
        }
        let q: i128 = if i < k { 0 } else { cur };
        assert(q <= mag);
        let res: i128 = if neg { -q } else { q };
        res as i64
    }
}

/// `10^(a+b) == 10^a * 10^b`.
proof fn lemma_pow_add(a: nat, b: nat)
    ensures
        pow10(a + b) == pow10(a) * pow10(b),
    decreases b,
{
    if b > 0 {
        lemma_pow_add(a, (b - 1) as nat);
        assert(pow10(a + b) == 10 * pow10((a + b - 1) as nat));
        assert(pow10(a) * pow10(b) == pow10(a) * (10 * pow10((b - 1) as nat)));
        assert(pow10(a) * (10 * pow10((b - 1) as nat)) == 10 * (pow10(a) * pow10((b - 1) as nat))) by (nonlinear_arith);
    }
}

/// `parse_compact_count`: reads a count such as `1,234` or `1.2K`.
pub fn parse_compact_count(s: &str) -> (r: Option<i64>)
    ensures
        match r {
            Some(n) => compact_count(s@) == Some(n as int),
            None => compact_count(s@) is None,
        },
{
    let t = crate::text::trim(s);
    let v = crate::extract::remove_char(t.as_str(), ',');
    let cs = crate::text::chars_of(v.as_str());
    if cs.len() == 0 {
        return None;
    }
    let last = cs[cs.len() - 1];
    let p: i64 = if last == 'K' || last == 'k' { 3 } else if last == 'M' || last == 'm' { 6 } else if last == 'B' || last == 'b' { 9 } else { 0 };
    let num = if p > 0 { crate::text::string_of_range(&cs, 0, cs.len() - 1) } else { v.clone() };
    assert(p > 0 ==> num@ == v@.drop_last());
    match parse_decimal(num.as_str()) {
        Some((m, e)) => Some(scale_by_power(m, e as i64 + p)),
        None => None,
    }
}

/// `str::parse::<f64>`, in this library's JSON model (`f64_text`).
pub open spec fn float_text(t: Seq<char>) -> Option<crate::json::Json> {
    crate::float::f64_text(t)
}

/// `str::parse::<f64>`, in this library's JSON model.
pub fn parse_float(t: &str) -> (r: Option<crate::json::JsonValue>)
    ensures
        crate::json::json_opt_view(r) == float_text(t@),
{
    crate::float::parse_f64_text(t)
}

} // verus!
