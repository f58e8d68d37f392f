use vstd::prelude::*;

verus! {

/// The characters of a string slice.
#[verifier::external_body]
pub(crate) fn chars_of(s: &str) -> (r: Vec<char>)
    ensures
        r@ == s@,
{
    s.chars().collect()
}

/// The string made of the given characters.
#[verifier::external_body]
pub(crate) fn string_of(cs: &[char]) -> (r: String)
    ensures
        r@ == cs@,
{
    cs.iter().collect()
}

/// Appends one character (`String::push`).
#[verifier::external_body]
pub(crate) fn push_char(s: &mut String, c: char)
    ensures
        final(s)@ == old(s)@.push(c),
{
    s.push(c)
}

/// Appends a string slice (`String::push_str`).
#[verifier::external_body]
pub(crate) fn push_str(s: &mut String, t: &str)
    ensures
        final(s)@ == old(s)@ + t@,
{
    s.push_str(t)
}

/// An owned copy of a string slice (`str::to_string`).
#[verifier::external_body]
pub(crate) fn owned(s: &str) -> (r: String)
    ensures
        r@ == s@,
{
    s.to_string()
}

/// The concatenation of two strings.
pub fn concat2(a: &str, b: &str) -> (r: String)
    ensures
        r@ == a@ + b@,
{
    let mut r = owned(a);
    push_str(&mut r, b);
    r
}

/// The concatenation of three strings.
pub fn concat3(a: &str, b: &str, c: &str) -> (r: String)
    ensures
        r@ == a@ + b@ + c@,
{
    let mut r = owned(a);
    push_str(&mut r, b);
    push_str(&mut r, c);
    r
}

/// The concatenation of four strings.
pub fn concat4(a: &str, b: &str, c: &str, d: &str) -> (r: String)
    ensures
        r@ == a@ + b@ + c@ + d@,
{
    let mut r = owned(a);
    push_str(&mut r, b);
    push_str(&mut r, c);
    push_str(&mut r, d);
    r
}

/// Whether `p` is a prefix of `s`.
pub open spec fn has_prefix(s: Seq<char>, p: Seq<char>) -> bool {
    p.len() <= s.len() && s.subrange(0, p.len() as int) == p
}

/// Whether `p` is a suffix of `s`.
pub open spec fn has_suffix(s: Seq<char>, p: Seq<char>) -> bool {
    p.len() <= s.len() && s.subrange(s.len() - p.len(), s.len() as int) == p
}

/// Whether `p` occurs in `s` at position `i`.
pub open spec fn occurs_at(s: Seq<char>, p: Seq<char>, i: int) -> bool {
    0 <= i && i + p.len() <= s.len() && s.subrange(i, i + p.len()) == p
}

/// Whether `p` occurs anywhere in `s`.
pub open spec fn has_infix(s: Seq<char>, p: Seq<char>) -> bool {
    exists|i: int| occurs_at(s, p, i)
}

/// `str::starts_with` with a string pattern.
pub fn starts_with(s: &str, p: &str) -> (r: bool)
    ensures
        r == has_prefix(s@, p@),
{
    let sc = chars_of(s);
    let pc = chars_of(p);
    seq_occurs_at(&sc, &pc, 0)
}

/// `str::ends_with` with a string pattern.
pub fn ends_with(s: &str, p: &str) -> (r: bool)
    ensures
        r == has_suffix(s@, p@),
{
    let sc = chars_of(s);
    let pc = chars_of(p);
    if pc.len() > sc.len() {
        return false;
    }
    seq_occurs_at(&sc, &pc, sc.len() - pc.len())
}

/// Whether `p` occurs in `s` at character position `i`.
pub fn seq_occurs_at(s: &Vec<char>, p: &Vec<char>, i: usize) -> (r: bool)
    ensures
        r == occurs_at(s@, p@, i as int),
{
    if p.len() > s.len() || i > s.len() - p.len() {
        return false;
    }
    let mut j: usize = 0;
    while j < p.len()
        invariant
            i + p@.len() <= s@.len(),
            s@.len() == s.len(),
            j <= p@.len(),
            forall|k: int| 0 <= k < j ==> s@[i + k] == p@[k],
        decreases p@.len() - j,
    {
        if s[i + j] != p[j] {
            assert(s@.subrange(i as int, i + p@.len())[j as int] != p@[j as int]);
            return false;
        }
        j = j + 1;
    }
    assert(s@.subrange(i as int, i + p@.len()) =~= p@);
    true
}

/// The first position at or after `from` where `p` occurs in `s`.
#[verifier::opaque]
pub open spec fn first_occurrence(s: Seq<char>, p: Seq<char>, from: int) -> Option<int> {
    if exists|i: int| from <= i && occurs_at(s, p, i) {
        Some(choose|i: int| from <= i && occurs_at(s, p, i) && forall|j: int| from <= j < i ==> !occurs_at(s, p, j))
    } else {
        None
    }
}

/// Finds the first position at or after `from` where `p` occurs in `s`.
pub fn find_from(s: &Vec<char>, p: &Vec<char>, from: usize) -> (r: Option<usize>)
    ensures
        match r {
            Some(i) => from <= i && occurs_at(s@, p@, i as int)
                && forall|j: int| from <= j < i ==> !occurs_at(s@, p@, j),
            None => forall|j: int| from <= j ==> !occurs_at(s@, p@, j),
        },
        r matches Some(i) ==> first_occurrence(s@, p@, from as int) == Some(i as int),
        r is None ==> first_occurrence(s@, p@, from as int) is None,
{
    reveal(first_occurrence);
    if p.len() > s.len() {
        return None;
    }
    if from > s.len() - p.len() {
        return None;
    }
    let mut i: usize = from;
    loop
        invariant
            p@.len() <= s@.len(),
            from <= i <= s@.len() - p@.len(),
            forall|j: int| from <= j < i ==> !occurs_at(s@, p@, j),
        decreases s@.len() - i,
    {
        if seq_occurs_at(s, p, i) {
            let ghost w = choose|w: int| from <= w && occurs_at(s@, p@, w) && forall|j: int| from <= j < w ==> !occurs_at(s@, p@, j);
            assert(w == i as int);
            proof { reveal(first_occurrence); }
            return Some(i);
        }
        if i == s.len() - p.len() {
            proof { reveal(first_occurrence); }
            return None;
        }
        i = i + 1;
    }
}

/// `str::contains` with a string pattern.
pub fn contains(s: &str, p: &str) -> (r: bool)
    ensures
        r == has_infix(s@, p@),
{
    let sc = chars_of(s);
    let pc = chars_of(p);
    match find_from(&sc, &pc, 0) {
        Some(_) => true,
        None => {
            assert forall|i: int| !occurs_at(s@, p@, i) by {
                if i < 0 {}
            }
            false
        },
    }
}

/// `char::is_ascii_digit`.
pub open spec fn is_digit(c: char) -> bool {
    '0' <= c && c <= '9'
}

/// `char::is_whitespace`: the Unicode White_Space property.
pub open spec fn is_space(c: char) -> bool {
    ('\u{9}' <= c && c <= '\u{d}') || c == ' ' || c == '\u{85}' || c == '\u{a0}' || c == '\u{1680}'
        || ('\u{2000}' <= c && c <= '\u{200a}') || c == '\u{2028}' || c == '\u{2029}'
        || c == '\u{202f}' || c == '\u{205f}' || c == '\u{3000}'
}

pub fn char_is_space(c: char) -> (r: bool)
    ensures
        r == is_space(c),
{
    ('\u{9}' <= c && c <= '\u{d}') || c == ' ' || c == '\u{85}' || c == '\u{a0}' || c == '\u{1680}'
        || ('\u{2000}' <= c && c <= '\u{200a}') || c == '\u{2028}' || c == '\u{2029}'
        || c == '\u{202f}' || c == '\u{205f}' || c == '\u{3000}'
}

/// The number of leading whitespace characters of `s`.
pub open spec fn leading_space(s: Seq<char>) -> int
    decreases s.len(),
{
    if s.len() > 0 && is_space(s[0]) {
        1 + leading_space(s.drop_first())
    } else {
        0
    }
}

/// The number of trailing whitespace characters of `s`.
pub open spec fn trailing_space(s: Seq<char>) -> int
    decreases s.len(),
{
    if s.len() > 0 && is_space(s.last()) {
        1 + trailing_space(s.drop_last())
    } else {
        0
    }
}

/// `str::trim`: `s` without its leading and trailing whitespace.
pub open spec fn trimmed(s: Seq<char>) -> Seq<char> {
    if leading_space(s) == s.len() {
        Seq::empty()
    } else {
        s.subrange(leading_space(s), s.len() - trailing_space(s))
    }
}

proof fn lemma_leading_space(s: Seq<char>, i: int)
    requires
        0 <= i <= s.len(),
        forall|j: int| 0 <= j < i ==> is_space(s[j]),
        i == s.len() || !is_space(s[i]),
    ensures
        leading_space(s) == i,
    decreases i,
{
    if i > 0 {
        lemma_leading_space(s.drop_first(), i - 1);
    }
}

proof fn lemma_trailing_space(s: Seq<char>, i: int)
    requires
        0 <= i <= s.len(),
        forall|j: int| s.len() - i <= j < s.len() ==> is_space(s[j]),
        i == s.len() || !is_space(s[s.len() - i - 1]),
    ensures
        trailing_space(s) == i,
    decreases i,
{
    if i > 0 {
        lemma_trailing_space(s.drop_last(), i - 1);
    }
}

/// The characters of `s` between its leading and trailing whitespace.
pub fn trim_chars(s: &Vec<char>) -> (r: Vec<char>)
    ensures
        r@ == trimmed(s@),
{
    let mut start: usize = 0;
    while start < s.len() && char_is_space(s[start])
        invariant
            start <= s@.len(),
            forall|j: int| 0 <= j < start ==> is_space(s@[j]),
        decreases s@.len() - start,
    {
        start = start + 1;
    }
    proof { lemma_leading_space(s@, start as int); }
    if start == s.len() {
        return Vec::new();
    }
    let mut end: usize = s.len();
    while end > start && char_is_space(s[end - 1])
        invariant
            start < s@.len(),
            start <= end <= s@.len(),
            forall|j: int| end <= j < s@.len() ==> is_space(s@[j]),
        decreases end,
    {
        end = end - 1;
    }
    assert(end > start);
    proof { lemma_trailing_space(s@, s@.len() - end); }
    let mut r: Vec<char> = Vec::new();
    let mut k: usize = start;
    while k < end
        invariant
            start <= k <= end <= s@.len(),
            r@ =~= s@.subrange(start as int, k as int),
        decreases end - k,
    {
        r.push(s[k]);
        k = k + 1;
    }
    r
}

/// `str::trim`.
pub fn trim(s: &str) -> (r: String)
    ensures
        r@ == trimmed(s@),
{
    let cs = chars_of(s);
    let t = trim_chars(&cs);
    string_of(t.as_slice())
}

/// `char::to_ascii_lowercase`.
pub open spec fn lower_char(c: char) -> char {
    if 'A' <= c && c <= 'Z' { ((c as u32) + 32) as char } else { c }
}

/// `str::to_ascii_lowercase`.
pub open spec fn lowered(s: Seq<char>) -> Seq<char> {
    Seq::new(s.len(), |i: int| lower_char(s[i]))
}

pub fn to_ascii_lowercase(s: &str) -> (r: String)
    ensures
        r@ == lowered(s@),
{
    let cs = chars_of(s);
    let mut out: Vec<char> = Vec::new();
    let mut i: usize = 0;
    while i < cs.len()
        invariant
            i <= cs@.len(),
            out@ =~= lowered(cs@.subrange(0, i as int)),
        decreases cs@.len() - i,
    {
        let c = cs[i];
        let l = if 'A' <= c && c <= 'Z' {
            let code = (c as u32) + 32;
            assert(code <= 0x7f);
            char_from_ascii(code)
        } else {
            c
        };
        out.push(l);
        i = i + 1;
        assert(lowered(cs@.subrange(0, i as int)) =~= lowered(cs@.subrange(0, i - 1)).push(lower_char(c)));
    }
    assert(cs@.subrange(0, cs@.len() as int) =~= cs@);
    string_of(out.as_slice())
}

/// The character with an ASCII code.
#[verifier::external_body]
pub(crate) fn char_from_ascii(code: u32) -> (r: char)
    requires
        code < 128,
    ensures
        r == code as char,
{
    char::from_u32(code).unwrap()
}

/// `str::eq_ignore_ascii_case`.
pub fn eq_ignore_ascii_case(a: &str, b: &str) -> (r: bool)
    ensures
        r == (lowered(a@) == lowered(b@)),
{
    let la = to_ascii_lowercase(a);
    let lb = to_ascii_lowercase(b);
    crate::json::str_equal(la.as_str(), lb.as_str())
}

/// `s` with every trailing repetition of `p` removed (`str::trim_end_matches`).
pub open spec fn strip_suffixes(s: Seq<char>, p: Seq<char>) -> Seq<char>
    decreases s.len(),
{
    if p.len() > 0 && has_suffix(s, p) {
        strip_suffixes(s.subrange(0, s.len() - p.len()), p)
    } else {
        s
    }
}

/// `str::trim_end_matches` with a string pattern.
pub fn trim_end_matches(s: &str, p: &str) -> (r: String)
    ensures
        r@ == strip_suffixes(s@, p@),
{
    let cs = chars_of(s);
    let pc = chars_of(p);
    let mut n: usize = cs.len();
    assert(cs@.subrange(0, n as int) =~= cs@);
    loop
        invariant
            n <= cs@.len(),
            strip_suffixes(cs@, pc@) == strip_suffixes(cs@.subrange(0, n as int), pc@),
        ensures
            n <= cs@.len(),
            strip_suffixes(cs@, pc@) == cs@.subrange(0, n as int),
        decreases n,
    {
        let ghost pre = cs@.subrange(0, n as int);
        if pc.len() == 0 || pc.len() > n {
            assert(strip_suffixes(pre, pc@) == pre);
            break;
        }
        let k = n - pc.len();
        assert(pre.subrange(pre.len() - pc@.len(), pre.len() as int) =~= cs@.subrange(k as int, n as int));
        if !seq_occurs_at(&cs, &pc, k) {
            assert(strip_suffixes(pre, pc@) == pre);
            break;
        }
        assert(pre.subrange(0, pre.len() - pc@.len()) =~= cs@.subrange(0, k as int));
        n = k;
    }
    let mut out: Vec<char> = Vec::new();
    let mut i: usize = 0;
    while i < n
        invariant
            i <= n <= cs@.len(),
            out@ =~= cs@.subrange(0, i as int),
        decreases n - i,
    {
        out.push(cs[i]);
        i = i + 1;
    }
    string_of(out.as_slice())
}

/// The number of UTF-8 bytes of a character.
pub open spec fn char_utf8_len(c: char) -> int {
    if (c as u32) < 0x80 {
        1
    } else if (c as u32) < 0x800 {
        2
    } else if (c as u32) < 0x10000 {
        3
    } else {
        4
    }
}

/// The number of UTF-8 bytes of a text (`str::len`).
pub open spec fn utf8_len(s: Seq<char>) -> int
    decreases s.len(),
{
    if s.len() == 0 {
        0
    } else {
        utf8_len(s.drop_last()) + char_utf8_len(s.last())
    }
}

proof fn lemma_utf8_len_prefix(s: Seq<char>, k: int)
    requires
        0 <= k <= s.len(),
    ensures
        utf8_len(s.subrange(0, k)) <= utf8_len(s),
    decreases s.len(),
{
    if k < s.len() {
        assert(s.drop_last().subrange(0, k) =~= s.subrange(0, k));
        lemma_utf8_len_prefix(s.drop_last(), k);
    } else {
        assert(s.subrange(0, k) =~= s);
    }
}

/// Whether a text takes at least `n` bytes in UTF-8.
pub fn utf8_len_at_least(s: &str, n: usize) -> (r: bool)
    ensures
        r == (utf8_len(s@) >= n),
{
    let cs = chars_of(s);
    if n == 0 {
        proof {
            lemma_utf8_len_prefix(cs@, 0);
            assert(cs@.subrange(0, 0) =~= Seq::<char>::empty());
        }
        return true;
    }
    let mut total: usize = 0;
    let mut i: usize = 0;
    assert(cs@.subrange(0, 0) =~= Seq::<char>::empty());
    while i < cs.len()
        invariant
            i <= cs@.len(),
            cs@ == s@,
            total < n,
            total == utf8_len(cs@.subrange(0, i as int)),
        decreases cs@.len() - i,
    {
        let c = cs[i];
        let w: usize = if (c as u32) < 0x80 { 1 } else if (c as u32) < 0x800 { 2 } else if (c as u32) < 0x10000 { 3 } else { 4 };
        assert(cs@.subrange(0, i + 1).drop_last() =~= cs@.subrange(0, i as int));
        assert(cs@.subrange(0, i + 1).last() == c);
        assert(w == char_utf8_len(c));
        assert(utf8_len(cs@.subrange(0, i + 1)) == total + w);
        if w >= n - total {
            proof {
                lemma_utf8_len_prefix(cs@, i + 1);
            }
            return true;
        }
        total = total + w;
        i = i + 1;
    }
    assert(cs@.subrange(0, i as int) =~= cs@);
    false
}

/// `s` with every occurrence of `p`, from left to right, replaced by `q` (`str::replace`).
pub open spec fn replaced(s: Seq<char>, p: Seq<char>, q: Seq<char>) -> Seq<char>
    decreases s.len(),
{
    if s.len() == 0 || p.len() == 0 {
        s
    } else if has_prefix(s, p) {
        q + replaced(s.subrange(p.len() as int, s.len() as int), p, q)
    } else {
        seq![s[0]] + replaced(s.drop_first(), p, q)
    }
}

/// `str::replace` with a non-empty string pattern.
pub fn replace_str(s: &str, p: &str, q: &str) -> (r: String)
    ensures
        r@ == replaced(s@, p@, q@),
{
    let cs = chars_of(s);
    let pc = chars_of(p);
    let qc = chars_of(q);
    if pc.len() == 0 {
        return owned(s);
    }
    let mut out: Vec<char> = Vec::new();
    let mut i: usize = 0;
    assert(cs@.subrange(0, cs@.len() as int) =~= cs@);
    while i < cs.len()
        invariant
            i <= cs@.len(),
            pc@.len() > 0,
            cs@ == s@,
            pc@ == p@,
            qc@ == q@,
            out@ + replaced(cs@.subrange(i as int, cs@.len() as int), pc@, qc@) == replaced(cs@, pc@, qc@),
        decreases cs@.len() - i,
    {
        let ghost rest = cs@.subrange(i as int, cs@.len() as int);
        if seq_occurs_at(&cs, &pc, i) {
            assert(rest.subrange(0, pc@.len() as int) =~= cs@.subrange(i as int, i + pc@.len()));
            assert(rest.subrange(pc@.len() as int, rest.len() as int) =~= cs@.subrange(i + pc@.len(), cs@.len() as int));
            let mut k: usize = 0;
            let ghost out0 = out@;
            while k < qc.len()
                invariant
                    k <= qc@.len(),
                    out@ == out0 + qc@.subrange(0, k as int),
                decreases qc@.len() - k,
            {
                out.push(qc[k]);
                k = k + 1;
                assert(out@ =~= out0 + qc@.subrange(0, k as int));
            }
            assert(qc@.subrange(0, qc@.len() as int) =~= qc@);
            assert(out@ + replaced(cs@.subrange(i + pc@.len(), cs@.len() as int), pc@, qc@) =~= out0 + replaced(rest, pc@, qc@));
            i = i + pc.len();
        } else {
            proof {
                if pc@.len() <= rest.len() {
                    assert(rest.subrange(0, pc@.len() as int) =~= cs@.subrange(i as int, i + pc@.len()));
                }
            }
            assert(rest.drop_first() =~= cs@.subrange(i + 1, cs@.len() as int));
            let ghost out0 = out@;
            out.push(cs[i]);
            assert(out@ + replaced(cs@.subrange(i + 1, cs@.len() as int), pc@, qc@) =~= out0 + replaced(rest, pc@, qc@));
            i = i + 1;
        }
    }
    assert(cs@.subrange(i as int, cs@.len() as int) =~= Seq::<char>::empty());
    string_of(out.as_slice())
}

/// The characters of `s` from position `k` on.
pub fn drop_chars(s: &str, k: usize) -> (r: String)
    requires
        k <= s@.len(),
    ensures
        r@ == s@.subrange(k as int, s@.len() as int),
{
    let cs = chars_of(s);
    let mut out: Vec<char> = Vec::new();
    let mut i: usize = k;
    while i < cs.len()
        invariant
            k <= i <= cs@.len(),
            out@ =~= cs@.subrange(k as int, i as int),
        decreases cs@.len() - i,
    {
        out.push(cs[i]);
        i = i + 1;
    }
    string_of(out.as_slice())
}

/// `s` without the prefix `p`, when it starts with it (`str::strip_prefix`).
pub open spec fn without_prefix(s: Seq<char>, p: Seq<char>) -> Option<Seq<char>> {
    if has_prefix(s, p) { Some(s.subrange(p.len() as int, s.len() as int)) } else { None }
}

/// `str::strip_prefix` with a string pattern.
pub fn strip_prefix(s: &str, p: &str) -> (r: Option<String>)
    ensures
        match r {
            Some(t) => without_prefix(s@, p@) == Some(t@),
            None => without_prefix(s@, p@) is None,
        },
{
    if starts_with(s, p) {
        Some(drop_chars(s, p.unicode_len()))
    } else {
        None
    }
}

/// The string of the characters of `cs` from `a` up to `b`.
pub fn string_of_range(cs: &Vec<char>, a: usize, b: usize) -> (r: String)
    requires
        a <= b <= cs@.len(),
    ensures
        r@ == cs@.subrange(a as int, b as int),
{
    let mut out: Vec<char> = Vec::new();
    let mut i: usize = a;
    while i < b
        invariant
            a <= i <= b <= cs@.len(),
            out@ =~= cs@.subrange(a as int, i as int),
        decreases b - i,
    {
        out.push(cs[i]);
        i = i + 1;
    }
    string_of(out.as_slice())
}

/// `s` up to the first occurrence of `p` (`str::split(p).next()`).
pub open spec fn before_str(s: Seq<char>, p: Seq<char>) -> Seq<char> {
    match first_occurrence(s, p, 0) {
        Some(i) => s.subrange(0, i),
        None => s,
    }
}

/// `str::split(p).next()`: `s` up to the first occurrence of `p`.
pub fn split_first(s: &str, p: &str) -> (r: String)
    ensures
        r@ == before_str(s@, p@),
{
    let cs = chars_of(s);
    let pc = chars_of(p);
    match find_from(&cs, &pc, 0) {
        Some(i) => string_of_range(&cs, 0, i),
        None => owned(s),
    }
}

/// `s` without the leading `c`s (`str::trim_start_matches(c)`).
pub open spec fn strip_leading(s: Seq<char>, c: char) -> Seq<char>
    decreases s.len(),
{
    if s.len() > 0 && s[0] == c { strip_leading(s.drop_first(), c) } else { s }
}

/// `str::trim_start_matches(c)`: `s` without its leading `c`s.
pub fn trim_start_char(s: &str, c: char) -> (r: String)
    ensures
        r@ == strip_leading(s@, c),
{
    let cs = chars_of(s);
    let mut i: usize = 0;
    assert(cs@.subrange(0, cs@.len() as int) =~= cs@);
    while i < cs.len() && cs[i] == c
        invariant
            i <= cs@.len(),
            strip_leading(cs@, c) == strip_leading(cs@.subrange(i as int, cs@.len() as int), c),
        decreases cs@.len() - i,
    {
        assert(cs@.subrange(i as int, cs@.len() as int).drop_first() =~= cs@.subrange(i + 1, cs@.len() as int));
        i = i + 1;
    }
    let r = string_of_range(&cs, i, cs.len());
    proof {
        let rest = cs@.subrange(i as int, cs@.len() as int);
        if rest.len() > 0 {
            assert(rest[0] == cs@[i as int]);
        }
    }
    r
}

/// The pieces of `s` between the occurrences of `c` (`str::split(c)`).
pub open spec fn split_on(s: Seq<char>, c: char) -> Seq<Seq<char>>
    decreases s.len(),
{
    if s.len() == 0 {
        seq![Seq::empty()]
    } else {
        let p = split_on(s.drop_last(), c);
        if s.last() == c {
            p.push(Seq::empty())
        } else {
            p.update(p.len() - 1, p.last().push(s.last()))
        }
    }
}

proof fn lemma_split_nonempty(s: Seq<char>, c: char)
    ensures
        split_on(s, c).len() >= 1,
    decreases s.len(),
{
    if s.len() > 0 {
        lemma_split_nonempty(s.drop_last(), c);
    }
}

/// `str::split(c)`: the pieces of `s` between the occurrences of `c`.
pub fn split_char(s: &str, c: char) -> (r: Vec<String>)
    ensures
        crate::framework::sources_view(r@) == split_on(s@, c),
{
    let cs = chars_of(s);
    let mut pieces: Vec<String> = Vec::new();
    let mut cur: Vec<char> = Vec::new();
    let mut i: usize = 0;
    assert(cs@.subrange(0, 0) =~= Seq::<char>::empty());
    while i < cs.len()
        invariant
            i <= cs@.len(),
            crate::framework::sources_view(pieces@).push(cur@) == split_on(cs@.subrange(0, i as int), c),
        decreases cs@.len() - i,
    {
        proof {
            lemma_split_nonempty(cs@.subrange(0, i as int), c);
            assert(cs@.subrange(0, i + 1).drop_last() =~= cs@.subrange(0, i as int));
        }
        let ghost before = crate::framework::sources_view(pieces@);
        let ghost cur0 = cur@;
        if cs[i] == c {
            pieces.push(string_of(cur.as_slice()));
            cur = Vec::new();
            assert(crate::framework::sources_view(pieces@) =~= before.push(cur0));
            assert(crate::framework::sources_view(pieces@).push(cur@) =~= before.push(cur0).push(Seq::<char>::empty()));
        } else {
            cur.push(cs[i]);
            assert(crate::framework::sources_view(pieces@).push(cur@) =~= before.push(cur0).update(before.len() as int, cur0.push(cs@[i as int])));
        }
        i = i + 1;
    }
    assert(cs@.subrange(0, cs@.len() as int) =~= cs@);
    let ghost before = crate::framework::sources_view(pieces@);
    pieces.push(string_of(cur.as_slice()));
    assert(crate::framework::sources_view(pieces@) =~= before.push(cur@));
    pieces
}

/// The number of characters of `s` that take exactly `n` UTF-8 bytes, looking from `i` on:
/// where byte `n` is a character boundary of `s`.
pub open spec fn byte_boundary(s: Seq<char>, n: int, i: int) -> Option<int>
    decreases s.len() - i,
{
    if i < 0 || i > s.len() || utf8_len(s.subrange(0, i)) > n {
        None
    } else if utf8_len(s.subrange(0, i)) == n {
        Some(i)
    } else if i == s.len() {
        None
    } else {
        byte_boundary(s, n, i + 1)
    }
}

/// The number of characters of `s` that take exactly `n` UTF-8 bytes, when byte `n` is a
/// character boundary (`str::is_char_boundary`).
pub fn char_boundary(s: &str, n: usize) -> (r: Option<usize>)
    ensures
        match r {
            Some(k) => byte_boundary(s@, n as int, 0) == Some(k as int) && k <= s@.len(),
            None => byte_boundary(s@, n as int, 0) is None,
        },
{
    let cs = chars_of(s);
    let mut total: usize = 0;
    let mut i: usize = 0;
    assert(cs@.subrange(0, 0) =~= Seq::<char>::empty());
    while i < cs.len() && total < n
        invariant
            i <= cs@.len(),
            cs@ == s@,
            total <= n,
            total == utf8_len(cs@.subrange(0, i as int)),
            byte_boundary(cs@, n as int, 0) == byte_boundary(cs@, n as int, i as int),
        decreases cs@.len() - i,
    {
        let c = cs[i];
        let w: usize = if (c as u32) < 0x80 { 1 } else if (c as u32) < 0x800 { 2 } else if (c as u32) < 0x10000 { 3 } else { 4 };
        assert(cs@.subrange(0, i + 1).drop_last() =~= cs@.subrange(0, i as int));
        assert(cs@.subrange(0, i + 1).last() == c);
        assert(w == char_utf8_len(c));
        if w > n - total {
            assert(utf8_len(cs@.subrange(0, i + 1)) > n);
            assert(byte_boundary(cs@, n as int, i + 1) is None);
            return None;
        }
        total = total + w;
        i = i + 1;
    }
    if total == n {
        Some(i)
    } else {
        None
    }
}

} // verus!
