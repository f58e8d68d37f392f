use vstd::prelude::*;

use crate::number::digits_value;
use crate::text::{chars_of, first_occurrence, find_from, is_digit, occurs_at, string_of, trim_chars, trimmed};

verus! {

/// Whether `code` is the code of a Unicode scalar value.
pub open spec fn valid_code(code: int) -> bool {
    0 <= code <= 0x10FFFF && !(0xD800 <= code <= 0xDFFF)
}

/// The character with code `code` (`char::from_u32`).
#[verifier::external_body]
fn char_from_code(code: u32) -> (r: char)
    requires
        valid_code(code as int),
    ensures
        r == code as char,
{
    char::from_u32(code).unwrap()
}

/// Whether `c` is a hexadecimal digit.
pub open spec fn is_hex(c: char) -> bool {
    is_digit(c) || ('a' <= c && c <= 'f') || ('A' <= c && c <= 'F')
}

/// The value of a hexadecimal digit.
pub open spec fn hex_digit(c: char) -> int {
    if is_digit(c) {
        c as int - '0' as int
    } else if 'a' <= c && c <= 'f' {
        c as int - 'a' as int + 10
    } else {
        c as int - 'A' as int + 10
    }
}

/// The value of a string of hexadecimal digits.
pub open spec fn hex_value(s: Seq<char>) -> int
    decreases s.len(),
{
    if s.len() == 0 {
        0
    } else {
        hex_value(s.drop_last()) * 16 + hex_digit(s.last())
    }
}

/// The number of consecutive characters from `from` that satisfy the digit test of `hex`.
pub open spec fn run_len(s: Seq<char>, from: int, hex: bool) -> nat
    decreases s.len() - from,
{
    if 0 <= from < s.len() && (if hex { is_hex(s[from]) } else { is_digit(s[from]) }) {
        1 + run_len(s, from + 1, hex)
    } else {
        0
    }
}

/// Whether `s` holds `name` at position `i`.
pub open spec fn named_at(s: Seq<char>, i: int, name: Seq<char>) -> bool {
    occurs_at(s, name, i)
}

/// The character that the HTML entity at position `i` of `s` stands for, and the
/// entity's length: the named entities `&amp;`, `&lt;`, `&gt;`, `&quot;`, `&apos;`,
/// `&nbsp;`, and numeric ones of up to seven decimal or six hexadecimal digits.
#[verifier::opaque]
pub open spec fn entity_at(s: Seq<char>, i: int) -> Option<(char, int)> {
    if !(0 <= i < s.len() && s[i] == '&') {
        None
    } else if named_at(s, i, seq!['&', 'a', 'm', 'p', ';']) {
        Some(('&', 5))
    } else if named_at(s, i, seq!['&', 'l', 't', ';']) {
        Some(('<', 4))
    } else if named_at(s, i, seq!['&', 'g', 't', ';']) {
        Some(('>', 4))
    } else if named_at(s, i, seq!['&', 'q', 'u', 'o', 't', ';']) {
        Some(('"', 6))
    } else if named_at(s, i, seq!['&', 'a', 'p', 'o', 's', ';']) {
        Some(('\'', 6))
    } else if named_at(s, i, seq!['&', 'n', 'b', 's', 'p', ';']) {
        Some(('\u{a0}', 6))
    } else if i + 1 < s.len() && s[i + 1] == '#' {
        let hex = i + 2 < s.len() && (s[i + 2] == 'x' || s[i + 2] == 'X');
        let start = if hex { i + 3 } else { i + 2 };
        let n = run_len(s, start, hex);
        let digits = s.subrange(start, start + n);
        let code = if hex { hex_value(digits) } else { digits_value(digits) };
        if 1 <= n <= (if hex { 6int } else { 7int }) && start + n < s.len() && s[start + n] == ';'
            && valid_code(code) {
            Some((code as char, start + n + 1 - i))
        } else {
            None
        }
    } else {
        None
    }
}

/// `s` from position `i` on with its HTML entities decoded.
pub open spec fn unescaped_from(s: Seq<char>, i: int) -> Seq<char>
    decreases s.len() - i,
{
    if i < 0 || i >= s.len() {
        Seq::empty()
    } else {
        match entity_at(s, i) {
            Some((c, l)) => if 0 < l && i + l <= s.len() {
                seq![c] + unescaped_from(s, i + l)
            } else {
                seq![s[i]] + unescaped_from(s, i + 1)
            },
            None => seq![s[i]] + unescaped_from(s, i + 1),
        }
    }
}

/// `s` with its HTML entities decoded.
pub open spec fn unescaped(s: Seq<char>) -> Seq<char> {
    unescaped_from(s, 0)
}

fn named_at_exec(s: &Vec<char>, i: usize, name: &[char]) -> (r: bool)
    ensures
        r == named_at(s@, i as int, name@),
{
    let mut p: Vec<char> = Vec::new();
    let mut k: usize = 0;
    while k < name.len()
        invariant
            k <= name@.len(),
            p@ =~= name@.subrange(0, k as int),
        decreases name@.len() - k,
    {
        p.push(name[k]);
        k = k + 1;
    }
    assert(name@.subrange(0, name@.len() as int) =~= name@);
    crate::text::seq_occurs_at(s, &p, i)
}

fn run_len_exec(s: &Vec<char>, from: usize, hex: bool, limit: usize) -> (r: usize)
    requires
        from <= s@.len(),
    ensures
        r <= limit + 1,
        r <= limit ==> r as int == run_len(s@, from as int, hex),
        r == limit + 1 ==> run_len(s@, from as int, hex) > limit,
        from + r <= s@.len(),
        forall|j: int| from <= j < from + r ==> (if hex { is_hex(s@[j]) } else { is_digit(s@[j]) }),
{
    let mut k: usize = 0;
    while k < s.len() - from && k <= limit && digit_kind(s[from + k], hex)
        invariant
            from + k <= s@.len(),
            k <= limit + 1,
            forall|j: int| from <= j < from + k ==> (if hex { is_hex(s@[j]) } else { is_digit(s@[j]) }),
        decreases s@.len() - from - k,
    {
        k = k + 1;
    }
    proof { lemma_run_len(s@, from as int, hex, k as int); }
    k
}

proof fn lemma_run_len(s: Seq<char>, from: int, hex: bool, k: int)
    requires
        0 <= from,
        from + k <= s.len(),
        k >= 0,
        forall|j: int| from <= j < from + k ==> (if hex { is_hex(s[j]) } else { is_digit(s[j]) }),
    ensures
        run_len(s, from, hex) >= k,
        (from + k == s.len() || !(if hex { is_hex(s[from + k]) } else { is_digit(s[from + k]) }))
            ==> run_len(s, from, hex) == k,
    decreases k,
{
    if k > 0 {
        assert(if hex { is_hex(s[from]) } else { is_digit(s[from]) });
        lemma_run_len(s, from + 1, hex, k - 1);
        assert(run_len(s, from, hex) == 1 + run_len(s, from + 1, hex));
    }
}

fn digit_kind(c: char, hex: bool) -> (r: bool)
    ensures
        r == (if hex { is_hex(c) } else { is_digit(c) }),
{
    if hex { is_hex_exec(c) } else { '0' <= c && c <= '9' }
}

fn is_hex_exec(c: char) -> (r: bool)
    ensures
        r == is_hex(c),
{
    ('0' <= c && c <= '9') || ('a' <= c && c <= 'f') || ('A' <= c && c <= 'F')
}

fn number_value(s: &Vec<char>, from: usize, n: usize, hex: bool) -> (r: u32)
    requires
        from + n <= s.len(),
        n <= 7,
        hex ==> n <= 6,
        forall|j: int| from <= j < from + n ==> (if hex { is_hex(s@[j]) } else { is_digit(s@[j]) }),
    ensures
        r as int == (if hex { hex_value(s@.subrange(from as int, from + n)) } else { digits_value(s@.subrange(from as int, from + n)) }),
{
    let mut v: u32 = 0;
    let mut k: usize = 0;
    while k < n
        invariant
            k <= n,
            from + n <= s.len(),
            n <= 7,
            hex ==> n <= 6,
            forall|j: int| from <= j < from + n ==> (if hex { is_hex(s@[j]) } else { is_digit(s@[j]) }),
            v as int == (if hex { hex_value(s@.subrange(from as int, from + k)) } else { digits_value(s@.subrange(from as int, from + k)) }),
            v as int <= (if hex { pow16(k as nat) } else { pow10(k as nat) }) - 1,
        decreases n - k,
    {
        assert(from + k < s@.len());
        let c = s[from + k];
        let d: u32 = if '0' <= c && c <= '9' {
            (c as u32) - ('0' as u32)
        } else if 'a' <= c && c <= 'f' {
            (c as u32) - ('a' as u32) + 10
        } else {
            (c as u32) - ('A' as u32) + 10
        };
        let ghost prev = s@.subrange(from as int, from + k);
        assert(s@.subrange(from as int, from + k + 1) =~= prev.push(c));
        assert(prev.push(c).drop_last() =~= prev);
        proof { lemma_pow_bound(k as nat, hex); }
        if hex {
            v = v * 16 + d;
        } else {
            v = v * 10 + d;
        }
        k = k + 1;
    }
    v
}

spec fn pow10(k: nat) -> int
    decreases k,
{
    if k == 0 { 1 } else { 10 * pow10((k - 1) as nat) }
}

spec fn pow16(k: nat) -> int
    decreases k,
{
    if k == 0 { 1 } else { 16 * pow16((k - 1) as nat) }
}

proof fn lemma_pow_bound(k: nat, hex: bool)
    requires
        k < 7,
    ensures
        pow10(k) <= 1000000,
        pow16(k) <= 16777216,
        pow10(k + 1) == 10 * pow10(k),
        pow16(k + 1) == 16 * pow16(k),
{
    reveal_with_fuel(pow10, 8);
    reveal_with_fuel(pow16, 8);
    if k == 0 {} else if k == 1 {} else if k == 2 {} else if k == 3 {} else if k == 4 {} else if k == 5 {} else {}
}

/// The entity at position `i`, computed.
fn entity_at_exec(s: &Vec<char>, i: usize) -> (r: Option<(char, usize)>)
    requires
        i < s.len(),
    ensures
        match r {
            Some((c, l)) => entity_at(s@, i as int) == Some((c, l as int)) && l >= 1 && i + l <= s@.len(),
            None => entity_at(s@, i as int) is None,
        },
{
    reveal(entity_at);
    if s[i] != '&' {
        return None;
    }
    if named_at_exec(s, i, &['&', 'a', 'm', 'p', ';']) {
        return Some(('&', 5));
    }
    if named_at_exec(s, i, &['&', 'l', 't', ';']) {
        return Some(('<', 4));
    }
    if named_at_exec(s, i, &['&', 'g', 't', ';']) {
        return Some(('>', 4));
    }
    if named_at_exec(s, i, &['&', 'q', 'u', 'o', 't', ';']) {
        return Some(('"', 6));
    }
    if named_at_exec(s, i, &['&', 'a', 'p', 'o', 's', ';']) {
        return Some(('\'', 6));
    }
    if named_at_exec(s, i, &['&', 'n', 'b', 's', 'p', ';']) {
        return Some(('\u{a0}', 6));
    }
    if i + 1 < s.len() && s[i + 1] == '#' {
        let hex = i + 2 < s.len() && (s[i + 2] == 'x' || s[i + 2] == 'X');
        let start: usize = if hex { i + 3 } else { i + 2 };
        if start > s.len() {
            return None;
        }
        let limit: usize = if hex { 6 } else { 7 };
        let n = run_len_exec(s, start, hex, limit);
        if n == 0 || n > limit || start + n >= s.len() || s[start + n] != ';' {
            return None;
        }
        let code = number_value(s, start, n, hex);
        if code > 0x10FFFF || (0xD800 <= code && code <= 0xDFFF) {
            return None;
        }
        let c = char_from_code(code);
        return Some((c, start + n + 1 - i));
    }
    None
}

/// Decodes the HTML entities of `s` (`unescape_html_attribute`).
pub fn unescape_html(s: &str) -> (r: String)
    ensures
        r@ == unescaped(s@),
{
    let cs = chars_of(s);
    let mut out: Vec<char> = Vec::new();
    let mut i: usize = 0;
    while i < cs.len()
        invariant
            i <= cs@.len(),
            cs@ == s@,
            out@ + unescaped_from(cs@, i as int) == unescaped(cs@),
        decreases cs@.len() - i,
    {
        match entity_at_exec(&cs, i) {
            Some((c, l)) => {
                assert(unescaped_from(cs@, i as int) == seq![c] + unescaped_from(cs@, i + l));
                out.push(c);
                assert(out@ + unescaped_from(cs@, (i + l) as int) =~= unescaped(cs@));
                i = i + l;
            },
            None => {
                assert(unescaped_from(cs@, i as int) == seq![cs@[i as int]] + unescaped_from(cs@, i + 1));
                out.push(cs[i]);
                assert(out@ + unescaped_from(cs@, (i + 1) as int) =~= unescaped(cs@));
                i = i + 1;
            },
        }
    }
    assert(out@ =~= unescaped(cs@));
    string_of(out.as_slice())
}

/// `s` from position `i` on without its markup: each `<` up to the next `>` goes,
/// a `<` with no `>` after it stays.
pub open spec fn untagged_from(s: Seq<char>, i: int) -> Seq<char>
    decreases s.len() - i,
{
    if i < 0 || i >= s.len() {
        Seq::empty()
    } else if s[i] == '<' {
        match first_occurrence(s, seq!['>'], i + 1) {
            Some(j) => if i < j < s.len() { untagged_from(s, j + 1) } else { Seq::empty() },
            None => seq![s[i]] + untagged_from(s, i + 1),
        }
    } else {
        seq![s[i]] + untagged_from(s, i + 1)
    }
}

/// The text of an HTML fragment: markup removed, entities decoded, surrounding
/// whitespace trimmed.
pub open spec fn text_fragment(s: Seq<char>) -> Seq<char> {
    trimmed(unescaped(untagged_from(s, 0)))
}

#[verifier::rlimit(30)]
fn strip_tags(cs: &Vec<char>) -> (r: Vec<char>)
    ensures
        r@ == untagged_from(cs@, 0),
{
    let gt: Vec<char> = vec!['>'];
    assert(gt@ == seq!['>']);
    let mut out: Vec<char> = Vec::new();
    let mut i: usize = 0;
    while i < cs.len()
        invariant
            i <= cs@.len(),
            gt@ == seq!['>'],
            out@ + untagged_from(cs@, i as int) == untagged_from(cs@, 0),
        decreases cs@.len() - i,
    {
        if cs[i] == '<' {
            match find_from(cs, &gt, i + 1) {
                Some(j) => {
                    assert(first_occurrence(cs@, seq!['>'], i + 1) == Some(j as int));
                    assert(occurs_at(cs@, gt@, j as int));
                    assert(untagged_from(cs@, i as int) == untagged_from(cs@, j + 1));
                    i = j + 1;
                },
                None => {
                    assert(untagged_from(cs@, i as int) == seq!['<'] + untagged_from(cs@, i + 1));
                    out.push('<');
                    assert(out@ + untagged_from(cs@, (i + 1) as int) =~= untagged_from(cs@, 0));
                    i = i + 1;
                },
            }
        } else {
            assert(untagged_from(cs@, i as int) == seq![cs@[i as int]] + untagged_from(cs@, i + 1));
            out.push(cs[i]);
            assert(out@ + untagged_from(cs@, (i + 1) as int) =~= untagged_from(cs@, 0));
            i = i + 1;
        }
    }
    assert(out@ =~= untagged_from(cs@, 0));
    out
}

/// The text of an HTML fragment (`html_text_fragment`).
pub fn html_text_fragment(s: &str) -> (r: String)
    ensures
        r@ == text_fragment(s@),
{
    let cs = chars_of(s);
    let stripped = strip_tags(&cs);
    let st = string_of(stripped.as_slice());
    let un = unescape_html(st.as_str());
    let uc = chars_of(un.as_str());
    let t = trim_chars(&uc);
    string_of(t.as_slice())
}

/// The text of an HTML fragment, when it is not empty.
pub open spec fn nonempty_fragment(s: Option<Seq<char>>) -> Option<Seq<char>> {
    match s {
        Some(v) => if text_fragment(v).len() > 0 { Some(text_fragment(v)) } else { None },
        None => None,
    }
}

/// The text of an HTML fragment, when there is one and it is not empty.
pub fn nonempty_fragment_of(s: Option<String>) -> (r: Option<String>)
    ensures
        match r {
            Some(v) => nonempty_fragment(match s { Some(x) => Some(x@), None => None }) == Some(v@),
            None => nonempty_fragment(match s { Some(x) => Some(x@), None => None }) is None,
        },
{
    match s {
        Some(v) => {
            let t = html_text_fragment(v.as_str());
            if t.unicode_len() > 0 { Some(t) } else { None }
        },
        None => None,
    }
}

} // verus!
