use vstd::prelude::*;

use crate::framework::{fail, ExtractorError, ExtractorErrorKind, Reply};
use crate::json::{items_view, json_get, json_lookup, json_opt_view, Json, JsonValue};
use crate::text::{concat2, has_prefix, owned, starts_with};
use crate::weburl::{joined_url, url_join};

verus! {

/// The JSON document of reply `i`, when there is one.
pub open spec fn reply_json_at(replies: Seq<Reply>, i: int) -> Option<JsonValue> {
    if 0 <= i < replies.len() {
        match replies[i] {
            Reply::Json(v) => Some(v),
            _ => None,
        }
    } else {
        None
    }
}

/// The text of reply `i`, when there is one.
pub open spec fn reply_text_at(replies: Seq<Reply>, i: int) -> Option<Seq<char>> {
    if 0 <= i < replies.len() {
        match replies[i] {
            Reply::Text(s) => Some(s@),
            _ => None,
        }
    } else {
        None
    }
}

/// The JSON document of reply `i`.
pub fn reply_json(replies: &Vec<Reply>, i: usize) -> (r: Result<&JsonValue, ExtractorError>)
    ensures
        match r {
            Ok(v) => reply_json_at(replies@, i as int) == Some(*v),
            Err(e) => reply_json_at(replies@, i as int) is None && e.kind == ExtractorErrorKind::Extraction,
        },
{
    if i < replies.len() {
        match &replies[i] {
            Reply::Json(v) => Ok(v),
            _ => Err(fail(ExtractorErrorKind::Extraction, "expected a JSON response")),
        }
    } else {
        Err(fail(ExtractorErrorKind::Extraction, "missing response"))
    }
}

/// The text of reply `i`.
pub fn reply_text(replies: &Vec<Reply>, i: usize) -> (r: Result<&String, ExtractorError>)
    ensures
        match r {
            Ok(s) => reply_text_at(replies@, i as int) == Some(s@),
            Err(e) => reply_text_at(replies@, i as int) is None && e.kind == ExtractorErrorKind::Extraction,
        },
{
    if i < replies.len() {
        match &replies[i] {
            Reply::Text(s) => Ok(s),
            _ => Err(fail(ExtractorErrorKind::Extraction, "expected a text response")),
        }
    } else {
        Err(fail(ExtractorErrorKind::Extraction, "missing response"))
    }
}

/// A JSON string.
pub fn jstr(s: &str) -> (r: JsonValue)
    ensures
        r@ == Json::Str(s@),
{
    JsonValue::Str(owned(s))
}

/// `proto_relative_url`: a URL that starts with `//` gets `scheme` in front.
pub open spec fn proto_relative(url: Seq<char>, scheme: Seq<char>) -> Seq<char> {
    if has_prefix(url, seq!['/', '/']) {
        scheme + url
    } else {
        url
    }
}

pub fn proto_relative_url(url: &str, scheme: &str) -> (r: String)
    ensures
        r@ == proto_relative(url@, scheme@),
{
    let slashes = crate::text::string_of(&['/', '/']);
    if starts_with(url, slashes.as_str()) {
        concat2(scheme, url)
    } else {
        owned(url)
    }
}

/// `resolve_url`: `value` joined onto `base`, or `value` itself where that fails.
pub open spec fn resolved(base: Seq<char>, value: Seq<char>) -> Seq<char> {
    match joined_url(base, value) {
        Some(u) => u,
        None => value,
    }
}

pub fn resolve_url(base: &str, value: &str) -> (r: String)
    ensures
        r@ == resolved(base@, value@),
{
    match url_join(base, value) {
        Some(u) => u,
        None => owned(value),
    }
}


/// `m` with `key` set to the value, when there is one.
pub open spec fn put_opt(m: Map<Seq<char>, Json>, key: Seq<char>, value: Option<Json>) -> Map<Seq<char>, Json> {
    match value {
        Some(v) => m.insert(key, v),
        None => m,
    }
}

/// A string as a JSON string, when there is one.
pub open spec fn opt_str(s: Option<Seq<char>>) -> Option<Json> {
    match s {
        Some(t) => Some(Json::Str(t)),
        None => None,
    }
}

/// An integer as a JSON number, when there is one.
pub open spec fn opt_int(i: Option<int>) -> Option<Json> {
    match i {
        Some(v) => Some(Json::Int(v)),
        None => None,
    }
}

/// The decimal digits of `s`, in order.
pub open spec fn digit_chars(s: Seq<char>) -> Seq<char>
    decreases s.len(),
{
    if s.len() == 0 {
        Seq::empty()
    } else if crate::text::is_digit(s.last()) {
        digit_chars(s.drop_last()).push(s.last())
    } else {
        digit_chars(s.drop_last())
    }
}

/// At most the first `n` decimal digits of `s`.
pub open spec fn first_digits(s: Seq<char>, n: nat) -> Seq<char> {
    let d = digit_chars(s);
    if d.len() <= n { d } else { d.subrange(0, n as int) }
}

/// Collects at most the first `n` decimal digits of `s`.
pub fn take_digits(s: &str, n: usize) -> (r: String)
    ensures
        r@ == first_digits(s@, n as nat),
{
    let cs = crate::text::chars_of(s);
    let mut all: Vec<char> = Vec::new();
    let mut i: usize = 0;
    while i < cs.len()
        invariant
            i <= cs@.len(),
            all@ == digit_chars(cs@.subrange(0, i as int)),
        decreases cs@.len() - i,
    {
        let ghost pre = cs@.subrange(0, i as int);
        assert(cs@.subrange(0, i + 1).drop_last() =~= pre);
        if '0' <= cs[i] && cs[i] <= '9' {
            all.push(cs[i]);
        }
        i = i + 1;
    }
    assert(cs@.subrange(0, cs@.len() as int) =~= cs@);
    if all.len() <= n {
        crate::text::string_of(all.as_slice())
    } else {
        let mut out: Vec<char> = Vec::new();
        let mut k: usize = 0;
        while k < n
            invariant
                k <= n < all@.len(),
                out@ =~= all@.subrange(0, k as int),
            decreases n - k,
        {
            out.push(all[k]);
            k = k + 1;
        }
        crate::text::string_of(out.as_slice())
    }
}


/// The part of `s` after its last `c` (all of `s` when there is none).
pub open spec fn after_last(s: Seq<char>, c: char) -> Seq<char>
    decreases s.len(),
{
    if s.len() == 0 {
        s
    } else if s.last() == c {
        Seq::empty()
    } else {
        after_last(s.drop_last(), c).push(s.last())
    }
}

/// The part of `s` before its first `c` (all of `s` when there is none).
pub open spec fn before_first(s: Seq<char>, c: char) -> Seq<char>
    decreases s.len(),
{
    if s.len() == 0 {
        s
    } else if s[0] == c {
        Seq::empty()
    } else {
        seq![s[0]] + before_first(s.drop_first(), c)
    }
}

/// Whether `c` is an ASCII letter or digit.
pub open spec fn is_alnum(c: char) -> bool {
    ('0' <= c && c <= '9') || ('a' <= c && c <= 'z') || ('A' <= c && c <= 'Z')
}

/// `determine_ext`: the extension that ends the path of `url` (before any query),
/// when it is a non-empty run of ASCII letters and digits, else `default`.
pub open spec fn ext_of(url: Seq<char>, default: Seq<char>) -> Seq<char> {
    let guess = after_last(before_first(url, '?'), '.');
    if url.contains('.') && guess.len() > 0 && forall|i: int| 0 <= i < guess.len() ==> is_alnum(#[trigger] guess[i]) {
        guess
    } else {
        default
    }
}

proof fn lemma_before_first_step(s: Seq<char>, c: char, i: int)
    requires
        0 <= i < s.len(),
        forall|j: int| 0 <= j < i ==> s[j] != c,
    ensures
        s[i] == c ==> before_first(s, c) == s.subrange(0, i),
    decreases i,
{
    if i > 0 {
        lemma_before_first_step(s.drop_first(), c, i - 1);
        assert(s.subrange(0, i + 1).drop_first() =~= s.drop_first().subrange(0, i));
        assert(s.subrange(0, i).drop_first() =~= s.drop_first().subrange(0, i - 1));
        assert(s.subrange(0, i) =~= seq![s[0]] + s.drop_first().subrange(0, i - 1));
        assert(s.subrange(0, i + 1) =~= seq![s[0]] + s.drop_first().subrange(0, i));
    } else {
        assert(s.subrange(0, 1) =~= seq![s[0]]);
        assert(seq![s[0]].drop_first() =~= Seq::<char>::empty());
    }
}

proof fn lemma_before_first_none(s: Seq<char>, c: char)
    requires
        forall|j: int| 0 <= j < s.len() ==> s[j] != c,
    ensures
        before_first(s, c) == s,
    decreases s.len(),
{
    if s.len() > 0 {
        lemma_before_first_none(s.drop_first(), c);
        assert(s =~= seq![s[0]] + s.drop_first());
    }
}

/// `yt_dlp_core::determine_ext`.
pub fn determine_ext(url: &str, default: &str) -> (r: String)
    ensures
        r@ == ext_of(url@, default@),
{
    let cs = crate::text::chars_of(url);
    let mut has_dot = false;
    let mut q: usize = 0;
    while q < cs.len() && cs[q] != '?'
        invariant
            q <= cs@.len(),
            forall|j: int| 0 <= j < q ==> cs@[j] != '?',
            has_dot == (exists|j: int| 0 <= j < q && cs@[j] == '.'),
        decreases cs@.len() - q,
    {
        if cs[q] == '.' {
            has_dot = true;
        }
        q = q + 1;
    }
    proof {
        if q < cs@.len() {
            lemma_before_first_step(cs@, '?', q as int);
        } else {
            lemma_before_first_none(cs@, '?');
            assert(cs@.subrange(0, q as int) =~= cs@);
        }
    }
    let ghost base = cs@.subrange(0, q as int);
    let mut guess: Vec<char> = Vec::new();
    let mut i: usize = 0;
    while i < q
        invariant
            q <= cs@.len(),
            i <= q,
            base == cs@.subrange(0, q as int),
            guess@ == after_last(base.subrange(0, i as int), '.'),
        decreases q - i,
    {
        assert(base.subrange(0, i + 1).drop_last() =~= base.subrange(0, i as int));
        if cs[i] == '.' {
            guess = Vec::new();
        } else {
            guess.push(cs[i]);
        }
        i = i + 1;
    }
    assert(base.subrange(0, q as int) =~= base);
    let mut k: usize = q;
    while k < cs.len() && !has_dot
        invariant
            q <= k <= cs@.len(),
            has_dot == ((exists|j: int| 0 <= j < k && cs@[j] == '.')),
        decreases cs@.len() - k,
    {
        if cs[k] == '.' {
            has_dot = true;
        }
        k = k + 1;
    }
    assert(has_dot == cs@.contains('.'));
    let mut ok = guess.len() > 0;
    let mut j: usize = 0;
    while j < guess.len()
        invariant
            j <= guess@.len(),
            ok == (guess@.len() > 0 && forall|t: int| 0 <= t < j ==> is_alnum(#[trigger] guess@[t])),
        decreases guess@.len() - j,
    {
        let c = guess[j];
        if !(('0' <= c && c <= '9') || ('a' <= c && c <= 'z') || ('A' <= c && c <= 'Z')) {
            ok = false;
        }
        j = j + 1;
    }
    if has_dot && ok {
        crate::text::string_of(guess.as_slice())
    } else {
        owned(default)
    }
}

/// The number stored under `key`, as `mantissa * 10^exponent` (`json_f64`).
pub open spec fn json_num_at(v: Json, key: Seq<char>) -> Option<Json> {
    match crate::json::json_lookup(v, key) {
        Some(Json::Int(i)) => Some(Json::Decimal(i, 0)),
        Some(Json::Decimal(m, e)) => Some(Json::Decimal(m, e)),
        _ => None,
    }
}

/// `json_f64`: the number stored under `key`, as a float.
pub fn json_f64(v: &JsonValue, key: &str) -> (r: Option<JsonValue>)
    ensures
        match r {
            Some(x) => json_num_at(v@, key@) == Some(x@),
            None => json_num_at(v@, key@) is None,
        },
{
    match crate::json::json_get(v, key) {
        Some(JsonValue::Int(i)) => Some(JsonValue::Decimal(*i, 0)),
        Some(JsonValue::Decimal(m, e)) => Some(JsonValue::Decimal(*m, *e)),
        _ => None,
    }
}


/// `s` without any `c` (`str::replace(c, "")`).
pub open spec fn without_char(s: Seq<char>, c: char) -> Seq<char>
    decreases s.len(),
{
    if s.len() == 0 {
        s
    } else if s.last() == c {
        without_char(s.drop_last(), c)
    } else {
        without_char(s.drop_last(), c).push(s.last())
    }
}

/// Removes every `c` from `s`.
pub fn remove_char(s: &str, c: char) -> (r: String)
    ensures
        r@ == without_char(s@, c),
{
    let cs = crate::text::chars_of(s);
    let mut out: Vec<char> = Vec::new();
    let mut i: usize = 0;
    while i < cs.len()
        invariant
            i <= cs@.len(),
            out@ == without_char(cs@.subrange(0, i as int), c),
        decreases cs@.len() - i,
    {
        assert(cs@.subrange(0, i + 1).drop_last() =~= cs@.subrange(0, i as int));
        if cs[i] != c {
            out.push(cs[i]);
        }
        i = i + 1;
    }
    assert(cs@.subrange(0, cs@.len() as int) =~= cs@);
    crate::text::string_of(out.as_slice())
}

/// Item `i` of a JSON array.
pub open spec fn json_item(v: Json, i: int) -> Option<Json> {
    match v {
        Json::Array(items) => if 0 <= i < items.len() { Some(items[i]) } else { None },
        _ => None,
    }
}

/// Item `i` of a JSON array (`Value::get(i)`).
pub fn json_index(v: &JsonValue, i: usize) -> (r: Option<&JsonValue>)
    ensures
        match r {
            Some(x) => json_item(v@, i as int) == Some(x@),
            None => json_item(v@, i as int) is None,
        },
{
    match v {
        JsonValue::Array(items) => {
            if i < items.len() {
                assert(crate::json::json_view(*v)->Array_0[i as int] == crate::json::json_view(items@[i as int]));
                Some(&items[i])
            } else {
                None
            }
        },
        _ => None,
    }
}

/// Item `i` of `v`, when `v` is there.
pub open spec fn json_item_of(v: Option<Json>, i: int) -> Option<Json> {
    match v {
        Some(x) => json_item(x, i),
        None => None,
    }
}

/// The member `key` of `v`, when `v` is there.
pub open spec fn lookup_in(v: Option<Json>, key: Seq<char>) -> Option<Json> {
    match v {
        Some(x) => crate::json::json_lookup(x, key),
        None => None,
    }
}

/// The string member `key` of `v`, when `v` is there.
pub open spec fn str_in(v: Option<Json>, key: Seq<char>) -> Option<Seq<char>> {
    match v {
        Some(x) => crate::json::json_str_at(x, key),
        None => None,
    }
}

/// The view of an optional string.
pub open spec fn str_opt_view(s: Option<&str>) -> Option<Seq<char>> {
    match s {
        Some(t) => Some(t@),
        None => None,
    }
}

/// The views of a list of borrowed JSON values.
pub open spec fn refs_view(s: Seq<&JsonValue>) -> Seq<Json> {
    Seq::new(s.len(), |i: int| crate::json::json_view(*s[i]))
}

/// The items of the array stored under `key`, or the value itself when there is no such array.
pub open spec fn items_or_self(v: Json, key: Seq<char>) -> Seq<Json> {
    match crate::json::json_lookup(v, key) {
        Some(Json::Array(a)) => a,
        _ => seq![v],
    }
}

/// The items of the array stored under `key`, or the value itself when there is no such array.
pub fn array_or_self<'a>(v: &'a JsonValue, key: &str) -> (r: Vec<&'a JsonValue>)
    ensures
        refs_view(r@) == items_or_self(v@, key@),
{
    match crate::json::json_get(v, key) {
        Some(x) => match x {
            JsonValue::Array(a) => {
                proof { crate::json::lemma_array_view(*x); }
                let mut out: Vec<&'a JsonValue> = Vec::new();
                let mut i: usize = 0;
                while i < a.len()
                    invariant
                        i <= a@.len(),
                        out@.len() == i,
                        forall|j: int| 0 <= j < i ==> crate::json::json_view(*(#[trigger] out@[j])) == crate::json::json_view(a@[j]),
                    decreases a@.len() - i,
                {
                    out.push(&a[i]);
                    i = i + 1;
                }
                assert(refs_view(out@) =~= crate::json::items_view(a@));
                out
            },
            _ => {
                let out = vec![v];
                assert(refs_view(out@) =~= seq![v@]);
                out
            },
        },
        None => {
            let out = vec![v];
            assert(refs_view(out@) =~= seq![v@]);
            out
        },
    }
}

/// An optional string as an optional JSON string.
pub fn opt_str_json(s: Option<&str>) -> (r: Option<JsonValue>)
    ensures
        json_opt_view(r) == opt_str(str_opt_view(s)),
{
    match s {
        Some(t) => Some(jstr(t)),
        None => None,
    }
}

/// An optional integer as an optional JSON number.
pub fn opt_int_json(i: Option<i64>) -> (r: Option<JsonValue>)
    ensures
        json_opt_view(r) == opt_int(match i { Some(v) => Some(v as int), None => None }),
{
    match i {
        Some(v) => Some(JsonValue::Int(v)),
        None => None,
    }
}

/// The records of a list of formats.
pub open spec fn format_records(fs: Seq<(Seq<char>, Seq<char>, Json)>) -> Seq<Json> {
    Seq::new(fs.len(), |i: int| fs[i].2)
}

/// The records of a list of formats with their addresses.
pub open spec fn pair_records(fs: Seq<(Seq<char>, Json)>) -> Seq<Json> {
    Seq::new(fs.len(), |i: int| fs[i].1)
}

/// An optional integer, or JSON null.
pub open spec fn int_or_null(i: Option<int>) -> Json {
    match i {
        Some(v) => Json::Int(v),
        None => Json::Null,
    }
}

/// Whether `new` notes the address and extension of the first of `old`'s formats followed by
/// `fs`, `old` noting those of the formats before.
pub open spec fn first_after(old: Option<(String, String)>, new: Option<(String, String)>, fs: Seq<(Seq<char>, Seq<char>, Json)>) -> bool {
    match old {
        Some(p) => new == Some(p),
        None => match new {
            Some((u, e)) => fs.len() > 0 && fs[0].0 == u@ && fs[0].1 == e@,
            None => fs.len() == 0,
        },
    }
}

/// Noting the first format of a list is done part by part.
pub proof fn lemma_first_after_concat(
    a: Option<(String, String)>,
    b: Option<(String, String)>,
    c: Option<(String, String)>,
    x: Seq<(Seq<char>, Seq<char>, Json)>,
    y: Seq<(Seq<char>, Seq<char>, Json)>,
)
    requires
        first_after(a, b, x),
        first_after(b, c, y),
    ensures
        first_after(a, c, x + y),
{
    if a is None && b is None {
        assert(x.len() == 0);
        assert(x + y =~= y);
    }
}

/// Appends a format, noting its address and extension when it is the first.
pub fn push_format(out: &mut Vec<JsonValue>, first: &mut Option<(String, String)>, f: (String, String, JsonValue))
    ensures
        items_view(final(out)@) == items_view(old(out)@).push(f.2@),
        first_after(*old(first), *final(first), seq![(f.0@, f.1@, f.2@)]),
{
    let (u, e, j) = f;
    let ghost jv = j@;
    if first.is_none() {
        *first = Some((u, e));
    }
    let ghost before = out@;
    out.push(j);
    assert(items_view(out@) =~= items_view(before).push(jv));
}

/// A value or JSON null.
pub open spec fn or_null(v: Option<Json>) -> Json {
    match v {
        Some(x) => x,
        None => Json::Null,
    }
}

/// The first string among the given members, in order.
pub open spec fn first_str(a: Option<Seq<char>>, b: Option<Seq<char>>) -> Option<Seq<char>> {
    match a {
        Some(x) => Some(x),
        None => b,
    }
}

/// An optional text read as a timestamp.
pub open spec fn timestamp_in(s: Option<Seq<char>>) -> Option<int> {
    match s {
        Some(t) => crate::timestamp::timestamp_of(t),
        None => None,
    }
}

/// The items of the array stored under `key`, none when there is no such array.
pub open spec fn array_items_at(v: Json, key: Seq<char>) -> Seq<Json> {
    match crate::json::json_lookup(v, key) {
        Some(Json::Array(a)) => a,
        _ => Seq::empty(),
    }
}

/// The items of the array stored under `key`, none when there is no such array.
pub fn array_at<'a>(v: &'a JsonValue, key: &str) -> (r: Vec<&'a JsonValue>)
    ensures
        refs_view(r@) == array_items_at(v@, key@),
{
    let mut out: Vec<&'a JsonValue> = Vec::new();
    match crate::json::json_get(v, key) {
        Some(x) => match x {
            JsonValue::Array(a) => {
                proof { crate::json::lemma_array_view(*x); }
                let mut i: usize = 0;
                while i < a.len()
                    invariant
                        i <= a@.len(),
                        out@.len() == i,
                        forall|j: int| 0 <= j < i ==> crate::json::json_view(*(#[trigger] out@[j])) == crate::json::json_view(a@[j]),
                    decreases a@.len() - i,
                {
                    out.push(&a[i]);
                    i = i + 1;
                }
                assert(refs_view(out@) =~= crate::json::items_view(a@));
            },
            _ => {
                assert(refs_view(out@) =~= Seq::<Json>::empty());
            },
        },
        None => {
            assert(refs_view(out@) =~= Seq::<Json>::empty());
        },
    }
    out
}

/// `date_digits`: the eight digits `YYYYMMDD` that a date text starts with, when it has eight.
pub open spec fn date_digits_of(s: Seq<char>) -> Option<Seq<char>> {
    if first_digits(s, 8).len() == 8 { Some(first_digits(s, 8)) } else { None }
}

/// `date_digits`: the eight digits `YYYYMMDD` that a date text starts with, when it has eight.
pub fn date_digits(s: &str) -> (r: Option<String>)
    ensures
        match r {
            Some(d) => date_digits_of(s@) == Some(d@),
            None => date_digits_of(s@) is None,
        },
{
    let d = take_digits(s, 8);
    if d.unicode_len() == 8 { Some(d) } else { None }
}

/// `native_url_result`: the dictionary that hands `url` on to another extraction.
pub open spec fn url_result(url: Seq<char>) -> Map<Seq<char>, Json> {
    Map::<Seq<char>, Json>::empty().insert("_type"@, Json::Str("url"@)).insert("url"@, Json::Str(url))
}

/// `native_url_result`: the dictionary that hands `url` on to another extraction.
pub fn native_url_result(url: &str) -> (r: crate::info::InfoDict)
    ensures
        r.wf(),
        r@ == url_result(url@),
{
    let mut d = crate::info::InfoDict::new();
    d.insert("_type", jstr("url"));
    d.insert("url", jstr(url));
    d
}

/// Whether a text is an HTTP or HTTPS address.
pub open spec fn is_http(s: Seq<char>) -> bool {
    has_prefix(s, "http://"@) || has_prefix(s, "https://"@)
}

/// Whether a text is an HTTP or HTTPS address.
pub fn http_address(s: &str) -> (r: bool)
    ensures
        r == is_http(s@),
{
    starts_with(s, "http://") || starts_with(s, "https://")
}

/// A number in thousandths as a number of units (`value / 1000.0`): `m * 10^e` becomes
/// `m * 10^(e - 3)`, none where that exponent leaves the range of `i32`.
pub open spec fn thousandth(v: Option<Json>) -> Option<Json> {
    match v {
        Some(Json::Decimal(m, e)) => if e - 3 >= i32::MIN { Some(Json::Decimal(m, e - 3)) } else { None },
        _ => None,
    }
}

/// A number in thousandths as a number of units (`value / 1000.0`).
pub fn json_thousandth(v: Option<JsonValue>) -> (r: Option<JsonValue>)
    ensures
        json_opt_view(r) == thousandth(json_opt_view(v)),
{
    match v {
        Some(JsonValue::Decimal(m, e)) => if e >= i32::MIN + 3 { Some(JsonValue::Decimal(m, e - 3)) } else { None },
        _ => None,
    }
}

/// A member of `v`, or null (`get(..).unwrap_or(&Value::Null)`).
pub fn member_or_null<'a>(v: &'a JsonValue, key: &str, null: &'a JsonValue) -> (r: &'a JsonValue)
    requires
        *null == JsonValue::Null,
    ensures
        r@ == or_null(json_lookup(v@, key@)),
{
    match json_get(v, key) {
        Some(x) => x,
        None => null,
    }
}

/// The string member `key` of a format, when there is one.
pub open spec fn format_str(f: Json, key: Seq<char>) -> Option<Json> {
    match json_lookup(f, key) {
        Some(Json::Str(s)) => Some(Json::Str(s)),
        _ => None,
    }
}

/// The string member `key` of a format.
pub fn format_string(f: &JsonValue, key: &str) -> (r: Option<JsonValue>)
    ensures
        json_opt_view(r) == format_str(f@, key@),
{
    match json_get(f, key) {
        Some(JsonValue::Str(s)) => Some(JsonValue::Str(s.clone())),
        _ => None,
    }
}

} // verus!
