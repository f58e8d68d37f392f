use vstd::prelude::*;

verus! {

/// The serialization of `url::Url::parse(base)` joined with `value` by `url::Url::join`
/// (None where the base does not parse or the join fails).
pub uninterp spec fn joined_url(base: Seq<char>, value: Seq<char>) -> Option<Seq<char>>;

/// The host of `url::Url::parse(s)`, as `url::Url::host_str` gives it.
pub uninterp spec fn url_host_of(s: Seq<char>) -> Option<Seq<char>>;

/// Whether `url::Url::parse` accepts `s`.
pub uninterp spec fn url_parses(s: Seq<char>) -> bool;

/// Joins `value` onto `base` with `url::Url::join`.
#[verifier::external_body]
pub(crate) fn url_join(base: &str, value: &str) -> (r: Option<String>)
    ensures
        match r {
            Some(s) => joined_url(base@, value@) == Some(s@),
            None => joined_url(base@, value@) is None,
        },
{
    url::Url::parse(base).ok()?.join(value).ok().map(|u| u.to_string())
}

/// The host of a URL (`url::Url::host_str`).
#[verifier::external_body]
pub(crate) fn url_host(s: &str) -> (r: Option<String>)
    ensures
        match r {
            Some(h) => url_host_of(s@) == Some(h@),
            None => url_host_of(s@) is None,
        },
{
    url::Url::parse(s).ok()?.host_str().map(|h| h.to_string())
}

/// The serialization of `url::Url::parse(s)` after `set_query(None)` and
/// `set_fragment(None)` (None where `s` does not parse).
pub uninterp spec fn url_bare_of(s: Seq<char>) -> Option<Seq<char>>;

/// Drops a URL's query and fragment (`url::Url::set_query(None)`, `set_fragment(None)`);
/// it answers whenever `url::Url::parse` accepts the text.
#[verifier::external_body]
pub(crate) fn url_without_query(s: &str) -> (r: Option<String>)
    ensures
        match r {
            Some(u) => url_bare_of(s@) == Some(u@),
            None => url_bare_of(s@) is None,
        },
        r is Some <==> url_parses(s@),
{
    let mut u = url::Url::parse(s).ok()?;
    u.set_query(None);
    u.set_fragment(None);
    Some(u.to_string())
}

/// The scheme of `url::Url::parse(s)` (`url::Url::scheme`), None where `s` does not parse.
pub uninterp spec fn url_scheme_of(s: Seq<char>) -> Option<Seq<char>>;

/// The scheme of a URL (`url::Url::scheme`); it answers whenever `url::Url::parse` accepts
/// the text.
#[verifier::external_body]
pub(crate) fn url_scheme(s: &str) -> (r: Option<String>)
    ensures
        match r {
            Some(x) => url_scheme_of(s@) == Some(x@),
            None => url_scheme_of(s@) is None,
        },
        r is Some <==> url_parses(s@),
{
    url::Url::parse(s).ok().map(|u| u.scheme().to_string())
}

/// Whether a URL parses (`url::Url::parse`).
#[verifier::external_body]
pub(crate) fn url_is_valid(s: &str) -> (r: bool)
    ensures
        r == url_parses(s@),
{
    url::Url::parse(s).is_ok()
}


/// The decoded query pairs of `url::Url::parse(s)`, in order (`url::Url::query_pairs`),
/// None where `s` does not parse.
pub uninterp spec fn url_query_pairs_of(s: Seq<char>) -> Option<Seq<(Seq<char>, Seq<char>)>>;

/// The views of a list of string pairs.
pub open spec fn pairs_view(v: Seq<(String, String)>) -> Seq<(Seq<char>, Seq<char>)> {
    Seq::new(v.len(), |i: int| (v[i].0@, v[i].1@))
}

/// The decoded query pairs of a URL.
#[verifier::external_body]
pub(crate) fn url_query_pairs(s: &str) -> (r: Option<Vec<(String, String)>>)
    ensures
        match r {
            Some(v) => url_query_pairs_of(s@) == Some(pairs_view(v@)),
            None => url_query_pairs_of(s@) is None,
        },
{
    let u = url::Url::parse(s).ok()?;
    Some(u.query_pairs().map(|(k, v)| (k.into_owned(), v.into_owned())).collect())
}

/// The value of the first query pair named `key`.
pub open spec fn first_pair_value(pairs: Seq<(Seq<char>, Seq<char>)>, key: Seq<char>) -> Option<Seq<char>>
    decreases pairs.len(),
{
    if pairs.len() == 0 {
        None
    } else if pairs[0].0 == key {
        Some(pairs[0].1)
    } else {
        first_pair_value(pairs.drop_first(), key)
    }
}

/// The value of the first query parameter `key` of a URL.
pub open spec fn query_value(url: Seq<char>, key: Seq<char>) -> Option<Seq<char>> {
    match url_query_pairs_of(url) {
        Some(p) => first_pair_value(p, key),
        None => None,
    }
}

proof fn lemma_first_pair_skip(pairs: Seq<(Seq<char>, Seq<char>)>, key: Seq<char>, i: int)
    requires
        0 <= i <= pairs.len(),
        forall|j: int| 0 <= j < i ==> pairs[j].0 != key,
    ensures
        first_pair_value(pairs, key) == first_pair_value(pairs.subrange(i, pairs.len() as int), key),
    decreases i,
{
    if i > 0 {
        lemma_first_pair_skip(pairs.drop_first(), key, i - 1);
        assert(pairs.drop_first().subrange(i - 1, pairs.drop_first().len() as int) =~= pairs.subrange(i, pairs.len() as int));
    } else {
        assert(pairs.subrange(0, pairs.len() as int) =~= pairs);
    }
}

/// `url_query_value`: the value of the first query parameter `key` of a URL.
pub fn url_query_value(url: &str, key: &str) -> (r: Option<String>)
    ensures
        match r {
            Some(v) => query_value(url@, key@) == Some(v@),
            None => query_value(url@, key@) is None,
        },
{
    let pairs = match url_query_pairs(url) { Some(p) => p, None => return None };
    let ghost pv = pairs_view(pairs@);
    let mut i: usize = 0;
    while i < pairs.len()
        invariant
            i <= pairs@.len(),
            pv == pairs_view(pairs@),
            url_query_pairs_of(url@) == Some(pv),
            forall|j: int| 0 <= j < i ==> pv[j].0 != key@,
        decreases pairs@.len() - i,
    {
        if crate::json::str_equal(pairs[i].0.as_str(), key) {
            proof {
                lemma_first_pair_skip(pv, key@, i as int);
                assert(pv.subrange(i as int, pv.len() as int)[0] == pv[i as int]);
            }
            return Some(pairs[i].1.clone());
        }
        i = i + 1;
    }
    proof {
        lemma_first_pair_skip(pv, key@, i as int);
    }
    None
}

/// The `application/x-www-form-urlencoded` serialization of `s`, as
/// `form_urlencoded::byte_serialize` writes it for the UTF-8 bytes of `s`.
pub uninterp spec fn form_encoded(s: Seq<char>) -> Seq<char>;

/// The characters that form encoding leaves as they are.
pub open spec fn form_plain(c: char) -> bool {
    c == '*' || c == '-' || c == '.' || c == '_' || ('0' <= c && c <= '9') || ('A' <= c && c <= 'Z')
        || ('a' <= c && c <= 'z')
}

/// Form-encodes `s` with `url::form_urlencoded::byte_serialize`, which leaves ASCII letters,
/// digits and `*-._` as they are.
#[verifier::external_body]
pub(crate) fn form_encode(s: &str) -> (r: String)
    ensures
        r@ == form_encoded(s@),
        (forall|i: int| 0 <= i < s@.len() ==> form_plain(#[trigger] s@[i])) ==> r@ == s@,
{
    url::form_urlencoded::byte_serialize(s.as_bytes()).collect()
}

/// The path segments of `url::Url::parse(s)`, as `url::Url::path_segments` gives them (None
/// where `s` does not parse or its path does not start with `/`).
pub uninterp spec fn url_path_segments_of(s: Seq<char>) -> Option<Seq<Seq<char>>>;

/// The path segments of a URL (`url::Url::path_segments`).
#[verifier::external_body]
pub(crate) fn url_path_segments(s: &str) -> (r: Option<Vec<String>>)
    ensures
        match r {
            Some(v) => url_path_segments_of(s@) == Some(Seq::new(v@.len(), |i: int| v@[i]@)),
            None => url_path_segments_of(s@) is None,
        },
{
    let parsed = url::Url::parse(s).ok()?;
    let segments = parsed.path_segments()?;
    Some(segments.map(|x| x.to_string()).collect())
}

} // verus!
