use vstd::prelude::*;

verus! {

/// Whether `pattern` is accepted by `fancy_regex::Regex::new`.
pub uninterp spec fn regex_valid(pattern: Seq<char>) -> bool;

/// The text (`Display`) of the error that `fancy_regex::Regex::new` gives for `pattern`,
/// when it gives one.
pub uninterp spec fn regex_error_of(pattern: Seq<char>) -> Option<Seq<char>>;

/// What `fancy_regex::Regex::is_match` answers for `pattern` on `text`
/// (false where the pattern does not compile or the search fails).
pub uninterp spec fn regex_matches(pattern: Seq<char>, text: Seq<char>) -> bool;

/// The groups of the first match of `pattern` in `text`, by index, as
/// `fancy_regex::Regex::captures` reports them (None where there is no match,
/// the pattern does not compile or the search fails).
pub uninterp spec fn regex_first_captures(pattern: Seq<char>, text: Seq<char>) -> Option<Seq<Option<Seq<char>>>>;

/// The text of the group called `name` in the first match of `pattern` in `text`,
/// as `fancy_regex::Captures::name` reports it.
pub uninterp spec fn regex_named_capture(pattern: Seq<char>, text: Seq<char>, name: Seq<char>) -> Option<Seq<char>>;

/// The groups of every successful match of `fancy_regex::Regex::captures_iter`,
/// in order.
pub uninterp spec fn regex_all_captures(pattern: Seq<char>, text: Seq<char>) -> Seq<Seq<Option<Seq<char>>>>;

/// Group `i` of a capture list, when the list has that group and it took part.
pub open spec fn group_at(groups: Seq<Option<Seq<char>>>, i: int) -> Option<Seq<char>> {
    if 0 <= i < groups.len() {
        groups[i]
    } else {
        None
    }
}

/// Group `i` of the first match of `pattern` in `text`.
pub open spec fn first_group(pattern: Seq<char>, text: Seq<char>, i: int) -> Option<Seq<char>> {
    match regex_first_captures(pattern, text) {
        Some(groups) => group_at(groups, i),
        None => None,
    }
}

/// The characters that `regex::escape` prefixes with a backslash.
pub open spec fn is_regex_meta(c: char) -> bool {
    c == '\\' || c == '.' || c == '+' || c == '*' || c == '?' || c == '(' || c == ')' || c == '|'
        || c == '[' || c == ']' || c == '{' || c == '}' || c == '^' || c == '$' || c == '#'
        || c == '&' || c == '-' || c == '~'
}

/// `text` with every regex meta character escaped by a backslash.
pub open spec fn regex_escaped(text: Seq<char>) -> Seq<char>
    decreases text.len(),
{
    if text.len() == 0 {
        Seq::empty()
    } else {
        let c = text[0];
        (if is_regex_meta(c) { seq!['\\', c] } else { seq![c] }) + regex_escaped(text.drop_first())
    }
}

/// View of a list of optional group texts.
pub open spec fn groups_view(groups: Seq<Option<String>>) -> Seq<Option<Seq<char>>> {
    Seq::new(groups.len(), |i: int| match groups[i] {
        Some(s) => Some(s@),
        None => None,
    })
}

/// View of a list of capture lists.
pub open spec fn all_groups_view(all: Seq<Vec<Option<String>>>) -> Seq<Seq<Option<Seq<char>>>> {
    Seq::new(all.len(), |i: int| groups_view(all[i]@))
}

/// Calls `fancy_regex::Regex::new` and reports whether it succeeded.
#[verifier::external_body]
pub(crate) fn regex_compiles(pattern: &str) -> (r: bool)
    ensures
        r == regex_valid(pattern@),
{
    fancy_regex::Regex::new(pattern).is_ok()
}

/// Calls `fancy_regex::Regex::new` and hands on the text of its error, if any: there is
/// one exactly where the pattern does not compile.
#[verifier::external_body]
pub(crate) fn regex_error(pattern: &str) -> (r: Option<String>)
    ensures
        r is None <==> regex_valid(pattern@),
        match r {
            Some(m) => regex_error_of(pattern@) == Some(m@),
            None => regex_error_of(pattern@) is None,
        },
{
    fancy_regex::Regex::new(pattern).err().map(|e| e.to_string())
}

/// Compiles `pattern` with `fancy_regex::Regex::new` and calls `is_match` on `text`;
/// a pattern that does not compile or a failed search answers false.
#[verifier::external_body]
pub(crate) fn regex_is_match(pattern: &str, text: &str) -> (r: bool)
    ensures
        r == regex_matches(pattern@, text@),
{
    match fancy_regex::Regex::new(pattern) {
        Ok(re) => re.is_match(text).unwrap_or(false),
        Err(_) => false,
    }
}

/// Compiles `pattern` and calls `fancy_regex::Regex::captures` on `text`, returning
/// every group of the first match by index.
#[verifier::external_body]
pub(crate) fn regex_captures(pattern: &str, text: &str) -> (r: Option<Vec<Option<String>>>)
    ensures
        match r {
            Some(g) => regex_first_captures(pattern@, text@) == Some(groups_view(g@)),
            None => regex_first_captures(pattern@, text@) is None,
        },
{
    let re = fancy_regex::Regex::new(pattern).ok()?;
    let caps = re.captures(text).ok()??;
    Some((0..caps.len()).map(|i| caps.get(i).map(|m| m.as_str().to_string())).collect())
}

/// Compiles `pattern`, calls `fancy_regex::Regex::captures` on `text` and reads the
/// group called `name` with `fancy_regex::Captures::name`.
#[verifier::external_body]
pub(crate) fn regex_capture_name(pattern: &str, text: &str, name: &str) -> (r: Option<String>)
    ensures
        match r {
            Some(s) => regex_named_capture(pattern@, text@, name@) == Some(s@),
            None => regex_named_capture(pattern@, text@, name@) is None,
        },
{
    let re = fancy_regex::Regex::new(pattern).ok()?;
    let caps = re.captures(text).ok()??;
    caps.name(name).map(|m| m.as_str().to_string())
}

/// Compiles `pattern` and collects the groups of every match that
/// `fancy_regex::Regex::captures_iter` yields without error.
#[verifier::external_body]
pub(crate) fn regex_captures_iter(pattern: &str, text: &str) -> (r: Vec<Vec<Option<String>>>)
    ensures
        all_groups_view(r@) == regex_all_captures(pattern@, text@),
{
    let Ok(re) = fancy_regex::Regex::new(pattern) else { return Vec::new() };
    re.captures_iter(text)
        .flatten()
        .map(|c| (0..c.len()).map(|i| c.get(i).map(|m| m.as_str().to_string())).collect())
        .collect()
}

/// Calls `regex::escape`, which prefixes each regex meta character with a backslash.
#[verifier::external_body]
pub(crate) fn regex_escape(text: &str) -> (r: String)
    ensures
        r@ == regex_escaped(text@),
{
    ::regex::escape(text)
}

/// The group `i` of a capture list, copied out.
pub fn capture_group(groups: &Vec<Option<String>>, i: usize) -> (r: Option<String>)
    ensures
        match r {
            Some(s) => group_at(groups_view(groups@), i as int) == Some(s@),
            None => group_at(groups_view(groups@), i as int) is None,
        },
{
    if i < groups.len() {
        match &groups[i] {
            Some(s) => Some(s.clone()),
            None => None,
        }
    } else {
        None
    }
}

/// Group `i` of the first match of `pattern` in `text`.
pub fn regex_first_group(pattern: &str, text: &str, i: usize) -> (r: Option<String>)
    ensures
        match r {
            Some(s) => first_group(pattern@, text@, i as int) == Some(s@),
            None => first_group(pattern@, text@, i as int) is None,
        },
{
    match regex_captures(pattern, text) {
        Some(groups) => capture_group(&groups, i),
        None => None,
    }
}

} // verus!
