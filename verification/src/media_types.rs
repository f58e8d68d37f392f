use vstd::prelude::*;

use crate::extract::{after_last, before_first};
use crate::json::{str_equal, Json, JsonValue};
use crate::number::{decimal_parts, parse_decimal, parse_int, parsed_int};
use crate::text::{lowered, owned, to_ascii_lowercase, trim, trimmed, string_of, chars_of};

verus! {

/// The extension that a media type's subtype stands for, when the table has it.
pub open spec fn subtype_ext(sub: Seq<char>) -> Option<Seq<char>> {
    if sub == "mp4"@ { Some("mp4"@) }
    else if sub == "x-mpegurl"@ || sub == "mpegurl"@ || sub == "vnd.apple.mpegurl"@ { Some("m3u8"@) }
    else if sub == "dash+xml"@ { Some("mpd"@) }
    else if sub == "f4m+xml"@ || sub == "hds+xml"@ { Some("f4m"@) }
    else if sub == "vnd.ms-sstr+xml"@ { Some("ism"@) }
    else if sub == "x-flv"@ { Some("flv"@) }
    else if sub == "quicktime"@ { Some("mov"@) }
    else if sub == "mp2t"@ { Some("ts"@) }
    else if sub == "x-wav"@ || sub == "wave"@ { Some("wav"@) }
    else if sub == "3gpp"@ { Some("3gp"@) }
    else if sub == "x-matroska"@ { Some("mkv"@) }
    else if sub == "x-ms-wmv"@ { Some("wmv"@) }
    else if sub == "ttml+xml"@ { Some("ttml"@) }
    else if sub == "svg+xml"@ { Some("svg"@) }
    else { None }
}

/// `mimetype_extension`: the file extension of a media type (parameters after `;` ignored,
/// case ignored): `audio/mp4` is m4a, `audio/mpeg` mp3, a known subtype maps by the table,
/// any other subtype is its own extension; nothing for an empty type.
pub open spec fn mime_ext(mt: Seq<char>) -> Option<Seq<char>> {
    let t = lowered(trimmed(before_first(mt, ';')));
    let sub = after_last(t, '/');
    if t == "audio/mp4"@ { Some("m4a"@) }
    else if t == "audio/mpeg"@ { Some("mp3"@) }
    else if t == "audio/x-wav"@ || t == "audio/wav"@ { Some("wav"@) }
    else if sub.len() == 0 { None }
    else {
        match subtype_ext(sub) {
            Some(e) => Some(e),
            None => Some(sub),
        }
    }
}

pub fn before_char(s: &str, c: char) -> (r: String)
    ensures
        r@ == before_first(s@, c),
{
    let cs = chars_of(s);
    let mut out: Vec<char> = Vec::new();
    let mut i: usize = 0;
    assert(cs@.subrange(0, cs@.len() as int) =~= cs@);
    assert(out@ + before_first(cs@, c) =~= before_first(cs@, c));
    while i < cs.len() && cs[i] != c
        invariant
            i <= cs@.len(),
            forall|j: int| 0 <= j < i ==> cs@[j] != c,
            out@ =~= cs@.subrange(0, i as int),
            before_first(cs@, c) == out@ + before_first(cs@.subrange(i as int, cs@.len() as int), c),
        decreases cs@.len() - i,
    {
        let ghost rest = cs@.subrange(i as int, cs@.len() as int);
        assert(rest.drop_first() =~= cs@.subrange(i + 1, cs@.len() as int));
        out.push(cs[i]);
        i = i + 1;
    }
    proof {
        let rest = cs@.subrange(i as int, cs@.len() as int);
        if i < cs@.len() {
            assert(rest[0] == c);
        }
    }
    string_of(out.as_slice())
}

pub fn after_char(s: &str, c: char) -> (r: String)
    ensures
        r@ == after_last(s@, c),
{
    let cs = chars_of(s);
    let mut out: Vec<char> = Vec::new();
    let mut i: usize = 0;
    while i < cs.len()
        invariant
            i <= cs@.len(),
            out@ == after_last(cs@.subrange(0, i as int), c),
        decreases cs@.len() - i,
    {
        assert(cs@.subrange(0, i + 1).drop_last() =~= cs@.subrange(0, i as int));
        if cs[i] == c {
            out = Vec::new();
        } else {
            out.push(cs[i]);
        }
        i = i + 1;
    }
    assert(cs@.subrange(0, cs@.len() as int) =~= cs@);
    string_of(out.as_slice())
}

fn subtype_ext_exec(sub: &str) -> (r: Option<String>)
    ensures
        match r {
            Some(e) => subtype_ext(sub@) == Some(e@),
            None => subtype_ext(sub@) is None,
        },
{
    if str_equal(sub, "mp4") { Some(owned("mp4")) }
    else if str_equal(sub, "x-mpegurl") || str_equal(sub, "mpegurl") || str_equal(sub, "vnd.apple.mpegurl") { Some(owned("m3u8")) }
    else if str_equal(sub, "dash+xml") { Some(owned("mpd")) }
    else if str_equal(sub, "f4m+xml") || str_equal(sub, "hds+xml") { Some(owned("f4m")) }
    else if str_equal(sub, "vnd.ms-sstr+xml") { Some(owned("ism")) }
    else if str_equal(sub, "x-flv") { Some(owned("flv")) }
    else if str_equal(sub, "quicktime") { Some(owned("mov")) }
    else if str_equal(sub, "mp2t") { Some(owned("ts")) }
    else if str_equal(sub, "x-wav") || str_equal(sub, "wave") { Some(owned("wav")) }
    else if str_equal(sub, "3gpp") { Some(owned("3gp")) }
    else if str_equal(sub, "x-matroska") { Some(owned("mkv")) }
    else if str_equal(sub, "x-ms-wmv") { Some(owned("wmv")) }
    else if str_equal(sub, "ttml+xml") { Some(owned("ttml")) }
    else if str_equal(sub, "svg+xml") { Some(owned("svg")) }
    else { None }
}

/// The file extension of a media type (`mimetype_extension`).
pub fn mimetype_extension(mt: &str) -> (r: Option<String>)
    ensures
        match r {
            Some(e) => mime_ext(mt@) == Some(e@),
            None => mime_ext(mt@) is None,
        },
{
    let b = before_char(mt, ';');
    let tr = trim(b.as_str());
    let t = to_ascii_lowercase(tr.as_str());
    let sub = after_char(t.as_str(), '/');
    if str_equal(t.as_str(), "audio/mp4") { Some(owned("m4a")) }
    else if str_equal(t.as_str(), "audio/mpeg") { Some(owned("mp3")) }
    else if str_equal(t.as_str(), "audio/x-wav") || str_equal(t.as_str(), "audio/wav") { Some(owned("wav")) }
    else if sub.unicode_len() == 0 { None }
    else {
        match subtype_ext_exec(sub.as_str()) {
            Some(e) => Some(e),
            None => Some(sub),
        }
    }
}

/// The pattern of a clock-style duration: `[[HH:]MM:]SS`.
pub open spec fn clock_pattern() -> Seq<char> {
    "^\\s*(?:(?:(\\d+):)?(\\d+):)?(\\d+)\\s*$"@
}

/// `parse_duration`: a duration given as a decimal number of seconds, or as
/// `[[HH:]MM:]SS`, in seconds.
pub open spec fn duration_of(s: Seq<char>) -> Option<Json> {
    match decimal_parts(trimmed(s)) {
        Some((m, e)) => Some(Json::Decimal(m, e)),
        None => match crate::pattern::regex_first_captures(clock_pattern(), s) {
            Some(g) => {
                let h = crate::timestamp::group_num(g, 1);
                let mi = crate::timestamp::group_num(g, 2);
                let sec = crate::timestamp::group_num(g, 3);
                if 0 <= h <= 1000000 && 0 <= mi <= 1000000 && 0 <= sec <= 1000000 {
                    Some(Json::Decimal(h * 3600 + mi * 60 + sec, 0))
                } else {
                    None
                }
            },
            None => None,
        },
    }
}

/// The duration in seconds that a text gives (`parse_duration`).
pub fn parse_duration(s: &str) -> (r: Option<JsonValue>)
    ensures
        match r {
            Some(v) => duration_of(s@) == Some(v@),
            None => duration_of(s@) is None,
        },
{
    let t = trim(s);
    match parse_decimal(t.as_str()) {
        Some((m, e)) => return Some(JsonValue::Decimal(m, e)),
        None => {},
    }
    let g = match crate::pattern::regex_captures("^\\s*(?:(?:(\\d+):)?(\\d+):)?(\\d+)\\s*$", s) {
        Some(g) => g,
        None => return None,
    };
    let h = group_value(&g, 1);
    let mi = group_value(&g, 2);
    let sec = group_value(&g, 3);
    if 0 <= h && h <= 1000000 && 0 <= mi && mi <= 1000000 && 0 <= sec && sec <= 1000000 {
        Some(JsonValue::Decimal(h * 3600 + mi * 60 + sec, 0))
    } else {
        None
    }
}

fn group_value(g: &Vec<Option<String>>, i: usize) -> (r: i64)
    ensures
        r as int == crate::timestamp::group_num(crate::pattern::groups_view(g@), i as int),
{
    if i < g.len() {
        match &g[i] {
            Some(t) => match parse_int(t.as_str()) { Some(v) => v, None => 0 },
            None => 0,
        }
    } else {
        0
    }
}

} // verus!
