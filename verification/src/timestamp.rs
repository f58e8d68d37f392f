use vstd::prelude::*;

use crate::number::{parse_int, parsed_int};
use crate::pattern::{group_at, groups_view, regex_captures, regex_first_captures};

verus! {

/// The ISO 8601 date-time forms that `parse_timestamp` reads: a date, optionally a time
/// with optional seconds and fraction, optionally `Z` or a `+HH:MM` offset.
pub open spec fn iso_pattern() -> Seq<char> {
    "^\\s*(\\d{4})-(\\d{2})-(\\d{2})(?:[T ](\\d{2}):(\\d{2})(?::(\\d{2}))?(?:\\.\\d+)?)?\\s*(?:(Z)|([+-])(\\d{2}):?(\\d{2}))?\\s*$"@
}

/// Days from 1970-01-01 to the given civil date (proleptic Gregorian calendar).
pub open spec fn days_from_civil(y: int, m: int, d: int) -> int {
    let y2 = if m <= 2 { y - 1 } else { y };
    let era = if y2 >= 0 { y2 / 400 } else { (y2 - 399) / 400 };
    let yoe = y2 - era * 400;
    let mp = if m > 2 { m - 3 } else { m + 9 };
    let doy = (153 * mp + 2) / 5 + d - 1;
    let doe = yoe * 365 + yoe / 4 - yoe / 100 + doy;
    era * 146097 + doe - 719468
}

/// A number group read as an integer (0 where the group did not take part).
pub open spec fn group_num(g: Seq<Option<Seq<char>>>, i: int) -> int {
    match group_at(g, i) {
        Some(t) => match parsed_int(t) { Some(v) => v, None => 0 },
        None => 0,
    }
}

/// The UNIX time of an ISO 8601 date-time text, when the fields are in range.
pub open spec fn timestamp_of(s: Seq<char>) -> Option<int> {
    match regex_first_captures(iso_pattern(), s) {
        Some(g) => {
            let (y, mo, d, h, mi, sec) = (group_num(g, 1), group_num(g, 2), group_num(g, 3), group_num(g, 4), group_num(g, 5), group_num(g, 6));
            let off = if group_at(g, 8) is Some {
                let o = group_num(g, 9) * 3600 + group_num(g, 10) * 60;
                if group_at(g, 8) == Some(seq!['-']) { -o } else { o }
            } else {
                0
            };
            if 1 <= mo <= 12 && 1 <= d <= 31 && 0 <= h <= 23 && 0 <= mi <= 59 && 0 <= sec <= 60 && 0 <= group_num(g, 9) <= 23
                && 0 <= group_num(g, 10) <= 59 && 0 <= y <= 9999 {
                Some(days_from_civil(y, mo, d) * 86400 + h * 3600 + mi * 60 + sec - off)
            } else {
                None
            }
        },
        None => None,
    }
}

fn group_int(g: &Vec<Option<String>>, i: usize) -> (r: i64)
    ensures
        r as int == group_num(groups_view(g@), i as int),
        0 <= r <= 9999 || (group_num(groups_view(g@), i as int) == r as int),
{
    if i < g.len() {
        match &g[i] {
            Some(t) => match parse_int(t.as_str()) {
                Some(v) => v,
                None => 0,
            },
            None => 0,
        }
    } else {
        0
    }
}

/// `parse_timestamp`: the UNIX time of an ISO 8601 date-time text.
pub fn parse_timestamp(s: &str) -> (r: Option<i64>)
    ensures
        match r {
            Some(t) => timestamp_of(s@) == Some(t as int),
            None => timestamp_of(s@) is None,
        },
{
    let g = match regex_captures("^\\s*(\\d{4})-(\\d{2})-(\\d{2})(?:[T ](\\d{2}):(\\d{2})(?::(\\d{2}))?(?:\\.\\d+)?)?\\s*(?:(Z)|([+-])(\\d{2}):?(\\d{2}))?\\s*$", s) {
        Some(g) => g,
        None => return None,
    };
    assert(regex_first_captures(iso_pattern(), s@) == Some(groups_view(g@)));
    proof {
        reveal_strlit("-");
        assert("-"@ =~= seq!['-']);
    }
    let y = group_int(&g, 1);
    let mo = group_int(&g, 2);
    let d = group_int(&g, 3);
    let h = group_int(&g, 4);
    let mi = group_int(&g, 5);
    let sec = group_int(&g, 6);
    let oh = group_int(&g, 9);
    let om = group_int(&g, 10);
    if !(1 <= mo && mo <= 12 && 1 <= d && d <= 31 && h <= 23 && mi <= 59 && sec <= 60 && oh <= 23 && om <= 59) {
        return None;
    }
    if y < 0 || y > 9999 || h < 0 || mi < 0 || sec < 0 || oh < 0 || om < 0 {
        return None;
    }
    let sign = crate::pattern::capture_group(&g, 8);
    let off: i64 = match &sign {
        Some(sg) => {
            let o = oh * 3600 + om * 60;
            if crate::json::str_equal(sg.as_str(), "-") { -o } else { o }
        },
        None => 0,
    };
    let y2: i64 = if mo <= 2 { y - 1 } else { y };
    let era: i64 = if y2 >= 0 { y2 / 400 } else { (y2 - 399) / 400 };
    let yoe: i64 = y2 - era * 400;
    let mp: i64 = if mo > 2 { mo - 3 } else { mo + 9 };
    let doy: i64 = (153 * mp + 2) / 5 + d - 1;
    let doe: i64 = yoe * 365 + yoe / 4 - yoe / 100 + doy;
    let days: i64 = era * 146097 + doe - 719468;
    assert(days as int == days_from_civil(y as int, mo as int, d as int));
    let ghost gg = groups_view(g@);
    assert(off as int == (if group_at(gg, 8) is Some {
                let o = group_num(gg, 9) * 3600 + group_num(gg, 10) * 60;
                if group_at(gg, 8) == Some(seq!['-']) { -o } else { o }
            } else {
                0
            }));
    Some(days * 86400 + h * 3600 + mi * 60 + sec - off)
}

} // verus!
