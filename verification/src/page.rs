use vstd::prelude::*;

use crate::html::{html_text_fragment, nonempty_fragment, nonempty_fragment_of, text_fragment, unescape_html, unescaped};
use crate::json::{Json, JsonValue};
use crate::jsontext::{json_text_value, parse_json_text};
use crate::pattern::{first_group, regex_escape, regex_escaped, regex_first_group};
use crate::text::{chars_of, concat3, first_occurrence, find_from, push_str, string_of};

verus! {

/// The pattern of a `<meta>` tag whose property, name or itemprop is `key`, with its
/// content after the key.
pub open spec fn meta_key_first(key: Seq<char>) -> Seq<char> {
    "(?is)<meta\\b[^>]*?\\b(?:property|name|itemprop)\\s*=\\s*[\"']"@ + regex_escaped(key)
        + "[\"'][^>]*?\\bcontent\\s*=\\s*[\"']([^\"']*)[\"']"@
}

/// The pattern of a `<meta>` tag whose content comes before the key.
pub open spec fn meta_content_first(key: Seq<char>) -> Seq<char> {
    "(?is)<meta\\b[^>]*?\\bcontent\\s*=\\s*[\"']([^\"']*)[\"'][^>]*?\\b(?:property|name|itemprop)\\s*=\\s*[\"']"@
        + regex_escaped(key) + "[\"']"@
}

/// The decoded content of the first `<meta>` tag for `key`, when it is not empty.
pub open spec fn meta_value(html: Seq<char>, key: Seq<char>) -> Option<Seq<char>> {
    let raw = match first_group(meta_key_first(key), html, 1) {
        Some(v) => Some(v),
        None => first_group(meta_content_first(key), html, 1),
    };
    match raw {
        Some(v) => if unescaped(v).len() > 0 { Some(unescaped(v)) } else { None },
        None => None,
    }
}

/// `html_meta_value`: the content of the page's `<meta>` tag for `key`.
pub fn html_meta_value(html: &str, key: &str) -> (r: Option<String>)
    ensures
        match r {
            Some(v) => meta_value(html@, key@) == Some(v@),
            None => meta_value(html@, key@) is None,
        },
{
    let esc = regex_escape(key);
    let p1 = concat3(
        "(?is)<meta\\b[^>]*?\\b(?:property|name|itemprop)\\s*=\\s*[\"']",
        esc.as_str(),
        "[\"'][^>]*?\\bcontent\\s*=\\s*[\"']([^\"']*)[\"']",
    );
    let raw = match regex_first_group(p1.as_str(), html, 1) {
        Some(v) => Some(v),
        None => {
            let p2 = concat3(
                "(?is)<meta\\b[^>]*?\\bcontent\\s*=\\s*[\"']([^\"']*)[\"'][^>]*?\\b(?:property|name|itemprop)\\s*=\\s*[\"']",
                esc.as_str(),
                "[\"']",
            );
            regex_first_group(p2.as_str(), html, 1)
        },
    };
    match raw {
        Some(v) => {
            let u = unescape_html(v.as_str());
            if u.unicode_len() > 0 { Some(u) } else { None }
        },
        None => None,
    }
}

/// The pattern of the page title.
pub open spec fn title_pattern() -> Seq<char> {
    "(?is)<title\\b[^>]*>(.*?)</title\\s*>"@
}

/// The text of the page's `<title>`, when it is not empty.
pub open spec fn title_value(html: Seq<char>) -> Option<Seq<char>> {
    match first_group(title_pattern(), html, 1) {
        Some(v) => if text_fragment(v).len() > 0 { Some(text_fragment(v)) } else { None },
        None => None,
    }
}

/// `html_title_value`: the text of the page's `<title>`.
pub fn html_title_value(html: &str) -> (r: Option<String>)
    ensures
        match r {
            Some(v) => title_value(html@) == Some(v@),
            None => title_value(html@) is None,
        },
{
    match regex_first_group("(?is)<title\\b[^>]*>(.*?)</title\\s*>", html, 1) {
        Some(v) => {
            let t = html_text_fragment(v.as_str());
            if t.unicode_len() > 0 { Some(t) } else { None }
        },
        None => None,
    }
}

/// The pattern of the element whose id is `id`.
pub open spec fn element_by_id_pattern(id: Seq<char>) -> Seq<char> {
    "(?is)<([a-z0-9]+)\\b[^>]*\\bid\\s*=\\s*[\"']"@ + regex_escaped(id) + "[\"'][^>]*>(.*?)</\\1\\s*>"@
}

/// `html_element_by_id`: the inner HTML of the element whose id is `id`.
pub fn html_element_by_id(html: &str, id: &str) -> (r: Option<String>)
    ensures
        match r {
            Some(v) => first_group(element_by_id_pattern(id@), html@, 2) == Some(v@),
            None => first_group(element_by_id_pattern(id@), html@, 2) is None,
        },
{
    let esc = regex_escape(id);
    let p = concat3("(?is)<([a-z0-9]+)\\b[^>]*\\bid\\s*=\\s*[\"']", esc.as_str(), "[\"'][^>]*>(.*?)</\\1\\s*>");
    regex_first_group(p.as_str(), html, 2)
}

/// The pattern of the element whose class list holds `class`.
pub open spec fn element_by_class_pattern(class: Seq<char>) -> Seq<char> {
    "(?is)<([a-z0-9]+)\\b[^>]*\\bclass\\s*=\\s*[\"'][^\"']*\\b"@ + regex_escaped(class)
        + "\\b[^\"']*[\"'][^>]*>(.*?)</\\1\\s*>"@
}

/// `html_element_by_class`: the inner HTML of the first element with class `class`.
pub fn html_element_by_class(html: &str, class: &str) -> (r: Option<String>)
    ensures
        match r {
            Some(v) => first_group(element_by_class_pattern(class@), html@, 2) == Some(v@),
            None => first_group(element_by_class_pattern(class@), html@, 2) is None,
        },
{
    let esc = regex_escape(class);
    let p = concat3(
        "(?is)<([a-z0-9]+)\\b[^>]*\\bclass\\s*=\\s*[\"'][^\"']*\\b",
        esc.as_str(),
        "\\b[^\"']*[\"'][^>]*>(.*?)</\\1\\s*>",
    );
    regex_first_group(p.as_str(), html, 2)
}

/// The pattern of a JSON-style number member `key` in a page.
pub open spec fn json_number_pattern(key: Seq<char>) -> Seq<char> {
    "(?s)[\"']?"@ + regex_escaped(key) + "[\"']?\\s*:\\s*[\"']?(-?[0-9]+(?:\\.[0-9]+)?)"@
}

/// `html_json_number`: the text of the number that a page's script gives `key`.
pub fn html_json_number(html: &str, key: &str) -> (r: Option<String>)
    ensures
        match r {
            Some(v) => first_group(json_number_pattern(key@), html@, 1) == Some(v@),
            None => first_group(json_number_pattern(key@), html@, 1) is None,
        },
{
    let esc = regex_escape(key);
    let p = concat3("(?s)[\"']?", esc.as_str(), "[\"']?\\s*:\\s*[\"']?(-?[0-9]+(?:\\.[0-9]+)?)");
    regex_first_group(p.as_str(), html, 1)
}

/// Scans JSON text from position `i` at bracket depth `depth`, inside a string or not,
/// just after a backslash or not, for the position just past the bracket that
/// closes depth 1.
pub open spec fn scan_close(s: Seq<char>, i: int, depth: int, in_str: bool, escaped: bool) -> Option<int>
    decreases s.len() - i,
{
    if i < 0 || i >= s.len() {
        None
    } else {
        let c = s[i];
        let ghost (oi, od, os, oe) = (i, depth, in_str, escaped);
        if in_str {
            if escaped {
                scan_close(s, i + 1, depth, true, false)
            } else if c == '\\' {
                scan_close(s, i + 1, depth, true, true)
            } else if c == '"' {
                scan_close(s, i + 1, depth, false, false)
            } else {
                scan_close(s, i + 1, depth, true, false)
            }
        } else if c == '"' {
            scan_close(s, i + 1, depth, true, false)
        } else if c == '{' || c == '[' {
            scan_close(s, i + 1, depth + 1, false, false)
        } else if c == '}' || c == ']' {
            if depth <= 1 {
                Some(i + 1)
            } else {
                scan_close(s, i + 1, depth - 1, false, false)
            }
        } else {
            scan_close(s, i + 1, depth, false, false)
        }
    }
}

/// The JSON text that opens with `open` at the first such character at or after `from`,
/// up to its balanced close.
pub open spec fn bracketed_after(s: Seq<char>, from: int, open: char) -> Option<Seq<char>> {
    match first_occurrence(s, seq![open], from) {
        Some(b) => match scan_close(s, b + 1, 1, false, false) {
            Some(e) => if b < e <= s.len() { Some(s.subrange(b, e)) } else { None },
            None => None,
        },
        None => None,
    }
}

/// The balanced JSON text that opens with `open` after the first `marker` in `html`.
pub open spec fn json_text_after(html: Seq<char>, marker: Seq<char>, open: char) -> Option<Seq<char>> {
    match first_occurrence(html, marker, 0) {
        Some(m) => bracketed_after(html, m + marker.len(), open),
        None => None,
    }
}

/// The document read from the balanced JSON text after `marker`.
pub open spec fn json_after_marker(html: Seq<char>, marker: Seq<char>, open: char) -> Option<Json> {
    match json_text_after(html, marker, open) {
        Some(t) => json_text_value(t),
        None => None,
    }
}

fn scan_close_exec(s: &Vec<char>, start: usize) -> (r: Option<usize>)
    requires
        1 <= start,
    ensures
        match r {
            Some(e) => scan_close(s@, start as int, 1, false, false) == Some(e as int) && start < e <= s@.len(),
            None => scan_close(s@, start as int, 1, false, false) is None,
        },
{
    let mut i: usize = start;
    let mut depth: usize = 1;
    let mut in_str = false;
    let mut escaped = false;
    while i < s.len()
        invariant
            1 <= start <= i,
            1 <= depth <= i - start + 1,
            !in_str ==> !escaped,
            scan_close(s@, start as int, 1, false, false) == scan_close(s@, i as int, depth as int, in_str, escaped),
        decreases s@.len() - i,
    {
        let c = s[i];
        let ghost (oi, od, os, oe) = (i, depth, in_str, escaped);
        if in_str {
            if escaped {
                escaped = false;
            } else if c == '\\' {
                escaped = true;
            } else if c == '"' {
                in_str = false;
            }
        } else if c == '"' {
            in_str = true;
        } else if c == '{' || c == '[' {
            depth = depth + 1;
        } else if c == '}' || c == ']' {
            if depth <= 1 {
                return Some(i + 1);
            }
            depth = depth - 1;
        }
        i = i + 1;
        assert(scan_close(s@, oi as int, od as int, os, oe) == scan_close(s@, i as int, depth as int, in_str, escaped));
    }
    None
}

fn sub_chars(s: &Vec<char>, from: usize, to: usize) -> (r: String)
    requires
        from <= to <= s@.len(),
    ensures
        r@ == s@.subrange(from as int, to as int),
{
    let mut out: Vec<char> = Vec::new();
    let mut i = from;
    while i < to
        invariant
            from <= i <= to <= s@.len(),
            out@ =~= s@.subrange(from as int, i as int),
        decreases to - i,
    {
        out.push(s[i]);
        i = i + 1;
    }
    string_of(out.as_slice())
}

fn bracketed_text(s: &Vec<char>, from: usize, open: char) -> (r: Option<String>)
    ensures
        match r {
            Some(t) => bracketed_after(s@, from as int, open) == Some(t@),
            None => bracketed_after(s@, from as int, open) is None,
        },
{
    let o: Vec<char> = vec![open];
    assert(o@ == seq![open]);
    match find_from(s, &o, from) {
        Some(b) => match scan_close_exec(s, if b < s.len() { b + 1 } else { return None }) {
            Some(e) => Some(sub_chars(s, b, e)),
            None => None,
        },
        None => None,
    }
}

/// The document in the balanced JSON text opening with `open` after `marker`.
pub fn json_after(html: &str, marker: &str, open: char) -> (r: Option<JsonValue>)
    ensures
        match r {
            Some(v) => json_after_marker(html@, marker@, open) == Some(v@),
            None => json_after_marker(html@, marker@, open) is None,
        },
{
    let hs = chars_of(html);
    let ms = chars_of(marker);
    match find_from(&hs, &ms, 0) {
        Some(m) => {
            if m > hs.len() {
                return None;
            }
            let from = m + ms.len();
            match bracketed_text(&hs, from, open) {
                Some(t) => parse_json_text(t.as_str()),
                None => None,
            }
        },
        None => None,
    }
}

/// `json_object_after_marker`: the JSON object that follows `marker` in a page.
pub fn json_object_after_marker(html: &str, marker: &str) -> (r: Option<JsonValue>)
    ensures
        match r {
            Some(v) => json_after_marker(html@, marker@, '{') == Some(v@),
            None => json_after_marker(html@, marker@, '{') is None,
        },
{
    json_after(html, marker, '{')
}

/// `json_array_after_marker`: the JSON array that follows `marker` in a page.
pub fn json_array_after_marker(html: &str, marker: &str) -> (r: Option<JsonValue>)
    ensures
        match r {
            Some(v) => json_after_marker(html@, marker@, '[') == Some(v@),
            None => json_after_marker(html@, marker@, '[') is None,
        },
{
    json_after(html, marker, '[')
}

/// The pattern of the `<script>` element whose id is `id`.
pub open spec fn script_pattern(id: Seq<char>) -> Seq<char> {
    "(?is)<script\\b[^>]*\\bid\\s*=\\s*[\"']"@ + regex_escaped(id) + "[\"'][^>]*>(.*?)</script\\s*>"@
}

/// The document in the `<script>` element whose id is `id`.
pub open spec fn script_json(html: Seq<char>, id: Seq<char>) -> Option<Json> {
    match first_group(script_pattern(id), html, 1) {
        Some(t) => json_text_value(crate::text::trimmed(t)),
        None => None,
    }
}

/// `html_script_json`: the JSON document in the `<script>` element whose id is `id`.
pub fn html_script_json(html: &str, id: &str) -> (r: Option<JsonValue>)
    ensures
        match r {
            Some(v) => script_json(html@, id@) == Some(v@),
            None => script_json(html@, id@) is None,
        },
{
    let esc = regex_escape(id);
    let p = concat3("(?is)<script\\b[^>]*\\bid\\s*=\\s*[\"']", esc.as_str(), "[\"'][^>]*>(.*?)</script\\s*>");
    match regex_first_group(p.as_str(), html, 1) {
        Some(t) => {
            let tt = crate::text::trim(t.as_str());
            parse_json_text(tt.as_str())
        },
        None => None,
    }
}


/// The pattern of the XML element `element`.
pub open spec fn xml_element_pattern(element: Seq<char>) -> Seq<char> {
    "(?is)<"@ + regex_escaped(element) + "\\b[^>]*>(.*?)</"@ + regex_escaped(element) + "\\s*>"@
}

/// `xml_element_text`: the text of the first `element` of an XML document, when it is not
/// empty.
pub fn xml_element_text(xml: &str, element: &str) -> (r: Option<String>)
    ensures
        str_opt_of(r) == nonempty_fragment(first_group(xml_element_pattern(element@), xml@, 1)),
{
    let esc = regex_escape(element);
    let mut p = concat3("(?is)<", esc.as_str(), "\\b[^>]*>(.*?)</");
    push_str(&mut p, esc.as_str());
    push_str(&mut p, "\\s*>");
    nonempty_fragment_of(regex_first_group(p.as_str(), xml, 1))
}

/// The view of an optional owned string.
pub open spec fn str_opt_of(s: Option<String>) -> Option<Seq<char>> {
    match s {
        Some(x) => Some(x@),
        None => None,
    }
}


/// The media addresses of a page's `<video>`, `<audio>` and `<source>` elements.
pub open spec fn html5_src_pattern() -> Seq<char> {
    "(?is)<(?:video|audio|source)\\b[^>]*\\bsrc\\s*=\\s*[\"']([^\"']+)[\"']"@
}

/// The format of an HTML5 media address.
pub open spec fn html5_format(link: Seq<char>) -> Json {
    Json::Object(seq![("url"@, Json::Str(link)), ("ext"@, Json::Str(crate::extract::ext_of(link, "mp4"@)))])
}

/// The media addresses of the first `n` HTML5 media elements, resolved against `url`,
/// each once, in order.
pub open spec fn html5_links(url: Seq<char>, all: Seq<Seq<Option<Seq<char>>>>, n: int) -> Seq<Seq<char>>
    decreases n,
{
    if n <= 0 {
        Seq::empty()
    } else {
        let prev = html5_links(url, all, n - 1);
        match crate::pattern::group_at(all[n - 1], 1) {
            Some(src) => {
                let l = crate::extract::resolved(url, unescaped(src));
                if prev.contains(l) { prev } else { prev.push(l) }
            },
            None => prev,
        }
    }
}

/// `html5_media_formats`: a format for each media address of a page's HTML5 media
/// elements, resolved against `url`, each once, in order.
pub open spec fn html5_formats(url: Seq<char>, html: Seq<char>) -> Seq<Json> {
    let all = crate::pattern::regex_all_captures(html5_src_pattern(), html);
    let links = html5_links(url, all, all.len() as int);
    Seq::new(links.len(), |i: int| html5_format(links[i]))
}

/// `html5_media_formats`: the formats of a page's HTML5 media elements.
pub fn html5_media_formats(url: &str, html: &str) -> (r: Vec<JsonValue>)
    ensures
        crate::json::items_view(r@) == html5_formats(url@, html@),
{
    let all = crate::pattern::regex_captures_iter("(?is)<(?:video|audio|source)\\b[^>]*\\bsrc\\s*=\\s*[\"']([^\"']+)[\"']", html);
    let ghost av = crate::pattern::all_groups_view(all@);
    let mut links: Vec<String> = Vec::new();
    let mut i: usize = 0;
    assert(crate::framework::sources_view(links@) =~= Seq::<Seq<char>>::empty());
    while i < all.len()
        invariant
            i <= all@.len(),
            av == crate::pattern::all_groups_view(all@),
            crate::framework::sources_view(links@) == html5_links(url@, av, i as int),
        decreases all@.len() - i,
    {
        assert(av[i as int] == crate::pattern::groups_view(all@[i as int]@));
        match crate::pattern::capture_group(&all[i], 1) {
            Some(src) => {
                let l = crate::extract::resolve_url(url, unescape_html(src.as_str()).as_str());
                if !crate::sites::generic::contains_string(&links, l.as_str()) {
                    let ghost before = crate::framework::sources_view(links@);
                    let ghost lv = l@;
                    links.push(l);
                    assert(crate::framework::sources_view(links@) =~= before.push(lv));
                }
            },
            None => {},
        }
        i = i + 1;
    }
    let ghost lv = crate::framework::sources_view(links@);
    let mut out: Vec<JsonValue> = Vec::new();
    let mut j: usize = 0;
    while j < links.len()
        invariant
            j <= links@.len(),
            lv == crate::framework::sources_view(links@),
            crate::json::items_view(out@) == Seq::new(j as nat, |k: int| html5_format(lv[k])),
        decreases links@.len() - j,
    {
        let mut f = crate::json::obj_new();
        crate::json::obj_add(&mut f, "url", JsonValue::Str(links[j].clone()));
        crate::json::obj_add(&mut f, "ext", JsonValue::Str(crate::extract::determine_ext(links[j].as_str(), "mp4")));
        assert(crate::json::fields_view(f@) =~= seq![("url"@, Json::Str(lv[j as int])), ("ext"@, Json::Str(crate::extract::ext_of(lv[j as int], "mp4"@)))]);
        let ghost prev = crate::json::items_view(out@);
        let fj = crate::json::obj_done(f);
        out.push(fj);
        assert(crate::json::items_view(out@) =~= prev.push(fj@));
        assert(crate::json::items_view(out@) =~= Seq::new((j + 1) as nat, |k: int| html5_format(lv[k])));
        j = j + 1;
    }
    out
}

} // verus!
