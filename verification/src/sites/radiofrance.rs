use vstd::prelude::*;

use crate::extract::{determine_ext, ext_of, http_address, is_http, jstr, opt_str, put_opt, reply_text, reply_text_at};
use crate::framework::{Expect, ExtractorDescriptor, ExtractorError, ExtractorErrorKind, ExtractorResult, Reply, SiteMatcher, Step, descriptor_ok, descriptor_source, done_with, fail, fails_with, fetches, get_text, descriptor_error};
use crate::html::{nonempty_fragment, nonempty_fragment_of, unescape_html, unescaped};
use crate::info::{InfoDict};
use crate::json::{Json, JsonValue, arr_done, fields_view, items_view, obj_add, obj_done, obj_new};
use crate::page::{str_opt_of};
use crate::pattern::{all_groups_view, capture_group, first_group, group_at, groups_view, regex_all_captures, regex_captures_iter, regex_compiles, regex_escape, regex_escaped, regex_first_group, regex_matches, regex_named_capture, regex_valid};
use crate::text::{concat3, owned, push_str};

verus! {

/// Native Radio France Radiovisions audio-source-map extractor.
pub struct RadioFranceExtractor {
    site: SiteMatcher,
}

impl RadioFranceExtractor {
    /// The descriptor and matcher the extractor was built with.
    pub closed spec fn matcher(&self) -> SiteMatcher {
        self.site
    }

    pub fn new(descriptor: ExtractorDescriptor) -> (r: Result<Self, ExtractorError>)
        ensures
            r is Ok <==> descriptor_ok(descriptor),
            r matches Ok(x) ==> x.matcher().spec_descriptor() == descriptor
                && Some(x.matcher().source()) == descriptor_source(descriptor),
            r matches Err(e) ==> e.kind == ExtractorErrorKind::Extraction && e.message@ == descriptor_error(descriptor),
    {
        match SiteMatcher::from_descriptor(descriptor) {
            Ok(site) => Ok(RadioFranceExtractor { site }),
            Err(e) => Err(e),
        }
    }

    pub fn descriptor(&self) -> (r: &ExtractorDescriptor)
        ensures
            *r == self.matcher().spec_descriptor(),
    {
        self.site.descriptor()
    }

    pub fn suitable(&self, url: &str) -> (r: bool)
        ensures
            r == regex_matches(self.matcher().source(), url@),
    {
        self.site.suitable(url)
    }

    pub fn is_native(&self) -> (r: bool)
        ensures
            r,
    {
        true
    }

    pub fn native_matcher_count(&self) -> (r: usize)
        ensures
            r == 1,
    {
        1
    }
}


/// Where a Radiovisions page gives its title.
pub open spec fn rf_title_pattern() -> Seq<char> {
    "(?is)<h1\\b[^>]*>(.*?)</h1\\s*>"@
}

/// Where a Radiovisions page gives its player's sources, with double or single quotes.
pub open spec fn rf_source_patterns() -> (Seq<char>, Seq<char>) {
    ("(?is)<[^>]*\\bclass\\s*=\\s*\"[^\"]*\\bjp-jplayer\\b[^\"]*\"[^>]*\\bdata-source\\s*=\\s*\"([^\"]+)\""@,
     "(?is)<[^>]*\\bclass\\s*=\\s*'[^']*\\bjp-jplayer\\b[^']*'[^>]*\\bdata-source\\s*=\\s*'([^']+)'"@)
}

/// The entries of a player's source map.
pub open spec fn rf_entry_pattern() -> Seq<char> {
    "(?i)([a-z0-9]+)\\s*:\\s*'([^']+)'"@
}

/// Where a Radiovisions page credits its author.
pub open spec fn rf_credit_pattern() -> Seq<char> {
    "(?is)<div\\b[^>]*\\bclass\\s*=\\s*[\"']credit[\"'][^>]*>&nbsp;&nbsp;&copy;&nbsp;(.*?)</div\\s*>"@
}

/// The pattern of the block of class `inner` directly inside one of class `outer`.
pub open spec fn rf_block_pattern(outer: Seq<char>, inner: Seq<char>) -> Seq<char> {
    "(?is)<div\\b[^>]*\\bclass\\s*=\\s*[\"']"@ + regex_escaped(outer)
        + "[\"'][^>]*>\\s*<div\\b[^>]*\\bclass\\s*=\\s*[\"']"@ + regex_escaped(inner)
        + "[\"'][^>]*>(.*?)</div\\s*>"@
}

/// `radiofrance_source_map`: the player's source map.
pub open spec fn rf_source_map(html: Seq<char>) -> Option<Seq<char>> {
    match first_group(rf_source_patterns().0, html, 1) {
        Some(v) => Some(unescaped(v)),
        None => match first_group(rf_source_patterns().1, html, 1) {
            Some(v) => Some(unescaped(v)),
            None => None,
        },
    }
}

/// The format of source map entry `q` (its groups `g`), when its address is a web address.
pub open spec fn rf_format(g: Seq<Option<Seq<char>>>, q: int) -> Option<Json> {
    match (group_at(g, 1), group_at(g, 2)) {
        (Some(id), Some(raw)) => {
            let u = unescaped(raw);
            if is_http(u) {
                Some(Json::Object(seq![
                    ("format_id"@, Json::Str(id)),
                    ("url"@, Json::Str(u)),
                    ("ext"@, Json::Str(ext_of(u, id))),
                    ("vcodec"@, Json::Str("none"@)),
                    ("quality"@, Json::Int((q as i64) as int)),
                ]))
            } else {
                None
            }
        },
        _ => None,
    }
}

/// The formats of the first `n` source map entries; each entry's position, as an `i64`,
/// is its quality.
pub open spec fn rf_formats_upto(all: Seq<Seq<Option<Seq<char>>>>, n: int) -> Seq<Json>
    decreases n,
{
    if n <= 0 {
        Seq::empty()
    } else {
        let prev = rf_formats_upto(all, n - 1);
        match rf_format(all[n - 1], n - 1) {
            Some(f) => prev.push(f),
            None => prev,
        }
    }
}

/// `radiofrance_formats`: the formats of a source map.
pub open spec fn rf_formats(map: Seq<char>) -> Seq<Json> {
    if !regex_valid(rf_entry_pattern()) {
        Seq::empty()
    } else {
        let all = regex_all_captures(rf_entry_pattern(), map);
        rf_formats_upto(all, all.len() as int)
    }
}

/// The metadata of a Radiovisions page.
pub open spec fn rf_info(id: Seq<char>, title: Seq<char>, fs: Seq<Json>, html: Seq<char>) -> Map<Seq<char>, Json> {
    put_opt(put_opt(Map::<Seq<char>, Json>::empty()
        .insert("id"@, Json::Str(id))
        .insert("title"@, Json::Str(title))
        .insert("formats"@, Json::Array(fs)),
        "description"@, opt_str(nonempty_fragment(first_group(rf_block_pattern("bloc_page_wrapper"@, "text"@), html, 1)))),
        "uploader"@, opt_str(nonempty_fragment(first_group(rf_credit_pattern(), html, 1))))
        .insert("subtitles"@, Json::Object(Seq::empty()))
}

/// `radiofrance_formats`: the formats of a player's source map.
pub fn radiofrance_formats(map: &str) -> (r: Vec<JsonValue>)
    ensures
        items_view(r@) == rf_formats(map@),
{
    let pattern = "(?i)([a-z0-9]+)\\s*:\\s*'([^']+)'";
    if !regex_compiles(pattern) {
        let r: Vec<JsonValue> = Vec::new();
        assert(items_view(r@) =~= Seq::<Json>::empty());
        return r;
    }
    let all = regex_captures_iter(pattern, map);
    let ghost av = all_groups_view(all@);
    let mut out: Vec<JsonValue> = Vec::new();
    let mut i: usize = 0;
    assert(items_view(out@) =~= Seq::<Json>::empty());
    while i < all.len()
        invariant
            i <= all@.len(),
            av == all_groups_view(all@),
            items_view(out@) == rf_formats_upto(av, i as int),
        decreases all@.len() - i,
    {
        assert(av[i as int] == groups_view(all@[i as int]@));
        let id = capture_group(&all[i], 1);
        let raw = capture_group(&all[i], 2);
        match (id, raw) {
            (Some(id), Some(raw)) => {
                let u = unescape_html(raw.as_str());
                if http_address(u.as_str()) {
                    let ext = determine_ext(u.as_str(), id.as_str());
                    let mut f = obj_new();
                    obj_add(&mut f, "format_id", JsonValue::Str(id.clone()));
                    obj_add(&mut f, "url", jstr(u.as_str()));
                    obj_add(&mut f, "ext", JsonValue::Str(ext));
                    obj_add(&mut f, "vcodec", jstr("none"));
                    obj_add(&mut f, "quality", JsonValue::Int(#[verifier::truncate] (i as i64)));
                    let ghost before = items_view(out@);
                    let fj = obj_done(f);
                    assert(fj@ == rf_format(av[i as int], i as int).unwrap()) by {
                        assert(fields_view(f@) =~= seq![
                            ("format_id"@, Json::Str(id@)),
                            ("url"@, Json::Str(u@)),
                            ("ext"@, Json::Str(ext_of(u@, id@))),
                            ("vcodec"@, Json::Str("none"@)),
                            ("quality"@, Json::Int(((i as int) as i64) as int)),
                        ]);
                    }
                    out.push(fj);
                    assert(items_view(out@) =~= before.push(fj@));
                }
            },
            _ => {},
        }
        i = i + 1;
    }
    out
}

/// The text of group 1 of `pattern` in `html`, when it is not empty.
fn fragment_group(pattern: &str, html: &str) -> (r: Option<String>)
    ensures
        str_opt_of(r) == nonempty_fragment(first_group(pattern@, html@, 1)),
{
    nonempty_fragment_of(regex_first_group(pattern, html, 1))
}

impl RadioFranceExtractor {
    /// One step of a Radio France Radiovisions extraction: the page is fetched, and its
    /// player's source map gives the audio formats.
    pub fn extract_step(&self, url: &str, replies: &Vec<Reply>) -> (r: Result<Step, ExtractorError>)
        ensures
            match regex_named_capture(self.matcher().source(), url@, "id"@) {
                Some(id) => if replies@.len() == 0 {
                    fetches(r, url@, Expect::Text)
                } else {
                    match reply_text_at(replies@, 0) {
                        Some(html) => match nonempty_fragment(first_group(rf_title_pattern(), html, 1)) {
                            Some(title) => match rf_source_map(html) {
                                Some(map) => if rf_formats(map).len() > 0 {
                                    done_with(r, rf_info(id, title, rf_formats(map), html))
                                } else {
                                    fails_with(r, ExtractorErrorKind::Extraction)
                                },
                                None => fails_with(r, ExtractorErrorKind::Extraction),
                            },
                            None => fails_with(r, ExtractorErrorKind::Extraction),
                        },
                        None => fails_with(r, ExtractorErrorKind::Extraction),
                    }
                },
                None => fails_with(r, ExtractorErrorKind::InvalidUrl),
            },
    {
        let video_id = match self.site.capture(url, "id") {
            Some(v) => v,
            None => return Err(fail(ExtractorErrorKind::InvalidUrl, "Radio France Radiovisions URL has no ID")),
        };
        if replies.len() == 0 {
            return Ok(Step::Fetch(get_text(owned(url))));
        }
        let html = reply_text(replies, 0)?;
        let title = match fragment_group("(?is)<h1\\b[^>]*>(.*?)</h1\\s*>", html.as_str()) {
            Some(t) => t,
            None => return Err(ExtractorError::new(ExtractorErrorKind::Extraction, concat3("Radio France Radiovisions ", video_id.as_str(), " has no title"))),
        };
        let map = match regex_first_group("(?is)<[^>]*\\bclass\\s*=\\s*\"[^\"]*\\bjp-jplayer\\b[^\"]*\"[^>]*\\bdata-source\\s*=\\s*\"([^\"]+)\"", html.as_str(), 1) {
            Some(v) => unescape_html(v.as_str()),
            None => match regex_first_group("(?is)<[^>]*\\bclass\\s*=\\s*'[^']*\\bjp-jplayer\\b[^']*'[^>]*\\bdata-source\\s*=\\s*'([^']+)'", html.as_str(), 1) {
                Some(v) => unescape_html(v.as_str()),
                None => return Err(ExtractorError::new(ExtractorErrorKind::Extraction, concat3("Radio France Radiovisions ", video_id.as_str(), " has no audio URLs"))),
            },
        };
        let formats = radiofrance_formats(map.as_str());
        if formats.len() == 0 {
            return Err(ExtractorError::new(ExtractorErrorKind::Extraction, concat3("Radio France Radiovisions ", video_id.as_str(), " has no usable audio URLs")));
        }
        let outer = regex_escape("bloc_page_wrapper");
        let inner = regex_escape("text");
        let mut block = concat3("(?is)<div\\b[^>]*\\bclass\\s*=\\s*[\"']", outer.as_str(), "[\"'][^>]*>\\s*<div\\b[^>]*\\bclass\\s*=\\s*[\"']");
        push_str(&mut block, inner.as_str());
        push_str(&mut block, "[\"'][^>]*>(.*?)</div\\s*>");
        let mut info = InfoDict::new();
        info.insert("id", JsonValue::Str(video_id));
        info.insert("title", JsonValue::Str(title));
        info.insert("formats", arr_done(formats));
        info.insert_if_some("description", match fragment_group(block.as_str(), html.as_str()) { Some(d) => Some(JsonValue::Str(d)), None => None });
        info.insert_if_some("uploader", match fragment_group("(?is)<div\\b[^>]*\\bclass\\s*=\\s*[\"']credit[\"'][^>]*>&nbsp;&nbsp;&copy;&nbsp;(.*?)</div\\s*>", html.as_str()) { Some(d) => Some(JsonValue::Str(d)), None => None });
        let subs = obj_done(obj_new());
        assert(subs@ =~= Json::Object(Seq::empty()));
        info.insert("subtitles", subs);
        Ok(Step::Done(ExtractorResult::single(info)))
    }
}

} // verus!
