use vstd::prelude::*;

use crate::extract::{before_first, format_str, format_string, jstr, lookup_in, opt_str, opt_str_json, put_opt, reply_text, reply_text_at, str_in, str_opt_view};
use crate::framework::{Expect, ExtractorDescriptor, ExtractorError, ExtractorErrorKind, ExtractorResult, Reply, SiteMatcher, Step, descriptor_ok, descriptor_source, done_with, fail, fails_with, fetches, get_text, descriptor_error};
use crate::info::{InfoDict};
use crate::json::{Json, JsonValue, arr_add, arr_done, arr_new, fields_view, items_view, json_get, json_lookup, json_opt_view, json_str_at, json_string, lemma_array_view, obj_add, obj_done, obj_new};
use crate::media_types::{before_char};
use crate::page::{json_after_marker, json_object_after_marker};
use crate::pattern::{regex_matches, regex_named_capture};
use crate::text::{concat2, concat3, ends_with, eq_ignore_ascii_case, has_suffix, lowered, owned, to_ascii_lowercase};

verus! {

/// Native Screen9 embed-configuration extractor.
pub struct Screen9Extractor {
    site: SiteMatcher,
}

impl Screen9Extractor {
    /// The descriptor and matcher the extractor was built with.
    pub closed spec fn matcher(&self) -> SiteMatcher {
        self.site
    }

    pub fn new(descriptor: ExtractorDescriptor) -> (r: Result<Self, ExtractorError>)
        ensures
            r is Ok <==> descriptor_ok(descriptor),
            r matches Ok(x) ==> x.matcher().spec_descriptor() == descriptor
                && Some(x.matcher().source()) == descriptor_source(descriptor),
            r matches Err(e) ==> e.kind == ExtractorErrorKind::Extraction && e.message@ == descriptor_error(descriptor),
    {
        match SiteMatcher::from_descriptor(descriptor) {
            Ok(site) => Ok(Screen9Extractor { site }),
            Err(e) => Err(e),
        }
    }

    pub fn descriptor(&self) -> (r: &ExtractorDescriptor)
        ensures
            *r == self.matcher().spec_descriptor(),
    {
        self.site.descriptor()
    }

    pub fn suitable(&self, url: &str) -> (r: bool)
        ensures
            r == regex_matches(self.matcher().source(), url@),
    {
        self.site.suitable(url)
    }

    pub fn is_native(&self) -> (r: bool)
        ensures
            r,
    {
        true
    }

    pub fn native_matcher_count(&self) -> (r: usize)
        ensures
            r == 1,
    {
        1
    }
}


/// The format of a Screen9 player source, when it is HLS or MP4.
pub open spec fn s9_format(source: Json) -> Option<Json> {
    match json_str_at(source, "src"@) {
        Some(u) => if u.len() == 0 {
            None
        } else {
            let ty = match json_str_at(source, "type"@) { Some(t) => t, None => Seq::empty() };
            let path = lowered(before_first(u, '?'));
            if lowered(ty) == lowered("application/x-mpegURL"@) || has_suffix(path, ".m3u8"@) {
                Some(Json::Object(seq![
                    ("url"@, Json::Str(u)),
                    ("format_id"@, Json::Str("hls"@)),
                    ("protocol"@, Json::Str("m3u8_native"@)),
                    ("ext"@, Json::Str("mp4"@)),
                ]))
            } else if lowered(ty) == lowered("video/mp4"@) || has_suffix(path, ".mp4"@) {
                Some(Json::Object(seq![
                    ("url"@, Json::Str(u)),
                    ("format_id"@, Json::Str("http-mp4"@)),
                    ("format"@, Json::Str("mp4"@)),
                    ("ext"@, Json::Str("mp4"@)),
                ]))
            } else {
                None
            }
        },
        None => None,
    }
}

/// The formats of the first `n` player sources.
pub open spec fn s9_formats(sources: Seq<Json>, n: int) -> Seq<Json>
    decreases n,
{
    if n <= 0 {
        Seq::empty()
    } else {
        match s9_format(sources[n - 1]) {
            Some(f) => s9_formats(sources, n - 1).push(f),
            None => s9_formats(sources, n - 1),
        }
    }
}

/// The formats of a Screen9 player configuration.
pub open spec fn s9_config_formats(config: Json) -> Seq<Json> {
    match json_lookup(config, "src"@) {
        Some(Json::Array(ss)) => s9_formats(ss, ss.len() as int),
        _ => Seq::empty(),
    }
}

/// The metadata of a Screen9 embed.
pub open spec fn s9_info(id: Seq<char>, config: Json, fs: Seq<Json>) -> Map<Seq<char>, Json> {
    let plugins = json_lookup(config, "plugins"@);
    let title = match str_in(lookup_in(plugins, "title"@), "title"@) {
        Some(t) => Some(t),
        None => match str_in(lookup_in(plugins, "googleAnalytics"@), "title"@) {
            Some(t) => Some(t),
            None => str_in(lookup_in(plugins, "share"@), "mediaTitle"@),
        },
    };
    put_opt(put_opt(put_opt(put_opt(put_opt(Map::<Seq<char>, Json>::empty()
        .insert("id"@, Json::Str(id)),
        "title"@, opt_str(title)),
        "description"@, opt_str(str_in(lookup_in(plugins, "title"@), "description"@))),
        "thumbnail"@, opt_str(json_str_at(config, "poster"@))),
        "url"@, format_str(fs[0], "url"@)),
        "ext"@, format_str(fs[0], "ext"@))
        .insert("formats"@, Json::Array(fs))
}

/// A string member of member `outer` of an optional record.
fn str_member<'a>(v: Option<&'a JsonValue>, outer: &str, key: &str) -> (r: Option<&'a str>)
    ensures
        str_opt_view(r) == str_in(lookup_in(match v { Some(x) => Some(x@), None => None }, outer@), key@),
{
    match v {
        Some(x) => match json_get(x, outer) {
            Some(y) => json_string(y, key),
            None => None,
        },
        None => None,
    }
}

/// The format of a Screen9 player source.
fn s9_format_of(source: &JsonValue) -> (r: Option<JsonValue>)
    ensures
        json_opt_view(r) == s9_format(source@),
{
    let u = match json_string(source, "src") {
        Some(u) => u,
        None => return None,
    };
    if u.unicode_len() == 0 {
        return None;
    }
    let ty = match json_string(source, "type") { Some(t) => owned(t), None => String::new() };
    let path = to_ascii_lowercase(before_char(u, '?').as_str());
    let mut f = obj_new();
    if eq_ignore_ascii_case(ty.as_str(), "application/x-mpegURL") || ends_with(path.as_str(), ".m3u8") {
        obj_add(&mut f, "url", jstr(u));
        obj_add(&mut f, "format_id", jstr("hls"));
        obj_add(&mut f, "protocol", jstr("m3u8_native"));
        obj_add(&mut f, "ext", jstr("mp4"));
        let fj = obj_done(f);
        assert(Some(fj@) == s9_format(source@)) by {
            assert(fields_view(f@) =~= s9_format(source@).unwrap()->Object_0);
        }
        Some(fj)
    } else if eq_ignore_ascii_case(ty.as_str(), "video/mp4") || ends_with(path.as_str(), ".mp4") {
        obj_add(&mut f, "url", jstr(u));
        obj_add(&mut f, "format_id", jstr("http-mp4"));
        obj_add(&mut f, "format", jstr("mp4"));
        obj_add(&mut f, "ext", jstr("mp4"));
        let fj = obj_done(f);
        assert(Some(fj@) == s9_format(source@)) by {
            assert(fields_view(f@) =~= s9_format(source@).unwrap()->Object_0);
        }
        Some(fj)
    } else {
        None
    }
}

impl Screen9Extractor {
    /// One step of a Screen9 extraction: the embed page's player configuration lists the
    /// sources; the HLS and MP4 ones are the formats.
    pub fn extract_step(&self, url: &str, replies: &Vec<Reply>) -> (r: Result<Step, ExtractorError>)
        ensures
            match regex_named_capture(self.matcher().source(), url@, "id"@) {
                Some(id) => if replies@.len() == 0 {
                    fetches(r, "https://api.screen9.com/embed/"@ + id, Expect::Text)
                } else {
                    match reply_text_at(replies@, 0) {
                        Some(html) => match json_after_marker(html, "var config"@, '{') {
                            Some(config) => if s9_config_formats(config).len() > 0 {
                                done_with(r, s9_info(id, config, s9_config_formats(config)))
                            } else {
                                fails_with(r, ExtractorErrorKind::Extraction)
                            },
                            None => fails_with(r, ExtractorErrorKind::Extraction),
                        },
                        None => fails_with(r, ExtractorErrorKind::Extraction),
                    }
                },
                None => fails_with(r, ExtractorErrorKind::InvalidUrl),
            },
    {
        let video_id = match self.site.capture(url, "id") {
            Some(v) => v,
            None => return Err(fail(ExtractorErrorKind::InvalidUrl, "Screen9 URL has no media ID")),
        };
        if replies.len() == 0 {
            return Ok(Step::Fetch(get_text(concat2("https://api.screen9.com/embed/", video_id.as_str()))));
        }
        let html = reply_text(replies, 0)?;
        let config = match json_object_after_marker(html.as_str(), "var config") {
            Some(c) => c,
            None => return Err(ExtractorError::new(ExtractorErrorKind::Extraction, concat3("Screen9 embed ", video_id.as_str(), " has no player config"))),
        };
        let mut formats = arr_new();
        match json_get(&config, "src") {
            Some(x) => match x {
                JsonValue::Array(ss) => {
                    proof { lemma_array_view(*x); }
                    let ghost sv = items_view(ss@);
                    let mut i: usize = 0;
                    while i < ss.len()
                        invariant
                            i <= ss@.len(),
                            sv == items_view(ss@),
                            items_view(formats@) == s9_formats(sv, i as int),
                        decreases ss@.len() - i,
                    {
                        match s9_format_of(&ss[i]) {
                            Some(f) => arr_add(&mut formats, f),
                            None => {},
                        }
                        i = i + 1;
                    }
                },
                _ => {},
            },
            None => {},
        }
        if formats.len() == 0 {
            return Err(ExtractorError::new(ExtractorErrorKind::Extraction, concat3("Screen9 embed ", video_id.as_str(), " has no playable sources")));
        }
        let url0 = format_string(&formats[0], "url");
        let ext0 = format_string(&formats[0], "ext");
        let plugins = json_get(&config, "plugins");
        let title = match str_member(plugins, "title", "title") {
            Some(t) => Some(t),
            None => match str_member(plugins, "googleAnalytics", "title") {
                Some(t) => Some(t),
                None => str_member(plugins, "share", "mediaTitle"),
            },
        };
        let mut info = InfoDict::new();
        info.insert("id", JsonValue::Str(video_id));
        info.insert_if_some("title", opt_str_json(title));
        info.insert_if_some("description", opt_str_json(str_member(plugins, "title", "description")));
        info.insert_if_some("thumbnail", opt_str_json(json_string(&config, "poster")));
        info.insert_if_some("url", url0);
        info.insert_if_some("ext", ext0);
        info.insert("formats", arr_done(formats));
        Ok(Step::Done(ExtractorResult::single(info)))
    }
}

} // verus!
