use vstd::prelude::*;

use crate::extract::{determine_ext, ext_of, jstr, opt_str, put_opt, reply_text, reply_text_at};
use crate::framework::{Expect, ExtractorDescriptor, ExtractorError, ExtractorErrorKind, ExtractorResult, Reply, SiteMatcher, Step, descriptor_ok, descriptor_source, done_with, fail, fails_with, fetches, get_text, descriptor_error};
use crate::info::{InfoDict};
use crate::json::{Json, JsonValue, arr_add, arr_done, arr_new, items_view, json_get, json_lookup, json_str_at, json_string, lemma_array_view, obj_add, obj_done, obj_new};
use crate::jsontext::{json_value_string, value_text};
use crate::media_types::{duration_of, mime_ext, mimetype_extension, parse_duration};
use crate::page::{json_after_marker, json_object_after_marker};
use crate::pattern::{regex_matches, regex_named_capture};
use crate::text::{owned};
use crate::weburl::{query_value, url_query_value};

verus! {

/// Native Blogger video configuration extractor.
pub struct BloggerExtractor {
    site: SiteMatcher,
}

impl BloggerExtractor {
    /// The descriptor and matcher the extractor was built with.
    pub closed spec fn matcher(&self) -> SiteMatcher {
        self.site
    }

    pub fn new(descriptor: ExtractorDescriptor) -> (r: Result<Self, ExtractorError>)
        ensures
            r is Ok <==> descriptor_ok(descriptor),
            r matches Ok(x) ==> x.matcher().spec_descriptor() == descriptor
                && Some(x.matcher().source()) == descriptor_source(descriptor),
            r matches Err(e) ==> e.kind == ExtractorErrorKind::Extraction && e.message@ == descriptor_error(descriptor),
    {
        match SiteMatcher::from_descriptor(descriptor) {
            Ok(site) => Ok(BloggerExtractor { site }),
            Err(e) => Err(e),
        }
    }

    pub fn descriptor(&self) -> (r: &ExtractorDescriptor)
        ensures
            *r == self.matcher().spec_descriptor(),
    {
        self.site.descriptor()
    }

    pub fn suitable(&self, url: &str) -> (r: bool)
        ensures
            r == regex_matches(self.matcher().source(), url@),
    {
        self.site.suitable(url)
    }

    pub fn is_native(&self) -> (r: bool)
        ensures
            r,
    {
        true
    }

    pub fn native_matcher_count(&self) -> (r: usize)
        ensures
            r == 1,
    {
        1
    }
}

/// The extension of a Blogger stream: its `mime` parameter's, else the URL's own.
pub open spec fn blogger_ext(play: Seq<char>) -> Seq<char> {
    match query_value(play, "mime"@) {
        Some(m) => match mime_ext(m) {
            Some(e) => e,
            None => ext_of(play, "mp4"@),
        },
        None => ext_of(play, "mp4"@),
    }
}

/// One format per stream that has a `play_url`, in order.
pub open spec fn blogger_formats(streams: Seq<Json>) -> Seq<Json>
    decreases streams.len(),
{
    if streams.len() == 0 {
        Seq::empty()
    } else {
        let rest = blogger_formats(streams.drop_last());
        let s = streams.last();
        match json_str_at(s, "play_url"@) {
            Some(u) => rest.push(Json::Object(Seq::empty()
                .push(("url"@, Json::Str(u)))
                .push(("format_id"@, match json_lookup(s, "format_id"@) { Some(f) => Json::Str(value_text(f)), None => Json::Null }))
                .push(("ext"@, Json::Str(blogger_ext(u)))))),
            None => rest,
        }
    }
}

/// The duration that a stream URL's `dur` parameter gives.
pub open spec fn blogger_duration(first: Json) -> Option<Json> {
    match json_str_at(first, "url"@) {
        Some(u) => match query_value(u, "dur"@) {
            Some(d) => duration_of(d),
            None => None,
        },
        None => None,
    }
}

/// The metadata of a Blogger video.
pub open spec fn blogger_info(token: Seq<char>, data: Json, formats: Seq<Json>) -> Map<Seq<char>, Json> {
    let id = match json_str_at(data, "iframe_id"@) { Some(i) => i, None => token };
    let first = formats[0];
    let m0 = Map::<Seq<char>, Json>::empty().insert("id"@, Json::Str(id)).insert("title"@, Json::Str(id));
    let m1 = put_opt(m0, "thumbnail"@, opt_str(json_str_at(data, "thumbnail"@)));
    let m2 = put_opt(m1, "duration"@, blogger_duration(first));
    let m3 = put_opt(m2, "url"@, opt_str(json_str_at(first, "url"@)));
    let m4 = put_opt(m3, "ext"@, opt_str(json_str_at(first, "ext"@)));
    m4.insert("formats"@, Json::Array(formats))
}

fn blogger_ext_exec(play: &str) -> (r: String)
    ensures
        r@ == blogger_ext(play@),
{
    match url_query_value(play, "mime") {
        Some(m) => match mimetype_extension(m.as_str()) {
            Some(e) => e,
            None => determine_ext(play, "mp4"),
        },
        None => determine_ext(play, "mp4"),
    }
}

fn blogger_formats_exec(streams: &Vec<JsonValue>) -> (r: Vec<JsonValue>)
    ensures
        items_view(r@) == blogger_formats(items_view(streams@)),
{
    let mut out = arr_new();
    let mut i: usize = 0;
    while i < streams.len()
        invariant
            i <= streams@.len(),
            items_view(out@) == blogger_formats(items_view(streams@).subrange(0, i as int)),
        decreases streams@.len() - i,
    {
        assert(items_view(streams@).subrange(0, i + 1).drop_last() =~= items_view(streams@).subrange(0, i as int));
        let s = &streams[i];
        match json_string(s, "play_url") {
            Some(u) => {
                let mut f = obj_new();
                obj_add(&mut f, "url", jstr(u));
                obj_add(&mut f, "format_id", match json_value_string(json_get(s, "format_id")) { Some(t) => JsonValue::Str(t), None => JsonValue::Null });
                obj_add(&mut f, "ext", JsonValue::Str(blogger_ext_exec(u)));
                arr_add(&mut out, obj_done(f));
            },
            None => {},
        }
        i = i + 1;
    }
    assert(items_view(streams@).subrange(0, streams@.len() as int) =~= items_view(streams@));
    out
}

impl BloggerExtractor {
    /// One step of a Blogger extraction: the player page is fetched, then its
    /// `VIDEO_CONFIG` object gives the streams.
    pub fn extract_step(&self, url: &str, replies: &Vec<Reply>) -> (r: Result<Step, ExtractorError>)
        ensures
            match regex_named_capture(self.matcher().source(), url@, "id"@) {
                Some(token) => if replies@.len() == 0 {
                    fetches(r, url@, Expect::Text)
                } else {
                    match reply_text_at(replies@, 0) {
                        Some(html) => match json_after_marker(html, "var VIDEO_CONFIG"@, '{') {
                            Some(data) => match json_lookup(data, "streams"@) {
                                Some(Json::Array(streams)) => if blogger_formats(streams).len() > 0 {
                                    done_with(r, blogger_info(token, data, blogger_formats(streams)))
                                } else {
                                    fails_with(r, ExtractorErrorKind::Extraction)
                                },
                                _ => fails_with(r, ExtractorErrorKind::Extraction),
                            },
                            None => fails_with(r, ExtractorErrorKind::Extraction),
                        },
                        None => fails_with(r, ExtractorErrorKind::Extraction),
                    }
                },
                None => fails_with(r, ExtractorErrorKind::InvalidUrl),
            },
    {
        let token = match self.site.capture(url, "id") {
            Some(v) => v,
            None => return Err(fail(ExtractorErrorKind::InvalidUrl, "Blogger URL has no token")),
        };
        if replies.len() == 0 {
            return Ok(Step::Fetch(get_text(owned(url))));
        }
        let html = reply_text(replies, 0)?;
        let data = match json_object_after_marker(html.as_str(), "var VIDEO_CONFIG") {
            Some(d) => d,
            None => return Err(fail(ExtractorErrorKind::Extraction, "Blogger video has no VIDEO_CONFIG object")),
        };
        let streams = match json_get(&data, "streams") {
            Some(JsonValue::Array(a)) => a,
            _ => return Err(fail(ExtractorErrorKind::Extraction, "Blogger video has no streams")),
        };
        proof { lemma_array_view(JsonValue::Array(*streams)); }
        let formats = blogger_formats_exec(streams);
        if formats.len() == 0 {
            return Err(fail(ExtractorErrorKind::Extraction, "Blogger video has no playable streams"));
        }
        let first = &formats[0];
        let video_id = match json_string(&data, "iframe_id") { Some(i) => owned(i), None => token.clone() };
        let mut info = InfoDict::new();
        info.insert("id", JsonValue::Str(video_id.clone()));
        info.insert("title", JsonValue::Str(video_id));
        info.insert_if_some("thumbnail", match json_string(&data, "thumbnail") { Some(t) => Some(jstr(t)), None => None });
        let duration = match json_string(first, "url") {
            Some(u) => match url_query_value(u, "dur") {
                Some(d) => parse_duration(d.as_str()),
                None => None,
            },
            None => None,
        };
        info.insert_if_some("duration", duration);
        info.insert_if_some("url", match json_string(first, "url") { Some(t) => Some(jstr(t)), None => None });
        info.insert_if_some("ext", match json_string(first, "ext") { Some(t) => Some(jstr(t)), None => None });
        info.insert("formats", arr_done(formats));
        Ok(Step::Done(ExtractorResult::single(info)))
    }
}

} // verus!
