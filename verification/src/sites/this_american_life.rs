use vstd::prelude::*;

use crate::extract::{jstr, opt_str, put_opt, reply_text, reply_text_at};
use crate::framework::{Expect, ExtractorDescriptor, ExtractorError, ExtractorErrorKind, ExtractorResult, Reply, SiteMatcher, Step, descriptor_ok, descriptor_source, done_with, fail, fails_with, fetches, get_text, descriptor_error};
use crate::info::{InfoDict};
use crate::json::{Json, JsonValue, arr_add, arr_done, arr_new, obj_add, obj_done, obj_new};
use crate::page::{html_meta_value, meta_value};
use crate::pattern::{regex_matches, regex_named_capture};
use crate::text::{concat2, concat4, push_str};

verus! {

/// Native This American Life archive/audio extractor.
pub struct ThisAmericanLifeExtractor {
    site: SiteMatcher,
}

impl ThisAmericanLifeExtractor {
    /// The descriptor and matcher the extractor was built with.
    pub closed spec fn matcher(&self) -> SiteMatcher {
        self.site
    }

    pub fn new(descriptor: ExtractorDescriptor) -> (r: Result<Self, ExtractorError>)
        ensures
            r is Ok <==> descriptor_ok(descriptor),
            r matches Ok(x) ==> x.matcher().spec_descriptor() == descriptor
                && Some(x.matcher().source()) == descriptor_source(descriptor),
            r matches Err(e) ==> e.kind == ExtractorErrorKind::Extraction && e.message@ == descriptor_error(descriptor),
    {
        match SiteMatcher::from_descriptor(descriptor) {
            Ok(site) => Ok(ThisAmericanLifeExtractor { site }),
            Err(e) => Err(e),
        }
    }

    pub fn descriptor(&self) -> (r: &ExtractorDescriptor)
        ensures
            *r == self.matcher().spec_descriptor(),
    {
        self.site.descriptor()
    }

    pub fn suitable(&self, url: &str) -> (r: bool)
        ensures
            r == regex_matches(self.matcher().source(), url@),
    {
        self.site.suitable(url)
    }

    pub fn is_native(&self) -> (r: bool)
        ensures
            r,
    {
        true
    }

    pub fn native_matcher_count(&self) -> (r: usize)
        ensures
            r == 1,
    {
        1
    }
}

/// The episode page of a This American Life episode.
pub open spec fn tal_page_url(id: Seq<char>) -> Seq<char> {
    "http://www.thisamericanlife.org/radio-archives/episode/"@ + id
}

/// The metadata of a This American Life episode from its ID and its page.
pub open spec fn tal_info(id: Seq<char>, html: Seq<char>) -> Map<Seq<char>, Json> {
    let stream = "http://stream.thisamericanlife.org/"@ + id + "/stream/"@ + id + "_64k.m3u8"@;
    let m0 = Map::<Seq<char>, Json>::empty().insert("id"@, Json::Str(id)).insert("url"@, Json::Str(stream))
        .insert("protocol"@, Json::Str("m3u8_native"@)).insert("ext"@, Json::Str("m4a"@))
        .insert("acodec"@, Json::Str("aac"@)).insert("vcodec"@, Json::Str("none"@)).insert("abr"@, Json::Int(64));
    let m1 = m0.insert("title"@, Json::Str(match meta_value(html, "twitter:title"@) { Some(t) => t, None => id }));
    let m2 = put_opt(m1, "description"@, opt_str(meta_value(html, "description"@)));
    let m3 = put_opt(m2, "thumbnail"@, opt_str(meta_value(html, "og:image"@)));
    m3.insert("formats"@, Json::Array(seq![Json::Object(Seq::empty()
        .push(("url"@, Json::Str(stream)))
        .push(("format_id"@, Json::Str("hls"@)))
        .push(("protocol"@, Json::Str("m3u8_native"@)))
        .push(("ext"@, Json::Str("m4a"@)))
        .push(("acodec"@, Json::Str("aac"@)))
        .push(("vcodec"@, Json::Str("none"@)))
        .push(("abr"@, Json::Int(64))))]))
}

impl ThisAmericanLifeExtractor {
    /// One step of a This American Life extraction: the episode page is fetched, then
    /// the episode's metadata is built from it.
    pub fn extract_step(&self, url: &str, replies: &Vec<Reply>) -> (r: Result<Step, ExtractorError>)
        ensures
            match regex_named_capture(self.matcher().source(), url@, "id"@) {
                Some(id) => if replies@.len() == 0 {
                    fetches(r, tal_page_url(id), Expect::Text)
                } else {
                    match reply_text_at(replies@, 0) {
                        Some(html) => done_with(r, tal_info(id, html)),
                        None => fails_with(r, ExtractorErrorKind::Extraction),
                    }
                },
                None => fails_with(r, ExtractorErrorKind::InvalidUrl),
            },
    {
        let video_id = match self.site.capture(url, "id") {
            Some(v) => v,
            None => return Err(fail(ExtractorErrorKind::InvalidUrl, "This American Life URL has no ID")),
        };
        if replies.len() == 0 {
            return Ok(Step::Fetch(get_text(concat2("http://www.thisamericanlife.org/radio-archives/episode/", video_id.as_str()))));
        }
        let html = reply_text(replies, 0)?;
        let mut stream = concat4("http://stream.thisamericanlife.org/", video_id.as_str(), "/stream/", video_id.as_str());
        push_str(&mut stream, "_64k.m3u8");
        let mut info = InfoDict::new();
        info.insert("id", JsonValue::Str(video_id.clone()));
        info.insert("url", JsonValue::Str(stream.clone()));
        info.insert("protocol", jstr("m3u8_native"));
        info.insert("ext", jstr("m4a"));
        info.insert("acodec", jstr("aac"));
        info.insert("vcodec", jstr("none"));
        info.insert("abr", JsonValue::Int(64));
        let title = match html_meta_value(html.as_str(), "twitter:title") { Some(t) => t, None => video_id.clone() };
        info.insert("title", JsonValue::Str(title));
        info.insert_if_some("description", match html_meta_value(html.as_str(), "description") { Some(v) => Some(JsonValue::Str(v)), None => None });
        info.insert_if_some("thumbnail", match html_meta_value(html.as_str(), "og:image") { Some(v) => Some(JsonValue::Str(v)), None => None });
        let mut f = obj_new();
        obj_add(&mut f, "url", JsonValue::Str(stream.clone()));
        obj_add(&mut f, "format_id", jstr("hls"));
        obj_add(&mut f, "protocol", jstr("m3u8_native"));
        obj_add(&mut f, "ext", jstr("m4a"));
        obj_add(&mut f, "acodec", jstr("aac"));
        obj_add(&mut f, "vcodec", jstr("none"));
        obj_add(&mut f, "abr", JsonValue::Int(64));
        let mut items = arr_new();
        arr_add(&mut items, obj_done(f));
        info.insert("formats", arr_done(items));
        Ok(Step::Done(ExtractorResult::single(info)))
    }
}

} // verus!
