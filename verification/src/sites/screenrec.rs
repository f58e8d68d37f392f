use vstd::prelude::*;

use crate::extract::{first_str, jstr, opt_str, proto_relative, proto_relative_url, put_opt, reply_text, reply_text_at};
use crate::framework::{Expect, ExtractorDescriptor, ExtractorError, ExtractorErrorKind, ExtractorResult, Reply, SiteMatcher, Step, descriptor_ok, descriptor_source, done_with, fail, fails_with, fetches, get_text, descriptor_error};
use crate::html::{unescape_html, unescaped};
use crate::info::{InfoDict};
use crate::json::{Json, JsonValue, arr_add, arr_done, arr_new, fields_view, obj_add, obj_done, obj_new};
use crate::page::{html_meta_value, html_title_value, meta_value, title_value};
use crate::pattern::{regex_capture_name, regex_compiles, regex_matches, regex_named_capture, regex_valid};
use crate::text::{concat3, owned};

verus! {

/// Native ScreenRec page extractor. The player configuration embeds an HLS
/// URL and the page supplies OpenGraph metadata.
pub struct ScreenRecExtractor {
    site: SiteMatcher,
}

impl ScreenRecExtractor {
    /// The descriptor and matcher the extractor was built with.
    pub closed spec fn matcher(&self) -> SiteMatcher {
        self.site
    }

    pub fn new(descriptor: ExtractorDescriptor) -> (r: Result<Self, ExtractorError>)
        ensures
            r is Ok <==> descriptor_ok(descriptor),
            r matches Ok(x) ==> x.matcher().spec_descriptor() == descriptor
                && Some(x.matcher().source()) == descriptor_source(descriptor),
            r matches Err(e) ==> e.kind == ExtractorErrorKind::Extraction && e.message@ == descriptor_error(descriptor),
    {
        match SiteMatcher::from_descriptor(descriptor) {
            Ok(site) => Ok(ScreenRecExtractor { site }),
            Err(e) => Err(e),
        }
    }

    pub fn descriptor(&self) -> (r: &ExtractorDescriptor)
        ensures
            *r == self.matcher().spec_descriptor(),
    {
        self.site.descriptor()
    }

    pub fn suitable(&self, url: &str) -> (r: bool)
        ensures
            r == regex_matches(self.matcher().source(), url@),
    {
        self.site.suitable(url)
    }

    pub fn is_native(&self) -> (r: bool)
        ensures
            r,
    {
        true
    }

    pub fn native_matcher_count(&self) -> (r: usize)
        ensures
            r == 1,
    {
        1
    }
}


/// Where a ScreenRec page gives its HLS address.
pub open spec fn screenrec_pattern() -> Seq<char> {
    "(?is)\\bcustomUrl\\s*:\\s*([\"'])(?P<url>(?:(?!\\1).)+)\\1"@
}

/// The metadata of a ScreenRec video.
pub open spec fn screenrec_info(id: Seq<char>, html: Seq<char>, media: Seq<char>) -> Map<Seq<char>, Json> {
    put_opt(put_opt(Map::<Seq<char>, Json>::empty()
        .insert("id"@, Json::Str(id))
        .insert("title"@, Json::Str(match first_str(meta_value(html, "og:title"@), title_value(html)) { Some(t) => t, None => id })),
        "description"@, opt_str(meta_value(html, "og:description"@))),
        "thumbnail"@, opt_str(meta_value(html, "og:image"@)))
        .insert("url"@, Json::Str(media))
        .insert("ext"@, Json::Str("mp4"@))
        .insert("formats"@, Json::Array(seq![Json::Object(seq![
            ("url"@, Json::Str(media)),
            ("format_id"@, Json::Str("hls"@)),
            ("ext"@, Json::Str("mp4"@)),
            ("protocol"@, Json::Str("m3u8_native"@)),
        ])]))
}

impl ScreenRecExtractor {
    /// One step of a ScreenRec extraction: the page is fetched, and its player's custom
    /// address is the HLS stream.
    pub fn extract_step(&self, url: &str, replies: &Vec<Reply>) -> (r: Result<Step, ExtractorError>)
        ensures
            match regex_named_capture(self.matcher().source(), url@, "id"@) {
                Some(id) => if replies@.len() == 0 {
                    fetches(r, url@, Expect::Text)
                } else {
                    match reply_text_at(replies@, 0) {
                        Some(html) => if !regex_valid(screenrec_pattern()) {
                            fails_with(r, ExtractorErrorKind::Extraction)
                        } else {
                            match regex_named_capture(screenrec_pattern(), html, "url"@) {
                                Some(u) => if unescaped(u).len() > 0 {
                                    done_with(r, screenrec_info(id, html, proto_relative(unescaped(u), "https:"@)))
                                } else {
                                    fails_with(r, ExtractorErrorKind::Extraction)
                                },
                                None => fails_with(r, ExtractorErrorKind::Extraction),
                            }
                        },
                        None => fails_with(r, ExtractorErrorKind::Extraction),
                    }
                },
                None => fails_with(r, ExtractorErrorKind::InvalidUrl),
            },
    {
        let video_id = match self.site.capture(url, "id") {
            Some(v) => v,
            None => return Err(fail(ExtractorErrorKind::InvalidUrl, "ScreenRec URL has no ID")),
        };
        if replies.len() == 0 {
            return Ok(Step::Fetch(get_text(owned(url))));
        }
        let html = reply_text(replies, 0)?;
        let pattern = "(?is)\\bcustomUrl\\s*:\\s*([\"'])(?P<url>(?:(?!\\1).)+)\\1";
        if !regex_compiles(pattern) {
            return Err(fail(ExtractorErrorKind::Extraction, "invalid ScreenRec player matcher"));
        }
        let raw = match regex_capture_name(pattern, html.as_str(), "url") {
            Some(u) => unescape_html(u.as_str()),
            None => return Err(ExtractorError::new(ExtractorErrorKind::Extraction, concat3("ScreenRec video ", video_id.as_str(), " has no HLS URL"))),
        };
        if raw.unicode_len() == 0 {
            return Err(ExtractorError::new(ExtractorErrorKind::Extraction, concat3("ScreenRec video ", video_id.as_str(), " has an empty HLS URL")));
        }
        let media = proto_relative_url(raw.as_str(), "https:");
        let mut info = InfoDict::new();
        info.insert("id", JsonValue::Str(video_id.clone()));
        let title = match html_meta_value(html.as_str(), "og:title") {
            Some(t) => t,
            None => match html_title_value(html.as_str()) { Some(t) => t, None => video_id.clone() },
        };
        info.insert("title", JsonValue::Str(title));
        info.insert_if_some("description", match html_meta_value(html.as_str(), "og:description") { Some(t) => Some(JsonValue::Str(t)), None => None });
        info.insert_if_some("thumbnail", match html_meta_value(html.as_str(), "og:image") { Some(t) => Some(JsonValue::Str(t)), None => None });
        info.insert("url", jstr(media.as_str()));
        info.insert("ext", jstr("mp4"));
        let mut f = obj_new();
        obj_add(&mut f, "url", jstr(media.as_str()));
        obj_add(&mut f, "format_id", jstr("hls"));
        obj_add(&mut f, "ext", jstr("mp4"));
        obj_add(&mut f, "protocol", jstr("m3u8_native"));
        assert(fields_view(f@) =~= seq![
            ("url"@, Json::Str(media@)),
            ("format_id"@, Json::Str("hls"@)),
            ("ext"@, Json::Str("mp4"@)),
            ("protocol"@, Json::Str("m3u8_native"@)),
        ]);
        let mut a = arr_new();
        arr_add(&mut a, obj_done(f));
        info.insert("formats", arr_done(a));
        Ok(Step::Done(ExtractorResult::single(info)))
    }
}

} // verus!
