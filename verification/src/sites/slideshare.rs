use vstd::prelude::*;

use crate::extract::{jstr, opt_str, opt_str_json, proto_relative, proto_relative_url, put_opt, reply_text, reply_text_at};
use crate::framework::{Expect, ExtractorDescriptor, ExtractorError, ExtractorErrorKind, ExtractorResult, Reply, SiteMatcher, Step, descriptor_ok, descriptor_source, done_with, fail, fails_with, fetches, get_text, descriptor_error};
use crate::html::{nonempty_fragment, nonempty_fragment_of};
use crate::info::{InfoDict};
use crate::json::{Json, JsonValue, arr_add, arr_done, arr_new, json_get, json_lookup, json_str_at, json_string, obj_add, obj_done, obj_new, str_equal};
use crate::jsontext::{json_value_string, value_text};
use crate::page::{element_by_id_pattern, html_element_by_id, json_after_marker, json_object_after_marker};
use crate::pattern::{first_group, regex_first_captures, regex_first_group, regex_matches, regex_named_capture};
use crate::text::{concat3, contains, owned};
use crate::weburl::{joined_url, url_join};

verus! {

/// Native Slideshare video extractor. The legacy page contains a JSON object
/// assigned to slideshare_object; extracting that object directly avoids a
/// browser or embedded interpreter.
pub struct SlideshareExtractor {
    site: SiteMatcher,
}

impl SlideshareExtractor {
    /// The descriptor and matcher the extractor was built with.
    pub closed spec fn matcher(&self) -> SiteMatcher {
        self.site
    }

    pub fn new(descriptor: ExtractorDescriptor) -> (r: Result<Self, ExtractorError>)
        ensures
            r is Ok <==> descriptor_ok(descriptor),
            r matches Ok(x) ==> x.matcher().spec_descriptor() == descriptor
                && Some(x.matcher().source()) == descriptor_source(descriptor),
            r matches Err(e) ==> e.kind == ExtractorErrorKind::Extraction && e.message@ == descriptor_error(descriptor),
    {
        match SiteMatcher::from_descriptor(descriptor) {
            Ok(site) => Ok(SlideshareExtractor { site }),
            Err(e) => Err(e),
        }
    }

    pub fn descriptor(&self) -> (r: &ExtractorDescriptor)
        ensures
            *r == self.matcher().spec_descriptor(),
    {
        self.site.descriptor()
    }

    pub fn suitable(&self, url: &str) -> (r: bool)
        ensures
            r == regex_matches(self.matcher().source(), url@),
    {
        self.site.suitable(url)
    }

    pub fn is_native(&self) -> (r: bool)
        ensures
            r,
    {
        true
    }

    pub fn native_matcher_count(&self) -> (r: usize)
        ensures
            r == 1,
    {
        1
    }
}

/// The description of a Slideshare page.
pub open spec fn slideshare_description(html: Seq<char>) -> Option<Seq<char>> {
    match nonempty_fragment(first_group(element_by_id_pattern("slideshow-description-paragraph"@), html, 2)) {
        Some(d) => Some(d),
        None => nonempty_fragment(first_group("(?is)<p[^>]*\\bitemprop\\s*=\\s*[\"']description[\"'][^>]*>(.*?)</p>"@, html, 1)),
    }
}

/// What a Slideshare extraction gives once its page is in.
pub open spec fn slideshare_outcome(r: Result<Step, ExtractorError>, url: Seq<char>, page_title: Seq<char>, html: Seq<char>) -> bool {
    match json_after_marker(html, "slideshare_object,"@, '{') {
        Some(payload) => match json_lookup(payload, "slideshow"@) {
            Some(slideshow) => if match json_str_at(slideshow, "type"@) { Some(t) => t, None => "unknown"@ } != "video"@ {
                fails_with(r, ExtractorErrorKind::Unsupported)
            } else {
                match (json_lookup(payload, "jsplayer"@), json_str_at(payload, "doc"@)) {
                    (Some(player), Some(doc)) => match json_str_at(player, "video_bucket"@) {
                        Some(bucket) => {
                            let ext = match json_str_at(player, "video_extension"@) { Some(e) => e, None => "mp4"@ };
                            match joined_url(proto_relative(bucket, "https:"@), doc + "-SD."@ + ext) {
                                Some(video_url) => match json_lookup(slideshow, "id"@) {
                                    Some(sid) => done_with(r, put_opt(put_opt(Map::<Seq<char>, Json>::empty()
                                        .insert("id"@, Json::Str(value_text(sid)))
                                        .insert("title"@, Json::Str(match json_str_at(slideshow, "title"@) { Some(t) => t, None => page_title }))
                                        .insert("url"@, Json::Str(video_url))
                                        .insert("ext"@, Json::Str(ext))
                                        .insert("formats"@, Json::Array(seq![Json::Object(Seq::empty()
                                            .push(("url"@, Json::Str(video_url)))
                                            .push(("format_id"@, Json::Str("sd"@)))
                                            .push(("ext"@, Json::Str(ext))))])),
                                        "thumbnail"@, opt_str(json_str_at(slideshow, "pin_image_url"@))),
                                        "description"@, opt_str(slideshare_description(html)))
                                        .insert("webpage_url"@, Json::Str(url))),
                                    None => fails_with(r, ExtractorErrorKind::Extraction),
                                },
                                None => fails_with(r, ExtractorErrorKind::Extraction),
                            }
                        },
                        None => fails_with(r, ExtractorErrorKind::Extraction),
                    },
                    _ => fails_with(r, ExtractorErrorKind::Extraction),
                }
            },
            None => fails_with(r, ExtractorErrorKind::Extraction),
        },
        None => fails_with(r, ExtractorErrorKind::Extraction),
    }
}

impl SlideshareExtractor {
    /// One step of a Slideshare extraction: the page is fetched, then the video of its
    /// slideshow object is built.
    pub fn extract_step(&self, url: &str, replies: &Vec<Reply>) -> (r: Result<Step, ExtractorError>)
        ensures
            match regex_first_captures(self.matcher().source(), url@) {
                Some(_) => if replies@.len() == 0 {
                    fetches(r, url@, Expect::Text)
                } else {
                    match reply_text_at(replies@, 0) {
                        Some(html) => slideshare_outcome(r, url@, match regex_named_capture(self.matcher().source(), url@, "title"@) {
                            Some(t) => t,
                            None => "slideshare"@,
                        }, html),
                        None => fails_with(r, ExtractorErrorKind::Extraction),
                    }
                },
                None => fails_with(r, ExtractorErrorKind::InvalidUrl),
            },
    {
        if self.site.captures(url).is_none() {
            return Err(fail(ExtractorErrorKind::InvalidUrl, "Slideshare URL did not match its native pattern"));
        }
        let page_title = match self.site.capture(url, "title") {
            Some(t) => t,
            None => owned("slideshare"),
        };
        if replies.len() == 0 {
            return Ok(Step::Fetch(get_text(owned(url))));
        }
        let html = reply_text(replies, 0)?;
        let payload = match json_object_after_marker(html.as_str(), "slideshare_object,") {
            Some(p) => p,
            None => return Err(ExtractorError::new(ExtractorErrorKind::Extraction, concat3("Slideshare page ", page_title.as_str(), " has no slideshare_object JSON"))),
        };
        let slideshow = match json_get(&payload, "slideshow") {
            Some(s) => s,
            None => return Err(fail(ExtractorErrorKind::Extraction, "Slideshare object has no slideshow metadata")),
        };
        let ty: &str = match json_string(slideshow, "type") { Some(t) => t, None => "unknown" };
        if !str_equal(ty, "video") {
            return Err(ExtractorError::new(ExtractorErrorKind::Unsupported, concat3("Slideshare slideshow type ", ty, " is not a video")));
        }
        let player = match json_get(&payload, "jsplayer") {
            Some(p) => p,
            None => return Err(fail(ExtractorErrorKind::Extraction, "Slideshare object has no jsplayer metadata")),
        };
        let doc = match json_string(&payload, "doc") {
            Some(d) => d,
            None => return Err(fail(ExtractorErrorKind::Extraction, "Slideshare object has no document name")),
        };
        let bucket = match json_string(player, "video_bucket") {
            Some(b) => b,
            None => return Err(fail(ExtractorErrorKind::Extraction, "Slideshare object has no video bucket")),
        };
        let ext: &str = match json_string(player, "video_extension") { Some(e) => e, None => "mp4" };
        let path = concat3(doc, "-SD.", ext);
        let video_url = match url_join(proto_relative_url(bucket, "https:").as_str(), path.as_str()) {
            Some(v) => v,
            None => return Err(fail(ExtractorErrorKind::Extraction, "invalid Slideshare video path")),
        };
        let sid = match json_value_string(json_get(slideshow, "id")) {
            Some(s) => s,
            None => return Err(fail(ExtractorErrorKind::Extraction, "Slideshare slideshow has no ID")),
        };
        let title = match json_string(slideshow, "title") { Some(t) => owned(t), None => page_title };
        let description = match nonempty_fragment_of(html_element_by_id(html.as_str(), "slideshow-description-paragraph")) {
            Some(d) => Some(d),
            None => nonempty_fragment_of(regex_first_group("(?is)<p[^>]*\\bitemprop\\s*=\\s*[\"']description[\"'][^>]*>(.*?)</p>", html.as_str(), 1)),
        };
        let mut info = InfoDict::new();
        info.insert("id", JsonValue::Str(sid));
        info.insert("title", JsonValue::Str(title));
        info.insert("url", JsonValue::Str(video_url.clone()));
        info.insert("ext", jstr(ext));
        let mut f = obj_new();
        obj_add(&mut f, "url", JsonValue::Str(video_url));
        obj_add(&mut f, "format_id", jstr("sd"));
        obj_add(&mut f, "ext", jstr(ext));
        let mut a = arr_new();
        arr_add(&mut a, obj_done(f));
        info.insert("formats", arr_done(a));
        info.insert_if_some("thumbnail", opt_str_json(json_string(slideshow, "pin_image_url")));
        info.insert_if_some("description", match description { Some(d) => Some(JsonValue::Str(d)), None => None });
        info.insert("webpage_url", jstr(url));
        Ok(Step::Done(ExtractorResult::single(info)))
    }
}

} // verus!
