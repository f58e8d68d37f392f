use vstd::prelude::*;

use crate::extract::{determine_ext, ext_of, jstr, opt_str, put_opt, reply_text, reply_text_at, resolve_url, resolved};
use crate::framework::{Expect, ExtractorDescriptor, ExtractorError, ExtractorErrorKind, ExtractorResult, Reply, SiteMatcher, Step, descriptor_ok, descriptor_source, done_with, fail, fails_with, fetches, get_text, descriptor_error};
use crate::html::{unescape_html, unescaped};
use crate::info::{InfoDict};
use crate::json::{Json, JsonValue, arr_add, arr_done, arr_new, fields_view, json_str_at, json_string, lemma_array_view, obj_add, obj_done, obj_new, str_equal};
use crate::jsontext::{json_text_value, parse_json_text};
use crate::page::{html_meta_value, meta_value};
use crate::pattern::{first_group, regex_first_group, regex_matches, regex_named_capture};
use crate::text::{concat2, concat3, lowered, owned, to_ascii_lowercase};

verus! {

/// Native Elonet embedded-source extractor.
pub struct ElonetExtractor {
    site: SiteMatcher,
}

impl ElonetExtractor {
    /// The descriptor and matcher the extractor was built with.
    pub closed spec fn matcher(&self) -> SiteMatcher {
        self.site
    }

    pub fn new(descriptor: ExtractorDescriptor) -> (r: Result<Self, ExtractorError>)
        ensures
            r is Ok <==> descriptor_ok(descriptor),
            r matches Ok(x) ==> x.matcher().spec_descriptor() == descriptor
                && Some(x.matcher().source()) == descriptor_source(descriptor),
            r matches Err(e) ==> e.kind == ExtractorErrorKind::Extraction && e.message@ == descriptor_error(descriptor),
    {
        match SiteMatcher::from_descriptor(descriptor) {
            Ok(site) => Ok(ElonetExtractor { site }),
            Err(e) => Err(e),
        }
    }

    pub fn descriptor(&self) -> (r: &ExtractorDescriptor)
        ensures
            *r == self.matcher().spec_descriptor(),
    {
        self.site.descriptor()
    }

    pub fn suitable(&self, url: &str) -> (r: bool)
        ensures
            r == regex_matches(self.matcher().source(), url@),
    {
        self.site.suitable(url)
    }

    pub fn is_native(&self) -> (r: bool)
        ensures
            r,
    {
        true
    }

    pub fn native_matcher_count(&self) -> (r: usize)
        ensures
            r == 1,
    {
        1
    }
}


/// Where an Elonet page gives its video sources.
pub open spec fn elonet_sources_pattern() -> Seq<char> {
    "(?is)\\bid\\s*=\\s*['\"]video-data['\"][^>]*\\bdata-video-sources\\s*=\\s*['\"]([^'\"]+)"@
}

/// The primary media address of an Elonet page at `url`, from its source document.
pub open spec fn elonet_media(url: Seq<char>, sources: Json) -> Option<Seq<char>> {
    match sources {
        Json::Array(a) => if a.len() > 0 {
            match json_str_at(a[0], "src"@) {
                Some(s) => if s.len() > 0 { Some(resolved(url, s)) } else { None },
                None => None,
            }
        } else {
            None
        },
        _ => None,
    }
}

/// The metadata of an Elonet record whose stream is `media`, of kind `fid` by `proto`.
pub open spec fn elonet_info(id: Seq<char>, html: Seq<char>, media: Seq<char>, fid: Seq<char>, proto: Seq<char>) -> Map<Seq<char>, Json> {
    put_opt(put_opt(put_opt(Map::<Seq<char>, Json>::empty()
        .insert("id"@, Json::Str(id)),
        "title"@, opt_str(meta_value(html, "og:title"@))),
        "description"@, opt_str(meta_value(html, "og:description"@))),
        "thumbnail"@, opt_str(meta_value(html, "og:image"@)))
        .insert("url"@, Json::Str(media))
        .insert("ext"@, Json::Str("mp4"@))
        .insert("formats"@, Json::Array(seq![Json::Object(seq![
            ("url"@, Json::Str(media)),
            ("format_id"@, Json::Str(fid)),
            ("protocol"@, Json::Str(proto)),
            ("ext"@, Json::Str("mp4"@)),
        ])]))
}

impl ElonetExtractor {
    /// One step of an Elonet extraction: the page's video data lists the sources; the
    /// first is the stream, HLS or DASH.
    pub fn extract_step(&self, url: &str, replies: &Vec<Reply>) -> (r: Result<Step, ExtractorError>)
        ensures
            match regex_named_capture(self.matcher().source(), url@, "id"@) {
                Some(id) => if replies@.len() == 0 {
                    fetches(r, url@, Expect::Text)
                } else {
                    match reply_text_at(replies@, 0) {
                        Some(html) => match first_group(elonet_sources_pattern(), html, 1) {
                            Some(raw) => match json_text_value(unescaped(raw)) {
                                Some(sources) => match elonet_media(url@, sources) {
                                    Some(m) => {
                                        let ext = lowered(ext_of(m, "unknown"@));
                                        if ext == "m3u8"@ {
                                            done_with(r, elonet_info(id, html, m, "hls"@, "m3u8_native"@))
                                        } else if ext == "mpd"@ {
                                            done_with(r, elonet_info(id, html, m, "dash"@, "http_dash_segments"@))
                                        } else {
                                            fails_with(r, ExtractorErrorKind::Unsupported)
                                        }
                                    },
                                    None => fails_with(r, ExtractorErrorKind::Extraction),
                                },
                                None => fails_with(r, ExtractorErrorKind::Extraction),
                            },
                            None => fails_with(r, ExtractorErrorKind::Extraction),
                        },
                        None => fails_with(r, ExtractorErrorKind::Extraction),
                    }
                },
                None => fails_with(r, ExtractorErrorKind::InvalidUrl),
            },
    {
        let video_id = match self.site.capture(url, "id") {
            Some(v) => v,
            None => return Err(fail(ExtractorErrorKind::InvalidUrl, "Elonet URL has no record ID")),
        };
        if replies.len() == 0 {
            return Ok(Step::Fetch(get_text(owned(url))));
        }
        let html = reply_text(replies, 0)?;
        let raw = match regex_first_group("(?is)\\bid\\s*=\\s*['\"]video-data['\"][^>]*\\bdata-video-sources\\s*=\\s*['\"]([^'\"]+)", html.as_str(), 1) {
            Some(r) => unescape_html(r.as_str()),
            None => return Err(ExtractorError::new(ExtractorErrorKind::Extraction, concat3("Elonet record ", video_id.as_str(), " has no video source data"))),
        };
        let sources = match parse_json_text(raw.as_str()) {
            Some(s) => s,
            None => return Err(ExtractorError::new(ExtractorErrorKind::Extraction, concat2("invalid Elonet source data for ", video_id.as_str()))),
        };
        let media = match &sources {
            JsonValue::Array(a) => {
                proof { lemma_array_view(sources); }
                if a.len() > 0 {
                    match json_string(&a[0], "src") {
                        Some(s) => if s.unicode_len() > 0 { Some(resolve_url(url, s)) } else { None },
                        None => None,
                    }
                } else {
                    None
                }
            },
            _ => None,
        };
        let media = match media {
            Some(m) => m,
            None => return Err(ExtractorError::new(ExtractorErrorKind::Extraction, concat3("Elonet record ", video_id.as_str(), " has no primary media URL"))),
        };
        let ext = to_ascii_lowercase(determine_ext(media.as_str(), "unknown").as_str());
        let (fid, proto) = if str_equal(ext.as_str(), "m3u8") {
            ("hls", "m3u8_native")
        } else if str_equal(ext.as_str(), "mpd") {
            ("dash", "http_dash_segments")
        } else {
            return Err(ExtractorError::new(ExtractorErrorKind::Unsupported, concat3("Elonet native extractor does not implement ", ext.as_str(), " stream format")));
        };
        let mut info = InfoDict::new();
        info.insert("id", JsonValue::Str(video_id));
        info.insert_if_some("title", match html_meta_value(html.as_str(), "og:title") { Some(t) => Some(JsonValue::Str(t)), None => None });
        info.insert_if_some("description", match html_meta_value(html.as_str(), "og:description") { Some(t) => Some(JsonValue::Str(t)), None => None });
        info.insert_if_some("thumbnail", match html_meta_value(html.as_str(), "og:image") { Some(t) => Some(JsonValue::Str(t)), None => None });
        info.insert("url", jstr(media.as_str()));
        info.insert("ext", jstr("mp4"));
        let mut f = obj_new();
        obj_add(&mut f, "url", jstr(media.as_str()));
        obj_add(&mut f, "format_id", jstr(fid));
        obj_add(&mut f, "protocol", jstr(proto));
        obj_add(&mut f, "ext", jstr("mp4"));
        assert(fields_view(f@) =~= seq![
            ("url"@, Json::Str(media@)),
            ("format_id"@, Json::Str(fid@)),
            ("protocol"@, Json::Str(proto@)),
            ("ext"@, Json::Str("mp4"@)),
        ]);
        let mut a = arr_new();
        arr_add(&mut a, obj_done(f));
        info.insert("formats", arr_done(a));
        Ok(Step::Done(ExtractorResult::single(info)))
    }
}

} // verus!
