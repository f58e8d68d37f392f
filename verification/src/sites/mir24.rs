use vstd::prelude::*;

use crate::extract::{jstr, opt_str, proto_relative, proto_relative_url, put_opt, reply_text, reply_text_at};
use crate::framework::{Expect, ExtractorDescriptor, ExtractorError, ExtractorErrorKind, ExtractorResult, Reply, SiteMatcher, Step, descriptor_ok, descriptor_source, done_with, fail, fails_with, fetches, get_text, descriptor_error};
use crate::info::{InfoDict};
use crate::json::{Json, JsonValue, arr_add, arr_done, arr_new, obj_add, obj_done, obj_new};
use crate::page::{html_meta_value, html_title_value, meta_value, title_value};
use crate::pattern::{first_group, regex_first_group, regex_matches, regex_named_capture};
use crate::text::{owned};
use crate::weburl::{first_pair_value, url_query_pairs, url_query_pairs_of, url_query_value};

verus! {

/// Native Mir24 article iframe/HLS extractor.
pub struct Mir24TvExtractor {
    site: SiteMatcher,
}

impl Mir24TvExtractor {
    /// The descriptor and matcher the extractor was built with.
    pub closed spec fn matcher(&self) -> SiteMatcher {
        self.site
    }

    pub fn new(descriptor: ExtractorDescriptor) -> (r: Result<Self, ExtractorError>)
        ensures
            r is Ok <==> descriptor_ok(descriptor),
            r matches Ok(x) ==> x.matcher().spec_descriptor() == descriptor
                && Some(x.matcher().source()) == descriptor_source(descriptor),
            r matches Err(e) ==> e.kind == ExtractorErrorKind::Extraction && e.message@ == descriptor_error(descriptor),
    {
        match SiteMatcher::from_descriptor(descriptor) {
            Ok(site) => Ok(Mir24TvExtractor { site }),
            Err(e) => Err(e),
        }
    }

    pub fn descriptor(&self) -> (r: &ExtractorDescriptor)
        ensures
            *r == self.matcher().spec_descriptor(),
    {
        self.site.descriptor()
    }

    pub fn suitable(&self, url: &str) -> (r: bool)
        ensures
            r == regex_matches(self.matcher().source(), url@),
    {
        self.site.suitable(url)
    }

    pub fn is_native(&self) -> (r: bool)
        ensures
            r,
    {
        true
    }

    pub fn native_matcher_count(&self) -> (r: usize)
        ensures
            r == 1,
    {
        1
    }
}

/// The pattern of a Mir24 article's player iframe.
pub open spec fn mir24_iframe_pattern() -> Seq<char> {
    "(?is)<iframe\\b[^>]+\\bsrc\\s*=\\s*[\"'](https?://mir24\\.tv/players/[^\"']+)"@
}

/// The title of a Mir24 article page: its og:title, else its page title, else the ID.
pub open spec fn mir24_title(id: Seq<char>, html: Seq<char>) -> Seq<char> {
    match meta_value(html, "og:title"@) {
        Some(t) => t,
        None => match title_value(html) { Some(t) => t, None => id },
    }
}

/// The media address that a Mir24 player URL's `source` parameter gives.
pub open spec fn mir24_media(player: Seq<char>) -> Option<Seq<char>> {
    match url_query_pairs_of(player) {
        Some(pairs) => match first_pair_value(pairs, "source"@) {
            Some(v) => if proto_relative(v, "https:"@).len() > 0 { Some(proto_relative(v, "https:"@)) } else { None },
            None => None,
        },
        None => None,
    }
}

/// The metadata of a Mir24 article video.
pub open spec fn mir24_info(id: Seq<char>, html: Seq<char>, media: Seq<char>) -> Map<Seq<char>, Json> {
    let m0 = Map::<Seq<char>, Json>::empty().insert("id"@, Json::Str(id)).insert("title"@, Json::Str(mir24_title(id, html)));
    let m1 = put_opt(m0, "thumbnail"@, opt_str(meta_value(html, "og:image"@)));
    m1.insert("url"@, Json::Str(media)).insert("ext"@, Json::Str("mp4"@))
        .insert("formats"@, Json::Array(seq![Json::Object(Seq::empty()
            .push(("url"@, Json::Str(media)))
            .push(("format_id"@, Json::Str("hls"@)))
            .push(("ext"@, Json::Str("mp4"@)))
            .push(("protocol"@, Json::Str("m3u8_native"@))))]))
}

impl Mir24TvExtractor {
    /// One step of a Mir24 extraction: the article page is fetched, then the player
    /// iframe's `source` parameter gives the stream.
    pub fn extract_step(&self, url: &str, replies: &Vec<Reply>) -> (r: Result<Step, ExtractorError>)
        ensures
            match regex_named_capture(self.matcher().source(), url@, "id"@) {
                Some(id) => if replies@.len() == 0 {
                    fetches(r, url@, Expect::Text)
                } else {
                    match reply_text_at(replies@, 0) {
                        Some(html) => match first_group(mir24_iframe_pattern(), html, 1) {
                            Some(player) => if url_query_pairs_of(player) is None {
                                fails_with(r, ExtractorErrorKind::Extraction)
                            } else {
                                match mir24_media(player) {
                                    Some(media) => done_with(r, mir24_info(id, html, media)),
                                    None => fails_with(r, ExtractorErrorKind::Extraction),
                                }
                            },
                            None => fails_with(r, ExtractorErrorKind::Extraction),
                        },
                        None => fails_with(r, ExtractorErrorKind::Extraction),
                    }
                },
                None => fails_with(r, ExtractorErrorKind::InvalidUrl),
            },
    {
        let video_id = match self.site.capture(url, "id") {
            Some(v) => v,
            None => return Err(fail(ExtractorErrorKind::InvalidUrl, "Mir24 URL has no ID")),
        };
        if replies.len() == 0 {
            return Ok(Step::Fetch(get_text(owned(url))));
        }
        let html = reply_text(replies, 0)?;
        let player = match regex_first_group("(?is)<iframe\\b[^>]+\\bsrc\\s*=\\s*[\"'](https?://mir24\\.tv/players/[^\"']+)", html.as_str(), 1) {
            Some(p) => p,
            None => return Err(fail(ExtractorErrorKind::Extraction, "Mir24 article has no player iframe")),
        };
        let source = match url_query_pairs(player.as_str()) {
            Some(_) => url_query_value(player.as_str(), "source"),
            None => return Err(fail(ExtractorErrorKind::Extraction, "invalid Mir24 player URL")),
        };
        let media = match source {
            Some(v) => {
                let m = proto_relative_url(v.as_str(), "https:");
                if m.unicode_len() > 0 {
                    m
                } else {
                    return Err(fail(ExtractorErrorKind::Extraction, "Mir24 player has no source URL"));
                }
            },
            None => return Err(fail(ExtractorErrorKind::Extraction, "Mir24 player has no source URL")),
        };
        let title = match html_meta_value(html.as_str(), "og:title") {
            Some(t) => t,
            None => match html_title_value(html.as_str()) { Some(t) => t, None => video_id.clone() },
        };
        let mut info = InfoDict::new();
        info.insert("id", JsonValue::Str(video_id.clone()));
        info.insert("title", JsonValue::Str(title));
        info.insert_if_some("thumbnail", match html_meta_value(html.as_str(), "og:image") { Some(v) => Some(JsonValue::Str(v)), None => None });
        info.insert("url", JsonValue::Str(media.clone()));
        info.insert("ext", jstr("mp4"));
        let mut f = obj_new();
        obj_add(&mut f, "url", JsonValue::Str(media.clone()));
        obj_add(&mut f, "format_id", jstr("hls"));
        obj_add(&mut f, "ext", jstr("mp4"));
        obj_add(&mut f, "protocol", jstr("m3u8_native"));
        let mut items = arr_new();
        arr_add(&mut items, obj_done(f));
        info.insert("formats", arr_done(items));
        Ok(Step::Done(ExtractorResult::single(info)))
    }
}

} // verus!
