use vstd::prelude::*;

use crate::extract::{jstr, reply_text, reply_text_at};
use crate::framework::{Expect, ExtractorDescriptor, ExtractorError, ExtractorErrorKind, ExtractorResult, Reply, SiteMatchers, Step, all_sources_ok, any_matches, done_with, fail, fails_with, fetches, get_text, sources_view, first_pattern_error};
use crate::info::{InfoDict};
use crate::json::{Json, JsonValue, arr_add, arr_done, arr_new, fields_view, obj_add, obj_done, obj_new};
use crate::pattern::{first_group, regex_compiles, regex_first_group, regex_valid};
use crate::text::{owned, push_str, replace_str, replaced, concat2};

verus! {

/// Native Match TV live-channel extractor. Both the public on-air URL and
/// the iframe URL share the same channel configuration endpoint.
pub struct MatchTvExtractor {
    sites: SiteMatchers,
}

impl MatchTvExtractor {
    /// The descriptor and matchers the extractor was built with.
    pub closed spec fn matchers(&self) -> SiteMatchers {
        self.sites
    }

    pub fn new(descriptor: ExtractorDescriptor) -> (r: Result<Self, ExtractorError>)
        ensures
            r is Ok <==> all_sources_ok(descriptor),
            r matches Ok(x) ==> x.matchers().spec_descriptor() == descriptor
                && x.matchers().sources() == sources_view(descriptor.valid_urls@),
            r matches Err(e) ==> e.kind == ExtractorErrorKind::Extraction
                && (first_pattern_error(sources_view(descriptor.valid_urls@), 0) matches Some(m)
                && e.message@ == "invalid MatchTV URL pattern: "@ + m),
    {
        match SiteMatchers::from_descriptor(descriptor) {
            Ok(sites) => Ok(MatchTvExtractor { sites }),
            Err(e) => Err(ExtractorError::new(ExtractorErrorKind::Extraction, concat2("invalid MatchTV URL pattern: ", e.message.as_str()))),
        }
    }

    pub fn descriptor(&self) -> (r: &ExtractorDescriptor)
        ensures
            *r == self.matchers().spec_descriptor(),
    {
        self.sites.descriptor()
    }

    pub fn suitable(&self, url: &str) -> (r: bool)
        ensures
            r == any_matches(self.matchers().sources(), url@),
    {
        self.sites.suitable(url)
    }

    pub fn is_native(&self) -> (r: bool)
        ensures
            r,
    {
        true
    }

    pub fn native_matcher_count(&self) -> (r: usize)
        ensures
            r == self.matchers().sources().len(),
    {
        self.sites.count()
    }
}


/// The live player page of Match TV.
pub open spec fn matchtv_page() -> Seq<char> {
    "https://video.matchtv.ru/iframe/channel/106"@
}

/// Where the player names its stream configuration.
pub open spec fn matchtv_config_pattern() -> Seq<char> {
    "(?is)\\bdata-config\\s*=\\s*\"config=(https?://[^?\"]+)[?\"]"@
}

/// The metadata of the Match TV live stream with configuration address `source`.
pub open spec fn matchtv_info(source: Seq<char>) -> Map<Seq<char>, Json> {
    let m = replaced(source, "/feed/"@, "/media/"@) + ".m3u8"@;
    Map::<Seq<char>, Json>::empty()
        .insert("id"@, Json::Str("matchtv-live"@))
        .insert("title"@, Json::Str("Матч ТВ - Прямой эфир"@))
        .insert("live_status"@, Json::Str("is_live"@))
        .insert("is_live"@, Json::Bool(true))
        .insert("url"@, Json::Str(m))
        .insert("ext"@, Json::Str("mp4"@))
        .insert("formats"@, Json::Array(seq![Json::Object(seq![
            ("url"@, Json::Str(m)),
            ("format_id"@, Json::Str("hls"@)),
            ("ext"@, Json::Str("mp4"@)),
            ("protocol"@, Json::Str("m3u8_native"@)),
            ("is_live"@, Json::Bool(true)),
        ])]))
}

impl MatchTvExtractor {
    /// One step of a Match TV extraction: whatever the address, the live player page is
    /// fetched, and its stream configuration names the HLS stream.
    pub fn extract_step(&self, _url: &str, replies: &Vec<Reply>) -> (r: Result<Step, ExtractorError>)
        ensures
            if replies@.len() == 0 {
                fetches(r, matchtv_page(), Expect::Text)
            } else {
                match reply_text_at(replies@, 0) {
                    Some(html) => if !regex_valid(matchtv_config_pattern()) {
                        fails_with(r, ExtractorErrorKind::Extraction)
                    } else {
                        match first_group(matchtv_config_pattern(), html, 1) {
                            Some(s) => done_with(r, matchtv_info(s)),
                            None => fails_with(r, ExtractorErrorKind::Extraction),
                        }
                    },
                    None => fails_with(r, ExtractorErrorKind::Extraction),
                }
            },
    {
        if replies.len() == 0 {
            return Ok(Step::Fetch(get_text(owned("https://video.matchtv.ru/iframe/channel/106"))));
        }
        let html = reply_text(replies, 0)?;
        let pattern = "(?is)\\bdata-config\\s*=\\s*\"config=(https?://[^?\"]+)[?\"]";
        if !regex_compiles(pattern) {
            return Err(fail(ExtractorErrorKind::Extraction, "invalid MatchTV player matcher"));
        }
        let source = match regex_first_group(pattern, html.as_str(), 1) {
            Some(s) => s,
            None => return Err(fail(ExtractorErrorKind::Extraction, "MatchTV player has no stream configuration URL")),
        };
        let mut media = replace_str(source.as_str(), "/feed/", "/media/");
        push_str(&mut media, ".m3u8");
        let mut info = InfoDict::new();
        info.insert("id", jstr("matchtv-live"));
        info.insert("title", jstr("Матч ТВ - Прямой эфир"));
        info.insert("live_status", jstr("is_live"));
        info.insert("is_live", JsonValue::Bool(true));
        info.insert("url", jstr(media.as_str()));
        info.insert("ext", jstr("mp4"));
        let mut f = obj_new();
        obj_add(&mut f, "url", jstr(media.as_str()));
        obj_add(&mut f, "format_id", jstr("hls"));
        obj_add(&mut f, "ext", jstr("mp4"));
        obj_add(&mut f, "protocol", jstr("m3u8_native"));
        obj_add(&mut f, "is_live", JsonValue::Bool(true));
        assert(fields_view(f@) =~= seq![
            ("url"@, Json::Str(media@)),
            ("format_id"@, Json::Str("hls"@)),
            ("ext"@, Json::Str("mp4"@)),
            ("protocol"@, Json::Str("m3u8_native"@)),
            ("is_live"@, Json::Bool(true)),
        ]);
        let mut a = arr_new();
        arr_add(&mut a, obj_done(f));
        info.insert("formats", arr_done(a));
        Ok(Step::Done(ExtractorResult::single(info)))
    }
}

} // verus!
