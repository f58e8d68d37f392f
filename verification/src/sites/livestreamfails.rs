use vstd::prelude::*;

use crate::extract::{jstr, opt_int, opt_str, put_opt, reply_json, reply_json_at, str_in};
use crate::framework::{Expect, ExtractorDescriptor, ExtractorError, ExtractorErrorKind, ExtractorResult, Reply, SiteMatcher, Step, descriptor_ok, descriptor_source, done_with, fail, fails_with, fetches, get_json, descriptor_error};
use crate::info::{InfoDict};
use crate::json::{Json, JsonValue, arr_add, arr_done, arr_new, json_get, json_lookup, json_str_at, json_string, obj_add, obj_done, obj_new};
use crate::pattern::{regex_matches, regex_named_capture};
use crate::text::{concat2, owned};
use crate::timestamp::{parse_timestamp, timestamp_of};

verus! {

/// Native Livestreamfails API/direct-media extractor.
pub struct LivestreamfailsExtractor {
    site: SiteMatcher,
}

impl LivestreamfailsExtractor {
    /// The descriptor and matcher the extractor was built with.
    pub closed spec fn matcher(&self) -> SiteMatcher {
        self.site
    }

    pub fn new(descriptor: ExtractorDescriptor) -> (r: Result<Self, ExtractorError>)
        ensures
            r is Ok <==> descriptor_ok(descriptor),
            r matches Ok(x) ==> x.matcher().spec_descriptor() == descriptor
                && Some(x.matcher().source()) == descriptor_source(descriptor),
            r matches Err(e) ==> e.kind == ExtractorErrorKind::Extraction && e.message@ == descriptor_error(descriptor),
    {
        match SiteMatcher::from_descriptor(descriptor) {
            Ok(site) => Ok(LivestreamfailsExtractor { site }),
            Err(e) => Err(e),
        }
    }

    pub fn descriptor(&self) -> (r: &ExtractorDescriptor)
        ensures
            *r == self.matcher().spec_descriptor(),
    {
        self.site.descriptor()
    }

    pub fn suitable(&self, url: &str) -> (r: bool)
        ensures
            r == regex_matches(self.matcher().source(), url@),
    {
        self.site.suitable(url)
    }

    pub fn is_native(&self) -> (r: bool)
        ensures
            r,
    {
        true
    }

    pub fn native_matcher_count(&self) -> (r: usize)
        ensures
            r == 1,
    {
        1
    }
}

/// The clip API address of a Livestreamfails clip.
pub open spec fn livestreamfails_api_url(id: Seq<char>) -> Seq<char> {
    "https://api.livestreamfails.com/clip/"@ + id
}

/// The metadata of a Livestreamfails clip from its ID and its API record.
pub open spec fn livestreamfails_info(id: Seq<char>, data: Json) -> Map<Seq<char>, Json> {
    let remote = match json_str_at(data, "videoId"@) { Some(v) => v, None => id };
    let media = "https://livestreamfails-video-prod.b-cdn.net/video/"@ + remote;
    let m0 = Map::<Seq<char>, Json>::empty().insert("id"@, Json::Str(id));
    let m1 = put_opt(m0, "display_id"@, opt_str(json_str_at(data, "sourceId"@)));
    let m2 = put_opt(m1, "title"@, opt_str(json_str_at(data, "label"@)));
    let m3 = put_opt(m2, "creator"@, opt_str(str_in(json_lookup(data, "streamer"@), "label"@)));
    let m4 = put_opt(m3, "thumbnail"@, match json_str_at(data, "imageId"@) {
        Some(v) => Some(Json::Str("https://livestreamfails-image-prod.b-cdn.net/image/"@ + v)),
        None => None,
    });
    let m5 = put_opt(m4, "timestamp"@, match json_str_at(data, "createdAt"@) {
        Some(v) => opt_int(timestamp_of(v)),
        None => None,
    });
    m5.insert("url"@, Json::Str(media)).insert("ext"@, Json::Str("mp4"@)).insert(
        "formats"@,
        Json::Array(seq![Json::Object(Seq::empty()
            .push(("url"@, Json::Str(media)))
            .push(("format_id"@, Json::Str("source"@)))
            .push(("ext"@, Json::Str("mp4"@))))]),
    )
}

impl LivestreamfailsExtractor {
    /// One step of a Livestreamfails extraction: the clip record is fetched, then
    /// the clip's metadata is built from it.
    pub fn extract_step(&self, url: &str, replies: &Vec<Reply>) -> (r: Result<Step, ExtractorError>)
        ensures
            match regex_named_capture(self.matcher().source(), url@, "id"@) {
                Some(id) => if replies@.len() == 0 {
                    fetches(r, livestreamfails_api_url(id), Expect::Json)
                } else {
                    match reply_json_at(replies@, 0) {
                        Some(data) => done_with(r, livestreamfails_info(id, data@)),
                        None => fails_with(r, ExtractorErrorKind::Extraction),
                    }
                },
                None => fails_with(r, ExtractorErrorKind::InvalidUrl),
            },
    {
        let video_id = match self.site.capture(url, "id") {
            Some(v) => v,
            None => return Err(fail(ExtractorErrorKind::InvalidUrl, "Livestreamfails URL has no ID")),
        };
        if replies.len() == 0 {
            return Ok(Step::Fetch(get_json(concat2("https://api.livestreamfails.com/clip/", video_id.as_str()))));
        }
        let data = reply_json(replies, 0)?;
        let remote = match json_string(data, "videoId") { Some(v) => owned(v), None => video_id.clone() };
        let media = concat2("https://livestreamfails-video-prod.b-cdn.net/video/", remote.as_str());
        let mut info = InfoDict::new();
        info.insert("id", JsonValue::Str(video_id.clone()));
        info.insert_if_some("display_id", match json_string(data, "sourceId") { Some(v) => Some(jstr(v)), None => None });
        info.insert_if_some("title", match json_string(data, "label") { Some(v) => Some(jstr(v)), None => None });
        let creator = match json_get(data, "streamer") {
            Some(st) => match json_string(st, "label") { Some(v) => Some(jstr(v)), None => None },
            None => None,
        };
        info.insert_if_some("creator", creator);
        info.insert_if_some("thumbnail", match json_string(data, "imageId") {
            Some(v) => Some(JsonValue::Str(concat2("https://livestreamfails-image-prod.b-cdn.net/image/", v))),
            None => None,
        });
        info.insert_if_some("timestamp", match json_string(data, "createdAt") {
            Some(v) => match parse_timestamp(v) { Some(t) => Some(JsonValue::Int(t)), None => None },
            None => None,
        });
        info.insert("url", JsonValue::Str(media.clone()));
        info.insert("ext", jstr("mp4"));
        let mut f = obj_new();
        obj_add(&mut f, "url", JsonValue::Str(media.clone()));
        obj_add(&mut f, "format_id", jstr("source"));
        obj_add(&mut f, "ext", jstr("mp4"));
        let mut items = arr_new();
        arr_add(&mut items, obj_done(f));
        info.insert("formats", arr_done(items));
        Ok(Step::Done(ExtractorResult::single(info)))
    }
}

} // verus!
