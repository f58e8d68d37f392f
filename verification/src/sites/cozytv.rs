use vstd::prelude::*;

use crate::extract::{first_digits, jstr, opt_int, opt_str, put_opt, reply_json, reply_json_at, take_digits};
use crate::framework::{Expect, ExtractorDescriptor, ExtractorError, ExtractorErrorKind, ExtractorResult, Reply, SiteMatcher, Step, descriptor_ok, descriptor_source, done_with, fail, fails_with, fetches, get_json, descriptor_error};
use crate::info::{InfoDict};
use crate::json::{Json, JsonValue, arr_add, arr_done, arr_new, json_i64, json_int_at, json_str_at, json_string, obj_add, obj_done, obj_new};
use crate::pattern::{regex_first_captures, regex_matches, regex_named_capture};
use crate::text::{concat3, concat4, owned};

verus! {

/// Native CozyTV replay extractor.
pub struct CozyTvExtractor {
    site: SiteMatcher,
}

impl CozyTvExtractor {
    /// The descriptor and matcher the extractor was built with.
    pub closed spec fn matcher(&self) -> SiteMatcher {
        self.site
    }

    pub fn new(descriptor: ExtractorDescriptor) -> (r: Result<Self, ExtractorError>)
        ensures
            r is Ok <==> descriptor_ok(descriptor),
            r matches Ok(x) ==> x.matcher().spec_descriptor() == descriptor
                && Some(x.matcher().source()) == descriptor_source(descriptor),
            r matches Err(e) ==> e.kind == ExtractorErrorKind::Extraction && e.message@ == descriptor_error(descriptor),
    {
        match SiteMatcher::from_descriptor(descriptor) {
            Ok(site) => Ok(CozyTvExtractor { site }),
            Err(e) => Err(e),
        }
    }

    pub fn descriptor(&self) -> (r: &ExtractorDescriptor)
        ensures
            *r == self.matcher().spec_descriptor(),
    {
        self.site.descriptor()
    }

    pub fn suitable(&self, url: &str) -> (r: bool)
        ensures
            r == regex_matches(self.matcher().source(), url@),
    {
        self.site.suitable(url)
    }

    pub fn is_native(&self) -> (r: bool)
        ensures
            r,
    {
        true
    }

    pub fn native_matcher_count(&self) -> (r: usize)
        ensures
            r == 1,
    {
        1
    }
}

/// The replay API address of a CozyTV replay.
pub open spec fn cozytv_api_url(uploader: Seq<char>, date: Seq<char>) -> Seq<char> {
    "https://api.cozy.tv/cache/"@ + uploader + "/replay/"@ + date
}

/// The HLS address of a CozyTV replay.
pub open spec fn cozytv_media_url(uploader: Seq<char>, date: Seq<char>) -> Seq<char> {
    "https://cozycdn.foxtrotstream.xyz/replays/"@ + uploader + "/"@ + date + "/index.m3u8"@
}

/// The upload date: the first eight digits of the API's `date`, when it has eight,
/// else those of the URL's replay ID.
pub open spec fn cozytv_upload_date(date: Seq<char>, data: Json) -> Seq<char> {
    match json_str_at(data, "date"@) {
        Some(d) if first_digits(d, 8).len() == 8 => first_digits(d, 8),
        _ => first_digits(date, 8),
    }
}

/// The metadata of a CozyTV replay from its URL parts and its API record.
pub open spec fn cozytv_info(uploader: Seq<char>, date: Seq<char>, data: Json) -> Map<Seq<char>, Json> {
    let media = cozytv_media_url(uploader, date);
    let m0 = Map::<Seq<char>, Json>::empty().insert("id"@, Json::Str(uploader + "-"@ + date));
    let m1 = put_opt(m0, "title"@, opt_str(json_str_at(data, "title"@)));
    let m2 = m1.insert("uploader"@, Json::Str(match json_str_at(data, "user"@) { Some(u) => u, None => uploader }));
    let m3 = m2.insert("upload_date"@, Json::Str(cozytv_upload_date(date, data)));
    let m4 = m3.insert("was_live"@, Json::Bool(true));
    let m5 = put_opt(m4, "duration"@, opt_int(json_int_at(data, "duration"@)));
    m5.insert("url"@, Json::Str(media)).insert("ext"@, Json::Str("mp4"@)).insert(
        "formats"@,
        Json::Array(seq![Json::Object(Seq::empty()
            .push(("url"@, Json::Str(media)))
            .push(("format_id"@, Json::Str("hls"@)))
            .push(("ext"@, Json::Str("mp4"@)))
            .push(("protocol"@, Json::Str("m3u8_native"@))))]),
    )
}

impl CozyTvExtractor {
    /// One step of a CozyTV extraction: first the replay's API record is fetched,
    /// then the replay's metadata is built from it.
    pub fn extract_step(&self, url: &str, replies: &Vec<Reply>) -> (r: Result<Step, ExtractorError>)
        ensures
            regex_first_captures(self.matcher().source(), url@) is None ==> fails_with(r, ExtractorErrorKind::InvalidUrl),
            regex_first_captures(self.matcher().source(), url@) is Some ==> match (
                regex_named_capture(self.matcher().source(), url@, "uploader"@),
                regex_named_capture(self.matcher().source(), url@, "id"@),
            ) {
                (Some(uploader), Some(date)) => if replies@.len() == 0 {
                    fetches(r, cozytv_api_url(uploader, date), Expect::Json)
                } else {
                    match reply_json_at(replies@, 0) {
                        Some(data) => done_with(r, cozytv_info(uploader, date, data@)),
                        None => fails_with(r, ExtractorErrorKind::Extraction),
                    }
                },
                _ => fails_with(r, ExtractorErrorKind::InvalidUrl),
            },
    {
        if self.site.captures(url).is_none() {
            return Err(fail(ExtractorErrorKind::InvalidUrl, "CozyTV URL did not match its native pattern"));
        }
        let uploader = match self.site.capture(url, "uploader") {
            Some(u) => u,
            None => return Err(fail(ExtractorErrorKind::InvalidUrl, "CozyTV URL has no uploader")),
        };
        let date = match self.site.capture(url, "id") {
            Some(d) => d,
            None => return Err(fail(ExtractorErrorKind::InvalidUrl, "CozyTV URL has no replay ID")),
        };
        if replies.len() == 0 {
            return Ok(Step::Fetch(get_json(concat4("https://api.cozy.tv/cache/", uploader.as_str(), "/replay/", date.as_str()))));
        }
        let data = reply_json(replies, 0)?;
        let video_id = concat3(uploader.as_str(), "-", date.as_str());
        let mut media = concat4("https://cozycdn.foxtrotstream.xyz/replays/", uploader.as_str(), "/", date.as_str());
        crate::text::push_str(&mut media, "/index.m3u8");
        let mut info = InfoDict::new();
        info.insert("id", JsonValue::Str(video_id));
        info.insert_if_some("title", match json_string(data, "title") { Some(t) => Some(jstr(t)), None => None });
        let uploader_name = match json_string(data, "user") { Some(u) => owned(u), None => uploader.clone() };
        info.insert("uploader", JsonValue::Str(uploader_name));
        let from_api = match json_string(data, "date") {
            Some(d) => {
                let digits = take_digits(d, 8);
                if digits.unicode_len() == 8 { Some(digits) } else { None }
            },
            None => None,
        };
        let upload_date = match from_api { Some(d) => d, None => take_digits(date.as_str(), 8) };
        info.insert("upload_date", JsonValue::Str(upload_date));
        info.insert("was_live", JsonValue::Bool(true));
        info.insert_if_some("duration", match json_i64(data, "duration") { Some(d) => Some(JsonValue::Int(d)), None => None });
        info.insert("url", JsonValue::Str(media.clone()));
        info.insert("ext", jstr("mp4"));
        let mut f = obj_new();
        obj_add(&mut f, "url", JsonValue::Str(media.clone()));
        obj_add(&mut f, "format_id", jstr("hls"));
        obj_add(&mut f, "ext", jstr("mp4"));
        obj_add(&mut f, "protocol", jstr("m3u8_native"));
        let mut items = arr_new();
        arr_add(&mut items, obj_done(f));
        let formats = arr_done(items);
        info.insert("formats", formats);
        Ok(Step::Done(ExtractorResult::single(info)))
    }
}

} // verus!
