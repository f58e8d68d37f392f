use vstd::prelude::*;

use crate::extract::{json_index, json_item_of, jstr, lookup_in, opt_str, put_opt, reply_json, reply_json_at, str_in};
use crate::framework::{Expect, ExtractorDescriptor, ExtractorError, ExtractorErrorKind, ExtractorResult, Reply, SiteMatcher, Step, descriptor_ok, descriptor_source, done_with, fail, fails_with, fetches, fetches_optional, get_json, get_json_optional, descriptor_error};
use crate::info::{InfoDict};
use crate::json::{Json, JsonValue, arr_add, arr_done, arr_new, json_get, json_i64, json_int_at, json_lookup, json_str_at, json_string, obj_add, obj_done, obj_new};
use crate::pattern::{regex_matches, regex_named_capture};
use crate::text::{concat2, has_prefix, owned, starts_with};

verus! {

/// Native Roya TV live-channel API/HLS extractor.
pub struct RoyaLiveExtractor {
    site: SiteMatcher,
}

impl RoyaLiveExtractor {
    /// The descriptor and matcher the extractor was built with.
    pub closed spec fn matcher(&self) -> SiteMatcher {
        self.site
    }

    pub fn new(descriptor: ExtractorDescriptor) -> (r: Result<Self, ExtractorError>)
        ensures
            r is Ok <==> descriptor_ok(descriptor),
            r matches Ok(x) ==> x.matcher().spec_descriptor() == descriptor
                && Some(x.matcher().source()) == descriptor_source(descriptor),
            r matches Err(e) ==> e.kind == ExtractorErrorKind::Extraction && e.message@ == descriptor_error(descriptor),
    {
        match SiteMatcher::from_descriptor(descriptor) {
            Ok(site) => Ok(RoyaLiveExtractor { site }),
            Err(e) => Err(e),
        }
    }

    pub fn descriptor(&self) -> (r: &ExtractorDescriptor)
        ensures
            *r == self.matcher().spec_descriptor(),
    {
        self.site.descriptor()
    }

    pub fn suitable(&self, url: &str) -> (r: bool)
        ensures
            r == regex_matches(self.matcher().source(), url@),
    {
        self.site.suitable(url)
    }

    pub fn is_native(&self) -> (r: bool)
        ensures
            r,
    {
        true
    }

    pub fn native_matcher_count(&self) -> (r: usize)
        ensures
            r == 1,
    {
        1
    }
}

/// The stream API address of a Roya TV channel.
pub open spec fn roya_api_url(id: Seq<char>) -> Seq<char> {
    "https://ticket.roya-tv.com/api/v5/fastchannel/"@ + id
}

/// The channel schedule whose first entry may name the channel.
pub open spec fn roya_schedule_url() -> Seq<char> {
    "https://backend.roya.tv/api/v01/channels/schedule-pagination"@
}

/// The secured HTTP(S) stream address of a stream record.
pub open spec fn roya_stream(data: Json) -> Option<Seq<char>> {
    match str_in(json_lookup(data, "data"@), "secured_url"@) {
        Some(u) => if has_prefix(u, "http://"@) || has_prefix(u, "https://"@) { Some(u) } else { None },
        None => None,
    }
}

/// The channel title that the schedule's first entry gives, when that entry is this channel.
pub open spec fn roya_title(id: Seq<char>, schedule: Option<Json>) -> Option<Seq<char>> {
    match lookup_in(json_item_of(lookup_in(schedule, "data"@), 0), "channel"@) {
        Some(channel) => if json_str_at(channel, "id"@) == Some(id)
            || (json_int_at(channel, "id"@) matches Some(n) && crate::number::int_text(n) == id) {
            json_str_at(channel, "title"@)
        } else {
            None
        },
        None => None,
    }
}

/// The metadata of a Roya TV channel.
pub open spec fn roya_info(id: Seq<char>, stream: Seq<char>, title: Option<Seq<char>>) -> Map<Seq<char>, Json> {
    let m0 = Map::<Seq<char>, Json>::empty().insert("id"@, Json::Str(id));
    let m1 = put_opt(m0, "title"@, opt_str(title));
    m1.insert("is_live"@, Json::Bool(true)).insert("live_status"@, Json::Str("is_live"@))
        .insert("url"@, Json::Str(stream)).insert("ext"@, Json::Str("mp4"@))
        .insert("formats"@, Json::Array(seq![Json::Object(Seq::empty()
            .push(("url"@, Json::Str(stream)))
            .push(("format_id"@, Json::Str("hls"@)))
            .push(("protocol"@, Json::Str("m3u8_native"@)))
            .push(("ext"@, Json::Str("mp4"@)))
            .push(("is_live"@, Json::Bool(true))))]))
}

fn roya_stream_exec(data: &JsonValue) -> (r: Option<String>)
    ensures
        match r {
            Some(u) => roya_stream(data@) == Some(u@),
            None => roya_stream(data@) is None,
        },
{
    match json_get(data, "data") {
        Some(d) => match json_string(d, "secured_url") {
            Some(u) => {
                if starts_with(u, "http://") || starts_with(u, "https://") { Some(owned(u)) } else { None }
            },
            None => None,
        },
        None => None,
    }
}

fn roya_title_exec(id: &str, schedule: Option<&JsonValue>) -> (r: Option<String>)
    ensures
        match r {
            Some(t) => roya_title(id@, match schedule { Some(s) => Some(s@), None => None }) == Some(t@),
            None => roya_title(id@, match schedule { Some(s) => Some(s@), None => None }) is None,
        },
{
    let s = match schedule { Some(s) => s, None => return None };
    let d = match json_get(s, "data") { Some(d) => d, None => return None };
    let e = match json_index(d, 0) { Some(e) => e, None => return None };
    let channel = match json_get(e, "channel") { Some(c) => c, None => return None };
    let by_str = match json_string(channel, "id") { Some(x) => crate::json::str_equal(x, id), None => false };
    let by_int = match json_i64(channel, "id") {
        Some(n) => {
            let t = crate::number::int_to_string(n);
            crate::json::str_equal(t.as_str(), id)
        },
        None => false,
    };
    if by_str || by_int {
        match json_string(channel, "title") { Some(t) => Some(owned(t)), None => None }
    } else {
        None
    }
}

impl RoyaLiveExtractor {
    /// One step of a Roya TV extraction: the stream record is fetched, then (optionally)
    /// the channel schedule, then the channel's metadata is built.
    pub fn extract_step(&self, url: &str, replies: &Vec<Reply>) -> (r: Result<Step, ExtractorError>)
        ensures
            match regex_named_capture(self.matcher().source(), url@, "id"@) {
                Some(id) => if replies@.len() == 0 {
                    fetches(r, roya_api_url(id), Expect::Json)
                } else {
                    match reply_json_at(replies@, 0) {
                        Some(data) => match roya_stream(data@) {
                            Some(stream) => if replies@.len() == 1 {
                                fetches_optional(r, roya_schedule_url(), Expect::Json)
                            } else {
                                done_with(r, roya_info(id, stream, roya_title(id, match reply_json_at(replies@, 1) { Some(s) => Some(s@), None => None })))
                            },
                            None => fails_with(r, ExtractorErrorKind::Extraction),
                        },
                        None => fails_with(r, ExtractorErrorKind::Extraction),
                    }
                },
                None => fails_with(r, ExtractorErrorKind::InvalidUrl),
            },
    {
        let media_id = match self.site.capture(url, "id") {
            Some(v) => v,
            None => return Err(fail(ExtractorErrorKind::InvalidUrl, "Roya TV URL has no channel ID")),
        };
        if replies.len() == 0 {
            return Ok(Step::Fetch(get_json(concat2("https://ticket.roya-tv.com/api/v5/fastchannel/", media_id.as_str()))));
        }
        let data = reply_json(replies, 0)?;
        let stream = match roya_stream_exec(data) {
            Some(u) => u,
            None => return Err(fail(ExtractorErrorKind::Extraction, "Roya channel has no secured stream URL")),
        };
        if replies.len() == 1 {
            return Ok(Step::Fetch(get_json_optional(owned("https://backend.roya.tv/api/v01/channels/schedule-pagination"))));
        }
        let schedule = match reply_json(replies, 1) { Ok(s) => Some(s), Err(_) => None };
        let title = roya_title_exec(media_id.as_str(), schedule);
        let mut info = InfoDict::new();
        info.insert("id", JsonValue::Str(media_id.clone()));
        info.insert_if_some("title", match title { Some(t) => Some(JsonValue::Str(t)), None => None });
        info.insert("is_live", JsonValue::Bool(true));
        info.insert("live_status", jstr("is_live"));
        info.insert("url", JsonValue::Str(stream.clone()));
        info.insert("ext", jstr("mp4"));
        let mut f = obj_new();
        obj_add(&mut f, "url", JsonValue::Str(stream.clone()));
        obj_add(&mut f, "format_id", jstr("hls"));
        obj_add(&mut f, "protocol", jstr("m3u8_native"));
        obj_add(&mut f, "ext", jstr("mp4"));
        obj_add(&mut f, "is_live", JsonValue::Bool(true));
        let mut items = arr_new();
        arr_add(&mut items, obj_done(f));
        info.insert("formats", arr_done(items));
        Ok(Step::Done(ExtractorResult::single(info)))
    }
}

} // verus!
