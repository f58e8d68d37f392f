use vstd::prelude::*;

use crate::extract::{jstr, opt_int, opt_int_json, opt_str, opt_str_json, put_opt, reply_json, reply_json_at, str_in, str_opt_view};
use crate::framework::{Expect, ExtractorDescriptor, ExtractorError, ExtractorErrorKind, ExtractorResult, Fetch, Method, Reply, SiteMatcher, Step, descriptor_ok, descriptor_source, done_with, fail, fails_with, headers_view, descriptor_error};
use crate::info::{InfoDict};
use crate::json::{Json, JsonValue, arr_add, arr_done, arr_new, fields_view, json_get, json_i64, json_int_at, json_lookup, json_string, obj_add, obj_done, obj_new};
use crate::pattern::{regex_matches, regex_named_capture};
use crate::text::{concat3, owned, push_str, strip_suffixes, trim_end_matches};
use crate::weburl::{form_encode, form_encoded};

verus! {

/// Native BongaCams live-room API/HLS extractor.
pub struct BongaCamsExtractor {
    site: SiteMatcher,
}

impl BongaCamsExtractor {
    /// The descriptor and matcher the extractor was built with.
    pub closed spec fn matcher(&self) -> SiteMatcher {
        self.site
    }

    pub fn new(descriptor: ExtractorDescriptor) -> (r: Result<Self, ExtractorError>)
        ensures
            r is Ok <==> descriptor_ok(descriptor),
            r matches Ok(x) ==> x.matcher().spec_descriptor() == descriptor
                && Some(x.matcher().source()) == descriptor_source(descriptor),
            r matches Err(e) ==> e.kind == ExtractorErrorKind::Extraction && e.message@ == descriptor_error(descriptor),
    {
        match SiteMatcher::from_descriptor(descriptor) {
            Ok(site) => Ok(BongaCamsExtractor { site }),
            Err(e) => Err(e),
        }
    }

    pub fn descriptor(&self) -> (r: &ExtractorDescriptor)
        ensures
            *r == self.matcher().spec_descriptor(),
    {
        self.site.descriptor()
    }

    pub fn suitable(&self, url: &str) -> (r: bool)
        ensures
            r == regex_matches(self.matcher().source(), url@),
    {
        self.site.suitable(url)
    }

    pub fn is_native(&self) -> (r: bool)
        ensures
            r,
    {
        true
    }

    pub fn native_matcher_count(&self) -> (r: usize)
        ensures
            r == 1,
    {
        1
    }
}


/// The form that asks for a BongaCams room's data.
pub open spec fn bongacams_form(id: Seq<char>) -> Seq<char> {
    form_encoded("method"@) + "="@ + form_encoded("getRoomData"@) + "&"@
        + form_encoded("args[]"@) + "="@ + form_encoded(id) + "&"@
        + form_encoded("args[]"@) + "="@ + form_encoded("false"@)
}

/// Whether `f` is the room data request of BongaCams channel `id` on `host`.
pub open spec fn is_bongacams_room_request(f: Fetch, host: Seq<char>, id: Seq<char>) -> bool {
    f.url@ == "https://"@ + host + "/tools/amf.php"@ && f.expect == Expect::Json && f.method == Method::Post
        && headers_view(f.headers@) == seq![("X-Requested-With"@, "XMLHttpRequest"@), ("Accept"@, "application/json"@)]
        && !f.optional && (f.body matches Some(b) && b@ == bongacams_form(id))
}

/// Appends `key=value` to a form under construction, both form-encoded.
fn append_pair(form: &mut String, key: &str, value: &str)
    ensures
        final(form)@ == old(form)@ + (if old(form)@.len() == 0 { Seq::empty() } else { "&"@ })
            + form_encoded(key@) + "="@ + form_encoded(value@),
{
    if form.unicode_len() > 0 {
        push_str(form, "&");
    }
    push_str(form, form_encode(key).as_str());
    push_str(form, "=");
    push_str(form, form_encode(value).as_str());
}

/// `bongacams_room_data`: the request for the room data of channel `channel_id` on `host`.
pub fn bongacams_room_data(host: &str, channel_id: &str) -> (r: Fetch)
    ensures
        is_bongacams_room_request(r, host@, channel_id@),
{
    let mut form = String::new();
    proof { reveal_strlit("="); }
    append_pair(&mut form, "method", "getRoomData");
    let ghost f1 = form@;
    assert(f1 =~= form_encoded("method"@) + "="@ + form_encoded("getRoomData"@));
    append_pair(&mut form, "args[]", channel_id);
    let ghost f2 = form@;
    assert(f2 =~= f1 + "&"@ + form_encoded("args[]"@) + "="@ + form_encoded(channel_id@));
    append_pair(&mut form, "args[]", "false");
    assert(form@ =~= f2 + "&"@ + form_encoded("args[]"@) + "="@ + form_encoded("false"@));
    assert(bongacams_form(channel_id@) =~= form@);
    let headers = vec![
        (owned("X-Requested-With"), owned("XMLHttpRequest")),
        (owned("Accept"), owned("application/json")),
    ];
    assert(headers_view(headers@) =~= seq![("X-Requested-With"@, "XMLHttpRequest"@), ("Accept"@, "application/json"@)]);
    Fetch {
        url: concat3("https://", host, "/tools/amf.php"),
        expect: Expect::Json,
        method: Method::Post,
        headers,
        body: Some(form),
        optional: false,
    }
}

/// A string member of a performer, when there is one and it is not empty.
pub open spec fn performer_str(performer: Option<Json>, key: Seq<char>) -> Option<Seq<char>> {
    match str_in(performer, key) {
        Some(s) => if s.len() > 0 { Some(s) } else { None },
        None => None,
    }
}

/// The metadata of a live BongaCams room.
pub open spec fn bongacams_info(id: Seq<char>, room: Json, server: Seq<char>) -> Map<Seq<char>, Json> {
    let performer = json_lookup(room, "performerData"@);
    let uploader_id = match performer_str(performer, "username"@) { Some(u) => u, None => id };
    let uploader = performer_str(performer, "displayName"@);
    let title = match uploader { Some(u) => u, None => uploader_id };
    let hls = strip_suffixes(server, "/"@) + "/hls/stream_"@ + uploader_id + "/playlist.m3u8"@;
    put_opt(put_opt(Map::<Seq<char>, Json>::empty()
        .insert("id"@, Json::Str(id))
        .insert("title"@, Json::Str(title)),
        "uploader"@, opt_str(uploader))
        .insert("uploader_id"@, Json::Str(uploader_id)),
        "like_count"@, match performer { Some(p) => opt_int(json_int_at(p, "loversCount"@)), None => None })
        .insert("age_limit"@, Json::Int(18))
        .insert("is_live"@, Json::Bool(true))
        .insert("url"@, Json::Str(hls))
        .insert("ext"@, Json::Str("mp4"@))
        .insert("formats"@, Json::Array(seq![Json::Object(seq![
            ("url"@, Json::Str(hls)),
            ("format_id"@, Json::Str("hls"@)),
            ("protocol"@, Json::Str("m3u8_native"@)),
            ("ext"@, Json::Str("mp4"@)),
            ("live"@, Json::Bool(true)),
        ])]))
}

/// A non-empty string member of an optional performer record.
fn performer_string<'a>(performer: Option<&'a JsonValue>, key: &str) -> (r: Option<&'a str>)
    ensures
        str_opt_view(r) == performer_str(match performer { Some(p) => Some(p@), None => None }, key@),
{
    match performer {
        Some(p) => match json_string(p, key) {
            Some(s) => if s.unicode_len() > 0 { Some(s) } else { None },
            None => None,
        },
        None => None,
    }
}

impl BongaCamsExtractor {
    /// One step of a BongaCams extraction: the room data is posted for, and the room's
    /// video server gives the live HLS stream.
    pub fn extract_step(&self, url: &str, replies: &Vec<Reply>) -> (r: Result<Step, ExtractorError>)
        ensures
            match regex_named_capture(self.matcher().source(), url@, "host"@) {
                Some(host) => match regex_named_capture(self.matcher().source(), url@, "id"@) {
                    Some(id) => if replies@.len() == 0 {
                        r matches Ok(Step::Fetch(f)) && is_bongacams_room_request(f, host, id)
                    } else {
                        match reply_json_at(replies@, 0) {
                            Some(room) => match str_in(json_lookup(room@, "localData"@), "videoServerUrl"@) {
                                Some(server) => if server.len() > 0 {
                                    done_with(r, bongacams_info(id, room@, server))
                                } else {
                                    fails_with(r, ExtractorErrorKind::Extraction)
                                },
                                None => fails_with(r, ExtractorErrorKind::Extraction),
                            },
                            None => fails_with(r, ExtractorErrorKind::Extraction),
                        }
                    },
                    None => fails_with(r, ExtractorErrorKind::InvalidUrl),
                },
                None => fails_with(r, ExtractorErrorKind::InvalidUrl),
            },
    {
        let host = match self.site.capture(url, "host") {
            Some(v) => v,
            None => return Err(fail(ExtractorErrorKind::InvalidUrl, "BongaCams URL has no host")),
        };
        let channel_id = match self.site.capture(url, "id") {
            Some(v) => v,
            None => return Err(fail(ExtractorErrorKind::InvalidUrl, "BongaCams URL has no channel ID")),
        };
        if replies.len() == 0 {
            return Ok(Step::Fetch(bongacams_room_data(host.as_str(), channel_id.as_str())));
        }
        let room = reply_json(replies, 0)?;
        let server = match json_get(room, "localData") {
            Some(l) => match json_string(l, "videoServerUrl") {
                Some(s) => if s.unicode_len() > 0 { s } else {
                    return Err(ExtractorError::new(ExtractorErrorKind::Extraction, concat3("BongaCams room ", channel_id.as_str(), " has no video server URL")));
                },
                None => return Err(ExtractorError::new(ExtractorErrorKind::Extraction, concat3("BongaCams room ", channel_id.as_str(), " has no video server URL"))),
            },
            None => return Err(ExtractorError::new(ExtractorErrorKind::Extraction, concat3("BongaCams room ", channel_id.as_str(), " has no video server URL"))),
        };
        let performer = json_get(room, "performerData");
        let uploader_id = match performer_string(performer, "username") { Some(u) => owned(u), None => channel_id.clone() };
        let uploader = performer_string(performer, "displayName");
        let title = match uploader { Some(u) => owned(u), None => uploader_id.clone() };
        let mut hls = trim_end_matches(server, "/");
        push_str(&mut hls, "/hls/stream_");
        push_str(&mut hls, uploader_id.as_str());
        push_str(&mut hls, "/playlist.m3u8");
        let mut info = InfoDict::new();
        info.insert("id", JsonValue::Str(channel_id.clone()));
        info.insert("title", JsonValue::Str(title));
        info.insert_if_some("uploader", opt_str_json(uploader));
        info.insert("uploader_id", JsonValue::Str(uploader_id));
        info.insert_if_some("like_count", match performer { Some(p) => opt_int_json(json_i64(p, "loversCount")), None => None });
        info.insert("age_limit", JsonValue::Int(18));
        info.insert("is_live", JsonValue::Bool(true));
        info.insert("url", jstr(hls.as_str()));
        info.insert("ext", jstr("mp4"));
        let mut f = obj_new();
        obj_add(&mut f, "url", jstr(hls.as_str()));
        obj_add(&mut f, "format_id", jstr("hls"));
        obj_add(&mut f, "protocol", jstr("m3u8_native"));
        obj_add(&mut f, "ext", jstr("mp4"));
        obj_add(&mut f, "live", JsonValue::Bool(true));
        assert(fields_view(f@) =~= seq![
            ("url"@, Json::Str(hls@)),
            ("format_id"@, Json::Str("hls"@)),
            ("protocol"@, Json::Str("m3u8_native"@)),
            ("ext"@, Json::Str("mp4"@)),
            ("live"@, Json::Bool(true)),
        ]);
        let mut a = arr_new();
        arr_add(&mut a, obj_done(f));
        info.insert("formats", arr_done(a));
        Ok(Step::Done(ExtractorResult::single(info)))
    }
}

} // verus!
