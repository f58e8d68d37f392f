use vstd::prelude::*;

use crate::extract::{determine_ext, ext_of, jstr, lookup_in, opt_str, opt_str_json, put_opt, reply_json, reply_json_at, reply_text, reply_text_at, str_in};
use crate::framework::{Expect, ExtractorDescriptor, ExtractorError, ExtractorErrorKind, ExtractorResult, Reply, SiteMatcher, Step, descriptor_ok, descriptor_source, done_with, fail, fails_with, fetches, get_json_accepting, get_text, get_text_optional, is_accepting_get, is_optional_text_get, descriptor_error};
use crate::html::{nonempty_fragment};
use crate::info::{InfoDict};
use crate::json::{Json, JsonValue, arr_add, arr_done, arr_new, fields_view, json_get, json_lookup, json_str_at, json_string, lemma_array_view, obj_add, obj_done, obj_new};
use crate::page::{html_meta_value, meta_value, xml_element_pattern, xml_element_text};
use crate::pattern::{first_group, regex_matches, regex_named_capture};
use crate::text::{concat2, concat3, concat4, owned};
use crate::weburl::{url_bare_of, url_host, url_host_of, url_without_query};

verus! {

/// Native EbaumsWorld XML player extractor.
pub struct EbaumsWorldExtractor {
    site: SiteMatcher,
}

impl EbaumsWorldExtractor {
    /// The descriptor and matcher the extractor was built with.
    pub closed spec fn matcher(&self) -> SiteMatcher {
        self.site
    }

    pub fn new(descriptor: ExtractorDescriptor) -> (r: Result<Self, ExtractorError>)
        ensures
            r is Ok <==> descriptor_ok(descriptor),
            r matches Ok(x) ==> x.matcher().spec_descriptor() == descriptor
                && Some(x.matcher().source()) == descriptor_source(descriptor),
            r matches Err(e) ==> e.kind == ExtractorErrorKind::Extraction && e.message@ == descriptor_error(descriptor),
    {
        match SiteMatcher::from_descriptor(descriptor) {
            Ok(site) => Ok(EbaumsWorldExtractor { site }),
            Err(e) => Err(e),
        }
    }

    pub fn descriptor(&self) -> (r: &ExtractorDescriptor)
        ensures
            *r == self.matcher().spec_descriptor(),
    {
        self.site.descriptor()
    }

    pub fn suitable(&self, url: &str) -> (r: bool)
        ensures
            r == regex_matches(self.matcher().source(), url@),
    {
        self.site.suitable(url)
    }

    pub fn is_native(&self) -> (r: bool)
        ensures
            r,
    {
        true
    }

    pub fn native_matcher_count(&self) -> (r: usize)
        ensures
            r == 1,
    {
        1
    }
}

/// Native Fuyin TV API extractor.
pub struct FuyinTvExtractor {
    site: SiteMatcher,
}

impl FuyinTvExtractor {
    /// The descriptor and matcher the extractor was built with.
    pub closed spec fn matcher(&self) -> SiteMatcher {
        self.site
    }

    pub fn new(descriptor: ExtractorDescriptor) -> (r: Result<Self, ExtractorError>)
        ensures
            r is Ok <==> descriptor_ok(descriptor),
            r matches Ok(x) ==> x.matcher().spec_descriptor() == descriptor
                && Some(x.matcher().source()) == descriptor_source(descriptor),
            r matches Err(e) ==> e.kind == ExtractorErrorKind::Extraction && e.message@ == descriptor_error(descriptor),
    {
        match SiteMatcher::from_descriptor(descriptor) {
            Ok(site) => Ok(FuyinTvExtractor { site }),
            Err(e) => Err(e),
        }
    }

    pub fn descriptor(&self) -> (r: &ExtractorDescriptor)
        ensures
            *r == self.matcher().spec_descriptor(),
    {
        self.site.descriptor()
    }

    pub fn suitable(&self, url: &str) -> (r: bool)
        ensures
            r == regex_matches(self.matcher().source(), url@),
    {
        self.site.suitable(url)
    }

    pub fn is_native(&self) -> (r: bool)
        ensures
            r,
    {
        true
    }

    pub fn native_matcher_count(&self) -> (r: usize)
        ensures
            r == 1,
    {
        1
    }
}

/// Native CAM4 live HLS extractor.
pub struct Cam4Extractor {
    site: SiteMatcher,
}

impl Cam4Extractor {
    /// The descriptor and matcher the extractor was built with.
    pub closed spec fn matcher(&self) -> SiteMatcher {
        self.site
    }

    pub fn new(descriptor: ExtractorDescriptor) -> (r: Result<Self, ExtractorError>)
        ensures
            r is Ok <==> descriptor_ok(descriptor),
            r matches Ok(x) ==> x.matcher().spec_descriptor() == descriptor
                && Some(x.matcher().source()) == descriptor_source(descriptor),
            r matches Err(e) ==> e.kind == ExtractorErrorKind::Extraction && e.message@ == descriptor_error(descriptor),
    {
        match SiteMatcher::from_descriptor(descriptor) {
            Ok(site) => Ok(Cam4Extractor { site }),
            Err(e) => Err(e),
        }
    }

    pub fn descriptor(&self) -> (r: &ExtractorDescriptor)
        ensures
            *r == self.matcher().spec_descriptor(),
    {
        self.site.descriptor()
    }

    pub fn suitable(&self, url: &str) -> (r: bool)
        ensures
            r == regex_matches(self.matcher().source(), url@),
    {
        self.site.suitable(url)
    }

    pub fn is_native(&self) -> (r: bool)
        ensures
            r,
    {
        true
    }

    pub fn native_matcher_count(&self) -> (r: usize)
        ensures
            r == 1,
    {
        1
    }
}

/// Native Kommunetv stream API extractor.
pub struct KommunetvExtractor {
    site: SiteMatcher,
}

impl KommunetvExtractor {
    /// The descriptor and matcher the extractor was built with.
    pub closed spec fn matcher(&self) -> SiteMatcher {
        self.site
    }

    pub fn new(descriptor: ExtractorDescriptor) -> (r: Result<Self, ExtractorError>)
        ensures
            r is Ok <==> descriptor_ok(descriptor),
            r matches Ok(x) ==> x.matcher().spec_descriptor() == descriptor
                && Some(x.matcher().source()) == descriptor_source(descriptor),
            r matches Err(e) ==> e.kind == ExtractorErrorKind::Extraction && e.message@ == descriptor_error(descriptor),
    {
        match SiteMatcher::from_descriptor(descriptor) {
            Ok(site) => Ok(KommunetvExtractor { site }),
            Err(e) => Err(e),
        }
    }

    pub fn descriptor(&self) -> (r: &ExtractorDescriptor)
        ensures
            *r == self.matcher().spec_descriptor(),
    {
        self.site.descriptor()
    }

    pub fn suitable(&self, url: &str) -> (r: bool)
        ensures
            r == regex_matches(self.matcher().source(), url@),
    {
        self.site.suitable(url)
    }

    pub fn is_native(&self) -> (r: bool)
        ensures
            r,
    {
        true
    }

    pub fn native_matcher_count(&self) -> (r: usize)
        ensures
            r == 1,
    {
        1
    }
}


/// The first item of an array member, when there is one.
pub open spec fn first_item_at(v: Option<Json>, key: Seq<char>) -> Option<Json> {
    match lookup_in(v, key) {
        Some(Json::Array(a)) => if a.len() > 0 { Some(a[0]) } else { None },
        _ => None,
    }
}

/// The first item of the array member `key` of `v`.
pub(crate) fn first_item<'a>(v: &'a JsonValue, key: &str) -> (r: Option<&'a JsonValue>)
    ensures
        match r {
            Some(x) => first_item_at(Some(v@), key@) == Some(x@),
            None => first_item_at(Some(v@), key@) is None,
        },
{
    match json_get(v, key) {
        Some(a) => match a {
            JsonValue::Array(items) => {
                proof { lemma_array_view(*a); }
                if items.len() > 0 { Some(&items[0]) } else { None }
            },
            _ => None,
        },
        None => None,
    }
}

/// The host that a Kommunetv address names, else Oslo's.
pub open spec fn kommunetv_host(url: Seq<char>) -> Seq<char> {
    match url_host_of(url) {
        Some(h) => h,
        None => "oslo.kommunetv.no"@,
    }
}

/// The first playlist file of a Kommunetv stream record.
pub open spec fn kommunetv_file(data: Json) -> Option<Seq<char>> {
    match first_item_at(first_item_at(Some(data), "playlist"@), "playlist"@) {
        Some(p) => json_str_at(p, "file"@),
        None => None,
    }
}

/// The metadata of a Kommunetv stream.
pub open spec fn kommunetv_info(url: Seq<char>, id: Seq<char>, data: Json, playlist: Seq<char>) -> Map<Seq<char>, Json> {
    Map::<Seq<char>, Json>::empty()
        .insert("id"@, Json::Str(id))
        .insert("title"@, Json::Str(match str_in(json_lookup(data, "stream"@), "title"@) { Some(t) => t, None => id }))
        .insert("url"@, Json::Str(playlist))
        .insert("ext"@, Json::Str("mp4"@))
        .insert("formats"@, Json::Array(seq![Json::Object(seq![
            ("url"@, Json::Str(playlist)),
            ("format_id"@, Json::Str("hls"@)),
            ("ext"@, Json::Str("mp4"@)),
            ("protocol"@, Json::Str("m3u8_native"@)),
        ])]))
        .insert("webpage_url"@, Json::Str(url))
}

impl KommunetvExtractor {
    /// One step of a Kommunetv extraction: the stream record is asked of the host's API,
    /// and its first playlist file, without query or fragment, is the HLS stream.
    pub fn extract_step(&self, url: &str, replies: &Vec<Reply>) -> (r: Result<Step, ExtractorError>)
        ensures
            match regex_named_capture(self.matcher().source(), url@, "id"@) {
                Some(id) => if replies@.len() == 0 {
                    r matches Ok(Step::Fetch(f)) && is_accepting_get(f,
                        "https://"@ + kommunetv_host(url@) + "/api/streams?streamType=1&id="@ + id, "application/json"@)
                } else {
                    match reply_json_at(replies@, 0) {
                        Some(data) => match kommunetv_file(data@) {
                            Some(file) => match url_bare_of(file) {
                                Some(p) => done_with(r, kommunetv_info(url@, id, data@, p)),
                                None => fails_with(r, ExtractorErrorKind::Extraction),
                            },
                            None => fails_with(r, ExtractorErrorKind::Extraction),
                        },
                        None => fails_with(r, ExtractorErrorKind::Extraction),
                    }
                },
                None => fails_with(r, ExtractorErrorKind::InvalidUrl),
            },
    {
        let video_id = match self.site.capture(url, "id") {
            Some(v) => v,
            None => return Err(fail(ExtractorErrorKind::InvalidUrl, "Kommunetv URL has no ID")),
        };
        if replies.len() == 0 {
            let host = match url_host(url) { Some(h) => h, None => owned("oslo.kommunetv.no") };
            let api = concat4("https://", host.as_str(), "/api/streams?streamType=1&id=", video_id.as_str());
            return Ok(Step::Fetch(get_json_accepting(api, "application/json")));
        }
        let data = reply_json(replies, 0)?;
        let file = match first_item(data, "playlist") {
            Some(p) => match first_item(p, "playlist") {
                Some(q) => json_string(q, "file"),
                None => None,
            },
            None => None,
        };
        let file = match file {
            Some(f) => f,
            None => return Err(ExtractorError::new(ExtractorErrorKind::Extraction, concat3("Kommunetv stream ", video_id.as_str(), " has no playlist URL"))),
        };
        let playlist = match url_without_query(file) {
            Some(p) => p,
            None => return Err(fail(ExtractorErrorKind::Extraction, "invalid Kommunetv playlist URL")),
        };
        let title = match json_get(data, "stream") {
            Some(s) => match json_string(s, "title") { Some(t) => owned(t), None => video_id.clone() },
            None => video_id.clone(),
        };
        let mut info = InfoDict::new();
        info.insert("id", JsonValue::Str(video_id));
        info.insert("title", JsonValue::Str(title));
        info.insert("url", jstr(playlist.as_str()));
        info.insert("ext", jstr("mp4"));
        let mut f = obj_new();
        obj_add(&mut f, "url", jstr(playlist.as_str()));
        obj_add(&mut f, "format_id", jstr("hls"));
        obj_add(&mut f, "ext", jstr("mp4"));
        obj_add(&mut f, "protocol", jstr("m3u8_native"));
        assert(fields_view(f@) =~= seq![
            ("url"@, Json::Str(playlist@)),
            ("format_id"@, Json::Str("hls"@)),
            ("ext"@, Json::Str("mp4"@)),
            ("protocol"@, Json::Str("m3u8_native"@)),
        ]);
        let mut a = arr_new();
        arr_add(&mut a, obj_done(f));
        info.insert("formats", arr_done(a));
        info.insert("webpage_url", jstr(url));
        Ok(Step::Done(ExtractorResult::single(info)))
    }
}

/// The metadata of a Fuyin TV video; `html` is its page, empty when it could not be had.
pub open spec fn fuyin_info(url: Seq<char>, id: Seq<char>, data: Json, media: Seq<char>, html: Seq<char>) -> Map<Seq<char>, Json> {
    let ext = ext_of(media, "mp4"@);
    put_opt(put_opt(Map::<Seq<char>, Json>::empty()
        .insert("id"@, Json::Str(id)),
        "title"@, opt_str(json_str_at(data, "title"@)))
        .insert("url"@, Json::Str(media))
        .insert("ext"@, Json::Str(ext))
        .insert("formats"@, Json::Array(seq![Json::Object(seq![
            ("url"@, Json::Str(media)),
            ("format_id"@, Json::Str("http"@)),
            ("ext"@, Json::Str(ext)),
        ])])),
        "description"@, opt_str(meta_value(html, "description"@)))
        .insert("webpage_url"@, Json::Str(url))
}

impl FuyinTvExtractor {
    /// One step of a Fuyin TV extraction: the media record is asked of the API, then the
    /// page is fetched for its description; a page that cannot be had gives none.
    pub fn extract_step(&self, url: &str, replies: &Vec<Reply>) -> (r: Result<Step, ExtractorError>)
        ensures
            match regex_named_capture(self.matcher().source(), url@, "id"@) {
                Some(id) => if replies@.len() == 0 {
                    r matches Ok(Step::Fetch(f)) && is_accepting_get(f,
                        "https://www.fuyin.tv/api/api/tv.movie/url?urlid="@ + id, "application/json"@)
                } else {
                    match reply_json_at(replies@, 0) {
                        Some(api) => match json_lookup(api@, "data"@) {
                            Some(data) => match json_str_at(data, "url"@) {
                                Some(media) => if replies@.len() == 1 {
                                    r matches Ok(Step::Fetch(f)) && is_optional_text_get(f, url@)
                                } else {
                                    done_with(r, fuyin_info(url@, id, data, media,
                                        match reply_text_at(replies@, 1) { Some(h) => h, None => Seq::empty() }))
                                },
                                None => fails_with(r, ExtractorErrorKind::Extraction),
                            },
                            None => fails_with(r, ExtractorErrorKind::Extraction),
                        },
                        None => fails_with(r, ExtractorErrorKind::Extraction),
                    }
                },
                None => fails_with(r, ExtractorErrorKind::InvalidUrl),
            },
    {
        let video_id = match self.site.capture(url, "id") {
            Some(v) => v,
            None => return Err(fail(ExtractorErrorKind::InvalidUrl, "Fuyin TV URL has no ID")),
        };
        if replies.len() == 0 {
            return Ok(Step::Fetch(get_json_accepting(concat2("https://www.fuyin.tv/api/api/tv.movie/url?urlid=", video_id.as_str()), "application/json")));
        }
        let api = reply_json(replies, 0)?;
        let data = match json_get(api, "data") {
            Some(d) => d,
            None => return Err(fail(ExtractorErrorKind::Extraction, "Fuyin TV API response has no data object")),
        };
        let media = match json_string(data, "url") {
            Some(m) => m,
            None => return Err(ExtractorError::new(ExtractorErrorKind::Extraction, concat3("Fuyin TV video ", video_id.as_str(), " has no media URL"))),
        };
        if replies.len() == 1 {
            return Ok(Step::Fetch(get_text_optional(owned(url))));
        }
        let empty = String::new();
        let html: &String = match &replies[1] {
            Reply::Text(h) => h,
            _ => &empty,
        };
        let ext = determine_ext(media, "mp4");
        let mut info = InfoDict::new();
        info.insert("id", JsonValue::Str(video_id));
        info.insert_if_some("title", opt_str_json(json_string(data, "title")));
        info.insert("url", jstr(media));
        info.insert("ext", jstr(ext.as_str()));
        let mut f = obj_new();
        obj_add(&mut f, "url", jstr(media));
        obj_add(&mut f, "format_id", jstr("http"));
        obj_add(&mut f, "ext", jstr(ext.as_str()));
        assert(fields_view(f@) =~= seq![
            ("url"@, Json::Str(media@)),
            ("format_id"@, Json::Str("http"@)),
            ("ext"@, Json::Str(ext@)),
        ]);
        let mut a = arr_new();
        arr_add(&mut a, obj_done(f));
        info.insert("formats", arr_done(a));
        info.insert_if_some("description", match html_meta_value(html.as_str(), "description") { Some(d) => Some(JsonValue::Str(d)), None => None });
        info.insert("webpage_url", jstr(url));
        Ok(Step::Done(ExtractorResult::single(info)))
    }
}

/// The metadata of a live CAM4 channel.
pub open spec fn cam4_info(url: Seq<char>, id: Seq<char>, playlist: Seq<char>) -> Map<Seq<char>, Json> {
    Map::<Seq<char>, Json>::empty()
        .insert("id"@, Json::Str(id))
        .insert("title"@, Json::Str(id))
        .insert("url"@, Json::Str(playlist))
        .insert("ext"@, Json::Str("mp4"@))
        .insert("formats"@, Json::Array(seq![Json::Object(seq![
            ("url"@, Json::Str(playlist)),
            ("format_id"@, Json::Str("hls"@)),
            ("ext"@, Json::Str("mp4"@)),
            ("protocol"@, Json::Str("m3u8_native"@)),
        ])]))
        .insert("is_live"@, Json::Bool(true))
        .insert("live_status"@, Json::Str("is_live"@))
        .insert("age_limit"@, Json::Int(18))
        .insert("thumbnail"@, Json::Str("https://snapshots.xcdnpro.com/thumbnails/"@ + id))
        .insert("webpage_url"@, Json::Str(url))
}

impl Cam4Extractor {
    /// One step of a CAM4 extraction: the channel's stream record gives the live HLS
    /// stream.
    pub fn extract_step(&self, url: &str, replies: &Vec<Reply>) -> (r: Result<Step, ExtractorError>)
        ensures
            match regex_named_capture(self.matcher().source(), url@, "id"@) {
                Some(id) => if replies@.len() == 0 {
                    r matches Ok(Step::Fetch(f)) && is_accepting_get(f,
                        "https://www.cam4.com/rest/v1.0/profile/"@ + id + "/streamInfo"@, "application/json"@)
                } else {
                    match reply_json_at(replies@, 0) {
                        Some(data) => match json_str_at(data@, "cdnURL"@) {
                            Some(p) => done_with(r, cam4_info(url@, id, p)),
                            None => fails_with(r, ExtractorErrorKind::Extraction),
                        },
                        None => fails_with(r, ExtractorErrorKind::Extraction),
                    }
                },
                None => fails_with(r, ExtractorErrorKind::InvalidUrl),
            },
    {
        let channel_id = match self.site.capture(url, "id") {
            Some(v) => v,
            None => return Err(fail(ExtractorErrorKind::InvalidUrl, "CAM4 URL has no ID")),
        };
        if replies.len() == 0 {
            return Ok(Step::Fetch(get_json_accepting(concat3("https://www.cam4.com/rest/v1.0/profile/", channel_id.as_str(), "/streamInfo"), "application/json")));
        }
        let data = reply_json(replies, 0)?;
        let playlist = match json_string(data, "cdnURL") {
            Some(p) => p,
            None => return Err(ExtractorError::new(ExtractorErrorKind::Extraction, concat3("CAM4 channel ", channel_id.as_str(), " has no live stream URL"))),
        };
        let mut info = InfoDict::new();
        info.insert("id", JsonValue::Str(channel_id.clone()));
        info.insert("title", JsonValue::Str(channel_id.clone()));
        info.insert("url", jstr(playlist));
        info.insert("ext", jstr("mp4"));
        let mut f = obj_new();
        obj_add(&mut f, "url", jstr(playlist));
        obj_add(&mut f, "format_id", jstr("hls"));
        obj_add(&mut f, "ext", jstr("mp4"));
        obj_add(&mut f, "protocol", jstr("m3u8_native"));
        assert(fields_view(f@) =~= seq![
            ("url"@, Json::Str(playlist@)),
            ("format_id"@, Json::Str("hls"@)),
            ("ext"@, Json::Str("mp4"@)),
            ("protocol"@, Json::Str("m3u8_native"@)),
        ]);
        let mut a = arr_new();
        arr_add(&mut a, obj_done(f));
        info.insert("formats", arr_done(a));
        info.insert("is_live", JsonValue::Bool(true));
        info.insert("live_status", jstr("is_live"));
        info.insert("age_limit", JsonValue::Int(18));
        info.insert("thumbnail", JsonValue::Str(concat2("https://snapshots.xcdnpro.com/thumbnails/", channel_id.as_str())));
        info.insert("webpage_url", jstr(url));
        Ok(Step::Done(ExtractorResult::single(info)))
    }
}

/// The text of element `e` of an EbaumsWorld player document.
pub open spec fn ebaums_text(xml: Seq<char>, e: Seq<char>) -> Option<Seq<char>> {
    nonempty_fragment(first_group(xml_element_pattern(e), xml, 1))
}

/// The metadata of an EbaumsWorld video.
pub open spec fn ebaums_info(url: Seq<char>, id: Seq<char>, xml: Seq<char>, media: Seq<char>) -> Map<Seq<char>, Json> {
    let ext = ext_of(media, "mp4"@);
    put_opt(put_opt(put_opt(Map::<Seq<char>, Json>::empty()
        .insert("id"@, Json::Str(id))
        .insert("title"@, Json::Str(match ebaums_text(xml, "title"@) { Some(t) => t, None => id }))
        .insert("url"@, Json::Str(media))
        .insert("ext"@, Json::Str(ext))
        .insert("formats"@, Json::Array(seq![Json::Object(seq![
            ("url"@, Json::Str(media)),
            ("format_id"@, Json::Str("http"@)),
            ("ext"@, Json::Str(ext)),
        ])])),
        "description"@, opt_str(ebaums_text(xml, "description"@))),
        "thumbnail"@, opt_str(ebaums_text(xml, "image"@))),
        "uploader"@, opt_str(ebaums_text(xml, "username"@)))
        .insert("webpage_url"@, Json::Str(url))
}

impl EbaumsWorldExtractor {
    /// One step of an EbaumsWorld extraction: the player document is fetched, and its
    /// `file` element is the video.
    pub fn extract_step(&self, url: &str, replies: &Vec<Reply>) -> (r: Result<Step, ExtractorError>)
        ensures
            match regex_named_capture(self.matcher().source(), url@, "id"@) {
                Some(id) => if replies@.len() == 0 {
                    fetches(r, "http://www.ebaumsworld.com/video/player/"@ + id, Expect::Text)
                } else {
                    match reply_text_at(replies@, 0) {
                        Some(xml) => match ebaums_text(xml, "file"@) {
                            Some(media) => done_with(r, ebaums_info(url@, id, xml, media)),
                            None => fails_with(r, ExtractorErrorKind::Extraction),
                        },
                        None => fails_with(r, ExtractorErrorKind::Extraction),
                    }
                },
                None => fails_with(r, ExtractorErrorKind::InvalidUrl),
            },
    {
        let video_id = match self.site.capture(url, "id") {
            Some(v) => v,
            None => return Err(fail(ExtractorErrorKind::InvalidUrl, "EbaumsWorld URL has no ID")),
        };
        if replies.len() == 0 {
            return Ok(Step::Fetch(get_text(concat2("http://www.ebaumsworld.com/video/player/", video_id.as_str()))));
        }
        let xml = reply_text(replies, 0)?;
        let media = match xml_element_text(xml.as_str(), "file") {
            Some(m) => m,
            None => return Err(ExtractorError::new(ExtractorErrorKind::Extraction, concat3("EbaumsWorld video ", video_id.as_str(), " has no media URL"))),
        };
        let ext = determine_ext(media.as_str(), "mp4");
        let mut info = InfoDict::new();
        info.insert("id", JsonValue::Str(video_id.clone()));
        info.insert("title", JsonValue::Str(match xml_element_text(xml.as_str(), "title") { Some(t) => t, None => video_id.clone() }));
        info.insert("url", jstr(media.as_str()));
        info.insert("ext", jstr(ext.as_str()));
        let mut f = obj_new();
        obj_add(&mut f, "url", jstr(media.as_str()));
        obj_add(&mut f, "format_id", jstr("http"));
        obj_add(&mut f, "ext", jstr(ext.as_str()));
        assert(fields_view(f@) =~= seq![
            ("url"@, Json::Str(media@)),
            ("format_id"@, Json::Str("http"@)),
            ("ext"@, Json::Str(ext@)),
        ]);
        let mut a = arr_new();
        arr_add(&mut a, obj_done(f));
        info.insert("formats", arr_done(a));
        info.insert_if_some("description", match xml_element_text(xml.as_str(), "description") { Some(d) => Some(JsonValue::Str(d)), None => None });
        info.insert_if_some("thumbnail", match xml_element_text(xml.as_str(), "image") { Some(d) => Some(JsonValue::Str(d)), None => None });
        info.insert_if_some("uploader", match xml_element_text(xml.as_str(), "username") { Some(d) => Some(JsonValue::Str(d)), None => None });
        info.insert("webpage_url", jstr(url));
        Ok(Step::Done(ExtractorResult::single(info)))
    }
}

} // verus!
