use vstd::prelude::*;

use crate::extract::{determine_ext, ext_of, first_str, json_f64, json_index, json_num_at, jstr, lookup_in, member_or_null, opt_int, opt_int_json, opt_str, opt_str_json, or_null, proto_relative, proto_relative_url, put_opt, reply_json, reply_json_at, reply_text, reply_text_at};
use crate::framework::{Expect, ExtractorDescriptor, ExtractorError, ExtractorErrorKind, ExtractorResult, Fetch, Method, Reply, SiteMatcher, Step, descriptor_ok, descriptor_source, done_with, fail, fails_with, fetches, get_text, headers_view, descriptor_error};
use crate::info::{InfoDict};
use crate::json::{Json, JsonValue, arr_add, arr_done, arr_new, fields_view, json_get, json_i64, json_int_at, json_lookup, json_str_at, json_string, lemma_array_view, obj_add, obj_done, obj_new};
use crate::jsontext::{json_value_string, value_text};
use crate::page::{html_meta_value, html_script_json, json_after_marker, json_object_after_marker, meta_value, script_json};
use crate::pattern::{regex_matches, regex_named_capture};
use crate::text::{concat3, concat4, owned, push_str};

verus! {

/// Native Megaphone embedded podcast player extractor.
pub struct MegaphoneExtractor {
    site: SiteMatcher,
}

impl MegaphoneExtractor {
    /// The descriptor and matcher the extractor was built with.
    pub closed spec fn matcher(&self) -> SiteMatcher {
        self.site
    }

    pub fn new(descriptor: ExtractorDescriptor) -> (r: Result<Self, ExtractorError>)
        ensures
            r is Ok <==> descriptor_ok(descriptor),
            r matches Ok(x) ==> x.matcher().spec_descriptor() == descriptor
                && Some(x.matcher().source()) == descriptor_source(descriptor),
            r matches Err(e) ==> e.kind == ExtractorErrorKind::Extraction && e.message@ == descriptor_error(descriptor),
    {
        match SiteMatcher::from_descriptor(descriptor) {
            Ok(site) => Ok(MegaphoneExtractor { site }),
            Err(e) => Err(e),
        }
    }

    pub fn descriptor(&self) -> (r: &ExtractorDescriptor)
        ensures
            *r == self.matcher().spec_descriptor(),
    {
        self.site.descriptor()
    }

    pub fn suitable(&self, url: &str) -> (r: bool)
        ensures
            r == regex_matches(self.matcher().source(), url@),
    {
        self.site.suitable(url)
    }

    pub fn is_native(&self) -> (r: bool)
        ensures
            r,
    {
        true
    }

    pub fn native_matcher_count(&self) -> (r: usize)
        ensures
            r == 1,
    {
        1
    }
}

/// Native Hypem track extractor. Track metadata is embedded in the page and
/// the service's source endpoint returns the final audio URL.
pub struct HypemExtractor {
    site: SiteMatcher,
}

impl HypemExtractor {
    /// The descriptor and matcher the extractor was built with.
    pub closed spec fn matcher(&self) -> SiteMatcher {
        self.site
    }

    pub fn new(descriptor: ExtractorDescriptor) -> (r: Result<Self, ExtractorError>)
        ensures
            r is Ok <==> descriptor_ok(descriptor),
            r matches Ok(x) ==> x.matcher().spec_descriptor() == descriptor
                && Some(x.matcher().source()) == descriptor_source(descriptor),
            r matches Err(e) ==> e.kind == ExtractorErrorKind::Extraction && e.message@ == descriptor_error(descriptor),
    {
        match SiteMatcher::from_descriptor(descriptor) {
            Ok(site) => Ok(HypemExtractor { site }),
            Err(e) => Err(e),
        }
    }

    pub fn descriptor(&self) -> (r: &ExtractorDescriptor)
        ensures
            *r == self.matcher().spec_descriptor(),
    {
        self.site.descriptor()
    }

    pub fn suitable(&self, url: &str) -> (r: bool)
        ensures
            r == regex_matches(self.matcher().source(), url@),
    {
        self.site.suitable(url)
    }

    pub fn is_native(&self) -> (r: bool)
        ensures
            r,
    {
        true
    }

    pub fn native_matcher_count(&self) -> (r: usize)
        ensures
            r == 1,
    {
        1
    }
}

/// Native QingTing podcast program extractor.
pub struct QingTingExtractor {
    site: SiteMatcher,
}

impl QingTingExtractor {
    /// The descriptor and matcher the extractor was built with.
    pub closed spec fn matcher(&self) -> SiteMatcher {
        self.site
    }

    pub fn new(descriptor: ExtractorDescriptor) -> (r: Result<Self, ExtractorError>)
        ensures
            r is Ok <==> descriptor_ok(descriptor),
            r matches Ok(x) ==> x.matcher().spec_descriptor() == descriptor
                && Some(x.matcher().source()) == descriptor_source(descriptor),
            r matches Err(e) ==> e.kind == ExtractorErrorKind::Extraction && e.message@ == descriptor_error(descriptor),
    {
        match SiteMatcher::from_descriptor(descriptor) {
            Ok(site) => Ok(QingTingExtractor { site }),
            Err(e) => Err(e),
        }
    }

    pub fn descriptor(&self) -> (r: &ExtractorDescriptor)
        ensures
            *r == self.matcher().spec_descriptor(),
    {
        self.site.descriptor()
    }

    pub fn suitable(&self, url: &str) -> (r: bool)
        ensures
            r == regex_matches(self.matcher().source(), url@),
    {
        self.site.suitable(url)
    }

    pub fn is_native(&self) -> (r: bool)
        ensures
            r,
    {
        true
    }

    pub fn native_matcher_count(&self) -> (r: usize)
        ensures
            r == 1,
    {
        1
    }
}




/// The page of QingTing program `id` of channel `channel`.
pub open spec fn qingting_page(channel: Seq<char>, id: Seq<char>) -> Seq<char> {
    "https://m.qtfm.cn/vchannels/"@ + channel + "/programs/"@ + id + "/"@
}

/// The metadata of a QingTing program from the page's stores.
pub open spec fn qingting_info(channel: Seq<char>, id: Seq<char>, stores: Json, media: Seq<char>) -> Map<Seq<char>, Json> {
    let ps = or_null(json_lookup(stores, "ProgramStore"@));
    let program = or_null(json_lookup(ps, "programInfo"@));
    let chan = or_null(json_lookup(ps, "channelInfo"@));
    let podcaster = or_null(lookup_in(json_lookup(ps, "podcasterInfo"@), "podcaster"@));
    put_opt(put_opt(put_opt(Map::<Seq<char>, Json>::empty()
        .insert("id"@, Json::Str(id)),
        "title"@, opt_str(json_str_at(program, "title"@)))
        .insert("channel_id"@, Json::Str(channel)),
        "channel"@, opt_str(json_str_at(chan, "title"@))),
        "uploader"@, opt_str(json_str_at(podcaster, "nickname"@)))
        .insert("url"@, Json::Str(media))
        .insert("ext"@, Json::Str("m4a"@))
        .insert("vcodec"@, Json::Str("none"@))
        .insert("acodec"@, Json::Str("m4a"@))
        .insert("formats"@, Json::Array(seq![Json::Object(seq![
            ("url"@, Json::Str(media)),
            ("format_id"@, Json::Str("audio"@)),
            ("ext"@, Json::Str("m4a"@)),
            ("vcodec"@, Json::Str("none"@)),
            ("acodec"@, Json::Str("m4a"@)),
        ])]))
}

impl QingTingExtractor {
    /// One step of a QingTing extraction: the program's mobile page is fetched, and its
    /// initial stores give the audio and names.
    pub fn extract_step(&self, url: &str, replies: &Vec<Reply>) -> (r: Result<Step, ExtractorError>)
        ensures
            match regex_named_capture(self.matcher().source(), url@, "channel"@) {
                Some(channel) => match regex_named_capture(self.matcher().source(), url@, "id"@) {
                    Some(id) => if replies@.len() == 0 {
                        fetches(r, qingting_page(channel, id), Expect::Text)
                    } else {
                        match reply_text_at(replies@, 0) {
                            Some(html) => match json_after_marker(html, "window.__initStores"@, '{') {
                                Some(stores) => {
                                    let ps = or_null(json_lookup(stores, "ProgramStore"@));
                                    match json_str_at(or_null(json_lookup(ps, "programInfo"@)), "audioUrl"@) {
                                        Some(media) => done_with(r, qingting_info(channel, id, stores, media)),
                                        None => fails_with(r, ExtractorErrorKind::Extraction),
                                    }
                                },
                                None => fails_with(r, ExtractorErrorKind::Extraction),
                            },
                            None => fails_with(r, ExtractorErrorKind::Extraction),
                        }
                    },
                    None => fails_with(r, ExtractorErrorKind::InvalidUrl),
                },
                None => fails_with(r, ExtractorErrorKind::InvalidUrl),
            },
    {
        let channel_id = match self.site.capture(url, "channel") {
            Some(v) => v,
            None => return Err(fail(ExtractorErrorKind::InvalidUrl, "QingTing URL has no channel")),
        };
        let program_id = match self.site.capture(url, "id") {
            Some(v) => v,
            None => return Err(fail(ExtractorErrorKind::InvalidUrl, "QingTing URL has no program")),
        };
        if replies.len() == 0 {
            let mut page = concat4("https://m.qtfm.cn/vchannels/", channel_id.as_str(), "/programs/", program_id.as_str());
            push_str(&mut page, "/");
            return Ok(Step::Fetch(get_text(page)));
        }
        let html = reply_text(replies, 0)?;
        let stores = match json_object_after_marker(html.as_str(), "window.__initStores") {
            Some(s) => s,
            None => return Err(ExtractorError::new(ExtractorErrorKind::Extraction, concat3("QingTing program ", program_id.as_str(), " has no store data"))),
        };
        let null = JsonValue::Null;
        let ps = member_or_null(&stores, "ProgramStore", &null);
        let program = member_or_null(ps, "programInfo", &null);
        let chan = member_or_null(ps, "channelInfo", &null);
        let podcaster = match json_get(ps, "podcasterInfo") {
            Some(p) => member_or_null(p, "podcaster", &null),
            None => &null,
        };
        let media = match json_string(program, "audioUrl") {
            Some(m) => m,
            None => return Err(ExtractorError::new(ExtractorErrorKind::Extraction, concat3("QingTing program ", program_id.as_str(), " has no audio URL"))),
        };
        let mut info = InfoDict::new();
        info.insert("id", jstr(program_id.as_str()));
        info.insert_if_some("title", opt_str_json(json_string(program, "title")));
        info.insert("channel_id", jstr(channel_id.as_str()));
        info.insert_if_some("channel", opt_str_json(json_string(chan, "title")));
        info.insert_if_some("uploader", opt_str_json(json_string(podcaster, "nickname")));
        info.insert("url", jstr(media));
        info.insert("ext", jstr("m4a"));
        info.insert("vcodec", jstr("none"));
        info.insert("acodec", jstr("m4a"));
        let mut f = obj_new();
        obj_add(&mut f, "url", jstr(media));
        obj_add(&mut f, "format_id", jstr("audio"));
        obj_add(&mut f, "ext", jstr("m4a"));
        obj_add(&mut f, "vcodec", jstr("none"));
        obj_add(&mut f, "acodec", jstr("m4a"));
        assert(fields_view(f@) =~= seq![
            ("url"@, Json::Str(media@)),
            ("format_id"@, Json::Str("audio"@)),
            ("ext"@, Json::Str("m4a"@)),
            ("vcodec"@, Json::Str("none"@)),
            ("acodec"@, Json::Str("m4a"@)),
        ]);
        let mut a = arr_new();
        arr_add(&mut a, obj_done(f));
        info.insert("formats", arr_done(a));
        Ok(Step::Done(ExtractorResult::single(info)))
    }
}

/// The first track of a Hypem page's display list.
pub open spec fn hypem_track(html: Seq<char>) -> Option<Json> {
    match script_json(html, "displayList-data"@) {
        Some(d) => match json_lookup(d, "tracks"@) {
            Some(Json::Array(ts)) => if ts.len() > 0 { Some(ts[0]) } else { None },
            _ => None,
        },
        None => None,
    }
}

/// Whether `f` asks for the Hypem source record of track `id` with key `key`.
pub open spec fn is_hypem_source(f: Fetch, id: Seq<char>, key: Seq<char>) -> bool {
    f.url@ == "http://hypem.com/serve/source/"@ + id + "/"@ + key && f.expect == Expect::Json
        && f.method == Method::Get && headers_view(f.headers@) == seq![("Content-Type"@, "application/json"@)]
        && f.body is None && !f.optional
}

/// The metadata of a Hypem track.
pub open spec fn hypem_info(id: Seq<char>, track: Json, media: Seq<char>) -> Map<Seq<char>, Json> {
    let title = match json_str_at(track, "song"@) { Some(s) => s, None => id };
    put_opt(put_opt(put_opt(Map::<Seq<char>, Json>::empty()
        .insert("id"@, Json::Str(id))
        .insert("title"@, Json::Str(title))
        .insert("track"@, Json::Str(title))
        .insert("url"@, Json::Str(media))
        .insert("ext"@, Json::Str("mp3"@)),
        "uploader"@, opt_str(json_str_at(track, "artist"@))),
        "duration"@, opt_int(json_int_at(track, "time"@))),
        "timestamp"@, opt_int(json_int_at(track, "ts"@)))
        .insert("formats"@, Json::Array(seq![Json::Object(seq![
            ("url"@, Json::Str(media)),
            ("format_id"@, Json::Str("audio"@)),
            ("ext"@, Json::Str("mp3"@)),
            ("vcodec"@, Json::Str("none"@)),
        ])]))
}

impl HypemExtractor {
    /// One step of a Hypem extraction: the track page is fetched, its display list names
    /// the track and key, and the source record gives the audio.
    pub fn extract_step(&self, url: &str, replies: &Vec<Reply>) -> (r: Result<Step, ExtractorError>)
        ensures
            match regex_named_capture(self.matcher().source(), url@, "id"@) {
                Some(_) => if replies@.len() == 0 {
                    fetches(r, url@, Expect::Text)
                } else {
                    match reply_text_at(replies@, 0) {
                        Some(html) => match hypem_track(html) {
                            Some(track) => match json_lookup(track, "id"@) {
                                Some(tid) => match json_str_at(track, "key"@) {
                                    Some(key) => if replies@.len() == 1 {
                                        r matches Ok(Step::Fetch(f)) && is_hypem_source(f, value_text(tid), key)
                                    } else {
                                        match reply_json_at(replies@, 1) {
                                            Some(src) => match json_str_at(src@, "url"@) {
                                                Some(media) => done_with(r, hypem_info(value_text(tid), track, media)),
                                                None => fails_with(r, ExtractorErrorKind::Extraction),
                                            },
                                            None => fails_with(r, ExtractorErrorKind::Extraction),
                                        }
                                    },
                                    None => fails_with(r, ExtractorErrorKind::Extraction),
                                },
                                None => fails_with(r, ExtractorErrorKind::Extraction),
                            },
                            None => fails_with(r, ExtractorErrorKind::Extraction),
                        },
                        None => fails_with(r, ExtractorErrorKind::Extraction),
                    }
                },
                None => fails_with(r, ExtractorErrorKind::InvalidUrl),
            },
    {
        let page_id = match self.site.capture(url, "id") {
            Some(v) => v,
            None => return Err(fail(ExtractorErrorKind::InvalidUrl, "Hypem URL has no ID")),
        };
        if replies.len() == 0 {
            return Ok(Step::Fetch(get_text(owned(url))));
        }
        let html = reply_text(replies, 0)?;
        let data = match html_script_json(html.as_str(), "displayList-data") {
            Some(d) => d,
            None => return Err(fail(ExtractorErrorKind::Extraction, "Hypem page has no display list data")),
        };
        let track = match json_get(&data, "tracks") {
            Some(ts) => match json_index(ts, 0) {
                Some(t) => {
                    proof {
                        lemma_array_view(*ts);
                    }
                    t
                },
                None => return Err(ExtractorError::new(ExtractorErrorKind::Extraction, concat3("Hypem track ", page_id.as_str(), " has no embedded track data"))),
            },
            None => return Err(ExtractorError::new(ExtractorErrorKind::Extraction, concat3("Hypem track ", page_id.as_str(), " has no embedded track data"))),
        };
        let track_id = match json_value_string(json_get(track, "id")) {
            Some(t) => t,
            None => return Err(ExtractorError::new(ExtractorErrorKind::Extraction, concat3("Hypem track ", page_id.as_str(), " has no source ID"))),
        };
        let key = match json_string(track, "key") {
            Some(k) => k,
            None => return Err(ExtractorError::new(ExtractorErrorKind::Extraction, concat3("Hypem track ", track_id.as_str(), " has no source key"))),
        };
        if replies.len() == 1 {
            let headers = vec![(owned("Content-Type"), owned("application/json"))];
            assert(headers_view(headers@) =~= seq![("Content-Type"@, "application/json"@)]);
            return Ok(Step::Fetch(Fetch {
                url: concat4("http://hypem.com/serve/source/", track_id.as_str(), "/", key),
                expect: Expect::Json,
                method: Method::Get,
                headers,
                body: None,
                optional: false,
            }));
        }
        let source = reply_json(replies, 1)?;
        let media = match json_string(source, "url") {
            Some(m) => m,
            None => return Err(ExtractorError::new(ExtractorErrorKind::Extraction, concat3("Hypem source ", track_id.as_str(), " has no audio URL"))),
        };
        let title = match json_string(track, "song") { Some(s) => owned(s), None => track_id.clone() };
        let mut info = InfoDict::new();
        info.insert("id", JsonValue::Str(track_id));
        info.insert("title", JsonValue::Str(title.clone()));
        info.insert("track", JsonValue::Str(title));
        info.insert("url", jstr(media));
        info.insert("ext", jstr("mp3"));
        info.insert_if_some("uploader", opt_str_json(json_string(track, "artist")));
        info.insert_if_some("duration", opt_int_json(json_i64(track, "time")));
        info.insert_if_some("timestamp", opt_int_json(json_i64(track, "ts")));
        let mut f = obj_new();
        obj_add(&mut f, "url", jstr(media));
        obj_add(&mut f, "format_id", jstr("audio"));
        obj_add(&mut f, "ext", jstr("mp3"));
        obj_add(&mut f, "vcodec", jstr("none"));
        assert(fields_view(f@) =~= seq![
            ("url"@, Json::Str(media@)),
            ("format_id"@, Json::Str("audio"@)),
            ("ext"@, Json::Str("mp3"@)),
            ("vcodec"@, Json::Str("none"@)),
        ]);
        let mut a = arr_new();
        arr_add(&mut a, obj_done(f));
        info.insert("formats", arr_done(a));
        Ok(Step::Done(ExtractorResult::single(info)))
    }
}

/// The metadata of a Megaphone episode.
pub open spec fn megaphone_info(id: Seq<char>, html: Seq<char>, episode: Json, raw: Seq<char>) -> Map<Seq<char>, Json> {
    let media = proto_relative(raw, "https:"@);
    let ext = ext_of(media, "mp3"@);
    let title = match first_str(meta_value(html, "audio:title"@), meta_value(html, "og:title"@)) { Some(t) => t, None => id };
    put_opt(put_opt(put_opt(Map::<Seq<char>, Json>::empty()
        .insert("id"@, Json::Str(id))
        .insert("title"@, Json::Str(title))
        .insert("url"@, Json::Str(media))
        .insert("ext"@, Json::Str(ext)),
        "thumbnail"@, opt_str(meta_value(html, "og:image"@))),
        "creators"@, match meta_value(html, "audio:artist"@) { Some(a) => Some(Json::Array(seq![Json::Str(a)])), None => None }),
        "duration"@, json_num_at(episode, "duration"@))
        .insert("formats"@, Json::Array(seq![Json::Object(seq![
            ("url"@, Json::Str(media)),
            ("format_id"@, Json::Str("audio"@)),
            ("ext"@, Json::Str(ext)),
            ("vcodec"@, Json::Str("none"@)),
        ])]))
}

impl MegaphoneExtractor {
    /// One step of a Megaphone extraction: the player page is fetched, and its embedded
    /// episode gives the media.
    pub fn extract_step(&self, url: &str, replies: &Vec<Reply>) -> (r: Result<Step, ExtractorError>)
        ensures
            match regex_named_capture(self.matcher().source(), url@, "id"@) {
                Some(id) => if replies@.len() == 0 {
                    fetches(r, url@, Expect::Text)
                } else {
                    match reply_text_at(replies@, 0) {
                        Some(html) => match json_after_marker(html, "var episode"@, '{') {
                            Some(ep) => match json_str_at(ep, "mediaUrl"@) {
                                Some(raw) => done_with(r, megaphone_info(id, html, ep, raw)),
                                None => fails_with(r, ExtractorErrorKind::Extraction),
                            },
                            None => fails_with(r, ExtractorErrorKind::Extraction),
                        },
                        None => fails_with(r, ExtractorErrorKind::Extraction),
                    }
                },
                None => fails_with(r, ExtractorErrorKind::InvalidUrl),
            },
    {
        let video_id = match self.site.capture(url, "id") {
            Some(v) => v,
            None => return Err(fail(ExtractorErrorKind::InvalidUrl, "Megaphone URL has no ID")),
        };
        if replies.len() == 0 {
            return Ok(Step::Fetch(get_text(owned(url))));
        }
        let html = reply_text(replies, 0)?;
        let episode = match json_object_after_marker(html.as_str(), "var episode") {
            Some(e) => e,
            None => return Err(ExtractorError::new(ExtractorErrorKind::Extraction, concat3("Megaphone episode ", video_id.as_str(), " has no embedded JSON"))),
        };
        let raw = match json_string(&episode, "mediaUrl") {
            Some(u) => u,
            None => return Err(ExtractorError::new(ExtractorErrorKind::Extraction, concat3("Megaphone episode ", video_id.as_str(), " has no media URL"))),
        };
        let media = proto_relative_url(raw, "https:");
        let ext = determine_ext(media.as_str(), "mp3");
        let title = match html_meta_value(html.as_str(), "audio:title") {
            Some(t) => t,
            None => match html_meta_value(html.as_str(), "og:title") { Some(t) => t, None => video_id.clone() },
        };
        let mut info = InfoDict::new();
        info.insert("id", JsonValue::Str(video_id.clone()));
        info.insert("title", JsonValue::Str(title));
        info.insert("url", jstr(media.as_str()));
        info.insert("ext", jstr(ext.as_str()));
        info.insert_if_some("thumbnail", match html_meta_value(html.as_str(), "og:image") { Some(t) => Some(JsonValue::Str(t)), None => None });
        let creators = match html_meta_value(html.as_str(), "audio:artist") {
            Some(a) => {
                let mut arr = arr_new();
                arr_add(&mut arr, JsonValue::Str(a));
                let v = arr_done(arr);
                assert(v@ =~= Json::Array(seq![Json::Str(a@)]));
                Some(v)
            },
            None => None,
        };
        info.insert_if_some("creators", creators);
        info.insert_if_some("duration", json_f64(&episode, "duration"));
        let mut f = obj_new();
        obj_add(&mut f, "url", jstr(media.as_str()));
        obj_add(&mut f, "format_id", jstr("audio"));
        obj_add(&mut f, "ext", jstr(ext.as_str()));
        obj_add(&mut f, "vcodec", jstr("none"));
        assert(fields_view(f@) =~= seq![
            ("url"@, Json::Str(media@)),
            ("format_id"@, Json::Str("audio"@)),
            ("ext"@, Json::Str(ext@)),
            ("vcodec"@, Json::Str("none"@)),
        ]);
        let mut a = arr_new();
        arr_add(&mut a, obj_done(f));
        info.insert("formats", arr_done(a));
        Ok(Step::Done(ExtractorResult::single(info)))
    }
}

} // verus!
