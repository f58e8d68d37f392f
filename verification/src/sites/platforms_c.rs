use vstd::prelude::*;

use crate::sites::generic::{last_path_segment, last_segment, path_segment_after, segment_after};
use crate::extract::{after_last, json_f64, json_num_at, jstr, lookup_in, opt_str, opt_str_json, put_opt, reply_json, reply_json_at, reply_text, reply_text_at, str_in, str_opt_view};
use crate::framework::{Expect, ExtractorDescriptor, ExtractorError, ExtractorErrorKind, ExtractorResult, Fetch, Method, Reply, SiteMatcher, Step, descriptor_ok, descriptor_source, done_with, fail, fails_with, fetches, get_json, get_text, headers_view, descriptor_error};
use crate::info::{InfoDict};
use crate::json::{Json, JsonValue, arr_add, arr_done, arr_new, fields_view, items_view, json_clone, json_get, json_lookup, json_str_at, json_string, lemma_array_view, lemma_object_view, obj_add, obj_done, obj_new, str_equal};
use crate::jsontext::{json_serialized, json_to_text, json_value_string, value_text};
use crate::media_types::{after_char};
use crate::page::{html_meta_value, meta_value};
use crate::pattern::{regex_matches};
use crate::text::{concat3, owned, push_str, strip_suffixes, trim_end_matches};
use crate::weburl::{form_encode, form_encoded};

verus! {

/// Native extractor.
pub struct BlerpExtractor {
    site: SiteMatcher,
}

impl BlerpExtractor {
    /// The descriptor and matcher the extractor was built with.
    pub closed spec fn matcher(&self) -> SiteMatcher {
        self.site
    }

    pub fn new(descriptor: ExtractorDescriptor) -> (r: Result<Self, ExtractorError>)
        ensures
            r is Ok <==> descriptor_ok(descriptor),
            r matches Ok(x) ==> x.matcher().spec_descriptor() == descriptor
                && Some(x.matcher().source()) == descriptor_source(descriptor),
            r matches Err(e) ==> e.kind == ExtractorErrorKind::Extraction && e.message@ == descriptor_error(descriptor),
    {
        match SiteMatcher::from_descriptor(descriptor) {
            Ok(site) => Ok(BlerpExtractor { site }),
            Err(e) => Err(e),
        }
    }

    pub fn descriptor(&self) -> (r: &ExtractorDescriptor)
        ensures
            *r == self.matcher().spec_descriptor(),
    {
        self.site.descriptor()
    }

    pub fn suitable(&self, url: &str) -> (r: bool)
        ensures
            r == regex_matches(self.matcher().source(), url@),
    {
        self.site.suitable(url)
    }

    pub fn is_native(&self) -> (r: bool)
        ensures
            r,
    {
        true
    }

    pub fn native_matcher_count(&self) -> (r: usize)
        ensures
            r == 1,
    {
        1
    }
}

/// Native extractor.
pub struct AudiusExtractor {
    site: SiteMatcher,
}

impl AudiusExtractor {
    /// The descriptor and matcher the extractor was built with.
    pub closed spec fn matcher(&self) -> SiteMatcher {
        self.site
    }

    pub fn new(descriptor: ExtractorDescriptor) -> (r: Result<Self, ExtractorError>)
        ensures
            r is Ok <==> descriptor_ok(descriptor),
            r matches Ok(x) ==> x.matcher().spec_descriptor() == descriptor
                && Some(x.matcher().source()) == descriptor_source(descriptor),
            r matches Err(e) ==> e.kind == ExtractorErrorKind::Extraction && e.message@ == descriptor_error(descriptor),
    {
        match SiteMatcher::from_descriptor(descriptor) {
            Ok(site) => Ok(AudiusExtractor { site }),
            Err(e) => Err(e),
        }
    }

    pub fn descriptor(&self) -> (r: &ExtractorDescriptor)
        ensures
            *r == self.matcher().spec_descriptor(),
    {
        self.site.descriptor()
    }

    pub fn suitable(&self, url: &str) -> (r: bool)
        ensures
            r == regex_matches(self.matcher().source(), url@),
    {
        self.site.suitable(url)
    }

    pub fn is_native(&self) -> (r: bool)
        ensures
            r,
    {
        true
    }

    pub fn native_matcher_count(&self) -> (r: usize)
        ensures
            r == 1,
    {
        1
    }
}

/// The GraphQL query that loads a Blerp bite.
pub open spec fn blerp_query() -> Seq<char> {
    "query webBitePageGetBite($_id: MongoID!) { web { biteById(_id: $_id) { _id title userKeywords ownerObject { _id username } audio { mp3 { url } } } } }"@
}

/// The GraphQL request document for Blerp bite `id`.
pub open spec fn blerp_payload(id: Seq<char>) -> Json {
    Json::Object(Seq::empty()
        .push(("operationName"@, Json::Str("webBitePageGetBite"@)))
        .push(("variables"@, Json::Object(Seq::empty().push(("_id"@, Json::Str(id))))))
        .push(("query"@, Json::Str(blerp_query()))))
}

/// Whether `f` posts the GraphQL request for Blerp bite `id`.
pub open spec fn is_blerp_query(f: Fetch, id: Seq<char>) -> bool {
    f.url@ == "https://api.blerp.com/graphql"@ && f.expect == Expect::Json && f.method == Method::Post
        && headers_view(f.headers@) == seq![("Content-Type"@, "application/json"@)]
        && !f.optional && (f.body matches Some(b) && b@ == json_serialized(blerp_payload(id)))
}

/// The metadata of a Blerp bite.
pub open spec fn blerp_info(id: Seq<char>, bite: Json, media: Seq<char>) -> Map<Seq<char>, Json> {
    let m0 = Map::<Seq<char>, Json>::empty()
        .insert("id"@, Json::Str(match json_str_at(bite, "_id"@) { Some(x) => x, None => id }))
        .insert("title"@, Json::Str(match json_str_at(bite, "title"@) { Some(x) => x, None => id }))
        .insert("url"@, Json::Str(media))
        .insert("ext"@, Json::Str("mp3"@))
        .insert("formats"@, Json::Array(seq![Json::Object(Seq::empty()
            .push(("url"@, Json::Str(media)))
            .push(("format_id"@, Json::Str("mp3"@)))
            .push(("ext"@, Json::Str("mp3"@)))
            .push(("vcodec"@, Json::Str("none"@)))
            .push(("acodec"@, Json::Str("mp3"@))))]));
    let m1 = match json_lookup(bite, "ownerObject"@) {
        Some(owner) => put_opt(put_opt(m0, "uploader"@, opt_str(json_str_at(owner, "username"@))), "uploader_id"@, opt_str(json_str_at(owner, "_id"@))),
        None => m0,
    };
    match json_lookup(bite, "userKeywords"@) {
        Some(Json::Array(t)) => m1.insert("tags"@, Json::Array(t)),
        _ => m1,
    }
}

impl BlerpExtractor {
    /// One step of a Blerp extraction: the bite is asked for by GraphQL, then its metadata
    /// is built.
    pub fn extract_step(&self, url: &str, replies: &Vec<Reply>) -> (r: Result<Step, ExtractorError>)
        ensures
            match last_segment(url@) {
                Some(id) => if replies@.len() == 0 {
                    r matches Ok(Step::Fetch(f)) && is_blerp_query(f, id)
                } else {
                    match reply_json_at(replies@, 0) {
                        Some(resp) => match lookup_in(lookup_in(json_lookup(resp@, "data"@), "web"@), "biteById"@) {
                            Some(bite) => match str_in(lookup_in(json_lookup(bite, "audio"@), "mp3"@), "url"@) {
                                Some(media) => done_with(r, blerp_info(id, bite, media)),
                                None => fails_with(r, ExtractorErrorKind::Extraction),
                            },
                            None => fails_with(r, ExtractorErrorKind::Extraction),
                        },
                        None => fails_with(r, ExtractorErrorKind::Extraction),
                    }
                },
                None => fails_with(r, ExtractorErrorKind::InvalidUrl),
            },
    {
        let id = last_path_segment(url)?;
        if replies.len() == 0 {
            let mut vars = obj_new();
            obj_add(&mut vars, "_id", JsonValue::Str(id.clone()));
            let mut payload = obj_new();
            obj_add(&mut payload, "operationName", jstr("webBitePageGetBite"));
            obj_add(&mut payload, "variables", obj_done(vars));
            obj_add(&mut payload, "query", jstr("query webBitePageGetBite($_id: MongoID!) { web { biteById(_id: $_id) { _id title userKeywords ownerObject { _id username } audio { mp3 { url } } } } }"));
            let pj = obj_done(payload);
            assert(pj@ =~= blerp_payload(id@));
            let headers = vec![(owned("Content-Type"), owned("application/json"))];
            assert(headers_view(headers@) =~= seq![("Content-Type"@, "application/json"@)]);
            return Ok(Step::Fetch(Fetch {
                url: owned("https://api.blerp.com/graphql"),
                expect: Expect::Json,
                method: Method::Post,
                headers,
                body: Some(json_to_text(&pj)),
                optional: false,
            }));
        }
        let resp = reply_json(replies, 0)?;
        let bite = match json_get(resp, "data") {
            Some(d) => match json_get(d, "web") {
                Some(w) => match json_get(w, "biteById") {
                    Some(b) => b,
                    None => return Err(fail(ExtractorErrorKind::Extraction, "Blerp GraphQL response has no bite")),
                },
                None => return Err(fail(ExtractorErrorKind::Extraction, "Blerp GraphQL response has no bite")),
            },
            None => return Err(fail(ExtractorErrorKind::Extraction, "Blerp GraphQL response has no bite")),
        };
        let media = match json_get(bite, "audio") {
            Some(a) => match json_get(a, "mp3") {
                Some(m) => json_string(m, "url"),
                None => None,
            },
            None => None,
        };
        let media = match media {
            Some(m) => m,
            None => return Err(fail(ExtractorErrorKind::Extraction, "Blerp response has no MP3 URL")),
        };
        let mut info = InfoDict::new();
        info.insert("id", jstr(match json_string(bite, "_id") { Some(x) => x, None => id.as_str() }));
        info.insert("title", jstr(match json_string(bite, "title") { Some(x) => x, None => id.as_str() }));
        info.insert("url", jstr(media));
        info.insert("ext", jstr("mp3"));
        let mut f = obj_new();
        obj_add(&mut f, "url", jstr(media));
        obj_add(&mut f, "format_id", jstr("mp3"));
        obj_add(&mut f, "ext", jstr("mp3"));
        obj_add(&mut f, "vcodec", jstr("none"));
        obj_add(&mut f, "acodec", jstr("mp3"));
        let mut a = arr_new();
        arr_add(&mut a, obj_done(f));
        info.insert("formats", arr_done(a));
        match json_get(bite, "ownerObject") {
            Some(owner) => {
                info.insert_if_some("uploader", opt_str_json(json_string(owner, "username")));
                info.insert_if_some("uploader_id", opt_str_json(json_string(owner, "_id")));
            },
            None => {},
        }
        match json_get(bite, "userKeywords") {
            Some(t) => match t {
                JsonValue::Array(_) => info.insert("tags", json_clone(t)),
                _ => {},
            },
            None => {},
        }
        Ok(Step::Done(ExtractorResult::single(info)))
    }
}

/// `audius_data`: the `data` of an Audius API answer.
pub fn audius_data(response: &JsonValue) -> (r: Result<&JsonValue, ExtractorError>)
    ensures
        match json_lookup(response@, "data"@) {
            Some(d) => r matches Ok(x) && x@ == d,
            None => fails_with(r, ExtractorErrorKind::Extraction),
        },
{
    match json_get(response, "data") {
        Some(d) => Ok(d),
        None => Err(fail(ExtractorErrorKind::Extraction, "Audius API response has no data field")),
    }
}

/// The first string among the first `n` items.
pub open spec fn first_string_item(a: Seq<Json>, n: int) -> Option<Seq<char>>
    decreases n,
{
    if n <= 0 {
        None
    } else {
        match first_string_item(a, n - 1) {
            Some(s) => Some(s),
            None => match a[n - 1] {
                Json::Str(s) => Some(s),
                _ => None,
            },
        }
    }
}

/// The API host that Audius's host discovery answer offers first, without trailing slashes.
pub open spec fn audius_host(hosts: Json) -> Option<Seq<char>> {
    match hosts {
        Json::Array(a) => match first_string_item(a, a.len() as int) {
            Some(h) => Some(strip_suffixes(h, "/"@)),
            None => None,
        },
        _ => None,
    }
}

/// The API address that resolves Audius page `url` on `host`: its track, by the track ID
/// that ends it, for the track extractor; else by resolving the page.
pub open spec fn audius_track_api(host: Seq<char>, url: Seq<char>, track_mode: bool) -> Seq<char> {
    if track_mode {
        host + "/v1/tracks/"@ + after_last(url, '/')
    } else {
        host + "/v1/resolve?url="@ + form_encoded(url)
    }
}

/// The thumbnails of the first `n` members of a track's artwork, string ones only.
pub open spec fn audius_artwork(art: Seq<(Seq<char>, Json)>, n: int) -> Seq<Json>
    decreases n,
{
    if n <= 0 {
        Seq::empty()
    } else {
        let prev = audius_artwork(art, n - 1);
        match art[n - 1].1 {
            Json::Str(u) => prev.push(Json::Object(Seq::empty()
                .push(("id"@, Json::Str(art[n - 1].0)))
                .push(("url"@, Json::Str(u))))),
            _ => prev,
        }
    }
}

/// The metadata of an Audius track from its API record.
pub open spec fn audius_info(host: Seq<char>, track: Json, tid: Seq<char>) -> Map<Seq<char>, Json> {
    let title = match json_str_at(track, "title"@) { Some(t) => t, None => tid };
    let stream = host + "/v1/tracks/"@ + tid + "/stream"@;
    let m0 = Map::<Seq<char>, Json>::empty()
        .insert("id"@, Json::Str(tid))
        .insert("title"@, Json::Str(title))
        .insert("track"@, Json::Str(title))
        .insert("url"@, Json::Str(stream))
        .insert("ext"@, Json::Str("mp3"@))
        .insert("formats"@, Json::Array(seq![Json::Object(Seq::empty()
            .push(("url"@, Json::Str(stream)))
            .push(("format_id"@, Json::Str("stream"@)))
            .push(("ext"@, Json::Str("mp3"@)))
            .push(("vcodec"@, Json::Str("none"@)))
            .push(("acodec"@, Json::Str("mp3"@))))]));
    let m1 = put_opt(m0, "description"@, opt_str(json_str_at(track, "description"@)));
    let m2 = put_opt(m1, "duration"@, json_num_at(track, "duration"@));
    let m3 = put_opt(m2, "genre"@, opt_str(json_str_at(track, "genre"@)));
    let m4 = put_opt(m3, "view_count"@, json_lookup(track, "play_count"@));
    let m5 = put_opt(m4, "like_count"@, json_lookup(track, "favorite_count"@));
    let m6 = put_opt(m5, "repost_count"@, json_lookup(track, "repost_count"@));
    let m7 = put_opt(m6, "artist"@, opt_str(str_in(json_lookup(track, "user"@), "name"@)));
    match json_lookup(track, "artwork"@) {
        Some(Json::Object(art)) => {
            let th = audius_artwork(art, art.len() as int);
            if th.len() > 0 { m7.insert("thumbnails"@, Json::Array(th)) } else { m7 }
        },
        _ => m7,
    }
}

impl AudiusExtractor {
    /// One step of an Audius extraction: the API hosts are discovered, then the track is
    /// fetched from the first host, then its metadata is built.
    pub fn extract_step(&self, url: &str, replies: &Vec<Reply>) -> (r: Result<Step, ExtractorError>)
        ensures
            ({
                let track_mode = self.matcher().spec_descriptor().ie_key@ == "AudiusTrackIE"@;
                if replies@.len() == 0 {
                    fetches(r, "https://api.audius.co/"@, Expect::Json)
                } else {
                    match reply_json_at(replies@, 0) {
                        Some(hr) => match json_lookup(hr@, "data"@) {
                            Some(hosts) => match audius_host(hosts) {
                                Some(host) => if track_mode && after_last(url@, '/').len() == 0 {
                                    fails_with(r, ExtractorErrorKind::InvalidUrl)
                                } else if replies@.len() == 1 {
                                    fetches(r, audius_track_api(host, url@, track_mode), Expect::Json)
                                } else {
                                    match reply_json_at(replies@, 1) {
                                        Some(tr) => match json_lookup(tr@, "data"@) {
                                            Some(track) => match json_lookup(track, "id"@) {
                                                Some(tid) => done_with(r, audius_info(host, track, value_text(tid))),
                                                None => fails_with(r, ExtractorErrorKind::Extraction),
                                            },
                                            None => fails_with(r, ExtractorErrorKind::Extraction),
                                        },
                                        None => fails_with(r, ExtractorErrorKind::Extraction),
                                    }
                                },
                                None => fails_with(r, ExtractorErrorKind::Extraction),
                            },
                            None => fails_with(r, ExtractorErrorKind::Extraction),
                        },
                        None => fails_with(r, ExtractorErrorKind::Extraction),
                    }
                }
            }),
    {
        if replies.len() == 0 {
            return Ok(Step::Fetch(get_json(owned("https://api.audius.co/"))));
        }
        let hr = reply_json(replies, 0)?;
        let hosts = audius_data(hr)?;
        let first = match hosts {
            JsonValue::Array(a) => {
                proof { lemma_array_view(*hosts); }
                let ghost av = items_view(a@);
                let mut found: Option<&str> = None;
                let mut i: usize = 0;
                while i < a.len()
                    invariant
                        i <= a@.len(),
                        av == items_view(a@),
                        str_opt_view(found) == first_string_item(av, i as int),
                    decreases a@.len() - i,
                {
                    if found.is_none() {
                        match &a[i] {
                            JsonValue::Str(s) => found = Some(s.as_str()),
                            _ => {},
                        }
                    }
                    i = i + 1;
                }
                found
            },
            _ => None,
        };
        let host = match first {
            Some(h) => trim_end_matches(h, "/"),
            None => return Err(fail(ExtractorErrorKind::Extraction, "Audius host discovery returned no API hosts")),
        };
        let track_mode = str_equal(self.site.descriptor().ie_key.as_str(), "AudiusTrackIE");
        let api = if track_mode {
            let tid = after_char(url, '/');
            if tid.unicode_len() == 0 {
                return Err(fail(ExtractorErrorKind::InvalidUrl, "Audius track URL has no track ID"));
            }
            concat3(host.as_str(), "/v1/tracks/", tid.as_str())
        } else {
            concat3(host.as_str(), "/v1/resolve?url=", form_encode(url).as_str())
        };
        if replies.len() == 1 {
            return Ok(Step::Fetch(get_json(api)));
        }
        let tr = reply_json(replies, 1)?;
        let track = audius_data(tr)?;
        let tid = match json_value_string(json_get(track, "id")) {
            Some(t) => t,
            None => return Err(fail(ExtractorErrorKind::Extraction, "Audius response has no track ID")),
        };
        let title = match json_string(track, "title") { Some(t) => owned(t), None => tid.clone() };
        let mut stream = concat3(host.as_str(), "/v1/tracks/", tid.as_str());
        push_str(&mut stream, "/stream");
        let mut info = InfoDict::new();
        info.insert("id", JsonValue::Str(tid.clone()));
        info.insert("title", JsonValue::Str(title.clone()));
        info.insert("track", JsonValue::Str(title));
        info.insert("url", JsonValue::Str(stream.clone()));
        info.insert("ext", jstr("mp3"));
        let mut f = obj_new();
        obj_add(&mut f, "url", JsonValue::Str(stream));
        obj_add(&mut f, "format_id", jstr("stream"));
        obj_add(&mut f, "ext", jstr("mp3"));
        obj_add(&mut f, "vcodec", jstr("none"));
        obj_add(&mut f, "acodec", jstr("mp3"));
        let mut fa = arr_new();
        arr_add(&mut fa, obj_done(f));
        info.insert("formats", arr_done(fa));
        info.insert_if_some("description", opt_str_json(json_string(track, "description")));
        info.insert_if_some("duration", json_f64(track, "duration"));
        info.insert_if_some("genre", opt_str_json(json_string(track, "genre")));
        info.insert_if_some("view_count", match json_get(track, "play_count") { Some(v) => Some(json_clone(v)), None => None });
        info.insert_if_some("like_count", match json_get(track, "favorite_count") { Some(v) => Some(json_clone(v)), None => None });
        info.insert_if_some("repost_count", match json_get(track, "repost_count") { Some(v) => Some(json_clone(v)), None => None });
        info.insert_if_some("artist", opt_str_json(match json_get(track, "user") { Some(u) => json_string(u, "name"), None => None }));
        match json_get(track, "artwork") {
            Some(ao) => match ao {
                JsonValue::Object(art) => {
                    proof { lemma_object_view(*ao); }
                    let ghost avw = fields_view(art@);
                    let mut th: Vec<JsonValue> = Vec::new();
                    let mut i: usize = 0;
                    assert(items_view(th@) =~= audius_artwork(avw, 0));
                    while i < art.len()
                        invariant
                            i <= art@.len(),
                            avw == fields_view(art@),
                            items_view(th@) == audius_artwork(avw, i as int),
                        decreases art@.len() - i,
                    {
                        assert(avw[i as int] == (art@[i as int].0@, art@[i as int].1@));
                        let ghost prev = th@;
                        match &art[i].1 {
                            JsonValue::Str(u) => {
                                let mut o = obj_new();
                                obj_add(&mut o, "id", jstr(art[i].0.as_str()));
                                obj_add(&mut o, "url", jstr(u.as_str()));
                                let oj = obj_done(o);
                                th.push(oj);
                                assert(items_view(th@) =~= items_view(prev).push(oj@));
                            },
                            _ => {},
                        }
                        i = i + 1;
                    }
                    if th.len() > 0 {
                        info.insert("thumbnails", arr_done(th));
                    }
                },
                _ => {},
            },
            None => {},
        }
        Ok(Step::Done(ExtractorResult::single(info)))
    }
}


/// Native extractor.
pub struct BreitbartExtractor {
    site: SiteMatcher,
}

impl BreitbartExtractor {
    /// The descriptor and matcher the extractor was built with.
    pub closed spec fn matcher(&self) -> SiteMatcher {
        self.site
    }

    pub fn new(descriptor: ExtractorDescriptor) -> (r: Result<Self, ExtractorError>)
        ensures
            r is Ok <==> descriptor_ok(descriptor),
            r matches Ok(x) ==> x.matcher().spec_descriptor() == descriptor
                && Some(x.matcher().source()) == descriptor_source(descriptor),
            r matches Err(e) ==> e.kind == ExtractorErrorKind::Extraction && e.message@ == descriptor_error(descriptor),
    {
        match SiteMatcher::from_descriptor(descriptor) {
            Ok(site) => Ok(BreitbartExtractor { site }),
            Err(e) => Err(e),
        }
    }

    pub fn descriptor(&self) -> (r: &ExtractorDescriptor)
        ensures
            *r == self.matcher().spec_descriptor(),
    {
        self.site.descriptor()
    }

    pub fn suitable(&self, url: &str) -> (r: bool)
        ensures
            r == regex_matches(self.matcher().source(), url@),
    {
        self.site.suitable(url)
    }

    pub fn is_native(&self) -> (r: bool)
        ensures
            r,
    {
        true
    }

    pub fn native_matcher_count(&self) -> (r: usize)
        ensures
            r == 1,
    {
        1
    }
}

/// The JW Player HLS manifest of Breitbart video `id`.
pub open spec fn breitbart_manifest(id: Seq<char>) -> Seq<char> {
    "https://cdn.jwplayer.com/manifests/"@ + id + ".m3u8"@
}

/// The metadata of a Breitbart video page.
pub open spec fn breitbart_info(id: Seq<char>, html: Seq<char>) -> Map<Seq<char>, Json> {
    let m = breitbart_manifest(id);
    put_opt(put_opt(Map::<Seq<char>, Json>::empty()
        .insert("id"@, Json::Str(id))
        .insert("title"@, Json::Str(match meta_value(html, "og:title"@) { Some(t) => t, None => id })),
        "description"@, opt_str(meta_value(html, "og:description"@))),
        "thumbnail"@, opt_str(meta_value(html, "og:image"@)))
        .insert("ext"@, Json::Str("mp4"@))
        .insert("url"@, Json::Str(m))
        .insert("formats"@, Json::Array(seq![Json::Object(Seq::empty()
            .push(("url"@, Json::Str(m)))
            .push(("format_id"@, Json::Str("hls"@)))
            .push(("ext"@, Json::Str("mp4"@)))
            .push(("protocol"@, Json::Str("m3u8_native"@))))]))
}

impl BreitbartExtractor {
    /// One step of a Breitbart extraction: the page is fetched, and the video is the JW
    /// Player manifest named by the path segment after `v`.
    pub fn extract_step(&self, url: &str, replies: &Vec<Reply>) -> (r: Result<Step, ExtractorError>)
        ensures
            match segment_after(url@, "v"@) {
                Some(id) => if replies@.len() == 0 {
                    fetches(r, url@, Expect::Text)
                } else {
                    match reply_text_at(replies@, 0) {
                        Some(html) => done_with(r, breitbart_info(id, html)),
                        None => fails_with(r, ExtractorErrorKind::Extraction),
                    }
                },
                None => fails_with(r, ExtractorErrorKind::InvalidUrl),
            },
    {
        let id = path_segment_after(url, "v")?;
        if replies.len() == 0 {
            return Ok(Step::Fetch(get_text(owned(url))));
        }
        let html = reply_text(replies, 0)?;
        let manifest = concat3("https://cdn.jwplayer.com/manifests/", id.as_str(), ".m3u8");
        let mut info = InfoDict::new();
        info.insert("id", JsonValue::Str(id.clone()));
        info.insert("title", JsonValue::Str(match html_meta_value(html.as_str(), "og:title") { Some(t) => t, None => id.clone() }));
        info.insert_if_some("description", match html_meta_value(html.as_str(), "og:description") { Some(t) => Some(JsonValue::Str(t)), None => None });
        info.insert_if_some("thumbnail", match html_meta_value(html.as_str(), "og:image") { Some(t) => Some(JsonValue::Str(t)), None => None });
        info.insert("ext", jstr("mp4"));
        info.insert("url", jstr(manifest.as_str()));
        let mut f = obj_new();
        obj_add(&mut f, "url", jstr(manifest.as_str()));
        obj_add(&mut f, "format_id", jstr("hls"));
        obj_add(&mut f, "ext", jstr("mp4"));
        obj_add(&mut f, "protocol", jstr("m3u8_native"));
        let mut a = arr_new();
        arr_add(&mut a, obj_done(f));
        info.insert("formats", arr_done(a));
        Ok(Step::Done(ExtractorResult::single(info)))
    }
}

} // verus!
