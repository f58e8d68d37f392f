use vstd::prelude::*;

use crate::sites::peertube_playlist::PlaylistRun;
use crate::extract::{array_at, array_items_at, date_digits, date_digits_of, first_str, http_address, is_http, jstr, native_url_result, opt_int, opt_int_json, opt_str, opt_str_json, pair_records, put_opt, refs_view, reply_json, reply_json_at, str_in, url_result};
use crate::framework::{ExtractorDescriptor, ExtractorError, ExtractorErrorKind, ExtractorResult, Fetch, Reply, SiteMatcher, Step, all_wf, descriptor_ok, descriptor_source, dicts_view, done_playlist, done_with, fail, fails_with, get_json_accepting, is_accepting_get, descriptor_error};
use crate::info::{InfoDict};
use crate::json::{Json, JsonValue, add_to_group, arr_add, arr_done, arr_new, group_add, groups_json, groups_object, items_view, json_get, json_i64, json_int_at, json_lookup, json_str_at, json_string, lang_groups_view, obj_add, obj_add_opt, obj_done, obj_new, push_opt, str_equal};
use crate::pattern::{regex_matches, regex_named_capture};
use crate::text::{concat2, concat3, owned, push_str};
use crate::weburl::{form_encode, form_encoded};

verus! {

/// Native CrowdBunker video API and channel pagination extractors.
pub struct CrowdBunkerExtractor {
    site: SiteMatcher,
}

impl CrowdBunkerExtractor {
    /// The descriptor and matcher the extractor was built with.
    pub closed spec fn matcher(&self) -> SiteMatcher {
        self.site
    }

    pub fn new(descriptor: ExtractorDescriptor) -> (r: Result<Self, ExtractorError>)
        ensures
            r is Ok <==> descriptor_ok(descriptor),
            r matches Ok(x) ==> x.matcher().spec_descriptor() == descriptor
                && Some(x.matcher().source()) == descriptor_source(descriptor),
            r matches Err(e) ==> e.kind == ExtractorErrorKind::Extraction && e.message@ == descriptor_error(descriptor),
    {
        match SiteMatcher::from_descriptor(descriptor) {
            Ok(site) => Ok(CrowdBunkerExtractor { site }),
            Err(e) => Err(e),
        }
    }

    pub fn descriptor(&self) -> (r: &ExtractorDescriptor)
        ensures
            *r == self.matcher().spec_descriptor(),
    {
        self.site.descriptor()
    }

    pub fn suitable(&self, url: &str) -> (r: bool)
        ensures
            r == regex_matches(self.matcher().source(), url@),
    {
        self.site.suitable(url)
    }

    pub fn is_native(&self) -> (r: bool)
        ensures
            r,
    {
        true
    }

    pub fn native_matcher_count(&self) -> (r: usize)
        ensures
            r == 1,
    {
        1
    }
}

/// Native extractor.
pub struct CrowdBunkerChannelExtractor {
    site: SiteMatcher,
}

impl CrowdBunkerChannelExtractor {
    /// The descriptor and matcher the extractor was built with.
    pub closed spec fn matcher(&self) -> SiteMatcher {
        self.site
    }

    pub fn new(descriptor: ExtractorDescriptor) -> (r: Result<Self, ExtractorError>)
        ensures
            r is Ok <==> descriptor_ok(descriptor),
            r matches Ok(x) ==> x.matcher().spec_descriptor() == descriptor
                && Some(x.matcher().source()) == descriptor_source(descriptor),
            r matches Err(e) ==> e.kind == ExtractorErrorKind::Extraction && e.message@ == descriptor_error(descriptor),
    {
        match SiteMatcher::from_descriptor(descriptor) {
            Ok(site) => Ok(CrowdBunkerChannelExtractor { site }),
            Err(e) => Err(e),
        }
    }

    pub fn descriptor(&self) -> (r: &ExtractorDescriptor)
        ensures
            *r == self.matcher().spec_descriptor(),
    {
        self.site.descriptor()
    }

    pub fn suitable(&self, url: &str) -> (r: bool)
        ensures
            r == regex_matches(self.matcher().source(), url@),
    {
        self.site.suitable(url)
    }

    pub fn is_native(&self) -> (r: bool)
        ensures
            r,
    {
        true
    }

    pub fn native_matcher_count(&self) -> (r: usize)
        ensures
            r == 1,
    {
        1
    }
}

/// The accepted media types of a CrowdBunker API request.
pub open spec fn crowdbunker_accept() -> Seq<char> {
    "application/json, text/plain, */*"@
}

/// `crowdbunker_manifest_url`: the HTTP address of manifest `key` of a video record.
pub open spec fn crowdbunker_manifest(video: Json, key: Seq<char>) -> Option<Seq<char>> {
    match str_in(json_lookup(video, key), "url"@) {
        Some(u) => if is_http(u) { Some(u) } else { None },
        None => None,
    }
}

/// `crowdbunker_manifest_url`: the HTTP address of manifest `key` of a video record.
pub fn crowdbunker_manifest_url(video: &JsonValue, key: &str) -> (r: Option<String>)
    ensures
        match r {
            Some(u) => crowdbunker_manifest(video@, key@) == Some(u@),
            None => crowdbunker_manifest(video@, key@) is None,
        },
{
    match json_get(video, key) {
        Some(m) => match json_string(m, "url") {
            Some(u) => if http_address(u) { Some(owned(u)) } else { None },
            None => None,
        },
        None => None,
    }
}

/// A manifest format.
pub open spec fn manifest_format(u: Seq<char>, id: Seq<char>, protocol: Seq<char>) -> Json {
    Json::Object(Seq::empty()
        .push(("url"@, Json::Str(u)))
        .push(("format_id"@, Json::Str(id)))
        .push(("protocol"@, Json::Str(protocol)))
        .push(("ext"@, Json::Str("mp4"@))))
}

/// The formats of a CrowdBunker video record: its DASH manifest, then its HLS one.
pub open spec fn crowdbunker_formats(video: Json) -> Seq<(Seq<char>, Json)> {
    let dash = match crowdbunker_manifest(video, "dashManifest"@) {
        Some(u) => seq![(u, manifest_format(u, "dash"@, "http_dash_segments"@))],
        None => Seq::empty(),
    };
    let hls = match crowdbunker_manifest(video, "hlsManifest"@) {
        Some(u) => seq![(u, manifest_format(u, "hls"@, "m3u8_native"@))],
        None => Seq::empty(),
    };
    dash + hls
}

/// The subtitles of the first `n` captions of a video record, by language.
pub open spec fn crowdbunker_caption_groups(caps: Seq<Json>, n: int) -> Seq<(Seq<char>, Seq<Json>)>
    decreases n,
{
    if n <= 0 {
        Seq::empty()
    } else {
        let prev = crowdbunker_caption_groups(caps, n - 1);
        let c = caps[n - 1];
        match str_in(json_lookup(c, "file"@), "url"@) {
            Some(u) => if is_http(u) {
                let lang = match json_str_at(c, "languageCode"@) { Some(l) => l, None => "fr"@ };
                group_add(prev, lang, Json::Object(Seq::empty().push(("url"@, Json::Str(u)))))
            } else {
                prev
            },
            None => prev,
        }
    }
}

/// The thumbnails of the first `n` images of a video record, HTTP ones only.
pub open spec fn crowdbunker_thumbs(imgs: Seq<Json>, n: int) -> Seq<Json>
    decreases n,
{
    if n <= 0 {
        Seq::empty()
    } else {
        let prev = crowdbunker_thumbs(imgs, n - 1);
        let im = imgs[n - 1];
        match json_str_at(im, "url"@) {
            Some(u) => if is_http(u) {
                prev.push(Json::Object(push_opt(push_opt(Seq::empty().push(("url"@, Json::Str(u))),
                    "width"@, opt_int(json_int_at(im, "width"@))), "height"@, opt_int(json_int_at(im, "height"@)))))
            } else {
                prev
            },
            None => prev,
        }
    }
}

/// The metadata of CrowdBunker video `id` from its details answer and video record.
pub open spec fn crowdbunker_info(id: Seq<char>, data: Json, video: Json) -> Map<Seq<char>, Json> {
    let fs = crowdbunker_formats(video);
    let channel = json_lookup(data, "channel"@);
    let caps = array_items_at(video, "captions"@);
    let imgs = array_items_at(video, "thumbnails"@);
    let m0 = Map::<Seq<char>, Json>::empty().insert("id"@, Json::Str(id));
    let m1 = put_opt(m0, "title"@, opt_str(json_str_at(video, "title"@)));
    let m2 = put_opt(m1, "description"@, opt_str(json_str_at(video, "description"@)));
    let m3 = put_opt(m2, "view_count"@, opt_int(json_int_at(video, "viewCount"@)));
    let m4 = put_opt(m3, "duration"@, opt_int(json_int_at(video, "duration"@)));
    let m5 = put_opt(m4, "uploader"@, opt_str(str_in(channel, "name"@)));
    let m6 = put_opt(m5, "uploader_id"@, opt_str(str_in(channel, "id"@)));
    let m7 = put_opt(m6, "like_count"@, opt_int(json_int_at(data, "likesCount"@)));
    let m8 = put_opt(m7, "upload_date"@, opt_str(match first_str(json_str_at(video, "publishedAt"@), json_str_at(video, "createdAt"@)) {
        Some(d) => date_digits_of(d),
        None => None,
    }));
    m8.insert("thumbnails"@, Json::Array(crowdbunker_thumbs(imgs, imgs.len() as int)))
        .insert("url"@, Json::Str(fs[0].0))
        .insert("ext"@, Json::Str("mp4"@))
        .insert("formats"@, Json::Array(pair_records(fs)))
        .insert("subtitles"@, Json::Object(groups_json(crowdbunker_caption_groups(caps, caps.len() as int))))
}

fn crowdbunker_api_fetch(url: String) -> (r: Fetch)
    ensures
        is_accepting_get(r, url@, crowdbunker_accept()),
{
    get_json_accepting(url, "application/json, text/plain, */*")
}

fn crowdbunker_groups_of(caps: &Vec<&JsonValue>) -> (r: Vec<(String, Vec<JsonValue>)>)
    ensures
        lang_groups_view(r@) == crowdbunker_caption_groups(refs_view(caps@), caps@.len() as int),
{
    let ghost cv = refs_view(caps@);
    let mut groups: Vec<(String, Vec<JsonValue>)> = Vec::new();
    assert(lang_groups_view(groups@) =~= Seq::<(Seq<char>, Seq<Json>)>::empty());
    let mut i: usize = 0;
    while i < caps.len()
        invariant
            i <= caps@.len(),
            cv == refs_view(caps@),
            lang_groups_view(groups@) == crowdbunker_caption_groups(cv, i as int),
        decreases caps@.len() - i,
    {
        let c = caps[i];
        assert(cv[i as int] == c@);
        let u = match json_get(c, "file") {
            Some(f) => json_string(f, "url"),
            None => None,
        };
        match u {
            Some(u) => if http_address(u) {
                let lang: &str = match json_string(c, "languageCode") { Some(l) => l, None => "fr" };
                let mut o = obj_new();
                obj_add(&mut o, "url", jstr(u));
                add_to_group(&mut groups, lang, obj_done(o));
            },
            None => {},
        }
        i = i + 1;
    }
    groups
}

fn crowdbunker_thumbs_of(imgs: &Vec<&JsonValue>) -> (r: Vec<JsonValue>)
    ensures
        items_view(r@) == crowdbunker_thumbs(refs_view(imgs@), imgs@.len() as int),
{
    let ghost iv = refs_view(imgs@);
    let mut out: Vec<JsonValue> = Vec::new();
    assert(items_view(out@) =~= crowdbunker_thumbs(iv, 0));
    let mut i: usize = 0;
    while i < imgs.len()
        invariant
            i <= imgs@.len(),
            iv == refs_view(imgs@),
            items_view(out@) == crowdbunker_thumbs(iv, i as int),
        decreases imgs@.len() - i,
    {
        let im = imgs[i];
        assert(iv[i as int] == im@);
        let ghost prev = out@;
        match json_string(im, "url") {
            Some(u) => if http_address(u) {
                let mut o = obj_new();
                obj_add(&mut o, "url", jstr(u));
                obj_add_opt(&mut o, "width", opt_int_json(json_i64(im, "width")));
                obj_add_opt(&mut o, "height", opt_int_json(json_i64(im, "height")));
                let oj = obj_done(o);
                out.push(oj);
                assert(items_view(out@) =~= items_view(prev).push(oj@));
            },
            None => {},
        }
        i = i + 1;
    }
    out
}

impl CrowdBunkerExtractor {
    /// One step of a CrowdBunker extraction: the post details are fetched, then the
    /// metadata is built.
    pub fn extract_step(&self, url: &str, replies: &Vec<Reply>) -> (r: Result<Step, ExtractorError>)
        ensures
            match regex_named_capture(self.matcher().source(), url@, "id"@) {
                Some(id) => if replies@.len() == 0 {
                    r matches Ok(Step::Fetch(f)) && is_accepting_get(f, "https://api.divulg.org/post/"@ + id + "/details"@, crowdbunker_accept())
                } else {
                    match reply_json_at(replies@, 0) {
                        Some(data) => match json_lookup(data@, "video"@) {
                            Some(video) => if crowdbunker_formats(video).len() == 0 {
                                fails_with(r, ExtractorErrorKind::Extraction)
                            } else {
                                done_with(r, crowdbunker_info(id, data@, video))
                            },
                            None => fails_with(r, ExtractorErrorKind::Extraction),
                        },
                        None => fails_with(r, ExtractorErrorKind::Extraction),
                    }
                },
                None => fails_with(r, ExtractorErrorKind::InvalidUrl),
            },
    {
        let id = match self.site.capture(url, "id") {
            Some(v) => v,
            None => return Err(fail(ExtractorErrorKind::InvalidUrl, "CrowdBunker URL has no video ID")),
        };
        if replies.len() == 0 {
            return Ok(Step::Fetch(crowdbunker_api_fetch(concat3("https://api.divulg.org/post/", id.as_str(), "/details"))));
        }
        let data = reply_json(replies, 0)?;
        let video = match json_get(data, "video") {
            Some(v) => v,
            None => return Err(ExtractorError::new(ExtractorErrorKind::Extraction, concat3("CrowdBunker video ", id.as_str(), " has no video data"))),
        };
        let dash = crowdbunker_manifest_url(video, "dashManifest");
        let hls = crowdbunker_manifest_url(video, "hlsManifest");
        let first_url = match &dash {
            Some(u) => u.clone(),
            None => match &hls {
                Some(u) => u.clone(),
                None => return Err(ExtractorError::new(ExtractorErrorKind::Extraction, concat3("CrowdBunker video ", id.as_str(), " has no playable manifests"))),
            },
        };
        let mut formats = arr_new();
        match dash {
            Some(u) => {
                let mut f = obj_new();
                obj_add(&mut f, "url", JsonValue::Str(u));
                obj_add(&mut f, "format_id", jstr("dash"));
                obj_add(&mut f, "protocol", jstr("http_dash_segments"));
                obj_add(&mut f, "ext", jstr("mp4"));
                arr_add(&mut formats, obj_done(f));
            },
            None => {},
        }
        match hls {
            Some(u) => {
                let mut f = obj_new();
                obj_add(&mut f, "url", JsonValue::Str(u));
                obj_add(&mut f, "format_id", jstr("hls"));
                obj_add(&mut f, "protocol", jstr("m3u8_native"));
                obj_add(&mut f, "ext", jstr("mp4"));
                arr_add(&mut formats, obj_done(f));
            },
            None => {},
        }
        let ghost fs = crowdbunker_formats(video@);
        assert(items_view(formats@) =~= pair_records(fs));
        let channel = json_get(data, "channel");
        let caps = array_at(video, "captions");
        let imgs = array_at(video, "thumbnails");
        let mut info = InfoDict::new();
        info.insert("id", JsonValue::Str(id.clone()));
        info.insert_if_some("title", opt_str_json(json_string(video, "title")));
        info.insert_if_some("description", opt_str_json(json_string(video, "description")));
        info.insert_if_some("view_count", opt_int_json(json_i64(video, "viewCount")));
        info.insert_if_some("duration", opt_int_json(json_i64(video, "duration")));
        info.insert_if_some("uploader", opt_str_json(match channel { Some(c) => json_string(c, "name"), None => None }));
        info.insert_if_some("uploader_id", opt_str_json(match channel { Some(c) => json_string(c, "id"), None => None }));
        info.insert_if_some("like_count", opt_int_json(json_i64(data, "likesCount")));
        let date: Option<&str> = match json_string(video, "publishedAt") {
            Some(d) => Some(d),
            None => json_string(video, "createdAt"),
        };
        info.insert_if_some("upload_date", match date {
            Some(d) => match date_digits(d) { Some(x) => Some(JsonValue::Str(x)), None => None },
            None => None,
        });
        info.insert("thumbnails", arr_done(crowdbunker_thumbs_of(&imgs)));
        info.insert("url", JsonValue::Str(first_url));
        info.insert("ext", jstr("mp4"));
        info.insert("formats", arr_done(formats));
        info.insert("subtitles", groups_object(crowdbunker_groups_of(&caps)));
        Ok(Step::Done(ExtractorResult::single(info)))
    }
}

/// The address of a CrowdBunker channel page, after cursor `after` when there is one.
pub open spec fn crowdbunker_page_url(cid: Seq<char>, after: Option<Seq<char>>) -> Seq<char> {
    let endpoint = "https://api.divulg.org/organization/"@ + cid + "/posts"@;
    match after {
        Some(c) => endpoint + "?after="@ + form_encoded(c),
        None => endpoint,
    }
}

/// The entries of the first `n` items of a channel page: each post with an ID, handed on
/// to the CrowdBunker extractor.
pub open spec fn crowdbunker_entries(items: Seq<Json>, n: int) -> Seq<Map<Seq<char>, Json>>
    decreases n,
{
    if n <= 0 {
        Seq::empty()
    } else {
        let prev = crowdbunker_entries(items, n - 1);
        match json_str_at(items[n - 1], "uid"@) {
            Some(uid) => prev.push(url_result("https://crowdbunker.com/v/"@ + uid).insert("ie_key"@, Json::Str("CrowdBunker"@))),
            None => prev,
        }
    }
}

/// Where the listing of a CrowdBunker channel stands, page `k` being answered by
/// `replies[k]` and asked for after cursor `after`, with entries `es` listed.
pub open spec fn crowdbunker_run(cid: Seq<char>, replies: Seq<Reply>, k: int, after: Option<Seq<char>>, es: Seq<Map<Seq<char>, Json>>) -> PlaylistRun
    decreases replies.len() - k,
{
    if k < 0 {
        PlaylistRun::Failed(ExtractorErrorKind::Extraction)
    } else if k >= replies.len() {
        PlaylistRun::Need(crowdbunker_page_url(cid, after), false)
    } else {
        match reply_json_at(replies, k) {
            Some(page) => {
                let items = array_items_at(page@, "items"@);
                let es2 = es + crowdbunker_entries(items, items.len() as int);
                match json_str_at(page@, "last"@) {
                    Some(n) => if after == Some(n) {
                        PlaylistRun::Failed(ExtractorErrorKind::Unsupported)
                    } else {
                        crowdbunker_run(cid, replies, k + 1, Some(n), es2)
                    },
                    None => if es2.len() == 0 {
                        PlaylistRun::Failed(ExtractorErrorKind::Extraction)
                    } else {
                        PlaylistRun::Entries(es2)
                    },
                }
            },
            None => PlaylistRun::Failed(ExtractorErrorKind::Extraction),
        }
    }
}

fn crowdbunker_entries_of(items: &Vec<&JsonValue>, entries: &mut Vec<InfoDict>)
    requires
        all_wf(old(entries)@),
    ensures
        all_wf(final(entries)@),
        dicts_view(final(entries)@) == dicts_view(old(entries)@) + crowdbunker_entries(refs_view(items@), items@.len() as int),
{
    let ghost iv = refs_view(items@);
    let ghost start = dicts_view(entries@);
    let mut i: usize = 0;
    assert(dicts_view(entries@) =~= start + crowdbunker_entries(iv, 0));
    while i < items.len()
        invariant
            i <= items@.len(),
            iv == refs_view(items@),
            all_wf(entries@),
            dicts_view(entries@) == start + crowdbunker_entries(iv, i as int),
        decreases items@.len() - i,
    {
        assert(iv[i as int] == items@[i as int]@);
        let ghost prev = dicts_view(entries@);
        match json_string(items[i], "uid") {
            Some(uid) => {
                let mut e = native_url_result(concat2("https://crowdbunker.com/v/", uid).as_str());
                e.insert("ie_key", jstr("CrowdBunker"));
                entries.push(e);
                assert(dicts_view(entries@) =~= prev.push(e@));
            },
            None => {},
        }
        i = i + 1;
    }
}

impl CrowdBunkerChannelExtractor {
    /// One step of a CrowdBunker channel listing: its post pages are fetched in turn,
    /// each after the previous page's cursor, until a page has none.
    #[verifier::loop_isolation(false)]
    pub fn extract_step(&self, url: &str, replies: &Vec<Reply>) -> (r: Result<Step, ExtractorError>)
        ensures
            match regex_named_capture(self.matcher().source(), url@, "id"@) {
                Some(cid) => match crowdbunker_run(cid, replies@, 0, None, Seq::empty()) {
                    PlaylistRun::Need(u, _) => r matches Ok(Step::Fetch(f)) && is_accepting_get(f, u, crowdbunker_accept()),
                    PlaylistRun::Failed(k) => fails_with(r, k),
                    PlaylistRun::Entries(es) => done_playlist(r, Map::<Seq<char>, Json>::empty().insert("id"@, Json::Str(cid)), es),
                },
                None => fails_with(r, ExtractorErrorKind::InvalidUrl),
            },
    {
        let cid = match self.site.capture(url, "id") {
            Some(v) => v,
            None => return Err(fail(ExtractorErrorKind::InvalidUrl, "CrowdBunker channel URL has no channel ID")),
        };
        let ghost run0 = crowdbunker_run(cid@, replies@, 0, None, Seq::empty());
        let mut k: usize = 0;
        let mut after: Option<String> = None;
        let mut entries: Vec<InfoDict> = Vec::new();
        assert(dicts_view(entries@) =~= Seq::<Map<Seq<char>, Json>>::empty());
        loop
            invariant
                all_wf(entries@),
                run0 == crowdbunker_run(cid@, replies@, k as int, match after { Some(a) => Some(a@), None => None }, dicts_view(entries@)),
            decreases replies@.len() - k,
        {
            if k >= replies.len() {
                let mut pu = concat3("https://api.divulg.org/organization/", cid.as_str(), "/posts");
                match &after {
                    Some(c) => {
                        push_str(&mut pu, "?after=");
                        push_str(&mut pu, form_encode(c.as_str()).as_str());
                    },
                    None => {},
                }
                return Ok(Step::Fetch(crowdbunker_api_fetch(pu)));
            }
            let page = reply_json(replies, k)?;
            let items = array_at(page, "items");
            crowdbunker_entries_of(&items, &mut entries);
            match json_string(page, "last") {
                Some(n) => {
                    let same = match &after {
                        Some(a) => str_equal(a.as_str(), n),
                        None => false,
                    };
                    if same {
                        return Err(ExtractorError::new(
                            ExtractorErrorKind::Unsupported,
                            concat3("CrowdBunker channel ", cid.as_str(), " returned a non-advancing page cursor"),
                        ));
                    }
                    after = Some(owned(n));
                },
                None => {
                    if entries.len() == 0 {
                        return Err(ExtractorError::new(
                            ExtractorErrorKind::Extraction,
                            concat3("CrowdBunker channel ", cid.as_str(), " has no video entries"),
                        ));
                    }
                    let mut info = InfoDict::new();
                    info.insert("id", JsonValue::Str(cid.clone()));
                    return Ok(Step::Done(ExtractorResult::Playlist { info, entries }));
                },
            }
            k = k + 1;
        }
    }
}

} // verus!
