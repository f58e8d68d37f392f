use vstd::prelude::*;

use crate::extract::{first_str, jstr, lookup_in, opt_int, opt_int_json, opt_str, put_opt, reply_json, reply_json_at, reply_text, reply_text_at, resolve_url, resolved};
use crate::framework::{Expect, ExtractorDescriptor, ExtractorError, ExtractorErrorKind, ExtractorResult, Fetch, Method, Reply, SiteMatcher, Step, descriptor_ok, descriptor_source, done_with, fail, fails_with, fetches, get_json_accepting, get_text, headers_view, is_accepting_get, redirect_any, redirect_to, redirects, descriptor_error};
use crate::html::{html_text_fragment, text_fragment};
use crate::info::{InfoDict};
use crate::json::{Json, JsonValue, arr_add, arr_done, arr_new, items_view, json_bool, json_bool_at, json_clone, json_get, json_i64, json_int_at, json_lookup, json_opt_view, json_str_at, json_string, lemma_array_view, obj_add, obj_add_opt, obj_done, obj_new, push_opt, str_equal};
use crate::float::{f64_text, parse_f64_text, per_thousand, per_thousand_value};
use crate::page::{html_meta_value, meta_value};
use crate::pattern::{first_group, regex_first_group, regex_matches, regex_named_capture};
use crate::text::{concat2, concat3, owned, push_str, trim, trimmed};
use crate::weburl::{form_encode, form_encoded};

verus! {

/// Native GETTR post extractor.
pub struct GettrExtractor {
    site: SiteMatcher,
}

impl GettrExtractor {
    /// The descriptor and matcher the extractor was built with.
    pub closed spec fn matcher(&self) -> SiteMatcher {
        self.site
    }

    pub fn new(descriptor: ExtractorDescriptor) -> (r: Result<Self, ExtractorError>)
        ensures
            r is Ok <==> descriptor_ok(descriptor),
            r matches Ok(x) ==> x.matcher().spec_descriptor() == descriptor
                && Some(x.matcher().source()) == descriptor_source(descriptor),
            r matches Err(e) ==> e.kind == ExtractorErrorKind::Extraction && e.message@ == descriptor_error(descriptor),
    {
        match SiteMatcher::from_descriptor(descriptor) {
            Ok(site) => Ok(GettrExtractor { site }),
            Err(e) => Err(e),
        }
    }

    pub fn descriptor(&self) -> (r: &ExtractorDescriptor)
        ensures
            *r == self.matcher().spec_descriptor(),
    {
        self.site.descriptor()
    }

    pub fn suitable(&self, url: &str) -> (r: bool)
        ensures
            r == regex_matches(self.matcher().source(), url@),
    {
        self.site.suitable(url)
    }

    pub fn is_native(&self) -> (r: bool)
        ensures
            r,
    {
        true
    }

    pub fn native_matcher_count(&self) -> (r: usize)
        ensures
            r == 1,
    {
        1
    }
}

/// Native GETTR live-stream extractor.
pub struct GettrStreamingExtractor {
    site: SiteMatcher,
}

impl GettrStreamingExtractor {
    /// The descriptor and matcher the extractor was built with.
    pub closed spec fn matcher(&self) -> SiteMatcher {
        self.site
    }

    pub fn new(descriptor: ExtractorDescriptor) -> (r: Result<Self, ExtractorError>)
        ensures
            r is Ok <==> descriptor_ok(descriptor),
            r matches Ok(x) ==> x.matcher().spec_descriptor() == descriptor
                && Some(x.matcher().source()) == descriptor_source(descriptor),
            r matches Err(e) ==> e.kind == ExtractorErrorKind::Extraction && e.message@ == descriptor_error(descriptor),
    {
        match SiteMatcher::from_descriptor(descriptor) {
            Ok(site) => Ok(GettrStreamingExtractor { site }),
            Err(e) => Err(e),
        }
    }

    pub fn descriptor(&self) -> (r: &ExtractorDescriptor)
        ensures
            *r == self.matcher().spec_descriptor(),
    {
        self.site.descriptor()
    }

    pub fn suitable(&self, url: &str) -> (r: bool)
        ensures
            r == regex_matches(self.matcher().source(), url@),
    {
        self.site.suitable(url)
    }

    pub fn is_native(&self) -> (r: bool)
        ensures
            r,
    {
        true
    }

    pub fn native_matcher_count(&self) -> (r: usize)
        ensures
            r == 1,
    {
        1
    }
}

/// `gettr_string`: a string member, when it is not empty.
pub open spec fn gettr_str(v: Json, key: Seq<char>) -> Option<Seq<char>> {
    match json_str_at(v, key) {
        Some(s) => if s.len() > 0 { Some(s) } else { None },
        None => None,
    }
}

/// `gettr_string` of an optional value.
pub open spec fn gettr_str_in(v: Option<Json>, key: Seq<char>) -> Option<Seq<char>> {
    match v {
        Some(x) => gettr_str(x, key),
        None => None,
    }
}

/// `gettr_number`: a number member as a float, or a string member read as one
/// (`str::parse::<f64>`, null for an infinity or not-a-number).
pub open spec fn gettr_num(v: Json, key: Seq<char>) -> Option<Json> {
    match json_lookup(v, key) {
        Some(Json::Int(i)) => Some(Json::Decimal(i, 0)),
        Some(Json::Decimal(m, e)) => Some(Json::Decimal(m, e)),
        Some(Json::Str(s)) => f64_text(s),
        _ => None,
    }
}

/// A number as a float JSON number.
pub open spec fn num_json(n: Option<Json>) -> Option<Json> {
    n
}

/// A number of milliseconds as a float number of seconds.
pub open spec fn millis_json(n: Option<Json>) -> Option<Json> {
    match n {
        Some(j) => Some(per_thousand(j)),
        None => None,
    }
}

/// `gettr_media_url`: a media path made absolute against GETTR's media host.
pub open spec fn gettr_media(v: Seq<char>) -> Seq<char> {
    resolved("https://media.gettr.com/"@, v)
}

/// The API address of GETTR post `id`, asking for its statistics and user.
pub open spec fn gettr_post_api(id: Seq<char>) -> Seq<char> {
    "https://api.gettr.com/u/post/"@ + id + "?incl="@ + form_encoded("\"poststats|userinfo\""@)
}

/// The user record of a post's author in an API answer.
pub open spec fn gettr_user(api: Json, post: Json) -> Option<Json> {
    match json_str_at(post, "uid"@) {
        Some(uid) => lookup_in(lookup_in(json_lookup(api, "aux"@), "uinf"@), uid),
        None => None,
    }
}

/// The ID of the post a post shares.
pub open spec fn gettr_shared(api: Json, post: Json) -> Option<Seq<char>> {
    match gettr_str_in(lookup_in(json_lookup(api, "aux"@), "shrdpst"@), "_id"@) {
        Some(s) => Some(s),
        None => match json_lookup(post, "rpstIds"@) {
            Some(Json::Array(a)) => if a.len() > 0 {
                match a[0] {
                    Json::Str(s) => Some(s),
                    _ => None,
                }
            } else {
                None
            },
            _ => None,
        },
    }
}

/// `gettr_page_uploader`: the uploader that a post page's title names (`NAME on GETTR`).
pub open spec fn gettr_page_uploader_of(html: Seq<char>) -> Option<Seq<char>> {
    let page_title = match meta_value(html, "og:title"@) {
        Some(t) => Some(t),
        None => match first_group("(?is)<title\\b[^>]*>(.*?)</title>"@, html, 1) {
            Some(v) => Some(text_fragment(v)),
            None => None,
        },
    };
    match page_title {
        Some(t) => match first_group("(?is)^(.+?)\\s+on\\s+GETTR"@, t, 1) {
            Some(n) => if trimmed(n).len() > 0 { Some(trimmed(n)) } else { None },
            None => None,
        },
        None => None,
    }
}

/// `gettr_page_uploader`: the uploader that a post page's title names (`NAME on GETTR`).
pub fn gettr_page_uploader(html: &str) -> (r: Option<String>)
    ensures
        match r {
            Some(u) => gettr_page_uploader_of(html@) == Some(u@),
            None => gettr_page_uploader_of(html@) is None,
        },
{
    let page_title = match html_meta_value(html, "og:title") {
        Some(t) => t,
        None => match regex_first_group("(?is)<title\\b[^>]*>(.*?)</title>", html, 1) {
            Some(v) => html_text_fragment(v.as_str()),
            None => return None,
        },
    };
    match regex_first_group("(?is)^(.+?)\\s+on\\s+GETTR", page_title.as_str(), 1) {
        Some(n) => {
            let t = trim(n.as_str());
            if t.unicode_len() > 0 { Some(t) } else { None }
        },
        None => None,
    }
}

fn gettr_string_of(v: &JsonValue, key: &str) -> (r: Option<String>)
    ensures
        match r {
            Some(s) => gettr_str(v@, key@) == Some(s@),
            None => gettr_str(v@, key@) is None,
        },
{
    match json_string(v, key) {
        Some(s) => if s.unicode_len() > 0 { Some(owned(s)) } else { None },
        None => None,
    }
}

fn gettr_number_of(v: &JsonValue, key: &str) -> (r: Option<JsonValue>)
    ensures
        json_opt_view(r) == gettr_num(v@, key@),
{
    match json_get(v, key) {
        Some(JsonValue::Int(i)) => Some(JsonValue::Decimal(*i, 0)),
        Some(JsonValue::Decimal(m, e)) => Some(JsonValue::Decimal(*m, *e)),
        Some(JsonValue::Str(s)) => parse_f64_text(s.as_str()),
        _ => None,
    }
}

fn millis_json_of(n: Option<JsonValue>) -> (r: Option<JsonValue>)
    ensures
        json_opt_view(r) == millis_json(json_opt_view(n)),
{
    match n {
        Some(j) => Some(per_thousand_value(j)),
        None => None,
    }
}

fn gettr_media_of(v: &str) -> (r: String)
    ensures
        r@ == gettr_media(v@),
{
    resolve_url("https://media.gettr.com/", v)
}

/// The `result` of the GETTR API answer `replies[i]`.
pub open spec fn gettr_result_at(replies: Seq<Reply>, i: int) -> Option<Json> {
    match reply_json_at(replies, i) {
        Some(env) => json_lookup(env@, "result"@),
        None => None,
    }
}

/// `gettr_api_result`: the `result` of the GETTR API answer `replies[i]`.
pub fn gettr_api_result(replies: &Vec<Reply>, i: usize) -> (r: Result<&JsonValue, ExtractorError>)
    ensures
        match gettr_result_at(replies@, i as int) {
            Some(x) => r matches Ok(y) && y@ == x,
            None => fails_with(r, ExtractorErrorKind::Extraction),
        },
{
    let env = reply_json(replies, i)?;
    match json_get(env, "result") {
        Some(x) => Ok(x),
        None => Err(fail(ExtractorErrorKind::Extraction, "GETTR API response has no result")),
    }
}

/// The formats of a GETTR post: its HLS video, then its original video.
pub open spec fn gettr_formats(post: Json) -> Seq<Json> {
    let vid = gettr_str(post, "vid"@);
    let ovid = gettr_str(post, "ovid"@);
    let hls = match vid {
        Some(v) => seq![Json::Object(Seq::empty()
            .push(("url"@, Json::Str(gettr_media(v))))
            .push(("format_id"@, Json::Str("hls"@)))
            .push(("protocol"@, Json::Str("m3u8_native"@)))
            .push(("ext"@, Json::Str("mp4"@))))],
        None => Seq::empty(),
    };
    let orig = match ovid {
        Some(o) => seq![Json::Object(push_opt(push_opt(Seq::empty()
            .push(("url"@, Json::Str(gettr_media(o))))
            .push(("format_id"@, Json::Str("ovid"@)))
            .push(("ext"@, Json::Str("mp4"@))),
            "width"@, opt_int(json_int_at(post, "vid_wid"@))),
            "height"@, opt_int(json_int_at(post, "vid_hgt"@))))],
        None => Seq::empty(),
    };
    hls + orig
}

/// The address of a GETTR post's first format.
pub open spec fn gettr_first_url(post: Json) -> Seq<char> {
    match gettr_str(post, "vid"@) {
        Some(v) => gettr_media(v),
        None => match gettr_str(post, "ovid"@) {
            Some(o) => gettr_media(o),
            None => Seq::empty(),
        },
    }
}

/// The metadata of GETTR post `id`, from its page address, its page, the API answer and
/// the post record.
pub open spec fn gettr_post_info(id: Seq<char>, url: Seq<char>, html: Seq<char>, api: Json, post: Json) -> Map<Seq<char>, Json> {
    let vid = gettr_str(post, "vid"@);
    let ovid = gettr_str(post, "ovid"@);
    let description = first_str(gettr_str(post, "txt"@), meta_value(html, "og:description"@));
    let user = gettr_user(api, post);
    let uploader = first_str(first_str(gettr_str_in(user, "nickname"@), gettr_str_in(user, "username"@)), gettr_page_uploader_of(html));
    let base_title = match description { Some(d) => d, None => id };
    let title = match uploader { Some(u) => u + " - "@ + base_title, None => base_title };
    let m0 = Map::<Seq<char>, Json>::empty()
        .insert("id"@, Json::Str(id))
        .insert("title"@, Json::Str(title));
    let m1 = put_opt(m0, "description"@, opt_str(description))
        .insert("formats"@, Json::Array(gettr_formats(post)))
        .insert("url"@, Json::Str(gettr_first_url(post)))
        .insert("ext"@, Json::Str("mp4"@));
    let m2 = put_opt(m1, "uploader"@, opt_str(uploader));
    gettr_post_rest(m2, url, html, api, post)
}

/// `m` with the uploader ID, thumbnail, times, tags and subtitles of a GETTR post set.
pub open spec fn gettr_post_rest(m2: Map<Seq<char>, Json>, url: Seq<char>, html: Seq<char>, api: Json, post: Json) -> Map<Seq<char>, Json> {
    let user = gettr_user(api, post);
    let m3 = put_opt(m2, "uploader_id"@, opt_str(first_str(first_str(gettr_str_in(user, "_id"@), gettr_str_in(user, "username"@)), gettr_str(post, "uid"@))));
    let m4 = put_opt(m3, "thumbnail"@, opt_str(match gettr_str(post, "main"@) {
        Some(m) => Some(gettr_media(m)),
        None => match meta_value(html, "og:image"@) {
            Some(i) => Some(resolved(url, i)),
            None => None,
        },
    }));
    let m5 = put_opt(m4, "timestamp"@, millis_json(match gettr_num(post, "cdate"@) {
        Some(n) => Some(n),
        None => gettr_num(post, "udate"@),
    }));
    let m6 = put_opt(m5, "duration"@, num_json(gettr_num(post, "vid_dur"@)));
    let m7 = match json_lookup(post, "htgs"@) {
        Some(Json::Array(t)) => m6.insert("tags"@, Json::Array(t)),
        _ => m6,
    };
    m7.insert("subtitles"@, Json::Object(Seq::empty()))
}

/// What a GETTR post extraction gives once the API answer `api` is in.
pub open spec fn gettr_post_outcome(r: Result<Step, ExtractorError>, id: Seq<char>, url: Seq<char>, html: Seq<char>, api: Json) -> bool {
    match json_lookup(api, "data"@) {
        Some(post) => if gettr_str(post, "p_type"@) == Some("stream"@) {
            redirects(r, "https://gettr.com/streaming/"@ + id, Some("GettrStreaming"@))
        } else if gettr_str(post, "vid"@) is None && gettr_str(post, "ovid"@) is None {
            match gettr_str(post, "prevsrc"@) {
                Some(e) => redirects(r, e, None),
                None => match gettr_shared(api, post) {
                    Some(s) => redirects(r, "https://gettr.com/post/"@ + s, Some("Gettr"@)),
                    None => fails_with(r, ExtractorErrorKind::Extraction),
                },
            }
        } else {
            done_with(r, gettr_post_info(id, url, html, api, post))
        },
        None => fails_with(r, ExtractorErrorKind::Extraction),
    }
}

fn gettr_user_of<'a>(api: &'a JsonValue, post: &JsonValue) -> (r: Option<&'a JsonValue>)
    ensures
        match r {
            Some(u) => gettr_user(api@, post@) == Some(u@),
            None => gettr_user(api@, post@) is None,
        },
{
    let uid = match json_string(post, "uid") {
        Some(u) => u,
        None => return None,
    };
    match json_get(api, "aux") {
        Some(aux) => match json_get(aux, "uinf") {
            Some(users) => json_get(users, uid),
            None => None,
        },
        None => None,
    }
}

fn gettr_str_in_of(v: Option<&JsonValue>, key: &str) -> (r: Option<String>)
    ensures
        match r {
            Some(s) => gettr_str_in(match v { Some(x) => Some(x@), None => None }, key@) == Some(s@),
            None => gettr_str_in(match v { Some(x) => Some(x@), None => None }, key@) is None,
        },
{
    match v {
        Some(x) => gettr_string_of(x, key),
        None => None,
    }
}

fn gettr_shared_of(api: &JsonValue, post: &JsonValue) -> (r: Option<String>)
    ensures
        match r {
            Some(s) => gettr_shared(api@, post@) == Some(s@),
            None => gettr_shared(api@, post@) is None,
        },
{
    let shared = match json_get(api, "aux") {
        Some(aux) => json_get(aux, "shrdpst"),
        None => None,
    };
    match gettr_str_in_of(shared, "_id") {
        Some(s) => Some(s),
        None => match json_get(post, "rpstIds") {
            Some(ids) => match ids {
                JsonValue::Array(a) => {
                    proof { lemma_array_view(*ids); }
                    if a.len() > 0 {
                        match &a[0] {
                            JsonValue::Str(s) => Some(s.clone()),
                            _ => None,
                        }
                    } else {
                        None
                    }
                },
                _ => None,
            },
            None => None,
        },
    }
}

fn first_string(a: Option<String>, b: Option<String>) -> (r: Option<String>)
    ensures
        match r { Some(s) => Some(s@), None => None } == first_str(match a { Some(s) => Some(s@), None => None }, match b { Some(s) => Some(s@), None => None }),
{
    match a {
        Some(x) => Some(x),
        None => b,
    }
}

fn gettr_formats_of(post: &JsonValue) -> (r: (Vec<JsonValue>, String))
    ensures
        items_view(r.0@) == gettr_formats(post@),
        r.1@ == gettr_first_url(post@),
{
    let vid = gettr_string_of(post, "vid");
    let ovid = gettr_string_of(post, "ovid");
    let mut formats = arr_new();
    let mut first_url = String::new();
    proof { reveal_strlit(""); }
    match &vid {
        Some(v) => {
            let mu = gettr_media_of(v.as_str());
            first_url = mu.clone();
            let mut f = obj_new();
            obj_add(&mut f, "url", JsonValue::Str(mu));
            obj_add(&mut f, "format_id", jstr("hls"));
            obj_add(&mut f, "protocol", jstr("m3u8_native"));
            obj_add(&mut f, "ext", jstr("mp4"));
            arr_add(&mut formats, obj_done(f));
        },
        None => {},
    }
    let ghost hls_part = items_view(formats@);
    match &ovid {
        Some(o) => {
            let mu = gettr_media_of(o.as_str());
            if vid.is_none() {
                first_url = mu.clone();
            }
            let mut f = obj_new();
            obj_add(&mut f, "url", JsonValue::Str(mu));
            obj_add(&mut f, "format_id", jstr("ovid"));
            obj_add(&mut f, "ext", jstr("mp4"));
            obj_add_opt(&mut f, "width", opt_int_json(json_i64(post, "vid_wid")));
            obj_add_opt(&mut f, "height", opt_int_json(json_i64(post, "vid_hgt")));
            arr_add(&mut formats, obj_done(f));
        },
        None => {},
    }
    let ghost hls = match vid {
        Some(v) => seq![Json::Object(Seq::empty()
            .push(("url"@, Json::Str(gettr_media(v@))))
            .push(("format_id"@, Json::Str("hls"@)))
            .push(("protocol"@, Json::Str("m3u8_native"@)))
            .push(("ext"@, Json::Str("mp4"@))))],
        None => Seq::<Json>::empty(),
    };
    assert(items_view(formats@) =~= hls + match ovid {
        Some(o) => seq![Json::Object(push_opt(push_opt(Seq::empty()
            .push(("url"@, Json::Str(gettr_media(o@))))
            .push(("format_id"@, Json::Str("ovid"@)))
            .push(("ext"@, Json::Str("mp4"@))),
            "width"@, opt_int(json_int_at(post@, "vid_wid"@))),
            "height"@, opt_int(json_int_at(post@, "vid_hgt"@))))],
        None => Seq::<Json>::empty(),
    });
    (formats, first_url)
}

fn gettr_post_info_of(id: &str, url: &str, html: &str, api: &JsonValue, post: &JsonValue) -> (r: InfoDict)
    ensures
        r.wf(),
        r@ == gettr_post_info(id@, url@, html@, api@, post@),
{
    let vid = gettr_string_of(post, "vid");
    let ovid = gettr_string_of(post, "ovid");
    let description = first_string(gettr_string_of(post, "txt"), html_meta_value(html, "og:description"));
    let user = gettr_user_of(api, post);
    let uploader = first_string(first_string(gettr_str_in_of(user, "nickname"), gettr_str_in_of(user, "username")), gettr_page_uploader(html));
    let base_title = match &description { Some(d) => d.clone(), None => owned(id) };
    let title = match &uploader { Some(u) => concat3(u.as_str(), " - ", base_title.as_str()), None => base_title };
    let (formats, first_url) = gettr_formats_of(post);
    let mut info = InfoDict::new();
    info.insert("id", jstr(id));
    info.insert("title", JsonValue::Str(title));
    info.insert_if_some("description", match description { Some(d) => Some(JsonValue::Str(d)), None => None });
    info.insert("formats", arr_done(formats));
    info.insert("url", JsonValue::Str(first_url));
    info.insert("ext", jstr("mp4"));
    info.insert_if_some("uploader", match uploader { Some(u) => Some(JsonValue::Str(u)), None => None });
    gettr_post_rest_of(&mut info, url, html, api, post);
    info
}

fn gettr_post_rest_of(info: &mut InfoDict, url: &str, html: &str, api: &JsonValue, post: &JsonValue)
    requires
        old(info).wf(),
    ensures
        final(info).wf(),
        final(info)@ == gettr_post_rest(old(info)@, url@, html@, api@, post@),
{
    let user = gettr_user_of(api, post);
    let uid = first_string(first_string(gettr_str_in_of(user, "_id"), gettr_str_in_of(user, "username")), gettr_string_of(post, "uid"));
    info.insert_if_some("uploader_id", match uid { Some(u) => Some(JsonValue::Str(u)), None => None });
    let thumb = match gettr_string_of(post, "main") {
        Some(m) => Some(gettr_media_of(m.as_str())),
        None => match html_meta_value(html, "og:image") {
            Some(i) => Some(resolve_url(url, i.as_str())),
            None => None,
        },
    };
    info.insert_if_some("thumbnail", match thumb { Some(t) => Some(JsonValue::Str(t)), None => None });
    info.insert_if_some("timestamp", millis_json_of(match gettr_number_of(post, "cdate") {
        Some(n) => Some(n),
        None => gettr_number_of(post, "udate"),
    }));
    info.insert_if_some("duration", gettr_number_of(post, "vid_dur"));
    match json_get(post, "htgs") {
        Some(t) => match t {
            JsonValue::Array(_) => {
                info.insert("tags", json_clone(t));
            },
            _ => {},
        },
        None => {},
    }
    let empty = obj_new();
    info.insert("subtitles", obj_done(empty));
}

impl GettrExtractor {
    /// One step of a GETTR post extraction: the post page, then the post's API answer, then
    /// the metadata, or the address the post hands on.
    pub fn extract_step(&self, url: &str, replies: &Vec<Reply>) -> (r: Result<Step, ExtractorError>)
        ensures
            match regex_named_capture(self.matcher().source(), url@, "id"@) {
                Some(id) => if replies@.len() == 0 {
                    fetches(r, url@, Expect::Text)
                } else {
                    match reply_text_at(replies@, 0) {
                        Some(html) => if replies@.len() == 1 {
                            r matches Ok(Step::Fetch(f)) && is_accepting_get(f, gettr_post_api(id), "application/json"@)
                        } else {
                            match gettr_result_at(replies@, 1) {
                                Some(api) => gettr_post_outcome(r, id, url@, html, api),
                                None => fails_with(r, ExtractorErrorKind::Extraction),
                            }
                        },
                        None => fails_with(r, ExtractorErrorKind::Extraction),
                    }
                },
                None => fails_with(r, ExtractorErrorKind::InvalidUrl),
            },
    {
        let id = match self.site.capture(url, "id") {
            Some(v) => v,
            None => return Err(fail(ExtractorErrorKind::InvalidUrl, "GETTR post has no ID")),
        };
        if replies.len() == 0 {
            return Ok(Step::Fetch(get_text(owned(url))));
        }
        let html = reply_text(replies, 0)?;
        if replies.len() == 1 {
            let mut api = concat2("https://api.gettr.com/u/post/", id.as_str());
            push_str(&mut api, "?incl=");
            push_str(&mut api, form_encode("\"poststats|userinfo\"").as_str());
            return Ok(Step::Fetch(get_json_accepting(api, "application/json")));
        }
        let api = gettr_api_result(replies, 1)?;
        let post = match json_get(api, "data") {
            Some(p) => p,
            None => return Err(ExtractorError::new(ExtractorErrorKind::Extraction, concat3("GETTR post ", id.as_str(), " has no data"))),
        };
        match gettr_string_of(post, "p_type") {
            Some(t) => if str_equal(t.as_str(), "stream") {
                return Ok(redirect_to(concat2("https://gettr.com/streaming/", id.as_str()), "GettrStreaming"));
            },
            None => {},
        }
        if gettr_string_of(post, "vid").is_none() && gettr_string_of(post, "ovid").is_none() {
            match gettr_string_of(post, "prevsrc") {
                Some(e) => return Ok(redirect_any(e)),
                None => {},
            }
            match gettr_shared_of(api, post) {
                Some(s) => return Ok(redirect_to(concat2("https://gettr.com/post/", s.as_str()), "Gettr")),
                None => {},
            }
            return Err(ExtractorError::new(ExtractorErrorKind::Extraction, concat3("GETTR post ", id.as_str(), " has no video")));
        }
        let info = gettr_post_info_of(id.as_str(), url, html.as_str(), api, post);
        Ok(Step::Done(ExtractorResult::single(info)))
    }
}

/// The thumbnails of the first `n` images of a stream post, string ones only.
pub open spec fn gettr_thumbs(imgs: Seq<Json>, n: int) -> Seq<Json>
    decreases n,
{
    if n <= 0 {
        Seq::empty()
    } else {
        let prev = gettr_thumbs(imgs, n - 1);
        match imgs[n - 1] {
            Json::Str(s) => prev.push(Json::Object(Seq::empty().push(("url"@, Json::Str(gettr_media(s)))))),
            _ => prev,
        }
    }
}

/// The metadata of GETTR stream `id` from its join answer and broadcast record.
pub open spec fn gettr_stream_info(id: Seq<char>, info: Json, live: Json) -> Map<Seq<char>, Json> {
    let live_url = gettr_str(live, "url"@);
    let post = json_lookup(info, "postData"@);
    let host = json_lookup(info, "liveHostInfo"@);
    let m0 = Map::<Seq<char>, Json>::empty()
        .insert("id"@, Json::Str(id))
        .insert("ext"@, Json::Str("mp4"@))
        .insert("formats"@, Json::Array(match live_url {
            Some(u) => seq![Json::Object(Seq::empty()
                .push(("url"@, Json::Str(u)))
                .push(("format_id"@, Json::Str("hls"@)))
                .push(("protocol"@, Json::Str("m3u8_native"@)))
                .push(("ext"@, Json::Str("mp4"@))))],
            None => Seq::empty(),
        }));
    let m1 = put_opt(m0, "url"@, opt_str(live_url));
    let m2 = put_opt(m1, "title"@, opt_str(gettr_str_in(post, "ttl"@)));
    let m3 = put_opt(m2, "description"@, opt_str(gettr_str_in(post, "dsc"@)));
    let m4 = put_opt(m3, "uploader"@, opt_str(gettr_str_in(host, "nickname"@)));
    let m5 = put_opt(m4, "uploader_id"@, opt_str(gettr_str_in(host, "_id"@)));
    let m6 = put_opt(m5, "view_count"@, opt_int(json_int_at(live, "viewsCount"@)));
    let m7 = put_opt(m6, "timestamp"@, millis_json(gettr_num(live, "startAt"@)));
    let m8 = put_opt(m7, "duration"@, millis_json(gettr_num(live, "duration"@)));
    let m9 = put_opt(m8, "is_live"@, match json_bool_at(live, "isLive"@) {
        Some(b) => Some(Json::Bool(b)),
        None => None,
    });
    let m10 = match lookup_in(post, "imgs"@) {
        Some(Json::Array(imgs)) => m9.insert("thumbnails"@, Json::Array(gettr_thumbs(imgs, imgs.len() as int))),
        _ => m9,
    };
    m10.insert("subtitles"@, Json::Object(Seq::empty()))
}

/// Whether `f` is the POST that joins GETTR stream `id`.
pub open spec fn is_gettr_join(f: Fetch, id: Seq<char>) -> bool {
    f.url@ == "https://api.gettr.com/u/live/join/"@ + id && f.expect == Expect::Json && f.method == Method::Post
        && headers_view(f.headers@) == seq![("Accept"@, "application/json"@)]
        && !f.optional && (f.body matches Some(b) && b@.len() == 0)
}

fn gettr_thumbs_of(imgs: &Vec<JsonValue>) -> (r: Vec<JsonValue>)
    ensures
        items_view(r@) == gettr_thumbs(items_view(imgs@), imgs@.len() as int),
{
    let ghost iv = items_view(imgs@);
    let mut out: Vec<JsonValue> = Vec::new();
    let mut i: usize = 0;
    assert(items_view(out@) =~= gettr_thumbs(iv, 0));
    while i < imgs.len()
        invariant
            i <= imgs@.len(),
            iv == items_view(imgs@),
            items_view(out@) == gettr_thumbs(iv, i as int),
        decreases imgs@.len() - i,
    {
        let ghost prev = out@;
        match &imgs[i] {
            JsonValue::Str(s) => {
                let mut o = obj_new();
                obj_add(&mut o, "url", JsonValue::Str(gettr_media_of(s.as_str())));
                let oj = obj_done(o);
                out.push(oj);
                assert(items_view(out@) =~= items_view(prev).push(oj@));
            },
            _ => {},
        }
        i = i + 1;
    }
    out
}

fn gettr_stream_info_of(id: &str, info: &JsonValue, live: &JsonValue) -> (r: InfoDict)
    ensures
        r.wf(),
        r@ == gettr_stream_info(id@, info@, live@),
{
    let live_url = gettr_string_of(live, "url");
    let post = json_get(info, "postData");
    let host = json_get(info, "liveHostInfo");
    let mut formats = arr_new();
    match &live_url {
        Some(u) => {
            let mut f = obj_new();
            obj_add(&mut f, "url", JsonValue::Str(u.clone()));
            obj_add(&mut f, "format_id", jstr("hls"));
            obj_add(&mut f, "protocol", jstr("m3u8_native"));
            obj_add(&mut f, "ext", jstr("mp4"));
            arr_add(&mut formats, obj_done(f));
        },
        None => {},
    }
    let mut d = InfoDict::new();
    d.insert("id", jstr(id));
    d.insert("ext", jstr("mp4"));
    let fj = arr_done(formats);
    assert(fj@ =~= Json::Array(match live_url {
        Some(u) => seq![Json::Object(Seq::empty()
            .push(("url"@, Json::Str(u@)))
            .push(("format_id"@, Json::Str("hls"@)))
            .push(("protocol"@, Json::Str("m3u8_native"@)))
            .push(("ext"@, Json::Str("mp4"@))))],
        None => Seq::empty(),
    }));
    d.insert("formats", fj);
    d.insert_if_some("url", match live_url { Some(u) => Some(JsonValue::Str(u)), None => None });
    d.insert_if_some("title", match gettr_str_in_of(post, "ttl") { Some(t) => Some(JsonValue::Str(t)), None => None });
    d.insert_if_some("description", match gettr_str_in_of(post, "dsc") { Some(t) => Some(JsonValue::Str(t)), None => None });
    d.insert_if_some("uploader", match gettr_str_in_of(host, "nickname") { Some(t) => Some(JsonValue::Str(t)), None => None });
    d.insert_if_some("uploader_id", match gettr_str_in_of(host, "_id") { Some(t) => Some(JsonValue::Str(t)), None => None });
    d.insert_if_some("view_count", opt_int_json(json_i64(live, "viewsCount")));
    d.insert_if_some("timestamp", millis_json_of(gettr_number_of(live, "startAt")));
    d.insert_if_some("duration", millis_json_of(gettr_number_of(live, "duration")));
    d.insert_if_some("is_live", match json_bool(live, "isLive") { Some(b) => Some(JsonValue::Bool(b)), None => None });
    match post {
        Some(p) => match json_get(p, "imgs") {
            Some(ia) => match ia {
                JsonValue::Array(imgs) => {
                    proof { lemma_array_view(*ia); }
                    d.insert("thumbnails", arr_done(gettr_thumbs_of(imgs)));
                },
                _ => {},
            },
            None => {},
        },
        None => {},
    }
    let empty = obj_new();
    d.insert("subtitles", obj_done(empty));
    d
}

impl GettrStreamingExtractor {
    /// One step of a GETTR stream extraction: the stream is joined, then the metadata is built.
    pub fn extract_step(&self, url: &str, replies: &Vec<Reply>) -> (r: Result<Step, ExtractorError>)
        ensures
            match regex_named_capture(self.matcher().source(), url@, "id"@) {
                Some(id) => if replies@.len() == 0 {
                    r matches Ok(Step::Fetch(f)) && is_gettr_join(f, id)
                } else {
                    match gettr_result_at(replies@, 0) {
                        Some(info) => match json_lookup(info, "broadcast"@) {
                            Some(live) => done_with(r, gettr_stream_info(id, info, live)),
                            None => fails_with(r, ExtractorErrorKind::Extraction),
                        },
                        None => fails_with(r, ExtractorErrorKind::Extraction),
                    }
                },
                None => fails_with(r, ExtractorErrorKind::InvalidUrl),
            },
    {
        let id = match self.site.capture(url, "id") {
            Some(v) => v,
            None => return Err(fail(ExtractorErrorKind::InvalidUrl, "GETTR streaming URL has no ID")),
        };
        if replies.len() == 0 {
            let headers = vec![(owned("Accept"), owned("application/json"))];
            assert(headers_view(headers@) =~= seq![("Accept"@, "application/json"@)]);
            let body = String::new();
            return Ok(Step::Fetch(Fetch {
                url: concat2("https://api.gettr.com/u/live/join/", id.as_str()),
                expect: Expect::Json,
                method: Method::Post,
                headers,
                body: Some(body),
                optional: false,
            }));
        }
        let info = gettr_api_result(replies, 0)?;
        let live = match json_get(info, "broadcast") {
            Some(l) => l,
            None => return Err(ExtractorError::new(ExtractorErrorKind::Extraction, concat3("GETTR stream ", id.as_str(), " has no broadcast data"))),
        };
        Ok(Step::Done(ExtractorResult::single(gettr_stream_info_of(id.as_str(), info, live))))
    }
}

} // verus!
