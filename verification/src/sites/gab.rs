use vstd::prelude::*;

use crate::extract::{determine_ext, ext_of, http_address, is_http, json_f64, json_num_at, jstr, opt_int, opt_int_json, opt_str, opt_str_json, put_opt, reply_json, reply_json_at, timestamp_in};
use crate::framework::{Expect, ExtractorDescriptor, ExtractorError, ExtractorErrorKind, ExtractorResult, Reply, SiteMatcher, Step, all_wf, descriptor_ok, descriptor_source, dicts_view, done_playlist, done_with, fail, fails_with, fetches, get_json, descriptor_error};
use crate::html::{html_text_fragment, text_fragment};
use crate::info::{InfoDict};
use crate::json::{Json, JsonValue, arr_add, arr_done, arr_new, fields_view, items_view, json_clone, json_get, json_i64, json_int_at, json_lookup, json_opt_view, json_str_at, json_string, lemma_array_view, obj_add, obj_add_opt, obj_done, obj_new, push_opt, str_equal};
use crate::jsontext::{json_value_string, value_text};
use crate::media_types::{duration_of, parse_duration};
use crate::number::{nat_text, usize_text};
use crate::page::{str_opt_of};
use crate::pattern::{regex_matches, regex_named_capture};
use crate::text::{concat3, owned, push_str};
use crate::timestamp::{parse_timestamp};

verus! {

/// Native Gab status API extractor.
pub struct GabExtractor {
    site: SiteMatcher,
}

impl GabExtractor {
    /// The descriptor and matcher the extractor was built with.
    pub closed spec fn matcher(&self) -> SiteMatcher {
        self.site
    }

    pub fn new(descriptor: ExtractorDescriptor) -> (r: Result<Self, ExtractorError>)
        ensures
            r is Ok <==> descriptor_ok(descriptor),
            r matches Ok(x) ==> x.matcher().spec_descriptor() == descriptor
                && Some(x.matcher().source()) == descriptor_source(descriptor),
            r matches Err(e) ==> e.kind == ExtractorErrorKind::Extraction && e.message@ == descriptor_error(descriptor),
    {
        match SiteMatcher::from_descriptor(descriptor) {
            Ok(site) => Ok(GabExtractor { site }),
            Err(e) => Err(e),
        }
    }

    pub fn descriptor(&self) -> (r: &ExtractorDescriptor)
        ensures
            *r == self.matcher().spec_descriptor(),
    {
        self.site.descriptor()
    }

    pub fn suitable(&self, url: &str) -> (r: bool)
        ensures
            r == regex_matches(self.matcher().source(), url@),
    {
        self.site.suitable(url)
    }

    pub fn is_native(&self) -> (r: bool)
        ensures
            r,
    {
        true
    }

    pub fn native_matcher_count(&self) -> (r: usize)
        ensures
            r == 1,
    {
        1
    }
}


/// A bitrate in kbit/s as a rate in bit/s: an integer where it fits one, else `b` scaled by
/// a thousand.
pub open spec fn kilo_rate(b: int) -> Json {
    if -9223372036854775 <= b <= 9223372036854775 { Json::Int(b * 1000) } else { Json::Decimal(b, 3) }
}

/// The format that Gab variant `key` offers under `url_key`, when that holds a web address.
pub open spec fn gab_format_of(media: Json, meta: Json, key: Seq<char>, url_key: Seq<char>) -> Option<Json> {
    match json_str_at(media, url_key) {
        Some(u) => if is_http(u) {
            let fm = match json_lookup(meta, key) { Some(x) => x, None => Json::Null };
            let base = seq![
                ("url"@, Json::Str(u)),
                ("format_id"@, Json::Str(key)),
                ("ext"@, Json::Str(ext_of(u, "mp4"@))),
                ("protocol"@, Json::Str("http"@)),
            ];
            let f1 = push_opt(push_opt(base, "width"@, opt_int(json_int_at(fm, "width"@))), "height"@, opt_int(json_int_at(fm, "height"@)));
            let f2 = push_opt(f1, "tbr"@, match json_int_at(fm, "bitrate"@) { Some(b) => Some(kilo_rate(b)), None => None });
            Some(Json::Object(push_opt(push_opt(f2, "fps"@, json_num_at(fm, "fps"@)), "acodec"@, opt_str(json_str_at(fm, "audio_encode"@)))))
        } else {
            None
        },
        None => None,
    }
}

/// `gab_formats`: the original and the playable variant of a Gab attachment, those it has.
pub open spec fn gab_formats_of(media: Json, meta: Json) -> Seq<Json> {
    let a = match gab_format_of(media, meta, "original"@, "url"@) { Some(f) => seq![f], None => Seq::empty() };
    match gab_format_of(media, meta, "playable"@, "source_mp4"@) { Some(f) => a.push(f), None => a }
}

/// One Gab format, built from `media` and its variant metadata.
fn gab_format(media: &JsonValue, meta: &JsonValue, key: &str, url_key: &str) -> (r: Option<JsonValue>)
    ensures
        json_opt_view(r) == gab_format_of(media@, meta@, key@, url_key@),
{
    let u = match json_string(media, url_key) {
        Some(u) => u,
        None => return None,
    };
    if !http_address(u) {
        return None;
    }
    let null = JsonValue::Null;
    let fm = match json_get(meta, key) { Some(x) => x, None => &null };
    let mut f = obj_new();
    obj_add(&mut f, "url", jstr(u));
    obj_add(&mut f, "format_id", jstr(key));
    obj_add(&mut f, "ext", JsonValue::Str(determine_ext(u, "mp4")));
    obj_add(&mut f, "protocol", jstr("http"));
    assert(fields_view(f@) =~= seq![
        ("url"@, Json::Str(u@)),
        ("format_id"@, Json::Str(key@)),
        ("ext"@, Json::Str(ext_of(u@, "mp4"@))),
        ("protocol"@, Json::Str("http"@)),
    ]);
    obj_add_opt(&mut f, "width", opt_int_json(json_i64(fm, "width")));
    obj_add_opt(&mut f, "height", opt_int_json(json_i64(fm, "height")));
    let tbr = match json_i64(fm, "bitrate") {
        Some(b) => if -9223372036854775 <= b && b <= 9223372036854775 {
            Some(JsonValue::Int(b * 1000))
        } else {
            Some(JsonValue::Decimal(b, 3))
        },
        None => None,
    };
    obj_add_opt(&mut f, "tbr", tbr);
    obj_add_opt(&mut f, "fps", json_f64(fm, "fps"));
    obj_add_opt(&mut f, "acodec", opt_str_json(json_string(fm, "audio_encode")));
    Some(obj_done(f))
}

/// `gab_formats`: the original and the playable variant of a Gab attachment, those it has.
pub fn gab_formats(media: &JsonValue, media_meta: &JsonValue) -> (r: Vec<JsonValue>)
    ensures
        items_view(r@) == gab_formats_of(media@, media_meta@),
{
    let mut out = arr_new();
    match gab_format(media, media_meta, "original", "url") {
        Some(f) => arr_add(&mut out, f),
        None => {},
    }
    match gab_format(media, media_meta, "playable", "source_mp4") {
        Some(f) => arr_add(&mut out, f),
        None => {},
    }
    out
}

/// `gab_url`: the text of an account's address, when it is a web address.
pub open spec fn gab_url_of(v: Option<Json>) -> Option<Seq<char>> {
    match v {
        Some(x) => if is_http(value_text(x)) { Some(value_text(x)) } else { None },
        None => None,
    }
}

/// The text of an optional value (`gab_value_string`).
pub open spec fn text_of(v: Option<Json>) -> Option<Seq<char>> {
    match v {
        Some(x) => Some(value_text(x)),
        None => None,
    }
}

/// The title of every entry of a Gab post: the account's display name, else its user
/// name, else `Gab`, followed by ` on Gab`.
pub open spec fn gab_title(account: Json) -> Seq<char> {
    let name = match text_of(json_lookup(account, "display_name"@)) {
        Some(d) => d,
        None => match text_of(json_lookup(account, "username"@)) { Some(u) => u, None => "Gab"@ },
    };
    name + " on Gab"@
}

/// The metadata of attachment `index` of Gab post `post_id`, when it is a video with a
/// format.
pub open spec fn gab_entry(post_id: Seq<char>, data: Json, account: Json, media: Json, index: int) -> Option<Map<Seq<char>, Json>> {
    if json_str_at(media, "type"@) != Some("video"@) && json_str_at(media, "type"@) != Some("gifv"@) {
        None
    } else {
        let meta = match json_lookup(media, "meta"@) { Some(m) => m, None => Json::Null };
        let fs = gab_formats_of(media, meta);
        if fs.len() == 0 {
            None
        } else {
            let m0 = put_opt(Map::<Seq<char>, Json>::empty()
                .insert("id"@, Json::Str(post_id + "-"@ + nat_text(index as nat)))
                .insert("title"@, Json::Str(gab_title(account))),
                "timestamp"@, opt_int(timestamp_in(json_str_at(data, "created_at"@))))
                .insert("formats"@, Json::Array(fs));
            let m1 = put_opt(put_opt(m0, "url"@, json_lookup(fs[0], "url"@)), "ext"@, json_lookup(fs[0], "ext"@));
            let m2 = put_opt(m1, "description"@, match json_str_at(data, "content"@) { Some(c) => Some(Json::Str(text_fragment(c))), None => None });
            let m3 = put_opt(m2, "duration"@, match json_num_at(meta, "duration"@) {
                Some(d) => Some(d),
                None => match json_str_at(meta, "length"@) { Some(l) => duration_of(l), None => None },
            });
            let m4 = put_opt(put_opt(put_opt(m3, "like_count"@, opt_int(json_int_at(data, "favourites_count"@))),
                "comment_count"@, opt_int(json_int_at(data, "replies_count"@))),
                "repost_count"@, opt_int(json_int_at(data, "reblogs_count"@)));
            Some(put_opt(put_opt(put_opt(m4, "uploader"@, opt_str(text_of(json_lookup(account, "username"@)))),
                "uploader_id"@, opt_str(text_of(json_lookup(account, "id"@)))),
                "uploader_url"@, opt_str(gab_url_of(json_lookup(account, "url"@)))))
        }
    }
}

/// The entries of the first `n` attachments of a Gab post.
pub open spec fn gab_entries(post_id: Seq<char>, data: Json, account: Json, a: Seq<Json>, n: int) -> Seq<Map<Seq<char>, Json>>
    decreases n,
{
    if n <= 0 {
        Seq::empty()
    } else {
        let prev = gab_entries(post_id, data, account, a, n - 1);
        match gab_entry(post_id, data, account, a[n - 1], n - 1) {
            Some(e) => prev.push(e),
            None => prev,
        }
    }
}

/// The text of an optional value, as `json_value_string` gives it.
fn value_string(v: Option<&JsonValue>) -> (r: Option<String>)
    ensures
        str_opt_of(r) == text_of(match v { Some(x) => Some(x@), None => None }),
{
    json_value_string(v)
}


/// The metadata of one attachment, when it is a video with a format.
fn gab_entry_info(post_id: &str, data: &JsonValue, account: &JsonValue, media: &JsonValue, index: usize, title: &str) -> (r: Option<InfoDict>)
    requires
        title@ == gab_title(account@),
    ensures
        match r {
            Some(info) => info.wf() && gab_entry(post_id@, data@, account@, media@, index as int) == Some(info@),
            None => gab_entry(post_id@, data@, account@, media@, index as int) is None,
        },
{
    let is_video = match json_string(media, "type") {
        Some(t) => str_equal(t, "video") || str_equal(t, "gifv"),
        None => false,
    };
    if !is_video {
        return None;
    }
    let null = JsonValue::Null;
    let meta = match json_get(media, "meta") { Some(m) => m, None => &null };
    let formats = gab_formats(media, meta);
    if formats.len() == 0 {
        return None;
    }
    let ghost fs = items_view(formats@);
    let url = match json_get(&formats[0], "url") { Some(u) => Some(json_clone(u)), None => None };
    let ext = match json_get(&formats[0], "ext") { Some(u) => Some(json_clone(u)), None => None };
    let mut info = InfoDict::new();
    let mut id = owned(post_id);
    push_str(&mut id, "-");
    push_str(&mut id, usize_text(index).as_str());
    info.insert("id", JsonValue::Str(id));
    info.insert("title", jstr(title));
    info.insert_if_some("timestamp", match json_string(data, "created_at") {
        Some(c) => match parse_timestamp(c) { Some(t) => Some(JsonValue::Int(t)), None => None },
        None => None,
    });
    info.insert("formats", arr_done(formats));
    info.insert_if_some("url", url);
    info.insert_if_some("ext", ext);
    info.insert_if_some("description", match json_string(data, "content") {
        Some(c) => Some(JsonValue::Str(html_text_fragment(c))),
        None => None,
    });
    let duration = match json_f64(meta, "duration") {
        Some(d) => Some(d),
        None => match json_string(meta, "length") { Some(l) => parse_duration(l), None => None },
    };
    info.insert_if_some("duration", duration);
    info.insert_if_some("like_count", opt_int_json(json_i64(data, "favourites_count")));
    info.insert_if_some("comment_count", opt_int_json(json_i64(data, "replies_count")));
    info.insert_if_some("repost_count", opt_int_json(json_i64(data, "reblogs_count")));
    info.insert_if_some("uploader", match value_string(json_get(account, "username")) { Some(s) => Some(JsonValue::Str(s)), None => None });
    info.insert_if_some("uploader_id", match value_string(json_get(account, "id")) { Some(s) => Some(JsonValue::Str(s)), None => None });
    let author_url = match value_string(json_get(account, "url")) {
        Some(s) => if http_address(s.as_str()) { Some(JsonValue::Str(s)) } else { None },
        None => None,
    };
    info.insert_if_some("uploader_url", author_url);
    Some(info)
}

impl GabExtractor {
    /// One step of a Gab extraction: the status is asked of the API, then each video
    /// attachment becomes an entry; a single one stands alone.
    pub fn extract_step(&self, url: &str, replies: &Vec<Reply>) -> (r: Result<Step, ExtractorError>)
        ensures
            match regex_named_capture(self.matcher().source(), url@, "id"@) {
                Some(id) => if replies@.len() == 0 {
                    fetches(r, "https://gab.com/api/v1/statuses/"@ + id, Expect::Json)
                } else {
                    match reply_json_at(replies@, 0) {
                        Some(data) => match json_lookup(data@, "account"@) {
                            Some(account) => match json_lookup(data@, "media_attachments"@) {
                                Some(Json::Array(a)) => {
                                    let es = gab_entries(id, data@, account, a, a.len() as int);
                                    if es.len() == 0 {
                                        fails_with(r, ExtractorErrorKind::Extraction)
                                    } else if es.len() == 1 {
                                        done_with(r, es[0])
                                    } else {
                                        done_playlist(r, Map::<Seq<char>, Json>::empty().insert("id"@, Json::Str(id)), es)
                                    }
                                },
                                _ => fails_with(r, ExtractorErrorKind::Extraction),
                            },
                            None => fails_with(r, ExtractorErrorKind::Extraction),
                        },
                        None => fails_with(r, ExtractorErrorKind::Extraction),
                    }
                },
                None => fails_with(r, ExtractorErrorKind::InvalidUrl),
            },
    {
        let post_id = match self.site.capture(url, "id") {
            Some(v) => v,
            None => return Err(fail(ExtractorErrorKind::InvalidUrl, "Gab post has no ID")),
        };
        if replies.len() == 0 {
            let mut api = owned("https://gab.com/api/v1/statuses/");
            push_str(&mut api, post_id.as_str());
            return Ok(Step::Fetch(get_json(api)));
        }
        let data = reply_json(replies, 0)?;
        let account = match json_get(data, "account") {
            Some(a) => a,
            None => return Err(ExtractorError::new(ExtractorErrorKind::Extraction, concat3("Gab post ", post_id.as_str(), " has no account"))),
        };
        let mut title = match value_string(json_get(account, "display_name")) {
            Some(d) => d,
            None => match value_string(json_get(account, "username")) { Some(u) => u, None => owned("Gab") },
        };
        push_str(&mut title, " on Gab");
        let attachments = match json_get(data, "media_attachments") {
            Some(x) => match x {
                JsonValue::Array(a) => {
                    proof { lemma_array_view(*x); }
                    a
                },
                _ => return Err(ExtractorError::new(ExtractorErrorKind::Extraction, concat3("Gab post ", post_id.as_str(), " has no media attachments"))),
            },
            _ => return Err(ExtractorError::new(ExtractorErrorKind::Extraction, concat3("Gab post ", post_id.as_str(), " has no media attachments"))),
        };
        let ghost av = items_view(attachments@);
        let mut entries: Vec<InfoDict> = Vec::new();
        let mut i: usize = 0;
        while i < attachments.len()
            invariant
                i <= attachments@.len(),
                av == items_view(attachments@),
                title@ == gab_title(account@),
                json_lookup(data@, "media_attachments"@) == Some(Json::Array(av)),
                all_wf(entries@),
                dicts_view(entries@) == gab_entries(post_id@, data@, account@, av, i as int),
            decreases attachments@.len() - i,
        {
            match gab_entry_info(post_id.as_str(), data, account, &attachments[i], i, title.as_str()) {
                Some(info) => {
                    let ghost prev = dicts_view(entries@);
                    entries.push(info);
                    assert(dicts_view(entries@) =~= prev.push(info@));
                },
                None => {},
            }
            i = i + 1;
        }
        assert(dicts_view(entries@).len() == entries@.len());
        if entries.len() == 0 {
            return Err(ExtractorError::new(ExtractorErrorKind::Extraction, concat3("Gab post ", post_id.as_str(), " has no video attachments")));
        }
        if entries.len() == 1 {
            let ghost es = dicts_view(entries@);
            let e = entries.remove(0);
            assert(e@ == es[0]);
            return Ok(Step::Done(ExtractorResult::single(e)));
        }
        let mut info = InfoDict::new();
        info.insert("id", JsonValue::Str(post_id));
        Ok(Step::Done(ExtractorResult::Playlist { info, entries }))
    }
}

} // verus!
