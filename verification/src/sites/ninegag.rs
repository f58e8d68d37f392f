use vstd::prelude::*;

use crate::extract::{determine_ext, ext_of, jstr, lookup_in, opt_int, opt_int_json, opt_str, opt_str_json, put_opt, reply_json, reply_json_at, str_in, str_opt_view};
use crate::framework::{Expect, ExtractorDescriptor, ExtractorError, ExtractorErrorKind, ExtractorResult, Reply, SiteMatcher, Step, descriptor_ok, descriptor_source, done_with, fail, fails_with, fetches, get_json, descriptor_error};
use crate::html::{unescape_html, unescaped};
use crate::info::{InfoDict};
use crate::json::{Json, JsonValue, arr_add, arr_done, arr_new, fields_view, items_view, json_clone, json_get, json_i64, json_int_at, json_lookup, json_str_at, json_string, lemma_array_view, lemma_object_view, obj_add, obj_add_opt, obj_done, obj_new, push_opt, str_equal};
use crate::page::{str_opt_of};
use crate::pattern::{regex_matches, regex_named_capture};
use crate::text::{concat2, concat3, lowered, owned, strip_prefix, to_ascii_lowercase, trim, trimmed, without_prefix};
use crate::weburl::{url_scheme, url_scheme_of};

verus! {

/// Native 9GAG API extractor for animated posts.
///
/// JPG and PNG records of the post API become thumbnails, while WebM/MP4 records
/// become formats and keep their codec-specific URLs when available.
pub struct NineGagExtractor {
    site: SiteMatcher,
}

impl NineGagExtractor {
    /// The descriptor and matcher the extractor was built with.
    pub closed spec fn matcher(&self) -> SiteMatcher {
        self.site
    }

    pub fn new(descriptor: ExtractorDescriptor) -> (r: Result<Self, ExtractorError>)
        ensures
            r is Ok <==> descriptor_ok(descriptor),
            r matches Ok(x) ==> x.matcher().spec_descriptor() == descriptor
                && Some(x.matcher().source()) == descriptor_source(descriptor),
            r matches Err(e) ==> e.kind == ExtractorErrorKind::Extraction && e.message@ == descriptor_error(descriptor),
    {
        match SiteMatcher::from_descriptor(descriptor) {
            Ok(site) => Ok(NineGagExtractor { site }),
            Err(e) => Err(e),
        }
    }

    pub fn descriptor(&self) -> (r: &ExtractorDescriptor)
        ensures
            *r == self.matcher().spec_descriptor(),
    {
        self.site.descriptor()
    }

    pub fn suitable(&self, url: &str) -> (r: bool)
        ensures
            r == regex_matches(self.matcher().source(), url@),
    {
        self.site.suitable(url)
    }

    pub fn is_native(&self) -> (r: bool)
        ensures
            r,
    {
        true
    }

    pub fn native_matcher_count(&self) -> (r: usize)
        ensures
            r == 1,
    {
        1
    }
}


/// `ninegag_url`: a trimmed, non-empty web address.
pub open spec fn ng_url(v: Option<Seq<char>>) -> Option<Seq<char>> {
    match v {
        Some(s) => {
            let t = trimmed(s);
            if t.len() == 0 {
                None
            } else {
                match url_scheme_of(t) {
                    Some(sc) => if sc == "http"@ || sc == "https"@ { Some(t) } else { None },
                    None => None,
                }
            }
        },
        None => None,
    }
}

/// `ninegag_media_fields`: the address and size of a 9GAG media item.
pub open spec fn ng_fields(image: Json, u: Seq<char>) -> Seq<(Seq<char>, Json)> {
    push_opt(push_opt(seq![("url"@, Json::Str(u))], "width"@, opt_int(json_int_at(image, "width"@))),
        "height"@, opt_int(json_int_at(image, "height"@)))
}

/// The format of video codec `codec` of a 9GAG item, when the item has its address.
pub open spec fn ng_codec_format(image: Json, common: Seq<(Seq<char>, Json)>, image_id: Seq<char>, codec: Seq<char>) -> Seq<Json> {
    match ng_url(json_str_at(image, codec + "Url"@)) {
        Some(c) => seq![Json::Object(common.update(0, ("url"@, Json::Str(c)))
            .push(("format_id"@, Json::Str(image_id + "-"@ + codec)))
            .push(("vcodec"@, Json::Str(codec))))],
        None => Seq::empty(),
    }
}

/// What 9GAG media item `key` adds: thumbnails, formats, and the duration then known.
pub open spec fn ng_item(key: Seq<char>, image: Json, thumbs: Seq<Json>, formats: Seq<Json>, dur: Option<int>) -> (Seq<Json>, Seq<Json>, Option<int>) {
    match ng_url(json_str_at(image, "url"@)) {
        Some(u) => {
            let ext = lowered(ext_of(u, "mp4"@));
            let image_id = match without_prefix(key, "image"@) { Some(r) => r, None => key };
            if ext == "jpg"@ || ext == "png"@ {
                let webp = match ng_url(json_str_at(image, "webpUrl"@)) {
                    Some(w) => seq![Json::Object(ng_fields(image, w).push(("id"@, Json::Str(image_id + "-webp"@))))],
                    None => Seq::empty(),
                };
                (thumbs + webp + seq![Json::Object(ng_fields(image, u).push(("id"@, Json::Str(image_id))).push(("ext"@, Json::Str(ext))))],
                 formats, dur)
            } else if ext == "webm"@ || ext == "mp4"@ {
                let d = if dur is None || dur == Some(0int) { json_int_at(image, "duration"@) } else { dur };
                let common = if json_int_at(image, "hasAudio"@) == Some(0int) {
                    ng_fields(image, u).push(("acodec"@, Json::Str("none"@)))
                } else {
                    ng_fields(image, u)
                };
                (thumbs,
                 formats + ng_codec_format(image, common, image_id, "vp8"@) + ng_codec_format(image, common, image_id, "vp9"@)
                    + ng_codec_format(image, common, image_id, "h265"@)
                    + seq![Json::Object(common.push(("ext"@, Json::Str(ext))).push(("format_id"@, Json::Str(image_id))))],
                 d)
            } else {
                (thumbs, formats, dur)
            }
        },
        None => (thumbs, formats, dur),
    }
}

/// The thumbnails, formats and duration of the first `n` media items of a 9GAG post.
pub open spec fn ng_items(items: Seq<(Seq<char>, Json)>, n: int) -> (Seq<Json>, Seq<Json>, Option<int>)
    decreases n,
{
    if n <= 0 {
        (Seq::empty(), Seq::empty(), None)
    } else {
        let (t, f, d) = ng_items(items, n - 1);
        ng_item(items[n - 1].0, items[n - 1].1, t, f, d)
    }
}

/// The media items of a 9GAG post.
pub open spec fn ng_images(post: Json) -> Seq<(Seq<char>, Json)> {
    match json_lookup(post, "images"@) {
        Some(Json::Object(fs)) => fs,
        _ => Seq::empty(),
    }
}

/// The `key` strings of the first `n` tags.
pub open spec fn ng_tag_keys(tags: Seq<Json>, n: int) -> Seq<Json>
    decreases n,
{
    if n <= 0 {
        Seq::empty()
    } else {
        match json_str_at(tags[n - 1], "key"@) {
            Some(k) => ng_tag_keys(tags, n - 1).push(Json::Str(k)),
            None => ng_tag_keys(tags, n - 1),
        }
    }
}

/// The metadata of an animated 9GAG post.
pub open spec fn ng_info(id: Seq<char>, post: Json) -> Map<Seq<char>, Json> {
    let (thumbs, formats, dur) = ng_items(ng_images(post), ng_images(post).len() as int);
    let creator = json_lookup(post, "creator"@);
    let m0 = put_opt(put_opt(put_opt(Map::<Seq<char>, Json>::empty()
        .insert("id"@, Json::Str(id)),
        "title"@, match json_str_at(post, "title"@) { Some(t) => Some(Json::Str(unescaped(t))), None => None }),
        "timestamp"@, opt_int(json_int_at(post, "creationTs"@))),
        "duration"@, opt_int(dur));
    let m1 = put_opt(put_opt(put_opt(m0, "uploader"@, opt_str(str_in(creator, "fullName"@))),
        "uploader_id"@, opt_str(str_in(creator, "username"@))),
        "uploader_url"@, opt_str(ng_url(str_in(creator, "profileUrl"@))))
        .insert("formats"@, Json::Array(formats))
        .insert("thumbnails"@, Json::Array(thumbs));
    let m2 = put_opt(put_opt(put_opt(m1, "like_count"@, opt_int(json_int_at(post, "upVoteCount"@))),
        "dislike_count"@, opt_int(json_int_at(post, "downVoteCount"@))),
        "comment_count"@, opt_int(json_int_at(post, "commentsCount"@)));
    let m3 = if json_int_at(post, "nsfw"@) == Some(1int) { m2.insert("age_limit"@, Json::Int(18)) } else { m2 };
    let m4 = put_opt(m3, "categories"@, match str_in(json_lookup(post, "postSection"@), "name"@) {
        Some(n) => if n.len() > 0 { Some(Json::Array(seq![Json::Str(n)])) } else { None },
        None => None,
    });
    put_opt(m4, "tags"@, match json_lookup(post, "tags"@) {
        Some(Json::Array(ts)) => if ts.len() > 0 { Some(Json::Array(ng_tag_keys(ts, ts.len() as int))) } else { None },
        _ => None,
    })
}

/// `ninegag_url`: a trimmed, non-empty web address.
fn ninegag_url(value: Option<&str>) -> (r: Option<String>)
    ensures
        str_opt_of(r) == ng_url(str_opt_view(value)),
{
    let v = match value {
        Some(v) => trim(v),
        None => return None,
    };
    if v.unicode_len() == 0 {
        return None;
    }
    match url_scheme(v.as_str()) {
        Some(sc) => if str_equal(sc.as_str(), "http") || str_equal(sc.as_str(), "https") { Some(v) } else { None },
        None => None,
    }
}

/// `ninegag_media_fields`: the address and size of a media item.
fn ninegag_media_fields(image: &JsonValue, media_url: String) -> (r: Vec<(String, JsonValue)>)
    ensures
        fields_view(r@) == ng_fields(image@, media_url@),
{
    let mut f = obj_new();
    let ghost u = media_url@;
    obj_add(&mut f, "url", JsonValue::Str(media_url));
    assert(fields_view(f@) =~= seq![("url"@, Json::Str(u))]);
    obj_add_opt(&mut f, "width", opt_int_json(json_i64(image, "width")));
    obj_add_opt(&mut f, "height", opt_int_json(json_i64(image, "height")));
    f
}

/// A copy of an object's members.
fn fields_clone(f: &Vec<(String, JsonValue)>) -> (r: Vec<(String, JsonValue)>)
    ensures
        fields_view(r@) == fields_view(f@),
{
    let mut out = obj_new();
    let mut i: usize = 0;
    while i < f.len()
        invariant
            i <= f@.len(),
            fields_view(out@) == fields_view(f@).subrange(0, i as int),
        decreases f@.len() - i,
    {
        let ghost before = fields_view(out@);
        obj_add(&mut out, f[i].0.as_str(), json_clone(&f[i].1));
        assert(fields_view(f@).subrange(0, i + 1) =~= before.push(fields_view(f@)[i as int]));
        i = i + 1;
    }
    assert(fields_view(f@).subrange(0, f@.len() as int) =~= fields_view(f@));
    out
}

/// Adds the format of video codec `codec` of a media item, when the item has its address.
fn add_codec_format(formats: &mut Vec<JsonValue>, image: &JsonValue, common: &Vec<(String, JsonValue)>, image_id: &str, codec: &str)
    requires
        common@.len() > 0,
        fields_view(common@)[0].0 == "url"@,
    ensures
        items_view(final(formats)@) == items_view(old(formats)@) + ng_codec_format(image@, fields_view(common@), image_id@, codec@),
{
    let key = concat2(codec, "Url");
    match ninegag_url(json_string(image, key.as_str())) {
        Some(c) => {
            let mut f = fields_clone(common);
            let ghost cv = c@;
            assert(fields_view(f@).len() == f@.len() && fields_view(common@).len() == common@.len());
            f.set(0, (owned("url"), JsonValue::Str(c)));
            assert(fields_view(f@) =~= fields_view(common@).update(0, ("url"@, Json::Str(cv))));
            obj_add(&mut f, "format_id", JsonValue::Str(concat3(image_id, "-", codec)));
            obj_add(&mut f, "vcodec", jstr(codec));
            let ghost before = items_view(formats@);
            let fj = obj_done(f);
            arr_add(formats, fj);
            assert(items_view(formats@) =~= before + seq![fj@]);
        },
        None => {
            assert(items_view(formats@) =~= items_view(formats@) + Seq::<Json>::empty());
        },
    }
}

/// Takes in media item `key` of a 9GAG post.
fn ninegag_item(key: &str, image: &JsonValue, thumbs: &mut Vec<JsonValue>, formats: &mut Vec<JsonValue>, duration: &mut Option<i64>)
    ensures
        (items_view(final(thumbs)@), items_view(final(formats)@), match *final(duration) { Some(d) => Some(d as int), None => None })
            == ng_item(key@, image@, items_view(old(thumbs)@), items_view(old(formats)@),
                match *old(duration) { Some(d) => Some(d as int), None => None }),
{
    let u = match ninegag_url(json_string(image, "url")) {
        Some(u) => u,
        None => return,
    };
    let ext = to_ascii_lowercase(determine_ext(u.as_str(), "mp4").as_str());
    let image_id = match strip_prefix(key, "image") { Some(r) => r, None => owned(key) };
    if str_equal(ext.as_str(), "jpg") || str_equal(ext.as_str(), "png") {
        let ghost t0 = items_view(thumbs@);
        match ninegag_url(json_string(image, "webpUrl")) {
            Some(w) => {
                let mut t = ninegag_media_fields(image, w);
                obj_add(&mut t, "id", JsonValue::Str(concat2(image_id.as_str(), "-webp")));
                arr_add(thumbs, obj_done(t));
            },
            None => {},
        }
        let ghost t1 = items_view(thumbs@);
        let mut t = ninegag_media_fields(image, u);
        obj_add(&mut t, "id", JsonValue::Str(image_id));
        obj_add(&mut t, "ext", JsonValue::Str(ext));
        let tj = obj_done(t);
        arr_add(thumbs, tj);
        proof {
            let webp = match ng_url(json_str_at(image@, "webpUrl"@)) {
                Some(w) => seq![Json::Object(ng_fields(image@, w).push(("id"@, Json::Str(image_id@ + "-webp"@))))],
                None => Seq::<Json>::empty(),
            };
            assert(t1 =~= t0 + webp);
            assert(items_view(thumbs@) =~= t0 + webp + seq![tj@]);
        }
    } else if str_equal(ext.as_str(), "webm") || str_equal(ext.as_str(), "mp4") {
        let unset = match *duration { Some(d) => d == 0, None => true };
        if unset {
            *duration = json_i64(image, "duration");
        }
        let ghost uv = u@;
        let mut common = ninegag_media_fields(image, u);
        if json_i64(image, "hasAudio") == Some(0i64) {
            obj_add(&mut common, "acodec", jstr("none"));
        }
        proof {
            let f0 = seq![("url"@, Json::Str(uv))];
            let f1 = push_opt(f0, "width"@, opt_int(json_int_at(image@, "width"@)));
            let f2 = push_opt(f1, "height"@, opt_int(json_int_at(image@, "height"@)));
            assert(f1.len() >= 1 && f1[0] == f0[0]);
            assert(f2.len() >= 1 && f2[0] == f0[0]);
            assert(fields_view(common@).len() == common@.len());
            assert(fields_view(common@)[0] == f0[0]);
        }
        let ghost f0 = items_view(formats@);
        add_codec_format(formats, image, &common, image_id.as_str(), "vp8");
        add_codec_format(formats, image, &common, image_id.as_str(), "vp9");
        add_codec_format(formats, image, &common, image_id.as_str(), "h265");
        let ghost f1 = items_view(formats@);
        obj_add(&mut common, "ext", JsonValue::Str(ext));
        obj_add(&mut common, "format_id", JsonValue::Str(image_id));
        let cj = obj_done(common);
        arr_add(formats, cj);
        assert(items_view(formats@) =~= f1 + seq![cj@]);
    }
}

impl NineGagExtractor {
    /// One step of a 9GAG extraction: the post is asked of the API, and an animated post's
    /// media items become its formats and thumbnails.
    pub fn extract_step(&self, url: &str, replies: &Vec<Reply>) -> (r: Result<Step, ExtractorError>)
        ensures
            match regex_named_capture(self.matcher().source(), url@, "id"@) {
                Some(id) => if replies@.len() == 0 {
                    fetches(r, "https://9gag.com/v1/post?id="@ + id, Expect::Json)
                } else {
                    match reply_json_at(replies@, 0) {
                        Some(resp) => match lookup_in(json_lookup(resp@, "data"@), "post"@) {
                            Some(post) => if json_str_at(post, "type"@) == Some("Animated"@) {
                                done_with(r, ng_info(id, post))
                            } else {
                                fails_with(r, ExtractorErrorKind::Unsupported)
                            },
                            None => fails_with(r, ExtractorErrorKind::Extraction),
                        },
                        None => fails_with(r, ExtractorErrorKind::Extraction),
                    }
                },
                None => fails_with(r, ExtractorErrorKind::InvalidUrl),
            },
    {
        let post_id = match self.site.capture(url, "id") {
            Some(v) => v,
            None => return Err(fail(ExtractorErrorKind::InvalidUrl, "9GAG URL has no post ID")),
        };
        if replies.len() == 0 {
            return Ok(Step::Fetch(get_json(concat2("https://9gag.com/v1/post?id=", post_id.as_str()))));
        }
        let resp = reply_json(replies, 0)?;
        let post = match json_get(resp, "data") {
            Some(d) => match json_get(d, "post") {
                Some(p) => p,
                None => return Err(ExtractorError::new(ExtractorErrorKind::Extraction, concat3("9GAG post ", post_id.as_str(), " is missing from the API response"))),
            },
            None => return Err(ExtractorError::new(ExtractorErrorKind::Extraction, concat3("9GAG post ", post_id.as_str(), " is missing from the API response"))),
        };
        let is_animated = match json_string(post, "type") { Some(t) => str_equal(t, "Animated"), None => false };
        if !is_animated {
            return Err(ExtractorError::new(ExtractorErrorKind::Unsupported, concat3("9GAG post ", post_id.as_str(), " does not contain an animated video")));
        }
        let mut duration: Option<i64> = None;
        let mut formats: Vec<JsonValue> = Vec::new();
        let mut thumbs: Vec<JsonValue> = Vec::new();
        let empty: Vec<(String, JsonValue)> = Vec::new();
        let images: &Vec<(String, JsonValue)> = match json_get(post, "images") {
            Some(x) => match x {
                JsonValue::Object(fs) => {
                    proof { lemma_object_view(*x); }
                    fs
                },
                _ => &empty,
            },
            None => &empty,
        };
        let ghost iv = fields_view(images@);
        assert(iv == ng_images(post@));
        let mut i: usize = 0;
        assert(items_view(thumbs@) =~= Seq::<Json>::empty());
        assert(items_view(formats@) =~= Seq::<Json>::empty());
        while i < images.len()
            invariant
                i <= images@.len(),
                iv == fields_view(images@),
                (items_view(thumbs@), items_view(formats@), match duration { Some(d) => Some(d as int), None => None })
                    == ng_items(iv, i as int),
            decreases images@.len() - i,
        {
            ninegag_item(images[i].0.as_str(), &images[i].1, &mut thumbs, &mut formats, &mut duration);
            i = i + 1;
        }
        let creator = json_get(post, "creator");
        let mut info = InfoDict::new();
        info.insert("id", JsonValue::Str(post_id));
        info.insert_if_some("title", match json_string(post, "title") { Some(t) => Some(JsonValue::Str(unescape_html(t))), None => None });
        info.insert_if_some("timestamp", opt_int_json(json_i64(post, "creationTs")));
        info.insert_if_some("duration", opt_int_json(duration));
        info.insert_if_some("uploader", match creator { Some(c) => opt_str_json(json_string(c, "fullName")), None => None });
        info.insert_if_some("uploader_id", match creator { Some(c) => opt_str_json(json_string(c, "username")), None => None });
        info.insert_if_some("uploader_url", match creator {
            Some(c) => match ninegag_url(json_string(c, "profileUrl")) { Some(u) => Some(JsonValue::Str(u)), None => None },
            None => None,
        });
        info.insert("formats", arr_done(formats));
        info.insert("thumbnails", arr_done(thumbs));
        info.insert_if_some("like_count", opt_int_json(json_i64(post, "upVoteCount")));
        info.insert_if_some("dislike_count", opt_int_json(json_i64(post, "downVoteCount")));
        info.insert_if_some("comment_count", opt_int_json(json_i64(post, "commentsCount")));
        if json_i64(post, "nsfw") == Some(1i64) {
            info.insert("age_limit", JsonValue::Int(18));
        }
        let categories = match json_get(post, "postSection") {
            Some(s) => match json_string(s, "name") {
                Some(n) => if n.unicode_len() > 0 {
                    let mut a = arr_new();
                    arr_add(&mut a, jstr(n));
                    let v = arr_done(a);
                    assert(v@ =~= Json::Array(seq![Json::Str(n@)]));
                    Some(v)
                } else { None },
                None => None,
            },
            None => None,
        };
        info.insert_if_some("categories", categories);
        let tags = match json_get(post, "tags") {
            Some(x) => match x {
                JsonValue::Array(ts) => {
                    proof { lemma_array_view(*x); }
                    if ts.len() > 0 {
                        let ghost tv = items_view(ts@);
                        let mut keys = arr_new();
                        let mut k: usize = 0;
                        while k < ts.len()
                            invariant
                                k <= ts@.len(),
                                tv == items_view(ts@),
                                items_view(keys@) == ng_tag_keys(tv, k as int),
                            decreases ts@.len() - k,
                        {
                            match json_string(&ts[k], "key") {
                                Some(s) => arr_add(&mut keys, jstr(s)),
                                None => {},
                            }
                            k = k + 1;
                        }
                        Some(arr_done(keys))
                    } else {
                        None
                    }
                },
                _ => None,
            },
            None => None,
        };
        info.insert_if_some("tags", tags);
        Ok(Step::Done(ExtractorResult::single(info)))
    }
}

} // verus!
