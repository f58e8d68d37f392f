use vstd::prelude::*;

use crate::extract::{before_first, determine_ext, ext_of, first_str, int_or_null, json_f64, json_num_at, jstr, opt_int, opt_int_json, opt_str, opt_str_json, or_null, proto_relative, proto_relative_url, put_opt, reply_json, reply_json_at, str_opt_view, timestamp_in};
use crate::framework::{ExtractorDescriptor, ExtractorError, ExtractorErrorKind, ExtractorResult, Fetch, Reply, SiteMatcher, Step, SubStep, all_wf, descriptor_ok, descriptor_source, dicts_view, done_playlist, done_with, fail, fails_with, get_json_accepting, get_text_optional, is_accepting_get, is_optional_text_get, descriptor_error};
use crate::info::{InfoDict};
use crate::json::{Json, JsonValue, arr_add, arr_done, arr_new, items_view, json_bool, json_bool_at, json_get, json_i64, json_int_at, json_lookup, json_str_at, json_string, lemma_array_view, obj_add, obj_done, obj_new, str_equal};
use crate::jsontext::{json_value_string, value_text};
use crate::media_types::{before_char, mime_ext, mimetype_extension};
use crate::number::{parse_int, parsed_int};
use crate::page::{element_by_class_pattern, html_element_by_class, html_meta_value, meta_value};
use crate::pattern::{all_groups_view, capture_group, first_group, group_at, groups_view, regex_all_captures, regex_captures_iter, regex_matches, regex_named_capture};
use crate::text::{chars_of, concat3, concat4, contains, has_infix, owned, push_str, string_of, trim, trimmed};
use crate::timestamp::{parse_timestamp};

verus! {

/// Native Imgur animated-media extractor. Imgur's post API contains direct
/// media URLs and account metadata; the optional GIFV page contributes
/// additional source variants and Open Graph fields.
pub struct ImgurExtractor {
    site: SiteMatcher,
}

impl ImgurExtractor {
    /// The descriptor and matcher the extractor was built with.
    pub closed spec fn matcher(&self) -> SiteMatcher {
        self.site
    }

    pub fn new(descriptor: ExtractorDescriptor) -> (r: Result<Self, ExtractorError>)
        ensures
            r is Ok <==> descriptor_ok(descriptor),
            r matches Ok(x) ==> x.matcher().spec_descriptor() == descriptor
                && Some(x.matcher().source()) == descriptor_source(descriptor),
            r matches Err(e) ==> e.kind == ExtractorErrorKind::Extraction && e.message@ == descriptor_error(descriptor),
    {
        match SiteMatcher::from_descriptor(descriptor) {
            Ok(site) => Ok(ImgurExtractor { site }),
            Err(e) => Err(e),
        }
    }

    pub fn descriptor(&self) -> (r: &ExtractorDescriptor)
        ensures
            *r == self.matcher().spec_descriptor(),
    {
        self.site.descriptor()
    }

    pub fn suitable(&self, url: &str) -> (r: bool)
        ensures
            r == regex_matches(self.matcher().source(), url@),
    {
        self.site.suitable(url)
    }

    pub fn is_native(&self) -> (r: bool)
        ensures
            r,
    {
        true
    }

    pub fn native_matcher_count(&self) -> (r: usize)
        ensures
            r == 1,
    {
        1
    }
}

/// Native Imgur gallery and album extractor. Playable animated media is
/// expanded eagerly into full metadata entries.
pub struct ImgurGalleryExtractor {
    site: SiteMatcher,
    gallery_mode: bool,
}

impl ImgurGalleryExtractor {
    /// The descriptor and matcher the extractor was built with.
    pub closed spec fn matcher(&self) -> SiteMatcher {
        self.site
    }

    /// Whether a one-medium album is taken as that medium alone.
    pub closed spec fn spec_gallery_mode(&self) -> bool {
        self.gallery_mode
    }

    pub fn new(descriptor: ExtractorDescriptor, gallery_mode: bool) -> (r: Result<Self, ExtractorError>)
        ensures
            r is Ok <==> descriptor_ok(descriptor),
            r matches Ok(x) ==> x.matcher().spec_descriptor() == descriptor
                && Some(x.matcher().source()) == descriptor_source(descriptor)
                && x.spec_gallery_mode() == gallery_mode,
            r matches Err(e) ==> e.kind == ExtractorErrorKind::Extraction && e.message@ == descriptor_error(descriptor),
    {
        match SiteMatcher::from_descriptor(descriptor) {
            Ok(site) => Ok(ImgurGalleryExtractor { site, gallery_mode }),
            Err(e) => Err(e),
        }
    }

    pub fn descriptor(&self) -> (r: &ExtractorDescriptor)
        ensures
            *r == self.matcher().spec_descriptor(),
    {
        self.site.descriptor()
    }

    pub fn suitable(&self, url: &str) -> (r: bool)
        ensures
            r == regex_matches(self.matcher().source(), url@),
    {
        self.site.suitable(url)
    }

    pub fn is_native(&self) -> (r: bool)
        ensures
            r,
    {
        true
    }

    pub fn native_matcher_count(&self) -> (r: usize)
        ensures
            r == 1,
    {
        1
    }
}

/// The post API address of an Imgur item.
pub open spec fn imgur_api_url(endpoint: Seq<char>, id: Seq<char>) -> Seq<char> {
    "https://api.imgur.com/post/v1/"@ + endpoint + "/"@ + id + "?client_id=546c25a59c58ad7&include=media,account"@
}

/// The GIFV page of an Imgur medium.
pub open spec fn imgur_gifv_url(id: Seq<char>) -> Seq<char> {
    "https://i.imgur.com/"@ + id + ".gifv"@
}

/// The marker of Imgur's generic description.
pub open spec fn imgur_generic_marker() -> Seq<char> {
    "Discover the magic of the internet at Imgur"@
}

/// A description that is not Imgur's generic one, trimmed, when it is not blank.
pub open spec fn imgur_clean(v: Option<Seq<char>>) -> Option<Seq<char>> {
    match v {
        Some(t) => if has_infix(t, imgur_generic_marker()) || trimmed(t).len() == 0 { None } else { Some(trimmed(t)) },
        None => None,
    }
}

/// `imgur_clean_description`: a description that is not Imgur's generic one, trimmed,
/// when it is not blank.
pub fn imgur_clean_description(value: Option<&str>) -> (r: Option<String>)
    ensures
        match r {
            Some(s) => imgur_clean(str_opt_view(value)) == Some(s@),
            None => imgur_clean(str_opt_view(value)) is None,
        },
{
    match value {
        Some(t) => {
            if contains(t, "Discover the magic of the internet at Imgur") {
                return None;
            }
            let tr = trim(t);
            if tr.unicode_len() == 0 { None } else { Some(tr) }
        },
        None => None,
    }
}

/// The boolean member `key` of an optional value.
pub open spec fn bool_in(v: Option<Json>, key: Seq<char>) -> Option<bool> {
    match v {
        Some(x) => json_bool_at(x, key),
        None => None,
    }
}

/// Whether an Imgur media record is a video or an animation.
pub open spec fn imgur_playable(media: Json) -> bool {
    json_str_at(media, "type"@) == Some("video"@) || bool_in(json_lookup(media, "metadata"@), "is_animated"@) == Some(true)
}

/// The first media record of an Imgur API answer.
pub open spec fn imgur_media_record(data: Json) -> Option<Json> {
    match json_lookup(data, "media"@) {
        Some(Json::Array(a)) => if a.len() > 0 { Some(a[0]) } else { None },
        _ => None,
    }
}

/// The part of `s` after its first `c`, when it has one.
pub open spec fn after_first(s: Seq<char>, c: char) -> Option<Seq<char>>
    decreases s.len(),
{
    if s.len() == 0 {
        None
    } else if s[0] == c {
        Some(s.drop_first())
    } else {
        after_first(s.drop_first(), c)
    }
}

/// The second `/`-separated part of a media type, `source` when there is none.
pub open spec fn mime_subtype_id(m: Seq<char>) -> Seq<char> {
    match after_first(m, '/') {
        Some(rest) => before_first(rest, '/'),
        None => "source"@,
    }
}

/// The original-file format of an Imgur media record.
pub open spec fn imgur_media_format(media: Json, mu: Seq<char>) -> (Seq<char>, Json) {
    let metadata = or_null(json_lookup(media, "metadata"@));
    let api_ext = match json_str_at(media, "ext"@) {
        Some(e) => e,
        None => match json_str_at(media, "mime_type"@) {
            Some(m) => match mime_ext(m) {
                Some(e) => e,
                None => ext_of(mu, "mp4"@),
            },
            None => ext_of(mu, "mp4"@),
        },
    };
    let silent = json_bool_at(metadata, "has_sound"@) == Some(false);
    let image = json_str_at(media, "type"@) == Some("image"@);
    let f0 = Seq::<(Seq<char>, Json)>::empty()
        .push(("url"@, Json::Str(mu)))
        .push(("format_id"@, Json::Str("original"@)))
        .push(("ext"@, Json::Str(api_ext)))
        .push(("width"@, int_or_null(json_int_at(media, "width"@))))
        .push(("height"@, int_or_null(json_int_at(media, "height"@))))
        .push(("filesize"@, int_or_null(json_int_at(media, "size"@))));
    let f1 = if silent || image { f0.push(("acodec"@, Json::Str("none"@))) } else { f0 };
    let f2 = if image { f1.push(("preference"@, Json::Int(-10))) } else { f1 };
    (api_ext, Json::Object(f2))
}

/// A page's `<meta>` value read as an integer.
pub open spec fn meta_int(page: Seq<char>, key: Seq<char>) -> Option<int> {
    match meta_value(page, key) {
        Some(v) => parsed_int(v),
        None => None,
    }
}

/// The pattern of a `<source>` element of a GIFV page.
pub open spec fn imgur_source_pattern() -> Seq<char> {
    "(?is)<source\\s+src=[\"']([^\"']+)[\"']\\s+type=[\"']([^\"']+)[\"']"@
}

/// The formats of the first `n` `<source>` elements of a GIFV page.
pub open spec fn imgur_source_formats(page: Seq<char>, all: Seq<Seq<Option<Seq<char>>>>, n: int) -> Seq<Json>
    decreases n,
{
    if n <= 0 {
        Seq::empty()
    } else {
        let prev = imgur_source_formats(page, all, n - 1);
        match (group_at(all[n - 1], 1), group_at(all[n - 1], 2)) {
            (Some(src), Some(mt)) => {
                let su = proto_relative(src, "https:"@);
                let ext = match mime_ext(mt) {
                    Some(e) => e,
                    None => ext_of(su, "mp4"@),
                };
                prev.push(Json::Object(Seq::empty()
                    .push(("url"@, Json::Str(su)))
                    .push(("format_id"@, Json::Str(mime_subtype_id(mt))))
                    .push(("ext"@, Json::Str(ext)))
                    .push(("width"@, int_or_null(meta_int(page, "video:width"@))))
                    .push(("height"@, int_or_null(meta_int(page, "video:height"@))))))
            },
            _ => prev,
        }
    }
}

/// The formats of a GIFV page: its video sources, then its Twitter player stream.
pub open spec fn imgur_page_formats(page: Seq<char>) -> Seq<Json> {
    let sources = match first_group(element_by_class_pattern("video-elements"@), page, 2) {
        Some(ve) => {
            let all = regex_all_captures(imgur_source_pattern(), ve);
            imgur_source_formats(page, all, all.len() as int)
        },
        None => Seq::empty(),
    };
    match meta_value(page, "twitter:player:stream"@) {
        Some(tu) => {
            let ext = match meta_value(page, "twitter:player:stream:content_type"@) {
                Some(ct) => match mime_ext(ct) {
                    Some(e) => e,
                    None => ext_of(tu, "mp4"@),
                },
                None => ext_of(tu, "mp4"@),
            };
            sources.push(Json::Object(Seq::empty()
                .push(("url"@, Json::Str(tu)))
                .push(("format_id"@, Json::Str("twitter"@)))
                .push(("ext"@, Json::Str(ext)))
                .push(("width"@, int_or_null(meta_int(page, "twitter:width"@))))
                .push(("height"@, int_or_null(meta_int(page, "twitter:height"@))))))
        },
        None => sources,
    }
}

/// The `Accept: */*` header object.
pub open spec fn accept_any() -> Json {
    Json::Object(Seq::empty().push(("Accept"@, Json::Str("*/*"@))))
}

/// `m` with the account, counts, times and duration of an Imgur medium set.
pub open spec fn imgur_details(m: Map<Seq<char>, Json>, data: Json, media: Json) -> Map<Seq<char>, Json> {
    let metadata = or_null(json_lookup(media, "metadata"@));
    let account = or_null(json_lookup(data, "account"@));
    let m1 = put_opt(m, "uploader_id"@, opt_str(match json_lookup(data, "account_id"@) {
        Some(a) => Some(value_text(a)),
        None => None,
    }));
    let m2 = put_opt(m1, "uploader"@, opt_str(json_str_at(account, "username"@)));
    let m3 = put_opt(m2, "uploader_url"@, opt_str(json_str_at(account, "avatar_url"@)));
    let m4 = put_opt(m3, "like_count"@, opt_int(json_int_at(data, "upvote_count"@)));
    let m5 = put_opt(m4, "dislike_count"@, opt_int(json_int_at(data, "downvote_count"@)));
    let m6 = put_opt(m5, "comment_count"@, opt_int(json_int_at(data, "comment_count"@)));
    let m7 = put_opt(m6, "age_limit"@, if json_bool_at(data, "is_mature"@) == Some(true) { Some(Json::Int(18)) } else { None });
    let m8 = put_opt(m7, "timestamp"@, opt_int(timestamp_in(first_str(json_str_at(metadata, "updated_at"@),
        first_str(json_str_at(metadata, "created_at"@), first_str(json_str_at(data, "updated_at"@), json_str_at(data, "created_at"@)))))));
    let m9 = put_opt(m8, "release_timestamp"@, opt_int(timestamp_in(first_str(json_str_at(metadata, "created_at"@), json_str_at(data, "created_at"@)))));
    put_opt(m9, "duration"@, match json_num_at(metadata, "duration"@) {
        Some(d) => Some(d),
        None => json_num_at(media, "duration"@),
    })
}

/// The metadata of Imgur medium `id` from its API answer, its media record, its address
/// and its GIFV page (empty when that could not be fetched).
pub open spec fn imgur_info(id: Seq<char>, page_url: Seq<char>, data: Json, media: Json, mu: Seq<char>, page: Seq<char>) -> Map<Seq<char>, Json> {
    let metadata = or_null(json_lookup(media, "metadata"@));
    let (api_ext, mf) = imgur_media_format(media, mu);
    let formats = seq![mf] + imgur_page_formats(page);
    let title = match json_str_at(metadata, "title"@) {
        Some(t) => if trimmed(t).len() > 0 { trimmed(t) } else {
            match meta_value(page, "og:title"@) { Some(o) => o, None => id }
        },
        None => match meta_value(page, "og:title"@) { Some(o) => o, None => id },
    };
    let description = match imgur_clean(json_str_at(metadata, "description"@)) {
        Some(d) => Some(d),
        None => imgur_clean(meta_value(page, "og:description"@)),
    };
    let thumbnail = match meta_value(page, "thumbnailUrl"@) {
        Some(t) => t,
        None => match meta_value(page, "twitter:image"@) {
            Some(t) => t,
            None => match meta_value(page, "og:image"@) {
                Some(t) => t,
                None => "https://i.imgur.com/"@ + id + "h.jpg"@,
            },
        },
    };
    let m0 = Map::<Seq<char>, Json>::empty()
        .insert("id"@, Json::Str(id))
        .insert("title"@, Json::Str(title))
        .insert("url"@, Json::Str(mu))
        .insert("ext"@, Json::Str(api_ext))
        .insert("formats"@, Json::Array(formats));
    let m1 = put_opt(m0, "description"@, opt_str(description));
    imgur_details(m1, data, media)
        .insert("thumbnails"@, Json::Array(seq![Json::Object(Seq::empty()
            .push(("url"@, Json::Str(thumbnail)))
            .push(("http_headers"@, accept_any())))]))
        .insert("http_headers"@, accept_any())
        .insert("webpage_url"@, Json::Str(page_url))
}

/// Where the extraction of one Imgur medium stands.
pub enum MediaOutcome {
    /// The API answer is needed, from this address.
    NeedApi(Seq<char>),
    /// The GIFV page is needed, from this address; its failure is no error.
    NeedPage(Seq<char>),
    Failed(ExtractorErrorKind),
    Got(Map<Seq<char>, Json>),
}

/// Where the extraction of Imgur medium `id` stands when its answers start at `replies[at]`.
pub open spec fn imgur_media_outcome(id: Seq<char>, page_url: Seq<char>, replies: Seq<Reply>, at: int) -> MediaOutcome {
    if replies.len() <= at {
        MediaOutcome::NeedApi(imgur_api_url("media"@, id))
    } else {
        match reply_json_at(replies, at) {
            Some(data) => match imgur_media_record(data@) {
                Some(media) => if !imgur_playable(media) {
                    MediaOutcome::Failed(ExtractorErrorKind::Unsupported)
                } else {
                    match json_str_at(media, "url"@) {
                        Some(mu) => if replies.len() <= at + 1 {
                            MediaOutcome::NeedPage(imgur_gifv_url(id))
                        } else {
                            let page = match replies[at + 1] {
                                Reply::Text(t) => t@,
                                _ => Seq::empty(),
                            };
                            MediaOutcome::Got(imgur_info(id, page_url, data@, media, mu, page))
                        },
                        None => MediaOutcome::Failed(ExtractorErrorKind::Extraction),
                    }
                },
                None => MediaOutcome::Failed(ExtractorErrorKind::Extraction),
            },
            None => MediaOutcome::Failed(ExtractorErrorKind::Extraction),
        }
    }
}

/// Whether a sub-step result is the one an outcome calls for.
pub open spec fn media_step_is(r: Result<SubStep, ExtractorError>, o: MediaOutcome) -> bool {
    match o {
        MediaOutcome::NeedApi(u) => r matches Ok(SubStep::Need(f)) && is_accepting_get(f, u, "application/json"@),
        MediaOutcome::NeedPage(u) => r matches Ok(SubStep::Need(f)) && is_optional_text_get(f, u),
        MediaOutcome::Failed(k) => fails_with(r, k),
        MediaOutcome::Got(m) => r matches Ok(SubStep::Got(info)) && info.wf() && info@ == m,
    }
}

/// The part of `s` after its first `c`, when it has one.
pub fn after_first_char(s: &str, c: char) -> (r: Option<String>)
    ensures
        match r {
            Some(t) => after_first(s@, c) == Some(t@),
            None => after_first(s@, c) is None,
        },
{
    let cs = chars_of(s);
    let ghost sv = cs@;
    let mut i: usize = 0;
    assert(sv.subrange(0, sv.len() as int) =~= sv);
    while i < cs.len()
        invariant
            i <= cs@.len(),
            sv == cs@,
            sv == s@,
            after_first(sv, c) == after_first(sv.subrange(i as int, sv.len() as int), c),
        decreases cs@.len() - i,
    {
        let ghost rest = sv.subrange(i as int, sv.len() as int);
        assert(rest.drop_first() =~= sv.subrange(i + 1, sv.len() as int));
        if cs[i] == c {
            assert(after_first(sv, c) == Some(sv.subrange(i + 1, sv.len() as int)));
            let mut out: Vec<char> = Vec::new();
            let mut j: usize = i + 1;
            while j < cs.len()
                invariant
                    i < j <= cs@.len(),
                    sv == cs@,
                    sv == s@,
                    after_first(sv, c) == Some(sv.subrange(i + 1, sv.len() as int)),
                    out@ =~= cs@.subrange(i + 1, j as int),
                decreases cs@.len() - j,
            {
                out.push(cs[j]);
                j = j + 1;
            }
            return Some(string_of(out.as_slice()));
        }
        i = i + 1;
    }
    None
}

fn mime_subtype_id_of(m: &str) -> (r: String)
    ensures
        r@ == mime_subtype_id(m@),
{
    match after_first_char(m, '/') {
        Some(rest) => before_char(rest.as_str(), '/'),
        None => owned("source"),
    }
}

fn meta_int_of(page: &str, key: &str) -> (r: JsonValue)
    ensures
        r@ == int_or_null(meta_int(page@, key@)),
{
    match html_meta_value(page, key) {
        Some(v) => match parse_int(v.as_str()) {
            Some(i) => JsonValue::Int(i),
            None => JsonValue::Null,
        },
        None => JsonValue::Null,
    }
}

fn int_or_null_of(i: Option<i64>) -> (r: JsonValue)
    ensures
        r@ == int_or_null(match i { Some(v) => Some(v as int), None => None }),
{
    match i {
        Some(v) => JsonValue::Int(v),
        None => JsonValue::Null,
    }
}

fn imgur_media_format_of(media: &JsonValue, mu: &str) -> (r: (String, JsonValue))
    ensures
        imgur_media_format(media@, mu@) == (r.0@, r.1@),
{
    let null = JsonValue::Null;
    let metadata = match json_get(media, "metadata") {
        Some(m) => m,
        None => &null,
    };
    let api_ext = match json_string(media, "ext") {
        Some(e) => owned(e),
        None => match json_string(media, "mime_type") {
            Some(m) => match mimetype_extension(m) {
                Some(e) => e,
                None => determine_ext(mu, "mp4"),
            },
            None => determine_ext(mu, "mp4"),
        },
    };
    let silent = match json_bool(metadata, "has_sound") {
        Some(b) => !b,
        None => false,
    };
    let image = match json_string(media, "type") {
        Some(t) => str_equal(t, "image"),
        None => false,
    };
    let mut f = obj_new();
    obj_add(&mut f, "url", jstr(mu));
    obj_add(&mut f, "format_id", jstr("original"));
    obj_add(&mut f, "ext", JsonValue::Str(api_ext.clone()));
    obj_add(&mut f, "width", int_or_null_of(json_i64(media, "width")));
    obj_add(&mut f, "height", int_or_null_of(json_i64(media, "height")));
    obj_add(&mut f, "filesize", int_or_null_of(json_i64(media, "size")));
    if silent || image {
        obj_add(&mut f, "acodec", jstr("none"));
    }
    if image {
        obj_add(&mut f, "preference", JsonValue::Int(-10));
    }
    (api_ext, obj_done(f))
}

fn imgur_source_formats_of(page: &str, ve: &str) -> (r: Vec<JsonValue>)
    ensures
        items_view(r@) == imgur_source_formats(page@, regex_all_captures(imgur_source_pattern(), ve@),
            regex_all_captures(imgur_source_pattern(), ve@).len() as int),
{
    let all = regex_captures_iter("(?is)<source\\s+src=[\"']([^\"']+)[\"']\\s+type=[\"']([^\"']+)[\"']", ve);
    let ghost av = all_groups_view(all@);
    let mut out: Vec<JsonValue> = Vec::new();
    let mut i: usize = 0;
    assert(items_view(out@) =~= imgur_source_formats(page@, av, 0));
    while i < all.len()
        invariant
            i <= all@.len(),
            av == all_groups_view(all@),
            items_view(out@) == imgur_source_formats(page@, av, i as int),
        decreases all@.len() - i,
    {
        assert(av[i as int] == groups_view(all@[i as int]@));
        let ghost old_out = out@;
        match (capture_group(&all[i], 1), capture_group(&all[i], 2)) {
            (Some(src), Some(mt)) => {
                let su = proto_relative_url(src.as_str(), "https:");
                let ext = match mimetype_extension(mt.as_str()) {
                    Some(e) => e,
                    None => determine_ext(su.as_str(), "mp4"),
                };
                let mut f = obj_new();
                obj_add(&mut f, "url", JsonValue::Str(su));
                obj_add(&mut f, "format_id", JsonValue::Str(mime_subtype_id_of(mt.as_str())));
                obj_add(&mut f, "ext", JsonValue::Str(ext));
                obj_add(&mut f, "width", meta_int_of(page, "video:width"));
                obj_add(&mut f, "height", meta_int_of(page, "video:height"));
                let o = obj_done(f);
                out.push(o);
                assert(items_view(out@) =~= items_view(old_out).push(o@));
            },
            _ => {},
        }
        i = i + 1;
    }
    out
}

fn imgur_page_formats_of(page: &str) -> (r: Vec<JsonValue>)
    ensures
        items_view(r@) == imgur_page_formats(page@),
{
    let mut out = match html_element_by_class(page, "video-elements") {
        Some(ve) => imgur_source_formats_of(page, ve.as_str()),
        None => {
            let v: Vec<JsonValue> = Vec::new();
            assert(items_view(v@) =~= Seq::<Json>::empty());
            v
        },
    };
    let ghost before = out@;
    match html_meta_value(page, "twitter:player:stream") {
        Some(tu) => {
            let ext = match html_meta_value(page, "twitter:player:stream:content_type") {
                Some(ct) => match mimetype_extension(ct.as_str()) {
                    Some(e) => e,
                    None => determine_ext(tu.as_str(), "mp4"),
                },
                None => determine_ext(tu.as_str(), "mp4"),
            };
            let mut f = obj_new();
            obj_add(&mut f, "url", JsonValue::Str(tu));
            obj_add(&mut f, "format_id", jstr("twitter"));
            obj_add(&mut f, "ext", JsonValue::Str(ext));
            obj_add(&mut f, "width", meta_int_of(page, "twitter:width"));
            obj_add(&mut f, "height", meta_int_of(page, "twitter:height"));
            let o = obj_done(f);
            out.push(o);
            assert(items_view(out@) =~= items_view(before).push(o@));
        },
        None => {},
    }
    out
}

fn imgur_details_of(info: &mut InfoDict, data: &JsonValue, media: &JsonValue)
    requires
        old(info).wf(),
    ensures
        final(info).wf(),
        final(info)@ == imgur_details(old(info)@, data@, media@),
{
    let null = JsonValue::Null;
    let metadata = match json_get(media, "metadata") {
        Some(m) => m,
        None => &null,
    };
    let account = match json_get(data, "account") {
        Some(a) => a,
        None => &null,
    };
    info.insert_if_some("uploader_id", match json_value_string(json_get(data, "account_id")) {
        Some(s) => Some(JsonValue::Str(s)),
        None => None,
    });
    info.insert_if_some("uploader", opt_str_json(json_string(account, "username")));
    info.insert_if_some("uploader_url", opt_str_json(json_string(account, "avatar_url")));
    info.insert_if_some("like_count", opt_int_json(json_i64(data, "upvote_count")));
    info.insert_if_some("dislike_count", opt_int_json(json_i64(data, "downvote_count")));
    info.insert_if_some("comment_count", opt_int_json(json_i64(data, "comment_count")));
    info.insert_if_some("age_limit", if json_bool(data, "is_mature") == Some(true) { Some(JsonValue::Int(18)) } else { None });
    let updated: Option<&str> = match json_string(metadata, "updated_at") {
        Some(t) => Some(t),
        None => match json_string(metadata, "created_at") {
            Some(t) => Some(t),
            None => match json_string(data, "updated_at") {
                Some(t) => Some(t),
                None => json_string(data, "created_at"),
            },
        },
    };
    info.insert_if_some("timestamp", opt_int_json(match updated {
        Some(t) => parse_timestamp(t),
        None => None,
    }));
    let created: Option<&str> = match json_string(metadata, "created_at") {
        Some(t) => Some(t),
        None => json_string(data, "created_at"),
    };
    info.insert_if_some("release_timestamp", opt_int_json(match created {
        Some(t) => parse_timestamp(t),
        None => None,
    }));
    info.insert_if_some("duration", match json_f64(metadata, "duration") {
        Some(d) => Some(d),
        None => json_f64(media, "duration"),
    });
}

fn accept_any_of() -> (r: JsonValue)
    ensures
        r@ == accept_any(),
{
    let mut h = obj_new();
    obj_add(&mut h, "Accept", jstr("*/*"));
    obj_done(h)
}

fn imgur_info_of(id: &str, page_url: &str, data: &JsonValue, media: &JsonValue, mu: &str, page: &str) -> (r: InfoDict)
    ensures
        r.wf(),
        r@ == imgur_info(id@, page_url@, data@, media@, mu@, page@),
{
    let null = JsonValue::Null;
    let metadata = match json_get(media, "metadata") {
        Some(m) => m,
        None => &null,
    };
    let (api_ext, mf) = imgur_media_format_of(media, mu);
    let mut formats = imgur_page_formats_of(page);
    let ghost pf = formats@;
    formats.insert(0, mf);
    assert(items_view(formats@) =~= seq![imgur_media_format(media@, mu@).1] + imgur_page_formats(page@));
    let title = match json_string(metadata, "title") {
        Some(t) => {
            let tr = trim(t);
            if tr.unicode_len() > 0 {
                tr
            } else {
                match html_meta_value(page, "og:title") {
                    Some(o) => o,
                    None => owned(id),
                }
            }
        },
        None => match html_meta_value(page, "og:title") {
            Some(o) => o,
            None => owned(id),
        },
    };
    let description = match imgur_clean_description(json_string(metadata, "description")) {
        Some(d) => Some(d),
        None => match html_meta_value(page, "og:description") {
            Some(o) => imgur_clean_description(Some(o.as_str())),
            None => imgur_clean_description(None),
        },
    };
    let thumbnail = match html_meta_value(page, "thumbnailUrl") {
        Some(t) => t,
        None => match html_meta_value(page, "twitter:image") {
            Some(t) => t,
            None => match html_meta_value(page, "og:image") {
                Some(t) => t,
                None => concat3("https://i.imgur.com/", id, "h.jpg"),
            },
        },
    };
    let mut info = InfoDict::new();
    info.insert("id", jstr(id));
    info.insert("title", JsonValue::Str(title));
    info.insert("url", jstr(mu));
    info.insert("ext", JsonValue::Str(api_ext));
    info.insert("formats", arr_done(formats));
    info.insert_if_some("description", match description {
        Some(d) => Some(JsonValue::Str(d)),
        None => None,
    });
    imgur_details_of(&mut info, data, media);
    let mut t = obj_new();
    obj_add(&mut t, "url", JsonValue::Str(thumbnail));
    obj_add(&mut t, "http_headers", accept_any_of());
    let mut ts = arr_new();
    arr_add(&mut ts, obj_done(t));
    info.insert("thumbnails", arr_done(ts));
    info.insert("http_headers", accept_any_of());
    info.insert("webpage_url", jstr(page_url));
    info
}

/// `imgur_media_info`: one part of an extraction, for Imgur medium `id`, whose answers
/// start at `replies[at]`: its API answer is fetched, then its GIFV page, a failure there
/// being no error, then its metadata is built.
pub fn imgur_media_step(id: &str, page_url: &str, replies: &Vec<Reply>, at: usize) -> (r: Result<SubStep, ExtractorError>)
    ensures
        media_step_is(r, imgur_media_outcome(id@, page_url@, replies@, at as int)),
{
    if replies.len() <= at {
        let mut api = concat4("https://api.imgur.com/post/v1/", "media", "/", id);
        push_str(&mut api, "?client_id=546c25a59c58ad7&include=media,account");
        return Ok(SubStep::Need(get_json_accepting(api, "application/json")));
    }
    let data = reply_json(replies, at)?;
    let media = match json_get(data, "media") {
        Some(m) => match m {
            JsonValue::Array(a) => {
                proof { lemma_array_view(*m); }
                if a.len() > 0 {
                    &a[0]
                } else {
                    return Err(ExtractorError::new(ExtractorErrorKind::Extraction, concat3("Imgur media ", id, " has no media record")));
                }
            },
            _ => return Err(ExtractorError::new(ExtractorErrorKind::Extraction, concat3("Imgur media ", id, " has no media record"))),
        },
        None => return Err(ExtractorError::new(ExtractorErrorKind::Extraction, concat3("Imgur media ", id, " has no media record"))),
    };
    let is_video = match json_string(media, "type") {
        Some(t) => str_equal(t, "video"),
        None => false,
    };
    let animated = match json_get(media, "metadata") {
        Some(md) => json_bool(md, "is_animated") == Some(true),
        None => false,
    };
    if !(is_video || animated) {
        return Err(ExtractorError::new(ExtractorErrorKind::Unsupported, concat3("Imgur media ", id, " is a static image")));
    }
    let mu = match json_string(media, "url") {
        Some(u) => u,
        None => return Err(ExtractorError::new(ExtractorErrorKind::Extraction, concat3("Imgur media ", id, " has no URL"))),
    };
    if replies.len() <= at + 1 {
        return Ok(SubStep::Need(get_text_optional(concat3("https://i.imgur.com/", id, ".gifv"))));
    }
    proof { reveal_strlit(""); }
    let page: &str = match &replies[at + 1] {
        Reply::Text(t) => t.as_str(),
        _ => "",
    };
    assert(page@ == match replies@[at + 1] { Reply::Text(t) => t@, _ => Seq::<char>::empty() });
    assert(imgur_media_record(data@) == Some(media@));
    assert(imgur_playable(media@));
    Ok(SubStep::Got(imgur_info_of(id, page_url, data, media, mu, page)))
}

impl ImgurExtractor {
    /// One step of an Imgur extraction: the medium's API answer, then its GIFV page, then
    /// its metadata.
    pub fn extract_step(&self, url: &str, replies: &Vec<Reply>) -> (r: Result<Step, ExtractorError>)
        ensures
            match regex_named_capture(self.matcher().source(), url@, "id"@) {
                Some(id) => match imgur_media_outcome(id, url@, replies@, 0) {
                    MediaOutcome::NeedApi(u) => r matches Ok(Step::Fetch(f)) && is_accepting_get(f, u, "application/json"@),
                    MediaOutcome::NeedPage(u) => r matches Ok(Step::Fetch(f)) && is_optional_text_get(f, u),
                    MediaOutcome::Failed(k) => fails_with(r, k),
                    MediaOutcome::Got(m) => done_with(r, m),
                },
                None => fails_with(r, ExtractorErrorKind::InvalidUrl),
            },
    {
        let id = match self.site.capture(url, "id") {
            Some(v) => v,
            None => return Err(fail(ExtractorErrorKind::InvalidUrl, "Imgur URL has no ID")),
        };
        match imgur_media_step(id.as_str(), url, replies, 0)? {
            SubStep::Need(f) => Ok(Step::Fetch(f)),
            SubStep::Got(info) => Ok(Step::Done(ExtractorResult::single(info))),
        }
    }
}

/// The IDs of the playable media among the first `n` of an album answer, in order.
pub open spec fn imgur_album_ids(media: Seq<Json>, n: int) -> Seq<Seq<char>>
    decreases n,
{
    if n <= 0 {
        Seq::empty()
    } else {
        let prev = imgur_album_ids(media, n - 1);
        let m = media[n - 1];
        if imgur_playable(m) {
            match json_lookup(m, "id"@) {
                Some(x) => prev.push(value_text(x)),
                None => prev,
            }
        } else {
            prev
        }
    }
}

/// The IDs of the playable media of an album answer.
pub open spec fn imgur_album_media_ids(data: Json) -> Seq<Seq<char>> {
    match json_lookup(data, "media"@) {
        Some(Json::Array(a)) => imgur_album_ids(a, a.len() as int),
        _ => Seq::empty(),
    }
}

/// Where the extraction of an album's media stands.
pub enum AlbumOutcome {
    Entries(Seq<Map<Seq<char>, Json>>),
    Stopped(MediaOutcome),
}

/// Where the extraction of the first `k` media of an album stands; medium `j` answers from
/// `replies[1 + 2 * j]` on.
pub open spec fn imgur_album_entries(ids: Seq<Seq<char>>, page_url: Seq<char>, replies: Seq<Reply>, k: int) -> AlbumOutcome
    decreases k,
{
    if k <= 0 {
        AlbumOutcome::Entries(Seq::empty())
    } else {
        match imgur_album_entries(ids, page_url, replies, k - 1) {
            AlbumOutcome::Entries(es) => match imgur_media_outcome(ids[k - 1], page_url, replies, 1 + 2 * (k - 1)) {
                MediaOutcome::Got(m) => AlbumOutcome::Entries(es.push(m)),
                o => AlbumOutcome::Stopped(o),
            },
            s => s,
        }
    }
}

/// `m` with an album's title and description, where they are given.
pub open spec fn with_album_text(m: Map<Seq<char>, Json>, title: Option<Seq<char>>, description: Option<Seq<char>>) -> Map<Seq<char>, Json> {
    put_opt(put_opt(m, "title"@, opt_str(title)), "description"@, opt_str(description))
}

/// Whether an extraction step is the one that a medium's outcome calls for, the
/// finished medium being the extraction's one result with the album's text.
pub open spec fn single_media_step(r: Result<Step, ExtractorError>, o: MediaOutcome, title: Option<Seq<char>>, description: Option<Seq<char>>) -> bool {
    match o {
        MediaOutcome::NeedApi(u) => r matches Ok(Step::Fetch(f)) && is_accepting_get(f, u, "application/json"@),
        MediaOutcome::NeedPage(u) => r matches Ok(Step::Fetch(f)) && is_optional_text_get(f, u),
        MediaOutcome::Failed(k) => fails_with(r, k),
        MediaOutcome::Got(m) => done_with(r, with_album_text(m, title, description)),
    }
}

/// The request for the post API answer of an Imgur item.
fn imgur_api_fetch(endpoint: &str, id: &str) -> (r: Fetch)
    ensures
        is_accepting_get(r, imgur_api_url(endpoint@, id@), "application/json"@),
{
    let mut api = concat4("https://api.imgur.com/post/v1/", endpoint, "/", id);
    push_str(&mut api, "?client_id=546c25a59c58ad7&include=media,account");
    get_json_accepting(api, "application/json")
}

fn imgur_album_ids_of(data: &JsonValue) -> (r: Vec<String>)
    ensures
        r@.len() == imgur_album_media_ids(data@).len(),
        forall|k: int| 0 <= k < r@.len() ==> (#[trigger] r@[k])@ == imgur_album_media_ids(data@)[k],
{
    let mut out: Vec<String> = Vec::new();
    match json_get(data, "media") {
        Some(m) => match m {
            JsonValue::Array(a) => {
                proof { lemma_array_view(*m); }
                let ghost av = items_view(a@);
                let mut i: usize = 0;
                while i < a.len()
                    invariant
                        i <= a@.len(),
                        av == items_view(a@),
                        out@.len() == imgur_album_ids(av, i as int).len(),
                        forall|k: int| 0 <= k < out@.len() ==> (#[trigger] out@[k])@ == imgur_album_ids(av, i as int)[k],
                    decreases a@.len() - i,
                {
                    let item = &a[i];
                    let is_video = match json_string(item, "type") {
                        Some(t) => str_equal(t, "video"),
                        None => false,
                    };
                    let animated = match json_get(item, "metadata") {
                        Some(md) => json_bool(md, "is_animated") == Some(true),
                        None => false,
                    };
                    if is_video || animated {
                        match json_value_string(json_get(item, "id")) {
                            Some(x) => out.push(x),
                            None => {},
                        }
                    }
                    i = i + 1;
                }
            },
            _ => {},
        },
        None => {},
    }
    out
}

fn with_album_text_of(info: &mut InfoDict, title: &Option<String>, description: &Option<String>)
    requires
        old(info).wf(),
    ensures
        final(info).wf(),
        final(info)@ == with_album_text(old(info)@, match title { Some(t) => Some(t@), None => None },
            match description { Some(d) => Some(d@), None => None }),
{
    info.insert_if_some("title", match title {
        Some(t) => Some(JsonValue::Str(t.clone())),
        None => None,
    });
    info.insert_if_some("description", match description {
        Some(d) => Some(JsonValue::Str(d.clone())),
        None => None,
    });
}

fn single_media_result(r: Result<SubStep, ExtractorError>, title: &Option<String>, description: &Option<String>, Ghost(o): Ghost<MediaOutcome>) -> (s: Result<Step, ExtractorError>)
    requires
        media_step_is(r, o),
    ensures
        single_media_step(s, o,
            match title { Some(t) => Some(t@), None => None },
            match description { Some(d) => Some(d@), None => None }),
{
    match r {
        Ok(SubStep::Need(f)) => Ok(Step::Fetch(f)),
        Ok(SubStep::Got(info)) => {
            let mut info = info;
            with_album_text_of(&mut info, title, description);
            Ok(Step::Done(ExtractorResult::single(info)))
        },
        Err(e) => Err(e),
    }
}

/// Whether an extraction step is the one that a stopped album calls for.
pub open spec fn stopped_step(r: Result<Step, ExtractorError>, o: MediaOutcome) -> bool {
    match o {
        MediaOutcome::NeedApi(u) => r matches Ok(Step::Fetch(f)) && is_accepting_get(f, u, "application/json"@),
        MediaOutcome::NeedPage(u) => r matches Ok(Step::Fetch(f)) && is_optional_text_get(f, u),
        MediaOutcome::Failed(k) => fails_with(r, k),
        MediaOutcome::Got(_) => false,
    }
}

/// The metadata of an album playlist.
pub open spec fn imgur_album_info(id: Seq<char>, title: Option<Seq<char>>, description: Option<Seq<char>>) -> Map<Seq<char>, Json> {
    with_album_text(Map::<Seq<char>, Json>::empty().insert("id"@, Json::Str(id)), title, description)
}

/// Once the extraction of an album's media has stopped, it stays stopped where it did.
proof fn lemma_album_stopped(ids: Seq<Seq<char>>, page_url: Seq<char>, replies: Seq<Reply>, k: int, n: int)
    requires
        0 <= k <= n,
        imgur_album_entries(ids, page_url, replies, k) is Stopped,
    ensures
        imgur_album_entries(ids, page_url, replies, n) == imgur_album_entries(ids, page_url, replies, k),
    decreases n - k,
{
    if k < n {
        lemma_album_stopped(ids, page_url, replies, k, n - 1);
    }
}

impl ImgurGalleryExtractor {
    /// One step of an Imgur gallery extraction: the album's API answer is fetched; then a
    /// one-medium album in gallery mode is that medium, any other album a playlist of its
    /// playable media, and a post that is no album its own medium, each with the album's text.
    #[verifier::loop_isolation(false)]
    pub fn extract_step(&self, url: &str, replies: &Vec<Reply>) -> (r: Result<Step, ExtractorError>)
        ensures
            match regex_named_capture(self.matcher().source(), url@, "id"@) {
                Some(gid) => if replies@.len() == 0 {
                    r matches Ok(Step::Fetch(f)) && is_accepting_get(f, imgur_api_url("albums"@, gid), "application/json"@)
                } else {
                    match reply_json_at(replies@, 0) {
                        Some(data) => {
                            let title = imgur_clean(json_str_at(data@, "title"@));
                            let description = imgur_clean(json_str_at(data@, "description"@));
                            let is_album = json_bool_at(data@, "is_album"@) == Some(true);
                            let ids = imgur_album_media_ids(data@);
                            if is_album && self.spec_gallery_mode() && ids.len() == 1 {
                                single_media_step(r, imgur_media_outcome(ids[0], url@, replies@, 1), title, description)
                            } else if is_album {
                                match imgur_album_entries(ids, url@, replies@, ids.len() as int) {
                                    AlbumOutcome::Entries(es) => done_playlist(r, imgur_album_info(gid, title, description), es),
                                    AlbumOutcome::Stopped(o) => stopped_step(r, o),
                                }
                            } else {
                                single_media_step(r, imgur_media_outcome(gid, url@, replies@, 1), title, description)
                            }
                        },
                        None => fails_with(r, ExtractorErrorKind::Extraction),
                    }
                },
                None => fails_with(r, ExtractorErrorKind::InvalidUrl),
            },
    {
        let gid = match self.site.capture(url, "id") {
            Some(v) => v,
            None => return Err(fail(ExtractorErrorKind::InvalidUrl, "Imgur gallery has no ID")),
        };
        if replies.len() == 0 {
            return Ok(Step::Fetch(imgur_api_fetch("albums", gid.as_str())));
        }
        let data = reply_json(replies, 0)?;
        let title = imgur_clean_description(json_string(data, "title"));
        let description = imgur_clean_description(json_string(data, "description"));
        let is_album = json_bool(data, "is_album") == Some(true);
        let ids = imgur_album_ids_of(data);
        let ghost idv = imgur_album_media_ids(data@);
        if is_album && self.gallery_mode && ids.len() == 1 {
            let step = imgur_media_step(ids[0].as_str(), url, replies, 1);
            return single_media_result(step, &title, &description, Ghost(imgur_media_outcome(idv[0], url@, replies@, 1)));
        }
        if is_album {
            let mut entries: Vec<InfoDict> = Vec::new();
            let mut i: usize = 0;
            assert(dicts_view(entries@) =~= Seq::<Map<Seq<char>, Json>>::empty());
            while i < ids.len()
                invariant
                    i <= ids@.len(),
                    ids@.len() == idv.len(),
                    forall|k: int| 0 <= k < ids@.len() ==> (#[trigger] ids@[k])@ == idv[k],
                    all_wf(entries@),
                    imgur_album_entries(idv, url@, replies@, i as int) == AlbumOutcome::Entries(dicts_view(entries@)),
                decreases ids@.len() - i,
            {
                let ghost prev = dicts_view(entries@);
                let n = replies.len();
                if i > (usize::MAX - 1) / 2 {
                    assert(replies@.len() <= 1 + 2 * i);
                    proof { lemma_album_stopped(idv, url@, replies@, i + 1, idv.len() as int); }
                    return Ok(Step::Fetch(imgur_api_fetch("media", ids[i].as_str())));
                }
                let at: usize = 1 + 2 * i;
                let step = imgur_media_step(ids[i].as_str(), url, replies, at);
                match step {
                    Ok(SubStep::Got(info)) => {
                        entries.push(info);
                        assert(dicts_view(entries@) =~= prev.push(info@));
                    },
                    Ok(SubStep::Need(f)) => {
                        proof { lemma_album_stopped(idv, url@, replies@, i + 1, idv.len() as int); }
                        return Ok(Step::Fetch(f));
                    },
                    Err(e) => {
                        proof { lemma_album_stopped(idv, url@, replies@, i + 1, idv.len() as int); }
                        return Err(e);
                    },
                }
                i = i + 1;
            }
            let mut info = InfoDict::new();
            info.insert("id", JsonValue::Str(gid.clone()));
            with_album_text_of(&mut info, &title, &description);
            return Ok(Step::Done(ExtractorResult::Playlist { info, entries }));
        }
        let step = imgur_media_step(gid.as_str(), url, replies, 1);
        single_media_result(step, &title, &description, Ghost(imgur_media_outcome(gid@, url@, replies@, 1)))
    }
}

} // verus!
