use vstd::prelude::*;

use crate::sites::pages::{historic_tape, historic_tape_of};
use crate::sites::worldstar::{nonblank_fragment, nonblank_group};
use crate::extract::{date_digits, date_digits_of, determine_ext, ext_of, first_str, format_str, format_string, int_or_null, json_f64, json_num_at, json_thousandth, jstr, lookup_in, member_or_null, native_url_result, opt_int, opt_int_json, opt_str, opt_str_json, or_null, proto_relative, proto_relative_url, put_opt, reply_json, reply_json_at, reply_text, reply_text_at, resolve_url, resolved, str_opt_view, thousandth, timestamp_in, url_result};
use crate::framework::{Expect, ExtractorDescriptor, ExtractorError, ExtractorErrorKind, ExtractorResult, Reply, SiteMatcher, Step, all_wf, descriptor_ok, descriptor_source, dicts_view, done_playlist, done_with, fail, fails_with, fetches, get_json, get_text, descriptor_error};
use crate::html::{html_text_fragment, text_fragment, unescape_html, unescaped};
use crate::info::{InfoDict};
use crate::json::{Json, JsonValue, arr_add, arr_done, arr_new, fields_view, items_view, json_bool, json_bool_at, json_clone, json_get, json_i64, json_int_at, json_lookup, json_opt_view, json_str_at, json_string, lemma_array_view, obj_add, obj_add_opt, obj_done, obj_new, push_opt};
use crate::jsontext::{json_value_string, value_text};
use crate::number::{parse_int, parsed_int};
use crate::page::{html_meta_value, html_script_json, json_after_marker, json_array_after_marker, meta_value, script_json};
use crate::pattern::{all_groups_view, capture_group, first_group, group_at, groups_view, regex_all_captures, regex_captures_iter, regex_compiles, regex_first_group, regex_matches, regex_named_capture, regex_valid};
use crate::text::{before_str, concat2, concat3, concat4, eq_ignore_ascii_case, lowered, owned, push_str, replace_str, replaced, split_first, strip_leading, strip_prefix, trim, trim_start_char, trimmed, without_prefix};
use crate::timestamp::{parse_timestamp};
use crate::weburl::{joined_url, query_value, url_join, url_query_value};

verus! {

/// Native Academic Earth course playlist extractor.
pub struct AcademicEarthCourseExtractor {
    site: SiteMatcher,
}

impl AcademicEarthCourseExtractor {
    /// The descriptor and matcher the extractor was built with.
    pub closed spec fn matcher(&self) -> SiteMatcher {
        self.site
    }

    pub fn new(descriptor: ExtractorDescriptor) -> (r: Result<Self, ExtractorError>)
        ensures
            r is Ok <==> descriptor_ok(descriptor),
            r matches Ok(x) ==> x.matcher().spec_descriptor() == descriptor
                && Some(x.matcher().source()) == descriptor_source(descriptor),
            r matches Err(e) ==> e.kind == ExtractorErrorKind::Extraction && e.message@ == descriptor_error(descriptor),
    {
        match SiteMatcher::from_descriptor(descriptor) {
            Ok(site) => Ok(AcademicEarthCourseExtractor { site }),
            Err(e) => Err(e),
        }
    }

    pub fn descriptor(&self) -> (r: &ExtractorDescriptor)
        ensures
            *r == self.matcher().spec_descriptor(),
    {
        self.site.descriptor()
    }

    pub fn suitable(&self, url: &str) -> (r: bool)
        ensures
            r == regex_matches(self.matcher().source(), url@),
    {
        self.site.suitable(url)
    }

    pub fn is_native(&self) -> (r: bool)
        ensures
            r,
    {
        true
    }

    pub fn native_matcher_count(&self) -> (r: usize)
        ensures
            r == 1,
    {
        1
    }
}

/// Native Premiership Rugby article/JWPlatform HLS extractor.
pub struct PremiershipRugbyExtractor {
    site: SiteMatcher,
}

impl PremiershipRugbyExtractor {
    /// The descriptor and matcher the extractor was built with.
    pub closed spec fn matcher(&self) -> SiteMatcher {
        self.site
    }

    pub fn new(descriptor: ExtractorDescriptor) -> (r: Result<Self, ExtractorError>)
        ensures
            r is Ok <==> descriptor_ok(descriptor),
            r matches Ok(x) ==> x.matcher().spec_descriptor() == descriptor
                && Some(x.matcher().source()) == descriptor_source(descriptor),
            r matches Err(e) ==> e.kind == ExtractorErrorKind::Extraction && e.message@ == descriptor_error(descriptor),
    {
        match SiteMatcher::from_descriptor(descriptor) {
            Ok(site) => Ok(PremiershipRugbyExtractor { site }),
            Err(e) => Err(e),
        }
    }

    pub fn descriptor(&self) -> (r: &ExtractorDescriptor)
        ensures
            *r == self.matcher().spec_descriptor(),
    {
        self.site.descriptor()
    }

    pub fn suitable(&self, url: &str) -> (r: bool)
        ensures
            r == regex_matches(self.matcher().source(), url@),
    {
        self.site.suitable(url)
    }

    pub fn is_native(&self) -> (r: bool)
        ensures
            r,
    {
        true
    }

    pub fn native_matcher_count(&self) -> (r: usize)
        ensures
            r == 1,
    {
        1
    }
}

/// Native MatchiTV Next.js/HLS extractor.
pub struct MatchiTvExtractor {
    site: SiteMatcher,
}

impl MatchiTvExtractor {
    /// The descriptor and matcher the extractor was built with.
    pub closed spec fn matcher(&self) -> SiteMatcher {
        self.site
    }

    pub fn new(descriptor: ExtractorDescriptor) -> (r: Result<Self, ExtractorError>)
        ensures
            r is Ok <==> descriptor_ok(descriptor),
            r matches Ok(x) ==> x.matcher().spec_descriptor() == descriptor
                && Some(x.matcher().source()) == descriptor_source(descriptor),
            r matches Err(e) ==> e.kind == ExtractorErrorKind::Extraction && e.message@ == descriptor_error(descriptor),
    {
        match SiteMatcher::from_descriptor(descriptor) {
            Ok(site) => Ok(MatchiTvExtractor { site }),
            Err(e) => Err(e),
        }
    }

    pub fn descriptor(&self) -> (r: &ExtractorDescriptor)
        ensures
            *r == self.matcher().spec_descriptor(),
    {
        self.site.descriptor()
    }

    pub fn suitable(&self, url: &str) -> (r: bool)
        ensures
            r == regex_matches(self.matcher().source(), url@),
    {
        self.site.suitable(url)
    }

    pub fn is_native(&self) -> (r: bool)
        ensures
            r,
    {
        true
    }

    pub fn native_matcher_count(&self) -> (r: usize)
        ensures
            r == 1,
    {
        1
    }
}

/// Native SZTV.hu VOD extractor.
pub struct SztvHuExtractor {
    site: SiteMatcher,
}

impl SztvHuExtractor {
    /// The descriptor and matcher the extractor was built with.
    pub closed spec fn matcher(&self) -> SiteMatcher {
        self.site
    }

    pub fn new(descriptor: ExtractorDescriptor) -> (r: Result<Self, ExtractorError>)
        ensures
            r is Ok <==> descriptor_ok(descriptor),
            r matches Ok(x) ==> x.matcher().spec_descriptor() == descriptor
                && Some(x.matcher().source()) == descriptor_source(descriptor),
            r matches Err(e) ==> e.kind == ExtractorErrorKind::Extraction && e.message@ == descriptor_error(descriptor),
    {
        match SiteMatcher::from_descriptor(descriptor) {
            Ok(site) => Ok(SztvHuExtractor { site }),
            Err(e) => Err(e),
        }
    }

    pub fn descriptor(&self) -> (r: &ExtractorDescriptor)
        ensures
            *r == self.matcher().spec_descriptor(),
    {
        self.site.descriptor()
    }

    pub fn suitable(&self, url: &str) -> (r: bool)
        ensures
            r == regex_matches(self.matcher().source(), url@),
    {
        self.site.suitable(url)
    }

    pub fn is_native(&self) -> (r: bool)
        ensures
            r,
    {
        true
    }

    pub fn native_matcher_count(&self) -> (r: usize)
        ensures
            r == 1,
    {
        1
    }
}

/// Native Arnes Video public-media API extractor.
pub struct ArnesExtractor {
    site: SiteMatcher,
}

impl ArnesExtractor {
    /// The descriptor and matcher the extractor was built with.
    pub closed spec fn matcher(&self) -> SiteMatcher {
        self.site
    }

    pub fn new(descriptor: ExtractorDescriptor) -> (r: Result<Self, ExtractorError>)
        ensures
            r is Ok <==> descriptor_ok(descriptor),
            r matches Ok(x) ==> x.matcher().spec_descriptor() == descriptor
                && Some(x.matcher().source()) == descriptor_source(descriptor),
            r matches Err(e) ==> e.kind == ExtractorErrorKind::Extraction && e.message@ == descriptor_error(descriptor),
    {
        match SiteMatcher::from_descriptor(descriptor) {
            Ok(site) => Ok(ArnesExtractor { site }),
            Err(e) => Err(e),
        }
    }

    pub fn descriptor(&self) -> (r: &ExtractorDescriptor)
        ensures
            *r == self.matcher().spec_descriptor(),
    {
        self.site.descriptor()
    }

    pub fn suitable(&self, url: &str) -> (r: bool)
        ensures
            r == regex_matches(self.matcher().source(), url@),
    {
        self.site.suitable(url)
    }

    pub fn is_native(&self) -> (r: bool)
        ensures
            r,
    {
        true
    }

    pub fn native_matcher_count(&self) -> (r: usize)
        ensures
            r == 1,
    {
        1
    }
}

/// Native CJSW episode audio-page extractor.
pub struct CjswExtractor {
    site: SiteMatcher,
}

impl CjswExtractor {
    /// The descriptor and matcher the extractor was built with.
    pub closed spec fn matcher(&self) -> SiteMatcher {
        self.site
    }

    pub fn new(descriptor: ExtractorDescriptor) -> (r: Result<Self, ExtractorError>)
        ensures
            r is Ok <==> descriptor_ok(descriptor),
            r matches Ok(x) ==> x.matcher().spec_descriptor() == descriptor
                && Some(x.matcher().source()) == descriptor_source(descriptor),
            r matches Err(e) ==> e.kind == ExtractorErrorKind::Extraction && e.message@ == descriptor_error(descriptor),
    {
        match SiteMatcher::from_descriptor(descriptor) {
            Ok(site) => Ok(CjswExtractor { site }),
            Err(e) => Err(e),
        }
    }

    pub fn descriptor(&self) -> (r: &ExtractorDescriptor)
        ensures
            *r == self.matcher().spec_descriptor(),
    {
        self.site.descriptor()
    }

    pub fn suitable(&self, url: &str) -> (r: bool)
        ensures
            r == regex_matches(self.matcher().source(), url@),
    {
        self.site.suitable(url)
    }

    pub fn is_native(&self) -> (r: bool)
        ensures
            r,
    {
        true
    }

    pub fn native_matcher_count(&self) -> (r: usize)
        ensures
            r == 1,
    {
        1
    }
}

/// Native Daystar Lightcast configuration/HLS extractor.
pub struct DaystarClipExtractor {
    site: SiteMatcher,
}

impl DaystarClipExtractor {
    /// The descriptor and matcher the extractor was built with.
    pub closed spec fn matcher(&self) -> SiteMatcher {
        self.site
    }

    pub fn new(descriptor: ExtractorDescriptor) -> (r: Result<Self, ExtractorError>)
        ensures
            r is Ok <==> descriptor_ok(descriptor),
            r matches Ok(x) ==> x.matcher().spec_descriptor() == descriptor
                && Some(x.matcher().source()) == descriptor_source(descriptor),
            r matches Err(e) ==> e.kind == ExtractorErrorKind::Extraction && e.message@ == descriptor_error(descriptor),
    {
        match SiteMatcher::from_descriptor(descriptor) {
            Ok(site) => Ok(DaystarClipExtractor { site }),
            Err(e) => Err(e),
        }
    }

    pub fn descriptor(&self) -> (r: &ExtractorDescriptor)
        ensures
            *r == self.matcher().spec_descriptor(),
    {
        self.site.descriptor()
    }

    pub fn suitable(&self, url: &str) -> (r: bool)
        ensures
            r == regex_matches(self.matcher().source(), url@),
    {
        self.site.suitable(url)
    }

    pub fn is_native(&self) -> (r: bool)
        ensures
            r,
    {
        true
    }

    pub fn native_matcher_count(&self) -> (r: usize)
        ensures
            r == 1,
    {
        1
    }
}

/// Native DCTP versioned REST/API extractor.
pub struct DctpTvExtractor {
    site: SiteMatcher,
}

impl DctpTvExtractor {
    /// The descriptor and matcher the extractor was built with.
    pub closed spec fn matcher(&self) -> SiteMatcher {
        self.site
    }

    pub fn new(descriptor: ExtractorDescriptor) -> (r: Result<Self, ExtractorError>)
        ensures
            r is Ok <==> descriptor_ok(descriptor),
            r matches Ok(x) ==> x.matcher().spec_descriptor() == descriptor
                && Some(x.matcher().source()) == descriptor_source(descriptor),
            r matches Err(e) ==> e.kind == ExtractorErrorKind::Extraction && e.message@ == descriptor_error(descriptor),
    {
        match SiteMatcher::from_descriptor(descriptor) {
            Ok(site) => Ok(DctpTvExtractor { site }),
            Err(e) => Err(e),
        }
    }

    pub fn descriptor(&self) -> (r: &ExtractorDescriptor)
        ensures
            *r == self.matcher().spec_descriptor(),
    {
        self.site.descriptor()
    }

    pub fn suitable(&self, url: &str) -> (r: bool)
        ensures
            r == regex_matches(self.matcher().source(), url@),
    {
        self.site.suitable(url)
    }

    pub fn is_native(&self) -> (r: bool)
        ensures
            r,
    {
        true
    }

    pub fn native_matcher_count(&self) -> (r: usize)
        ensures
            r == 1,
    {
        1
    }
}


/// The REST base of the DCTP API at version `v`.
pub open spec fn dctp_base(v: Seq<char>) -> Seq<char> {
    "http://dctp-ivms2-restapi.s3.amazonaws.com/"@ + v + "/restapi"@
}

/// The three formats of a DCTP film file with suffix `s`.
pub open spec fn dctp_formats_for(uuid: Seq<char>, s: Seq<char>) -> Seq<Json> {
    let file = uuid + "_dctp_"@ + s + ".m4v"@;
    seq![
        Json::Object(seq![
            ("format_id"@, Json::Str("hls-"@ + s)),
            ("url"@, Json::Str("https://cdn-segments.dctp.tv/"@ + file + "/playlist.m3u8"@)),
            ("protocol"@, Json::Str("m3u8_native"@)),
            ("ext"@, Json::Str("m4v"@)),
        ]),
        Json::Object(seq![
            ("format_id"@, Json::Str("s3-"@ + s)),
            ("url"@, Json::Str("https://completed-media.s3.amazonaws.com/"@ + file)),
            ("ext"@, Json::Str("m4v"@)),
        ]),
        Json::Object(seq![
            ("format_id"@, Json::Str("http-"@ + s)),
            ("url"@, Json::Str("https://cdn-media.dctp.tv/"@ + file)),
            ("ext"@, Json::Str("m4v"@)),
        ]),
    ]
}

/// The formats of a DCTP film: the standard file, and the 720p one of a wide film.
pub open spec fn dctp_formats(uuid: Seq<char>, wide: bool) -> Seq<Json> {
    if wide {
        dctp_formats_for(uuid, "0500_16x9"@) + dctp_formats_for(uuid, "720p"@)
    } else {
        dctp_formats_for(uuid, "0500_4x3"@)
    }
}

/// The thumbnail of a DCTP image record, when it has an address.
pub open spec fn sized_thumb(image: Json) -> Option<Json> {
    match json_str_at(image, "url"@) {
        Some(u) => Some(Json::Object(push_opt(push_opt(seq![("url"@, Json::Str(u))],
            "width"@, opt_int(json_int_at(image, "width"@))), "height"@, opt_int(json_int_at(image, "height"@))))),
        None => None,
    }
}

/// The thumbnails of the first `n` image records.
pub open spec fn sized_thumbs(images: Seq<Json>, n: int) -> Seq<Json>
    decreases n,
{
    if n <= 0 {
        Seq::empty()
    } else {
        match sized_thumb(images[n - 1]) {
            Some(t) => sized_thumbs(images, n - 1).push(t),
            None => sized_thumbs(images, n - 1),
        }
    }
}

/// The thumbnails of a record's `images`, when there are any.
pub open spec fn record_thumbs(media: Json) -> Option<Json> {
    match json_lookup(media, "images"@) {
        Some(Json::Array(a)) => if sized_thumbs(a, a.len() as int).len() > 0 {
            Some(Json::Array(sized_thumbs(a, a.len() as int)))
        } else {
            None
        },
        _ => None,
    }
}

/// The metadata of a DCTP film.
pub open spec fn dctp_info(display_id: Seq<char>, media: Json, uuid: Seq<char>) -> Map<Seq<char>, Json> {
    let wide = match json_bool_at(media, "is_wide"@) { Some(b) => b, None => false };
    let fs = dctp_formats(uuid, wide);
    put_opt(put_opt(put_opt(put_opt(put_opt(Map::<Seq<char>, Json>::empty()
        .insert("id"@, Json::Str(uuid))
        .insert("display_id"@, Json::Str(display_id))
        .insert("title"@, Json::Str(match json_str_at(media, "title"@) { Some(t) => t, None => display_id })),
        "alt_title"@, opt_str(json_str_at(media, "subtitle"@))),
        "description"@, opt_str(first_str(json_str_at(media, "description"@), json_str_at(media, "teaser"@)))),
        "timestamp"@, opt_int(timestamp_in(json_str_at(media, "created"@)))),
        "duration"@, thousandth(json_num_at(media, "duration_in_ms"@))),
        "thumbnails"@, record_thumbs(media))
        .insert("url"@, Json::Str("https://cdn-segments.dctp.tv/"@ + uuid + "_dctp_"@
            + (if wide { "0500_16x9"@ } else { "0500_4x3"@ }) + ".m4v"@ + "/playlist.m3u8"@))
        .insert("ext"@, Json::Str("m4v"@))
        .insert("formats"@, Json::Array(fs))
}

/// Adds the three formats of a DCTP film file with suffix `s`.
fn dctp_add_formats(formats: &mut Vec<JsonValue>, uuid: &str, s: &str)
    ensures
        items_view(final(formats)@) == items_view(old(formats)@) + dctp_formats_for(uuid@, s@),
{
    let mut file = concat4(uuid, "_dctp_", s, ".m4v");
    let ghost fv = file@;
    let mut a = obj_new();
    obj_add(&mut a, "format_id", JsonValue::Str(concat2("hls-", s)));
    obj_add(&mut a, "url", JsonValue::Str(concat3("https://cdn-segments.dctp.tv/", file.as_str(), "/playlist.m3u8")));
    obj_add(&mut a, "protocol", jstr("m3u8_native"));
    obj_add(&mut a, "ext", jstr("m4v"));
    let mut b = obj_new();
    obj_add(&mut b, "format_id", JsonValue::Str(concat2("s3-", s)));
    obj_add(&mut b, "url", JsonValue::Str(concat2("https://completed-media.s3.amazonaws.com/", file.as_str())));
    obj_add(&mut b, "ext", jstr("m4v"));
    let mut c = obj_new();
    obj_add(&mut c, "format_id", JsonValue::Str(concat2("http-", s)));
    obj_add(&mut c, "url", JsonValue::Str(concat2("https://cdn-media.dctp.tv/", file.as_str())));
    obj_add(&mut c, "ext", jstr("m4v"));
    let ghost before = items_view(formats@);
    let aj = obj_done(a);
    let bj = obj_done(b);
    let cj = obj_done(c);
    arr_add(formats, aj);
    arr_add(formats, bj);
    arr_add(formats, cj);
    proof {
        let want = dctp_formats_for(uuid@, s@);
        assert(aj@ == want[0]) by { assert(fields_view(a@) =~= want[0]->Object_0); }
        assert(bj@ == want[1]) by { assert(fields_view(b@) =~= want[1]->Object_0); }
        assert(cj@ == want[2]) by { assert(fields_view(c@) =~= want[2]->Object_0); }
        assert(items_view(formats@) =~= before + want);
    }
}

/// The thumbnails of a record's `images`, when there are any.
fn record_thumbnails(media: &JsonValue) -> (r: Option<JsonValue>)
    ensures
        json_opt_view(r) == record_thumbs(media@),
{
    match json_get(media, "images") {
        Some(x) => match x {
            JsonValue::Array(images) => {
                proof { lemma_array_view(*x); }
                let ghost iv = items_view(images@);
                let mut out = arr_new();
                let mut i: usize = 0;
                while i < images.len()
                    invariant
                        i <= images@.len(),
                        iv == items_view(images@),
                        items_view(out@) == sized_thumbs(iv, i as int),
                    decreases images@.len() - i,
                {
                    match json_string(&images[i], "url") {
                        Some(u) => {
                            let mut t = obj_new();
                            obj_add(&mut t, "url", jstr(u));
                            assert(fields_view(t@) =~= seq![("url"@, Json::Str(u@))]);
                            obj_add_opt(&mut t, "width", opt_int_json(json_i64(&images[i], "width")));
                            obj_add_opt(&mut t, "height", opt_int_json(json_i64(&images[i], "height")));
                            arr_add(&mut out, obj_done(t));
                        },
                        None => {},
                    }
                    i = i + 1;
                }
                if out.len() > 0 { Some(arr_done(out)) } else { None }
            },
            _ => None,
        },
        None => None,
    }
}

impl DctpTvExtractor {
    /// One step of a DCTP extraction: the API version, the film's slug record and its
    /// media record are fetched in turn; the media UUID names the files.
    pub fn extract_step(&self, url: &str, replies: &Vec<Reply>) -> (r: Result<Step, ExtractorError>)
        ensures
            match regex_named_capture(self.matcher().source(), url@, "id"@) {
                Some(id) => if replies@.len() == 0 {
                    fetches(r, "http://dctp-ivms2-restapi.s3.amazonaws.com/version.json"@, Expect::Json)
                } else {
                    match reply_json_at(replies@, 0) {
                        Some(version) => match json_str_at(version@, "version_name"@) {
                            Some(v) => if replies@.len() == 1 {
                                fetches(r, dctp_base(v) + "/slugs/"@ + id + ".json"@, Expect::Json)
                            } else {
                                match reply_json_at(replies@, 1) {
                                    Some(slug) => match json_lookup(slug@, "object_id"@) {
                                        Some(oid) => if replies@.len() == 2 {
                                            fetches(r, dctp_base(v) + "/media/"@ + value_text(oid) + ".json"@, Expect::Json)
                                        } else {
                                            match reply_json_at(replies@, 2) {
                                                Some(media) => match json_str_at(media@, "uuid"@) {
                                                    Some(uuid) => done_with(r, dctp_info(id, media@, uuid)),
                                                    None => fails_with(r, ExtractorErrorKind::Extraction),
                                                },
                                                None => fails_with(r, ExtractorErrorKind::Extraction),
                                            }
                                        },
                                        None => fails_with(r, ExtractorErrorKind::Extraction),
                                    },
                                    None => fails_with(r, ExtractorErrorKind::Extraction),
                                }
                            },
                            None => fails_with(r, ExtractorErrorKind::Extraction),
                        },
                        None => fails_with(r, ExtractorErrorKind::Extraction),
                    }
                },
                None => fails_with(r, ExtractorErrorKind::InvalidUrl),
            },
    {
        let display_id = match self.site.capture(url, "id") {
            Some(v) => v,
            None => return Err(fail(ExtractorErrorKind::InvalidUrl, "DCTP URL has no slug")),
        };
        if replies.len() == 0 {
            return Ok(Step::Fetch(get_json(owned("http://dctp-ivms2-restapi.s3.amazonaws.com/version.json"))));
        }
        let version = reply_json(replies, 0)?;
        let version_name = match json_string(version, "version_name") {
            Some(v) => v,
            None => return Err(fail(ExtractorErrorKind::Extraction, "DCTP version response has no version_name")),
        };
        let base = concat3("http://dctp-ivms2-restapi.s3.amazonaws.com/", version_name, "/restapi");
        if replies.len() == 1 {
            return Ok(Step::Fetch(get_json(concat4(base.as_str(), "/slugs/", display_id.as_str(), ".json"))));
        }
        let slug = reply_json(replies, 1)?;
        let object_id = match json_value_string(json_get(slug, "object_id")) {
            Some(o) => o,
            None => return Err(ExtractorError::new(ExtractorErrorKind::Extraction, concat3("DCTP film ", display_id.as_str(), " has no object ID"))),
        };
        if replies.len() == 2 {
            return Ok(Step::Fetch(get_json(concat4(base.as_str(), "/media/", object_id.as_str(), ".json"))));
        }
        let media = reply_json(replies, 2)?;
        let uuid = match json_string(media, "uuid") {
            Some(u) => u,
            None => return Err(ExtractorError::new(ExtractorErrorKind::Extraction, concat3("DCTP film ", display_id.as_str(), " has no media UUID"))),
        };
        let wide = match json_bool(media, "is_wide") { Some(b) => b, None => false };
        let mut formats = arr_new();
        if wide {
            dctp_add_formats(&mut formats, uuid, "0500_16x9");
            dctp_add_formats(&mut formats, uuid, "720p");
        } else {
            dctp_add_formats(&mut formats, uuid, "0500_4x3");
        }
        assert(items_view(formats@) =~= dctp_formats(uuid@, wide));
        let mut first_url = concat3("https://cdn-segments.dctp.tv/", uuid, "_dctp_");
        push_str(&mut first_url, if wide { "0500_16x9" } else { "0500_4x3" });
        push_str(&mut first_url, ".m4v/playlist.m3u8");
        proof {
            reveal_strlit(".m4v/playlist.m3u8");
            reveal_strlit(".m4v");
            reveal_strlit("/playlist.m3u8");
            assert(first_url@ =~= "https://cdn-segments.dctp.tv/"@ + uuid@ + "_dctp_"@
                + (if wide { "0500_16x9"@ } else { "0500_4x3"@ }) + ".m4v"@ + "/playlist.m3u8"@);
        }
        let mut info = InfoDict::new();
        info.insert("id", jstr(uuid));
        info.insert("display_id", JsonValue::Str(display_id.clone()));
        info.insert("title", JsonValue::Str(match json_string(media, "title") { Some(t) => owned(t), None => display_id.clone() }));
        info.insert_if_some("alt_title", opt_str_json(json_string(media, "subtitle")));
        info.insert_if_some("description", match json_string(media, "description") {
            Some(d) => Some(jstr(d)),
            None => opt_str_json(json_string(media, "teaser")),
        });
        info.insert_if_some("timestamp", match json_string(media, "created") { Some(c) => opt_int_json(parse_timestamp(c)), None => None });
        info.insert_if_some("duration", json_thousandth(json_f64(media, "duration_in_ms")));
        info.insert_if_some("thumbnails", record_thumbnails(media));
        info.insert("url", JsonValue::Str(first_url));
        info.insert("ext", jstr("m4v"));
        info.insert("formats", arr_done(formats));
        assert(info@ == dctp_info(display_id@, media@, uuid@));
        Ok(Step::Done(ExtractorResult::single(info)))
    }
}


/// The format of an Arnes media record, when it has an address.
pub open spec fn arnes_format(item: Json) -> Option<Json> {
    match json_str_at(item, "url"@) {
        Some(raw) => {
            let u = resolved("https://video.arnes.si"@, raw);
            let fid = match json_str_at(item, "format"@) {
                Some(f) => without_prefix(f, "FORMAT_"@),
                None => None,
            };
            Some(Json::Object(seq![
                ("url"@, Json::Str(u)),
                ("format_id"@, or_null(opt_str(fid))),
                ("format_note"@, or_null(opt_str(json_str_at(item, "formatTranslation"@)))),
                ("width"@, int_or_null(json_int_at(item, "width"@))),
                ("height"@, int_or_null(json_int_at(item, "height"@))),
                ("ext"@, Json::Str(ext_of(u, "mp4"@))),
            ]))
        },
        None => None,
    }
}

/// The formats of the first `n` Arnes media records.
pub open spec fn arnes_formats(items: Seq<Json>, n: int) -> Seq<Json>
    decreases n,
{
    if n <= 0 {
        Seq::empty()
    } else {
        match arnes_format(items[n - 1]) {
            Some(f) => arnes_formats(items, n - 1).push(f),
            None => arnes_formats(items, n - 1),
        }
    }
}

/// The metadata of an Arnes video.
pub open spec fn arnes_info(url: Seq<char>, id: Seq<char>, video: Json, title: Seq<char>, fs: Seq<Json>) -> Map<Seq<char>, Json> {
    let channel = or_null(json_lookup(video, "channel"@));
    let cid = json_str_at(channel, "url"@);
    let m0 = put_opt(put_opt(put_opt(put_opt(put_opt(Map::<Seq<char>, Json>::empty()
        .insert("id"@, Json::Str(id))
        .insert("title"@, Json::Str(title)),
        "thumbnail"@, match json_str_at(video, "thumbnailUrl"@) { Some(t) => Some(Json::Str(resolved("https://video.arnes.si"@, t))), None => None }),
        "description"@, opt_str(json_str_at(video, "description"@))),
        "license"@, opt_str(json_str_at(video, "license"@))),
        "creator"@, opt_str(json_str_at(video, "author"@))),
        "timestamp"@, opt_int(timestamp_in(json_str_at(video, "creationTime"@))));
    let m1 = put_opt(put_opt(put_opt(m0, "channel"@, opt_str(json_str_at(channel, "name"@))),
        "channel_id"@, opt_str(cid)),
        "channel_url"@, match cid { Some(c) => Some(Json::Str("https://video.arnes.si/?channel="@ + c)), None => None });
    let m2 = put_opt(put_opt(put_opt(put_opt(m1, "duration"@, thousandth(json_num_at(video, "duration"@))),
        "view_count"@, opt_int(json_int_at(video, "views"@))),
        "tags"@, json_lookup(video, "hashtags"@)),
        "start_time"@, opt_int(match query_value(url, "t"@) { Some(t) => parsed_int(t), None => None }));
    put_opt(put_opt(m2, "url"@, format_str(fs[0], "url"@)), "ext"@, format_str(fs[0], "ext"@))
        .insert("formats"@, Json::Array(fs))
}

/// A string as JSON, or null.
fn str_or_null(s: Option<&str>) -> (r: JsonValue)
    ensures
        r@ == or_null(opt_str(str_opt_view(s))),
{
    match s {
        Some(x) => jstr(x),
        None => JsonValue::Null,
    }
}

/// An integer as JSON, or null.
fn int_or_null_value(i: Option<i64>) -> (r: JsonValue)
    ensures
        r@ == int_or_null(match i { Some(x) => Some(x as int), None => None }),
{
    match i {
        Some(x) => JsonValue::Int(x),
        None => JsonValue::Null,
    }
}

impl ArnesExtractor {
    /// One step of an Arnes extraction: the video record is asked of the public API, and
    /// its media records become the formats.
    #[verifier::rlimit(40)]
    pub fn extract_step(&self, url: &str, replies: &Vec<Reply>) -> (r: Result<Step, ExtractorError>)
        ensures
            match regex_named_capture(self.matcher().source(), url@, "id"@) {
                Some(id) => if replies@.len() == 0 {
                    fetches(r, "https://video.arnes.si/api/public/video/"@ + id, Expect::Json)
                } else {
                    match reply_json_at(replies@, 0) {
                        Some(resp) => match json_lookup(resp@, "data"@) {
                            Some(video) => match json_str_at(video, "title"@) {
                                Some(title) => match json_lookup(video, "media"@) {
                                    Some(Json::Array(items)) => if arnes_formats(items, items.len() as int).len() > 0 {
                                        done_with(r, arnes_info(url@, id, video, title, arnes_formats(items, items.len() as int)))
                                    } else {
                                        fails_with(r, ExtractorErrorKind::Extraction)
                                    },
                                    _ => fails_with(r, ExtractorErrorKind::Extraction),
                                },
                                None => fails_with(r, ExtractorErrorKind::Extraction),
                            },
                            None => fails_with(r, ExtractorErrorKind::Extraction),
                        },
                        None => fails_with(r, ExtractorErrorKind::Extraction),
                    }
                },
                None => fails_with(r, ExtractorErrorKind::InvalidUrl),
            },
    {
        let video_id = match self.site.capture(url, "id") {
            Some(v) => v,
            None => return Err(fail(ExtractorErrorKind::InvalidUrl, "Arnes URL has no ID")),
        };
        if replies.len() == 0 {
            return Ok(Step::Fetch(get_json(concat2("https://video.arnes.si/api/public/video/", video_id.as_str()))));
        }
        let resp = reply_json(replies, 0)?;
        let video = match json_get(resp, "data") {
            Some(v) => v,
            None => return Err(ExtractorError::new(ExtractorErrorKind::Extraction, concat3("Arnes video ", video_id.as_str(), " has no data object"))),
        };
        let title = match json_string(video, "title") {
            Some(t) => t,
            None => return Err(ExtractorError::new(ExtractorErrorKind::Extraction, concat3("Arnes video ", video_id.as_str(), " has no title"))),
        };
        let items = match json_get(video, "media") {
            Some(x) => match x {
                JsonValue::Array(items) => {
                    proof { lemma_array_view(*x); }
                    items
                },
                _ => return Err(ExtractorError::new(ExtractorErrorKind::Extraction, concat3("Arnes video ", video_id.as_str(), " has no media records"))),
            },
            None => return Err(ExtractorError::new(ExtractorErrorKind::Extraction, concat3("Arnes video ", video_id.as_str(), " has no media records"))),
        };
        let ghost iv = items_view(items@);
        let mut formats = arr_new();
        let mut i: usize = 0;
        while i < items.len()
            invariant
                i <= items@.len(),
                iv == items_view(items@),
                items_view(formats@) == arnes_formats(iv, i as int),
            decreases items@.len() - i,
        {
            let item = &items[i];
            match json_string(item, "url") {
                Some(raw) => {
                    let u = resolve_url("https://video.arnes.si", raw);
                    let fid = match json_string(item, "format") {
                        Some(f) => strip_prefix(f, "FORMAT_"),
                        None => None,
                    };
                    let ext = determine_ext(u.as_str(), "mp4");
                    let mut f = obj_new();
                    obj_add(&mut f, "url", jstr(u.as_str()));
                    obj_add(&mut f, "format_id", match fid { Some(x) => JsonValue::Str(x), None => JsonValue::Null });
                    obj_add(&mut f, "format_note", str_or_null(json_string(item, "formatTranslation")));
                    obj_add(&mut f, "width", int_or_null_value(json_i64(item, "width")));
                    obj_add(&mut f, "height", int_or_null_value(json_i64(item, "height")));
                    obj_add(&mut f, "ext", JsonValue::Str(ext));
                    let fj = obj_done(f);
                    assert(Some(fj@) == arnes_format(iv[i as int])) by {
                        assert(fields_view(f@) =~= arnes_format(iv[i as int]).unwrap()->Object_0);
                    }
                    arr_add(&mut formats, fj);
                },
                None => {},
            }
            i = i + 1;
        }
        if formats.len() == 0 {
            return Err(ExtractorError::new(ExtractorErrorKind::Extraction, concat3("Arnes video ", video_id.as_str(), " has no playable media")));
        }
        let url0 = format_string(&formats[0], "url");
        let ext0 = format_string(&formats[0], "ext");
        let null = JsonValue::Null;
        let channel = member_or_null(video, "channel", &null);
        let cid = json_string(channel, "url");
        let mut info = InfoDict::new();
        info.insert("id", JsonValue::Str(video_id.clone()));
        info.insert("title", jstr(title));
        info.insert_if_some("thumbnail", match json_string(video, "thumbnailUrl") { Some(t) => Some(JsonValue::Str(resolve_url("https://video.arnes.si", t))), None => None });
        info.insert_if_some("description", opt_str_json(json_string(video, "description")));
        info.insert_if_some("license", opt_str_json(json_string(video, "license")));
        info.insert_if_some("creator", opt_str_json(json_string(video, "author")));
        info.insert_if_some("timestamp", match json_string(video, "creationTime") { Some(c) => opt_int_json(parse_timestamp(c)), None => None });
        info.insert_if_some("channel", opt_str_json(json_string(channel, "name")));
        info.insert_if_some("channel_id", opt_str_json(cid));
        info.insert_if_some("channel_url", match cid { Some(c) => Some(JsonValue::Str(concat2("https://video.arnes.si/?channel=", c))), None => None });
        info.insert_if_some("duration", json_thousandth(json_f64(video, "duration")));
        info.insert_if_some("view_count", opt_int_json(json_i64(video, "views")));
        info.insert_if_some("tags", match json_get(video, "hashtags") { Some(t) => Some(json_clone(t)), None => None });
        info.insert_if_some("start_time", match url_query_value(url, "t") { Some(t) => opt_int_json(parse_int(t.as_str())), None => None });
        info.insert_if_some("url", url0);
        info.insert_if_some("ext", ext0);
        info.insert("formats", arr_done(formats));
        Ok(Step::Done(ExtractorResult::single(info)))
    }
}

/// Where a CJSW page gives its episode title, and the player's title.
pub open spec fn cjsw_title_patterns() -> (Seq<char>, Seq<char>) {
    ("(?is)<h1\\b[^>]*\\bclass\\s*=\\s*[\"'][^\"']*episode-header__title[^\"']*[\"'][^>]*>([^<]+)"@,
     "(?is)\\bdata-audio-title\\s*=\\s*[\"']([^\"']+)[\"']"@)
}

/// Where a CJSW page gives its audio, its first paragraph and its show.
pub open spec fn cjsw_patterns() -> (Seq<char>, Seq<char>, Seq<char>, Seq<char>) {
    ("(?is)<button\\b[^>]*\\bdata-audio-src\\s*=\\s*[\"']([^\"']+)[\"']"@,
     "(?i)/([\\da-f]{8}-[\\da-f]{4}-[\\da-f]{4}-[\\da-f]{4}-[\\da-f]{12})\\.mp3"@,
     "(?is)<p\\b[^>]*>(.*?)</p>"@,
     "(?is)\\bdata-showname\\s*=\\s*[\"']([^\"']+)[\"']"@)
}

/// The title of a CJSW episode page.
pub open spec fn cjsw_title(html: Seq<char>) -> Option<Seq<char>> {
    match first_group(cjsw_title_patterns().0, html, 1) {
        Some(t) => Some(unescaped(trimmed(t))),
        None => match first_group(cjsw_title_patterns().1, html, 1) {
            Some(t) => Some(unescaped(trimmed(t))),
            None => None,
        },
    }
}

/// The metadata of a CJSW episode.
pub open spec fn cjsw_info(program: Seq<char>, episode: Seq<char>, html: Seq<char>, title: Seq<char>, audio: Seq<char>) -> Map<Seq<char>, Json> {
    let id = match first_group(cjsw_patterns().1, audio, 1) { Some(x) => x, None => program + "/"@ + episode };
    let ext = ext_of(audio, "mp3"@);
    let desc = match first_group(cjsw_patterns().2, html, 1) {
        Some(p) => if trimmed(text_fragment(p)).len() > 0 { Some(trimmed(text_fragment(p))) } else { None },
        None => None,
    };
    let series = match first_group(cjsw_patterns().3, html, 1) { Some(s) => unescaped(s), None => program };
    put_opt(Map::<Seq<char>, Json>::empty()
        .insert("id"@, Json::Str(id))
        .insert("title"@, Json::Str(title)),
        "description"@, opt_str(desc))
        .insert("series"@, Json::Str(series))
        .insert("episode_id"@, Json::Str(episode))
        .insert("url"@, Json::Str(audio))
        .insert("ext"@, Json::Str(ext))
        .insert("formats"@, Json::Array(seq![Json::Object(seq![
            ("url"@, Json::Str(audio)),
            ("format_id"@, Json::Str("source"@)),
            ("ext"@, Json::Str(ext)),
            ("vcodec"@, Json::Str("none"@)),
        ])]))
}

impl CjswExtractor {
    /// One step of a CJSW extraction: the episode page gives the title and the audio.
    pub fn extract_step(&self, url: &str, replies: &Vec<Reply>) -> (r: Result<Step, ExtractorError>)
        ensures
            match regex_named_capture(self.matcher().source(), url@, "program"@) {
                Some(program) => match regex_named_capture(self.matcher().source(), url@, "id"@) {
                    Some(episode) => if replies@.len() == 0 {
                        fetches(r, url@, Expect::Text)
                    } else {
                        match reply_text_at(replies@, 0) {
                            Some(html) => match cjsw_title(html) {
                                Some(title) => match first_group(cjsw_patterns().0, html, 1) {
                                    Some(a) => done_with(r, cjsw_info(program, episode, html, title, unescaped(a))),
                                    None => fails_with(r, ExtractorErrorKind::Extraction),
                                },
                                None => fails_with(r, ExtractorErrorKind::Extraction),
                            },
                            None => fails_with(r, ExtractorErrorKind::Extraction),
                        }
                    },
                    None => fails_with(r, ExtractorErrorKind::InvalidUrl),
                },
                None => fails_with(r, ExtractorErrorKind::InvalidUrl),
            },
    {
        let program = match self.site.capture(url, "program") {
            Some(v) => v,
            None => return Err(fail(ExtractorErrorKind::InvalidUrl, "CJSW URL has no program")),
        };
        let episode_id = match self.site.capture(url, "id") {
            Some(v) => v,
            None => return Err(fail(ExtractorErrorKind::InvalidUrl, "CJSW URL has no episode ID")),
        };
        if replies.len() == 0 {
            return Ok(Step::Fetch(get_text(owned(url))));
        }
        let html = reply_text(replies, 0)?;
        let title = match regex_first_group("(?is)<h1\\b[^>]*\\bclass\\s*=\\s*[\"'][^\"']*episode-header__title[^\"']*[\"'][^>]*>([^<]+)", html.as_str(), 1) {
            Some(t) => unescape_html(trim(t.as_str()).as_str()),
            None => match regex_first_group("(?is)\\bdata-audio-title\\s*=\\s*[\"']([^\"']+)[\"']", html.as_str(), 1) {
                Some(t) => unescape_html(trim(t.as_str()).as_str()),
                None => return Err(ExtractorError::new(ExtractorErrorKind::Extraction, concat3("CJSW episode ", episode_id.as_str(), " has no title"))),
            },
        };
        let audio = match regex_first_group("(?is)<button\\b[^>]*\\bdata-audio-src\\s*=\\s*[\"']([^\"']+)[\"']", html.as_str(), 1) {
            Some(a) => unescape_html(a.as_str()),
            None => return Err(ExtractorError::new(ExtractorErrorKind::Extraction, concat3("CJSW episode ", episode_id.as_str(), " has no audio URL"))),
        };
        let id = match regex_first_group("(?i)/([\\da-f]{8}-[\\da-f]{4}-[\\da-f]{4}-[\\da-f]{4}-[\\da-f]{12})\\.mp3", audio.as_str(), 1) {
            Some(x) => x,
            None => concat3(program.as_str(), "/", episode_id.as_str()),
        };
        let ext = determine_ext(audio.as_str(), "mp3");
        let description = match regex_first_group("(?is)<p\\b[^>]*>(.*?)</p>", html.as_str(), 1) {
            Some(p) => {
                let t = trim(html_text_fragment(p.as_str()).as_str());
                if t.unicode_len() > 0 { Some(JsonValue::Str(t)) } else { None }
            },
            None => None,
        };
        let series = match regex_first_group("(?is)\\bdata-showname\\s*=\\s*[\"']([^\"']+)[\"']", html.as_str(), 1) {
            Some(s) => unescape_html(s.as_str()),
            None => program.clone(),
        };
        let mut info = InfoDict::new();
        info.insert("id", JsonValue::Str(id));
        info.insert("title", JsonValue::Str(title));
        info.insert_if_some("description", description);
        info.insert("series", JsonValue::Str(series));
        info.insert("episode_id", JsonValue::Str(episode_id));
        info.insert("url", jstr(audio.as_str()));
        info.insert("ext", jstr(ext.as_str()));
        let mut f = obj_new();
        obj_add(&mut f, "url", jstr(audio.as_str()));
        obj_add(&mut f, "format_id", jstr("source"));
        obj_add(&mut f, "ext", jstr(ext.as_str()));
        obj_add(&mut f, "vcodec", jstr("none"));
        assert(fields_view(f@) =~= seq![
            ("url"@, Json::Str(audio@)),
            ("format_id"@, Json::Str("source"@)),
            ("ext"@, Json::Str(ext@)),
            ("vcodec"@, Json::Str("none"@)),
        ]);
        let mut a = arr_new();
        arr_add(&mut a, obj_done(f));
        info.insert("formats", arr_done(a));
        Ok(Step::Done(ExtractorResult::single(info)))
    }
}


/// The article API address of Premiership Rugby article `slug`.
pub open spec fn prl_api(slug: Seq<char>) -> Seq<char> {
    "https://article-cms-api.incrowdsports.com/v2/articles/slug/"@ + slug + "?clientId=PRL"@
}

/// The `text` strings of the first `n` items.
pub open spec fn item_texts(items: Seq<Json>, n: int) -> Seq<Json>
    decreases n,
{
    if n <= 0 {
        Seq::empty()
    } else {
        match json_str_at(items[n - 1], "text"@) {
            Some(t) => item_texts(items, n - 1).push(Json::Str(t)),
            None => item_texts(items, n - 1),
        }
    }
}

/// The metadata of a Premiership Rugby article video.
pub open spec fn prl_info(slug: Seq<char>, article: Json, hero: Json, content: Json, media: Seq<char>) -> Map<Seq<char>, Json> {
    let m0 = put_opt(put_opt(put_opt(put_opt(Map::<Seq<char>, Json>::empty()
        .insert("id"@, Json::Str(match json_str_at(content, "sourceSystemId"@) { Some(v) => v, None => slug }))
        .insert("display_id"@, Json::Str(slug)),
        "title"@, opt_str(json_str_at(hero, "title"@))),
        "thumbnail"@, opt_str(json_str_at(content, "videoThumbnail"@))),
        "duration"@, thousandth(match json_lookup(content, "metadata"@) { Some(md) => json_num_at(md, "msDuration"@), None => None })),
        "tags"@, json_lookup(article, "tags"@));
    put_opt(put_opt(m0, "categories"@, match json_lookup(article, "categories"@) {
        Some(Json::Array(items)) => Some(Json::Array(item_texts(items, items.len() as int))),
        _ => None,
    }), "subtitles"@, match json_lookup(content, "subtitles"@) {
        Some(s) => Some(s),
        None => json_lookup(content, "captions"@),
    })
        .insert("url"@, Json::Str(media))
        .insert("ext"@, Json::Str("mp4"@))
        .insert("formats"@, Json::Array(seq![Json::Object(seq![
            ("url"@, Json::Str(media)),
            ("format_id"@, Json::Str("hls"@)),
            ("protocol"@, Json::Str("m3u8_native"@)),
            ("ext"@, Json::Str("mp4"@)),
        ])]))
}

/// A copy of member `key`, when there is one.
fn member_clone(v: &JsonValue, key: &str) -> (r: Option<JsonValue>)
    ensures
        json_opt_view(r) == json_lookup(v@, key@),
{
    match json_get(v, key) {
        Some(x) => Some(json_clone(x)),
        None => None,
    }
}

impl PremiershipRugbyExtractor {
    /// One step of a Premiership Rugby extraction: the article record is asked of the
    /// CMS, and its hero media gives the video.
    pub fn extract_step(&self, url: &str, replies: &Vec<Reply>) -> (r: Result<Step, ExtractorError>)
        ensures
            match regex_named_capture(self.matcher().source(), url@, "id"@) {
                Some(slug) => if replies@.len() == 0 {
                    fetches(r, prl_api(slug), Expect::Json)
                } else {
                    match reply_json_at(replies@, 0) {
                        Some(resp) => match lookup_in(json_lookup(resp@, "data"@), "article"@) {
                            Some(article) => match json_lookup(article, "heroMedia"@) {
                                Some(hero) => match json_lookup(hero, "content"@) {
                                    Some(content) => match json_str_at(content, "videoLink"@) {
                                        Some(m) => done_with(r, prl_info(slug, article, hero, content, m)),
                                        None => fails_with(r, ExtractorErrorKind::Extraction),
                                    },
                                    None => fails_with(r, ExtractorErrorKind::Extraction),
                                },
                                None => fails_with(r, ExtractorErrorKind::Extraction),
                            },
                            None => fails_with(r, ExtractorErrorKind::Extraction),
                        },
                        None => fails_with(r, ExtractorErrorKind::Extraction),
                    }
                },
                None => fails_with(r, ExtractorErrorKind::InvalidUrl),
            },
    {
        let slug = match self.site.capture(url, "id") {
            Some(v) => v,
            None => return Err(fail(ExtractorErrorKind::InvalidUrl, "Premiership Rugby URL has no article slug")),
        };
        if replies.len() == 0 {
            return Ok(Step::Fetch(get_json(concat3("https://article-cms-api.incrowdsports.com/v2/articles/slug/", slug.as_str(), "?clientId=PRL"))));
        }
        let resp = reply_json(replies, 0)?;
        let article = match json_get(resp, "data") {
            Some(d) => match json_get(d, "article") {
                Some(a) => a,
                None => return Err(ExtractorError::new(ExtractorErrorKind::Extraction, concat3("Premiership Rugby article ", slug.as_str(), " has no article object"))),
            },
            None => return Err(ExtractorError::new(ExtractorErrorKind::Extraction, concat3("Premiership Rugby article ", slug.as_str(), " has no article object"))),
        };
        let hero = match json_get(article, "heroMedia") {
            Some(h) => h,
            None => return Err(ExtractorError::new(ExtractorErrorKind::Extraction, concat3("Premiership Rugby article ", slug.as_str(), " has no hero media"))),
        };
        let content = match json_get(hero, "content") {
            Some(c) => c,
            None => return Err(ExtractorError::new(ExtractorErrorKind::Extraction, concat3("Premiership Rugby article ", slug.as_str(), " has no media content"))),
        };
        let media = match json_string(content, "videoLink") {
            Some(m) => m,
            None => return Err(ExtractorError::new(ExtractorErrorKind::Extraction, concat3("Premiership Rugby article ", slug.as_str(), " has no video link"))),
        };
        let categories = match json_get(article, "categories") {
            Some(x) => match x {
                JsonValue::Array(items) => {
                    proof { lemma_array_view(*x); }
                    let ghost iv = items_view(items@);
                    let mut out = arr_new();
                    let mut i: usize = 0;
                    while i < items.len()
                        invariant
                            i <= items@.len(),
                            iv == items_view(items@),
                            items_view(out@) == item_texts(iv, i as int),
                        decreases items@.len() - i,
                    {
                        match json_string(&items[i], "text") {
                            Some(t) => arr_add(&mut out, jstr(t)),
                            None => {},
                        }
                        i = i + 1;
                    }
                    Some(arr_done(out))
                },
                _ => None,
            },
            None => None,
        };
        let mut info = InfoDict::new();
        info.insert("id", JsonValue::Str(match json_string(content, "sourceSystemId") { Some(v) => owned(v), None => slug.clone() }));
        info.insert("display_id", JsonValue::Str(slug.clone()));
        info.insert_if_some("title", opt_str_json(json_string(hero, "title")));
        info.insert_if_some("thumbnail", opt_str_json(json_string(content, "videoThumbnail")));
        info.insert_if_some("duration", json_thousandth(match json_get(content, "metadata") { Some(md) => json_f64(md, "msDuration"), None => None }));
        info.insert_if_some("tags", member_clone(article, "tags"));
        info.insert_if_some("categories", categories);
        info.insert_if_some("subtitles", match member_clone(content, "subtitles") {
            Some(s) => Some(s),
            None => member_clone(content, "captions"),
        });
        info.insert("url", jstr(media));
        info.insert("ext", jstr("mp4"));
        let mut f = obj_new();
        obj_add(&mut f, "url", jstr(media));
        obj_add(&mut f, "format_id", jstr("hls"));
        obj_add(&mut f, "protocol", jstr("m3u8_native"));
        obj_add(&mut f, "ext", jstr("mp4"));
        assert(fields_view(f@) =~= seq![
            ("url"@, Json::Str(media@)),
            ("format_id"@, Json::Str("hls"@)),
            ("protocol"@, Json::Str("m3u8_native"@)),
            ("ext"@, Json::Str("mp4"@)),
        ]);
        let mut a = arr_new();
        arr_add(&mut a, obj_done(f));
        info.insert("formats", arr_done(a));
        Ok(Step::Done(ExtractorResult::single(info)))
    }
}

/// The HLS format of a Daystar source record, when it is one.
pub open spec fn daystar_format(source: Json) -> Option<Json> {
    match json_str_at(source, "file"@) {
        Some(raw) => match json_str_at(source, "type"@) {
            Some(t) => if lowered(t) == lowered("m3u8"@) {
                Some(Json::Object(seq![
                    ("url"@, Json::Str(resolved("https://www.lightcast.com/embed/"@, raw))),
                    ("format_id"@, Json::Str("hls"@)),
                    ("protocol"@, Json::Str("m3u8_native"@)),
                    ("ext"@, Json::Str("mp4"@)),
                ]))
            } else {
                None
            },
            None => None,
        },
        None => None,
    }
}

/// The HLS formats of the first `n` source records.
pub open spec fn daystar_formats(sources: Seq<Json>, n: int) -> Seq<Json>
    decreases n,
{
    if n <= 0 {
        Seq::empty()
    } else {
        match daystar_format(sources[n - 1]) {
            Some(f) => daystar_formats(sources, n - 1).push(f),
            None => daystar_formats(sources, n - 1),
        }
    }
}

/// The player address of a Daystar page at `url`.
pub open spec fn daystar_iframe(url: Seq<char>, html: Seq<char>) -> Option<Seq<char>> {
    match first_group("(?is)<iframe\\b[^>]*\\bsrc\\s*=\\s*[\"']([^\"']+)[\"']"@, html, 1) {
        Some(v) => Some(resolved(url, v)),
        None => None,
    }
}

/// The metadata of a Daystar clip.
pub open spec fn daystar_info(id: Seq<char>, html: Seq<char>, config_url: Seq<char>, config: Seq<char>, fs: Seq<Json>) -> Map<Seq<char>, Json> {
    put_opt(put_opt(put_opt(put_opt(Map::<Seq<char>, Json>::empty()
        .insert("id"@, Json::Str(id)),
        "title"@, opt_str(first_str(meta_value(html, "og:title"@), meta_value(html, "twitter:title"@)))),
        "description"@, opt_str(first_str(meta_value(html, "og:description"@), meta_value(html, "twitter:description"@)))),
        "thumbnail"@, match first_group("(?is)\\bimage\\s*:\\s*[\"']([^\"']+)"@, config, 1) {
            Some(v) => Some(Json::Str(resolved(config_url, v))),
            None => None,
        }),
        "url"@, format_str(fs[0], "url"@))
        .insert("ext"@, Json::Str("mp4"@))
        .insert("formats"@, Json::Array(fs))
}

impl DaystarClipExtractor {
    /// One step of a Daystar extraction: the clip page names its player, whose
    /// configuration lists the sources; the HLS ones are the formats.
    pub fn extract_step(&self, url: &str, replies: &Vec<Reply>) -> (r: Result<Step, ExtractorError>)
        ensures
            match regex_named_capture(self.matcher().source(), url@, "id"@) {
                Some(id) => if replies@.len() == 0 {
                    fetches(r, url@, Expect::Text)
                } else {
                    match reply_text_at(replies@, 0) {
                        Some(html) => match daystar_iframe(url@, html) {
                            Some(iframe) => {
                                let cu = replaced(iframe, "player.php"@, "config2.php"@);
                                if replies@.len() == 1 {
                                    fetches(r, cu, Expect::Text)
                                } else {
                                    match reply_text_at(replies@, 1) {
                                        Some(config) => match json_after_marker(config, "sources"@, '[') {
                                            Some(Json::Array(ss)) => if daystar_formats(ss, ss.len() as int).len() > 0 {
                                                done_with(r, daystar_info(id, html, cu, config, daystar_formats(ss, ss.len() as int)))
                                            } else {
                                                fails_with(r, ExtractorErrorKind::Extraction)
                                            },
                                            _ => fails_with(r, ExtractorErrorKind::Extraction),
                                        },
                                        None => fails_with(r, ExtractorErrorKind::Extraction),
                                    }
                                }
                            },
                            None => fails_with(r, ExtractorErrorKind::Extraction),
                        },
                        None => fails_with(r, ExtractorErrorKind::Extraction),
                    }
                },
                None => fails_with(r, ExtractorErrorKind::InvalidUrl),
            },
    {
        let video_id = match self.site.capture(url, "id") {
            Some(v) => v,
            None => return Err(fail(ExtractorErrorKind::InvalidUrl, "Daystar URL has no ID")),
        };
        if replies.len() == 0 {
            return Ok(Step::Fetch(get_text(owned(url))));
        }
        let html = reply_text(replies, 0)?;
        let iframe = match regex_first_group("(?is)<iframe\\b[^>]*\\bsrc\\s*=\\s*[\"']([^\"']+)[\"']", html.as_str(), 1) {
            Some(v) => resolve_url(url, v.as_str()),
            None => return Err(ExtractorError::new(ExtractorErrorKind::Extraction, concat3("Daystar clip ", video_id.as_str(), " has no iframe"))),
        };
        let config_url = replace_str(iframe.as_str(), "player.php", "config2.php");
        if replies.len() == 1 {
            return Ok(Step::Fetch(get_text(config_url)));
        }
        let config = reply_text(replies, 1)?;
        let sources = match json_array_after_marker(config.as_str(), "sources") {
            Some(v) => v,
            None => return Err(ExtractorError::new(ExtractorErrorKind::Extraction, concat3("Daystar clip ", video_id.as_str(), " has no source list"))),
        };
        let ss = match &sources {
            JsonValue::Array(ss) => {
                proof { lemma_array_view(sources); }
                ss
            },
            _ => return Err(ExtractorError::new(ExtractorErrorKind::Extraction, concat3("Daystar clip ", video_id.as_str(), " has no source list"))),
        };
        let ghost sv = items_view(ss@);
        let mut formats = arr_new();
        let mut i: usize = 0;
        while i < ss.len()
            invariant
                i <= ss@.len(),
                sv == items_view(ss@),
                items_view(formats@) == daystar_formats(sv, i as int),
            decreases ss@.len() - i,
        {
            match json_string(&ss[i], "file") {
                Some(raw) => match json_string(&ss[i], "type") {
                    Some(t) => if eq_ignore_ascii_case(t, "m3u8") {
                        let mut f = obj_new();
                        obj_add(&mut f, "url", JsonValue::Str(resolve_url("https://www.lightcast.com/embed/", raw)));
                        obj_add(&mut f, "format_id", jstr("hls"));
                        obj_add(&mut f, "protocol", jstr("m3u8_native"));
                        obj_add(&mut f, "ext", jstr("mp4"));
                        let fj = obj_done(f);
                        assert(Some(fj@) == daystar_format(sv[i as int])) by {
                            assert(fields_view(f@) =~= daystar_format(sv[i as int]).unwrap()->Object_0);
                        }
                        arr_add(&mut formats, fj);
                    },
                    None => {},
                },
                None => {},
            }
            i = i + 1;
        }
        if formats.len() == 0 {
            return Err(ExtractorError::new(ExtractorErrorKind::Extraction, concat3("Daystar clip ", video_id.as_str(), " has no HLS source")));
        }
        let url0 = format_string(&formats[0], "url");
        let mut info = InfoDict::new();
        info.insert("id", JsonValue::Str(video_id));
        info.insert_if_some("title", match html_meta_value(html.as_str(), "og:title") {
            Some(t) => Some(JsonValue::Str(t)),
            None => match html_meta_value(html.as_str(), "twitter:title") { Some(t) => Some(JsonValue::Str(t)), None => None },
        });
        info.insert_if_some("description", match html_meta_value(html.as_str(), "og:description") {
            Some(t) => Some(JsonValue::Str(t)),
            None => match html_meta_value(html.as_str(), "twitter:description") { Some(t) => Some(JsonValue::Str(t)), None => None },
        });
        info.insert_if_some("thumbnail", match regex_first_group("(?is)\\bimage\\s*:\\s*[\"']([^\"']+)", config.as_str(), 1) {
            Some(v) => Some(JsonValue::Str(resolve_url(config_url.as_str(), v.as_str()))),
            None => None,
        });
        info.insert_if_some("url", url0);
        info.insert("ext", jstr("mp4"));
        info.insert("formats", arr_done(formats));
        Ok(Step::Done(ExtractorResult::single(info)))
    }
}


/// Where an Academic Earth playlist gives its name, excerpt and lectures.
pub open spec fn ae_patterns() -> (Seq<char>, Seq<char>, Seq<char>) {
    ("(?is)<h1\\b[^>]*\\bclass\\s*=\\s*[\"'][^\"']*playlist-name[^\"']*[\"'][^>]*>(.*?)</h1>"@,
     "(?is)<p\\b[^>]*\\bclass\\s*=\\s*[\"'][^\"']*excerpt[^\"']*[\"'][^>]*>(.*?)</p>"@,
     "(?is)<li\\b[^>]*\\bclass\\s*=\\s*[\"'][^\"']*lecture-preview[^\"']*[\"'][^>]*>\\s*<a\\b[^>]*\\btarget\\s*=\\s*[\"']_blank[\"'][^>]*\\bhref\\s*=\\s*[\"']([^\"']+)"@)
}

/// The lecture address a playlist link gives, resolved against `url`, or made absolute
/// with `https:` where that cannot be.
pub open spec fn ae_link(url: Seq<char>, raw: Seq<char>) -> Seq<char> {
    match joined_url(url, trimmed(raw)) {
        Some(u) => u,
        None => proto_relative(trimmed(raw), "https:"@),
    }
}

/// The entries of the first `n` lecture links.
pub open spec fn ae_entries(url: Seq<char>, all: Seq<Seq<Option<Seq<char>>>>, n: int) -> Seq<Map<Seq<char>, Json>>
    decreases n,
{
    if n <= 0 {
        Seq::empty()
    } else {
        match group_at(all[n - 1], 1) {
            Some(raw) => ae_entries(url, all, n - 1).push(url_result(ae_link(url, raw))),
            None => ae_entries(url, all, n - 1),
        }
    }
}

/// The metadata of an Academic Earth playlist.
pub open spec fn ae_info(id: Seq<char>, title: Seq<char>, html: Seq<char>) -> Map<Seq<char>, Json> {
    put_opt(Map::<Seq<char>, Json>::empty()
        .insert("id"@, Json::Str(id))
        .insert("title"@, Json::Str(title)),
        "description"@, match first_group(ae_patterns().1, html, 1) {
            Some(p) => if trimmed(text_fragment(p)).len() > 0 { Some(Json::Str(trimmed(text_fragment(p)))) } else { None },
            None => None,
        })
}

impl AcademicEarthCourseExtractor {
    /// One step of an Academic Earth playlist extraction: the playlist page gives its
    /// name and the lectures, each handed on as an address.
    pub fn extract_step(&self, url: &str, replies: &Vec<Reply>) -> (r: Result<Step, ExtractorError>)
        ensures
            match regex_named_capture(self.matcher().source(), url@, "id"@) {
                Some(id) => if replies@.len() == 0 {
                    fetches(r, url@, Expect::Text)
                } else {
                    match reply_text_at(replies@, 0) {
                        Some(html) => match nonblank_fragment(first_group(ae_patterns().0, html, 1)) {
                            Some(title) => if !regex_valid(ae_patterns().2) {
                                fails_with(r, ExtractorErrorKind::Extraction)
                            } else {
                                let all = regex_all_captures(ae_patterns().2, html);
                                done_playlist(r, ae_info(id, title, html), ae_entries(url@, all, all.len() as int))
                            },
                            None => fails_with(r, ExtractorErrorKind::Extraction),
                        },
                        None => fails_with(r, ExtractorErrorKind::Extraction),
                    }
                },
                None => fails_with(r, ExtractorErrorKind::InvalidUrl),
            },
    {
        let playlist_id = match self.site.capture(url, "id") {
            Some(v) => v,
            None => return Err(fail(ExtractorErrorKind::InvalidUrl, "Academic Earth playlist URL has no ID")),
        };
        if replies.len() == 0 {
            return Ok(Step::Fetch(get_text(owned(url))));
        }
        let html = reply_text(replies, 0)?;
        let title = match nonblank_group("(?is)<h1\\b[^>]*\\bclass\\s*=\\s*[\"'][^\"']*playlist-name[^\"']*[\"'][^>]*>(.*?)</h1>", html.as_str()) {
            Some(t) => t,
            None => return Err(ExtractorError::new(ExtractorErrorKind::Extraction, concat3("Academic Earth playlist ", playlist_id.as_str(), " has no title"))),
        };
        let description = match regex_first_group("(?is)<p\\b[^>]*\\bclass\\s*=\\s*[\"'][^\"']*excerpt[^\"']*[\"'][^>]*>(.*?)</p>", html.as_str(), 1) {
            Some(p) => {
                let t = trim(html_text_fragment(p.as_str()).as_str());
                if t.unicode_len() > 0 { Some(JsonValue::Str(t)) } else { None }
            },
            None => None,
        };
        let pattern = "(?is)<li\\b[^>]*\\bclass\\s*=\\s*[\"'][^\"']*lecture-preview[^\"']*[\"'][^>]*>\\s*<a\\b[^>]*\\btarget\\s*=\\s*[\"']_blank[\"'][^>]*\\bhref\\s*=\\s*[\"']([^\"']+)";
        if !regex_compiles(pattern) {
            return Err(fail(ExtractorErrorKind::Extraction, "invalid Academic Earth lecture matcher"));
        }
        let all = regex_captures_iter(pattern, html.as_str());
        let ghost av = all_groups_view(all@);
        let mut entries: Vec<InfoDict> = Vec::new();
        let mut i: usize = 0;
        assert(dicts_view(entries@) =~= Seq::<Map<Seq<char>, Json>>::empty());
        while i < all.len()
            invariant
                i <= all@.len(),
                av == all_groups_view(all@),
                all_wf(entries@),
                dicts_view(entries@) == ae_entries(url@, av, i as int),
            decreases all@.len() - i,
        {
            assert(av[i as int] == groups_view(all@[i as int]@));
            match capture_group(&all[i], 1) {
                Some(raw) => {
                    let t = trim(raw.as_str());
                    let link = match url_join(url, t.as_str()) {
                        Some(u) => u,
                        None => proto_relative_url(t.as_str(), "https:"),
                    };
                    let e = native_url_result(link.as_str());
                    let ghost prev = dicts_view(entries@);
                    entries.push(e);
                    assert(dicts_view(entries@) =~= prev.push(e@));
                },
                None => {},
            }
            i = i + 1;
        }
        let mut info = InfoDict::new();
        info.insert("id", JsonValue::Str(playlist_id));
        info.insert("title", JsonValue::Str(title));
        info.insert_if_some("description", description);
        Ok(Step::Done(ExtractorResult::Playlist { info, entries }))
    }
}

/// The media file of a SZTV page's player (`historic_tape` of the trimmed text).
pub open spec fn sztv_file(html: Seq<char>) -> Option<Seq<char>> {
    match first_group("(?is)\\bfile\\s*:\\s*[\"'][^\"']*?:([^\"']+)[\"']\\s*,"@, html, 1) {
        Some(v) => Some(historic_tape(trimmed(v))),
        None => None,
    }
}

/// The metadata of a SZTV video.
pub open spec fn sztv_info(id: Seq<char>, html: Seq<char>, file: Seq<char>) -> Map<Seq<char>, Json> {
    let m = "http://media.sztv.hu/vod/"@ + strip_leading(file, '/');
    let title = match meta_value(html, "title"@) {
        Some(t) => if trimmed(before_str(t, " - "@)).len() > 0 { trimmed(before_str(t, " - "@)) } else { id },
        None => id,
    };
    put_opt(put_opt(Map::<Seq<char>, Json>::empty()
        .insert("id"@, Json::Str(id))
        .insert("url"@, Json::Str(m))
        .insert("ext"@, Json::Str("mp4"@))
        .insert("title"@, Json::Str(title)),
        "description"@, opt_str(meta_value(html, "description"@))),
        "thumbnail"@, opt_str(meta_value(html, "og:image"@)))
        .insert("formats"@, Json::Array(seq![Json::Object(seq![
            ("url"@, Json::Str(m)),
            ("format_id"@, Json::Str("source"@)),
            ("ext"@, Json::Str("mp4"@)),
        ])]))
}

impl SztvHuExtractor {
    /// One step of a SZTV extraction: the page's player names the media file.
    pub fn extract_step(&self, url: &str, replies: &Vec<Reply>) -> (r: Result<Step, ExtractorError>)
        ensures
            match regex_named_capture(self.matcher().source(), url@, "id"@) {
                Some(id) => if replies@.len() == 0 {
                    fetches(r, url@, Expect::Text)
                } else {
                    match reply_text_at(replies@, 0) {
                        Some(html) => match sztv_file(html) {
                            Some(file) => done_with(r, sztv_info(id, html, file)),
                            None => fails_with(r, ExtractorErrorKind::Extraction),
                        },
                        None => fails_with(r, ExtractorErrorKind::Extraction),
                    }
                },
                None => fails_with(r, ExtractorErrorKind::InvalidUrl),
            },
    {
        let video_id = match self.site.capture(url, "id") {
            Some(v) => v,
            None => return Err(fail(ExtractorErrorKind::InvalidUrl, "SZTV URL has no ID")),
        };
        if replies.len() == 0 {
            return Ok(Step::Fetch(get_text(owned(url))));
        }
        let html = reply_text(replies, 0)?;
        let file = match regex_first_group("(?is)\\bfile\\s*:\\s*[\"'][^\"']*?:([^\"']+)[\"']\\s*,", html.as_str(), 1) {
            Some(v) => historic_tape_of(v.as_str()),
            None => return Err(ExtractorError::new(ExtractorErrorKind::Extraction, concat3("SZTV video ", video_id.as_str(), " has no media file"))),
        };
        let title = match html_meta_value(html.as_str(), "title") {
            Some(t) => {
                let head = trim(split_first(t.as_str(), " - ").as_str());
                if head.unicode_len() > 0 { head } else { video_id.clone() }
            },
            None => video_id.clone(),
        };
        let media = concat2("http://media.sztv.hu/vod/", trim_start_char(file.as_str(), '/').as_str());
        let mut info = InfoDict::new();
        info.insert("id", JsonValue::Str(video_id));
        info.insert("url", jstr(media.as_str()));
        info.insert("ext", jstr("mp4"));
        info.insert("title", JsonValue::Str(title));
        info.insert_if_some("description", match html_meta_value(html.as_str(), "description") { Some(d) => Some(JsonValue::Str(d)), None => None });
        info.insert_if_some("thumbnail", match html_meta_value(html.as_str(), "og:image") { Some(d) => Some(JsonValue::Str(d)), None => None });
        let mut f = obj_new();
        obj_add(&mut f, "url", jstr(media.as_str()));
        obj_add(&mut f, "format_id", jstr("source"));
        obj_add(&mut f, "ext", jstr("mp4"));
        assert(fields_view(f@) =~= seq![
            ("url"@, Json::Str(media@)),
            ("format_id"@, Json::Str("source"@)),
            ("ext"@, Json::Str("mp4"@)),
        ]);
        let mut a = arr_new();
        arr_add(&mut a, obj_done(f));
        info.insert("formats", arr_done(a));
        Ok(Step::Done(ExtractorResult::single(info)))
    }
}

/// The title of a MatchiTV stream: its court and start, those it has, else its ID.
pub open spec fn matchi_title(id: Seq<char>, court: Option<Seq<char>>, start: Option<Seq<char>>) -> Seq<char> {
    match (court, start) {
        (Some(c), Some(s)) => c + " "@ + s,
        (Some(c), None) => c,
        (None, Some(s)) => s,
        (None, None) => id,
    }
}

/// The loaded media record of a MatchiTV page, or null.
pub open spec fn matchi_media(html: Seq<char>) -> Json {
    match script_json(html, "__NEXT_DATA__"@) {
        Some(d) => or_null(lookup_in(lookup_in(json_lookup(d, "props"@), "pageProps"@), "loadedMedia"@)),
        None => Json::Null,
    }
}

/// The metadata of a MatchiTV stream.
pub open spec fn matchi_info(id: Seq<char>, media: Json) -> Map<Seq<char>, Json> {
    let court = json_str_at(media, "courtDescription"@);
    let start = json_str_at(media, "startDateTime"@);
    let m = "https://streams.padelgo.tv/v2/streams/m3u8/"@ + id + "/anonymous/playlist.m3u8"@;
    put_opt(Map::<Seq<char>, Json>::empty()
        .insert("id"@, Json::Str(id))
        .insert("title"@, Json::Str(matchi_title(id, court, start)))
        .insert("thumbnail"@, Json::Str("https://thumbnails.padelgo.tv/"@ + id + ".jpg"@)),
        "upload_date"@, opt_str(match start { Some(s) => date_digits_of(s), None => None }))
        .insert("url"@, Json::Str(m))
        .insert("ext"@, Json::Str("mp4"@))
        .insert("formats"@, Json::Array(seq![Json::Object(seq![
            ("url"@, Json::Str(m)),
            ("format_id"@, Json::Str("hls"@)),
            ("protocol"@, Json::Str("m3u8_native"@)),
            ("ext"@, Json::Str("mp4"@)),
        ])]))
}

impl MatchiTvExtractor {
    /// One step of a MatchiTV extraction: the page's data names the court and start; the
    /// stream's address follows from its ID.
    pub fn extract_step(&self, url: &str, replies: &Vec<Reply>) -> (r: Result<Step, ExtractorError>)
        ensures
            match regex_named_capture(self.matcher().source(), url@, "id"@) {
                Some(id) => if replies@.len() == 0 {
                    fetches(r, url@, Expect::Text)
                } else {
                    match reply_text_at(replies@, 0) {
                        Some(html) => done_with(r, matchi_info(id, matchi_media(html))),
                        None => fails_with(r, ExtractorErrorKind::Extraction),
                    }
                },
                None => fails_with(r, ExtractorErrorKind::InvalidUrl),
            },
    {
        let video_id = match self.site.capture(url, "id") {
            Some(v) => v,
            None => return Err(fail(ExtractorErrorKind::InvalidUrl, "MatchiTV URL has no ID")),
        };
        if replies.len() == 0 {
            return Ok(Step::Fetch(get_text(owned(url))));
        }
        let html = reply_text(replies, 0)?;
        let data = html_script_json(html.as_str(), "__NEXT_DATA__");
        let null = JsonValue::Null;
        let media: &JsonValue = match &data {
            Some(d) => match json_get(d, "props") {
                Some(p) => match json_get(p, "pageProps") {
                    Some(pp) => member_or_null(pp, "loadedMedia", &null),
                    None => &null,
                },
                None => &null,
            },
            None => &null,
        };
        let court = json_string(media, "courtDescription");
        let start = json_string(media, "startDateTime");
        let title = match (court, start) {
            (Some(c), Some(s)) => concat3(c, " ", s),
            (Some(c), None) => owned(c),
            (None, Some(s)) => owned(s),
            (None, None) => video_id.clone(),
        };
        let m = concat3("https://streams.padelgo.tv/v2/streams/m3u8/", video_id.as_str(), "/anonymous/playlist.m3u8");
        let mut info = InfoDict::new();
        info.insert("id", JsonValue::Str(video_id.clone()));
        info.insert("title", JsonValue::Str(title));
        info.insert("thumbnail", JsonValue::Str(concat3("https://thumbnails.padelgo.tv/", video_id.as_str(), ".jpg")));
        info.insert_if_some("upload_date", match start { Some(s) => match date_digits(s) { Some(d) => Some(JsonValue::Str(d)), None => None }, None => None });
        info.insert("url", jstr(m.as_str()));
        info.insert("ext", jstr("mp4"));
        let mut f = obj_new();
        obj_add(&mut f, "url", jstr(m.as_str()));
        obj_add(&mut f, "format_id", jstr("hls"));
        obj_add(&mut f, "protocol", jstr("m3u8_native"));
        obj_add(&mut f, "ext", jstr("mp4"));
        assert(fields_view(f@) =~= seq![
            ("url"@, Json::Str(m@)),
            ("format_id"@, Json::Str("hls"@)),
            ("protocol"@, Json::Str("m3u8_native"@)),
            ("ext"@, Json::Str("mp4"@)),
        ]);
        let mut a = arr_new();
        arr_add(&mut a, obj_done(f));
        info.insert("formats", arr_done(a));
        Ok(Step::Done(ExtractorResult::single(info)))
    }
}

} // verus!
