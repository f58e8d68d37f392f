use vstd::prelude::*;

use crate::extract::{determine_ext, ext_of, first_after, first_str, format_records, json_f64, json_num_at, jstr, lemma_first_after_concat, lookup_in, opt_int, opt_int_json, opt_str, opt_str_json, push_format, put_opt, reply_json, reply_json_at, reply_text, reply_text_at, str_in, timestamp_in};
use crate::float::{f64_text, parse_f64_text, per_thousand, per_thousand_value};
use crate::framework::{Expect, ExtractorDescriptor, ExtractorError, ExtractorErrorKind, ExtractorResult, Fetch, Method, Reply, SiteMatcher, Step, descriptor_ok, descriptor_source, done_with, fail, fails_with, fetches, get_json, get_text, header_get, header_value, headers_view, fails_saying, descriptor_error};
use crate::html::{html_text_fragment, text_fragment};
use crate::info::{InfoDict};
use crate::json::{Json, JsonValue, arr_add, arr_done, arr_new, fields_view, items_view, json_bool, json_bool_at, json_get, json_i64, json_int_at, json_lookup, json_opt_view, json_str_at, json_string, lemma_object_view, obj_add, obj_add_opt, obj_done, obj_new, push_opt, str_equal};
use crate::media_types::{duration_of, parse_duration};
use crate::page::{html_meta_value, meta_value};
use crate::pattern::{all_groups_view, capture_group, first_group, group_at, groups_view, regex_all_captures, regex_captures_iter, regex_first_group, regex_matches, regex_named_capture};
use crate::text::{concat2, concat3, contains, has_infix, has_prefix, owned, push_str, replace_str, replaced, starts_with, strip_prefix, trim, trimmed, utf8_len, utf8_len_at_least, without_prefix};
use crate::timestamp::{parse_timestamp};

verus! {

/// Native Coub API extractor. All media variants and counters are read from
/// the Coub JSON response and become format records.
pub struct CoubExtractor {
    site: SiteMatcher,
}

impl CoubExtractor {
    /// The descriptor and matcher the extractor was built with.
    pub closed spec fn matcher(&self) -> SiteMatcher {
        self.site
    }

    pub fn new(descriptor: ExtractorDescriptor) -> (r: Result<Self, ExtractorError>)
        ensures
            r is Ok <==> descriptor_ok(descriptor),
            r matches Ok(x) ==> x.matcher().spec_descriptor() == descriptor
                && Some(x.matcher().source()) == descriptor_source(descriptor),
            r matches Err(e) ==> e.kind == ExtractorErrorKind::Extraction && e.message@ == descriptor_error(descriptor),
    {
        match SiteMatcher::from_descriptor(descriptor) {
            Ok(site) => Ok(CoubExtractor { site }),
            Err(e) => Err(e),
        }
    }

    pub fn descriptor(&self) -> (r: &ExtractorDescriptor)
        ensures
            *r == self.matcher().spec_descriptor(),
    {
        self.site.descriptor()
    }

    pub fn suitable(&self, url: &str) -> (r: bool)
        ensures
            r == regex_matches(self.matcher().source(), url@),
    {
        self.site.suitable(url)
    }

    pub fn is_native(&self) -> (r: bool)
        ensures
            r,
    {
        true
    }

    pub fn native_matcher_count(&self) -> (r: usize)
        ensures
            r == 1,
    {
        1
    }
}

/// Native Vocaroo direct-audio extractor. The media host is selected from the
/// ID shape and a HEAD request gives the upload timestamp header.
pub struct VocarooExtractor {
    site: SiteMatcher,
}

impl VocarooExtractor {
    /// The descriptor and matcher the extractor was built with.
    pub closed spec fn matcher(&self) -> SiteMatcher {
        self.site
    }

    pub fn new(descriptor: ExtractorDescriptor) -> (r: Result<Self, ExtractorError>)
        ensures
            r is Ok <==> descriptor_ok(descriptor),
            r matches Ok(x) ==> x.matcher().spec_descriptor() == descriptor
                && Some(x.matcher().source()) == descriptor_source(descriptor),
            r matches Err(e) ==> e.kind == ExtractorErrorKind::Extraction && e.message@ == descriptor_error(descriptor),
    {
        match SiteMatcher::from_descriptor(descriptor) {
            Ok(site) => Ok(VocarooExtractor { site }),
            Err(e) => Err(e),
        }
    }

    pub fn descriptor(&self) -> (r: &ExtractorDescriptor)
        ensures
            *r == self.matcher().spec_descriptor(),
    {
        self.site.descriptor()
    }

    pub fn suitable(&self, url: &str) -> (r: bool)
        ensures
            r == regex_matches(self.matcher().source(), url@),
    {
        self.site.suitable(url)
    }

    pub fn is_native(&self) -> (r: bool)
        ensures
            r,
    {
        true
    }

    pub fn native_matcher_count(&self) -> (r: usize)
        ensures
            r == 1,
    {
        1
    }
}

/// Native Freesound HTML/Open Graph extractor. The page metadata is enough to
/// build the same low/high audio format set without browser execution.
pub struct FreesoundExtractor {
    site: SiteMatcher,
}

impl FreesoundExtractor {
    /// The descriptor and matcher the extractor was built with.
    pub closed spec fn matcher(&self) -> SiteMatcher {
        self.site
    }

    pub fn new(descriptor: ExtractorDescriptor) -> (r: Result<Self, ExtractorError>)
        ensures
            r is Ok <==> descriptor_ok(descriptor),
            r matches Ok(x) ==> x.matcher().spec_descriptor() == descriptor
                && Some(x.matcher().source()) == descriptor_source(descriptor),
            r matches Err(e) ==> e.kind == ExtractorErrorKind::Extraction && e.message@ == descriptor_error(descriptor),
    {
        match SiteMatcher::from_descriptor(descriptor) {
            Ok(site) => Ok(FreesoundExtractor { site }),
            Err(e) => Err(e),
        }
    }

    pub fn descriptor(&self) -> (r: &ExtractorDescriptor)
        ensures
            *r == self.matcher().spec_descriptor(),
    {
        self.site.descriptor()
    }

    pub fn suitable(&self, url: &str) -> (r: bool)
        ensures
            r == regex_matches(self.matcher().source(), url@),
    {
        self.site.suitable(url)
    }

    pub fn is_native(&self) -> (r: bool)
        ensures
            r,
    {
        true
    }

    pub fn native_matcher_count(&self) -> (r: usize)
        ensures
            r == 1,
    {
        1
    }
}

/// The rank of a Coub quality name.
pub open spec fn coub_quality(q: Seq<char>) -> int {
    if q == "low"@ {
        0
    } else if q == "med"@ {
        1
    } else if q == "high"@ {
        2
    } else if q == "higher"@ {
        3
    } else {
        -1
    }
}

/// The HTML5 format of quality `q` of media type `mt` (`video` or `audio`).
pub open spec fn coub_html5_format(mt: Seq<char>, q: Seq<char>, item: Json) -> Option<(Seq<char>, Seq<char>, Json)> {
    match json_str_at(item, "url"@) {
        Some(u) => {
            let ext = ext_of(u, if mt == "audio"@ { "mp3"@ } else { "mp4"@ });
            let f0 = Seq::<(Seq<char>, Json)>::empty()
                .push(("url"@, Json::Str(u)))
                .push(("format_id"@, Json::Str("html5-"@ + mt + "-"@ + q)))
                .push(("ext"@, Json::Str(ext)))
                .push(("quality"@, Json::Int(coub_quality(q))))
                .push(("vcodec"@, Json::Str(if mt == "audio"@ { "none"@ } else { "unknown"@ })))
                .push(("acodec"@, Json::Str(if mt == "video"@ { "none"@ } else { "unknown"@ })));
            Some((u, ext, Json::Object(push_opt(f0, "filesize"@, opt_int(json_int_at(item, "size"@))))))
        },
        None => None,
    }
}

/// The HTML5 formats of the first `n` qualities of media type `mt`.
pub open spec fn coub_qualities(mt: Seq<char>, qs: Seq<(Seq<char>, Json)>, n: int) -> Seq<(Seq<char>, Seq<char>, Json)>
    decreases n,
{
    if n <= 0 {
        Seq::empty()
    } else {
        let prev = coub_qualities(mt, qs, n - 1);
        match coub_html5_format(mt, qs[n - 1].0, qs[n - 1].1) {
            Some(f) => prev.push(f),
            None => prev,
        }
    }
}

/// The HTML5 formats of media type `mt`.
pub open spec fn coub_kind_formats(html5: Json, mt: Seq<char>) -> Seq<(Seq<char>, Seq<char>, Json)> {
    match json_lookup(html5, mt) {
        Some(Json::Object(qs)) => coub_qualities(mt, qs, qs.len() as int),
        _ => Seq::empty(),
    }
}

/// The formats of a Coub API record: its HTML5 video and audio versions, its iPhone
/// version, then its mobile audio.
pub open spec fn coub_formats(coub: Json) -> Seq<(Seq<char>, Seq<char>, Json)> {
    let fv = json_lookup(coub, "file_versions"@);
    let html5 = match lookup_in(fv, "html5"@) {
        Some(h) => coub_kind_formats(h, "video"@) + coub_kind_formats(h, "audio"@),
        None => Seq::empty(),
    };
    let iphone = match str_in(lookup_in(fv, "iphone"@), "url"@) {
        Some(u) => seq![(u, ext_of(u, "mp4"@), Json::Object(Seq::empty()
            .push(("url"@, Json::Str(u)))
            .push(("format_id"@, Json::Str("iphone"@)))
            .push(("ext"@, Json::Str(ext_of(u, "mp4"@))))))],
        None => Seq::empty(),
    };
    let mobile = match str_in(lookup_in(fv, "mobile"@), "audio_url"@) {
        Some(u) => seq![(u, ext_of(u, "mp3"@), Json::Object(Seq::empty()
            .push(("url"@, Json::Str(u)))
            .push(("format_id"@, Json::Str("mobile-audio"@)))
            .push(("ext"@, Json::Str(ext_of(u, "mp3"@))))
            .push(("vcodec"@, Json::Str("none"@)))))],
        None => Seq::empty(),
    };
    html5 + iphone + mobile
}

/// The metadata of Coub video `id` from its API record and formats.
pub open spec fn coub_info(id: Seq<char>, coub: Json, fs: Seq<(Seq<char>, Seq<char>, Json)>) -> Map<Seq<char>, Json> {
    let channel = json_lookup(coub, "channel"@);
    let m0 = Map::<Seq<char>, Json>::empty().insert("id"@, Json::Str(id));
    let m1 = put_opt(m0, "title"@, opt_str(json_str_at(coub, "title"@)));
    let m2 = put_opt(m1, "thumbnail"@, opt_str(json_str_at(coub, "picture"@)));
    let m3 = put_opt(m2, "duration"@, json_num_at(coub, "duration"@));
    let m4 = put_opt(m3, "timestamp"@, opt_int(timestamp_in(first_str(json_str_at(coub, "published_at"@), json_str_at(coub, "created_at"@)))));
    let m5 = put_opt(m4, "uploader"@, opt_str(str_in(channel, "title"@)));
    let m6 = put_opt(m5, "uploader_id"@, opt_str(str_in(channel, "permalink"@)));
    let m7 = put_opt(m6, "view_count"@, opt_int(match json_int_at(coub, "views_count"@) {
        Some(v) => Some(v),
        None => json_int_at(coub, "views_increase_count"@),
    }));
    let m8 = put_opt(m7, "like_count"@, opt_int(json_int_at(coub, "likes_count"@)));
    let m9 = put_opt(m8, "repost_count"@, opt_int(json_int_at(coub, "recoubs_count"@)));
    let age = match json_bool_at(coub, "age_restricted"@) {
        Some(b) => Some(b),
        None => json_bool_at(coub, "age_restricted_by_admin"@),
    };
    let m10 = put_opt(m9, "age_limit"@, match age {
        Some(b) => Some(Json::Int(if b { 18 } else { 0 })),
        None => None,
    });
    m10.insert("url"@, Json::Str(fs[0].0)).insert("ext"@, Json::Str(fs[0].1)).insert("formats"@, Json::Array(format_records(fs)))
}

fn coub_quality_of(q: &str) -> (r: i64)
    ensures
        r as int == coub_quality(q@),
{
    if str_equal(q, "low") {
        0
    } else if str_equal(q, "med") {
        1
    } else if str_equal(q, "high") {
        2
    } else if str_equal(q, "higher") {
        3
    } else {
        -1
    }
}

fn coub_html5_format_of(mt: &str, q: &str, item: &JsonValue) -> (r: Option<(String, String, JsonValue)>)
    ensures
        match r {
            Some((u, e, f)) => coub_html5_format(mt@, q@, item@) == Some((u@, e@, f@)),
            None => coub_html5_format(mt@, q@, item@) is None,
        },
{
    let u = match json_string(item, "url") {
        Some(u) => u,
        None => return None,
    };
    let audio = str_equal(mt, "audio");
    let video = str_equal(mt, "video");
    let ext = determine_ext(u, if audio { "mp3" } else { "mp4" });
    let mut fid = concat3("html5-", mt, "-");
    push_str(&mut fid, q);
    let mut f = obj_new();
    obj_add(&mut f, "url", jstr(u));
    obj_add(&mut f, "format_id", JsonValue::Str(fid));
    obj_add(&mut f, "ext", JsonValue::Str(ext.clone()));
    obj_add(&mut f, "quality", JsonValue::Int(coub_quality_of(q)));
    obj_add(&mut f, "vcodec", jstr(if audio { "none" } else { "unknown" }));
    obj_add(&mut f, "acodec", jstr(if video { "none" } else { "unknown" }));
    obj_add_opt(&mut f, "filesize", opt_int_json(json_i64(item, "size")));
    Some((owned(u), ext, obj_done(f)))
}

/// Appends the HTML5 formats of media type `mt`.
fn coub_kind_formats_of(html5: &JsonValue, mt: &str, out: &mut Vec<JsonValue>, first: &mut Option<(String, String)>)
    ensures
        items_view(final(out)@) == items_view(old(out)@) + format_records(coub_kind_formats(html5@, mt@)),
        first_after(*old(first), *final(first), coub_kind_formats(html5@, mt@)),
{
    let ghost start = items_view(out@);
    let ghost first0 = *first;
    match json_get(html5, mt) {
        Some(qo) => match qo {
            JsonValue::Object(qs) => {
                proof { lemma_object_view(*qo); }
                let ghost qv = fields_view(qs@);
                let mut i: usize = 0;
                assert(items_view(out@) =~= start + format_records(coub_qualities(mt@, qv, 0)));
                while i < qs.len()
                    invariant
                        i <= qs@.len(),
                        qv == fields_view(qs@),
                        items_view(out@) == start + format_records(coub_qualities(mt@, qv, i as int)),
                        first_after(first0, *first, coub_qualities(mt@, qv, i as int)),
                    decreases qs@.len() - i,
                {
                    let ghost prev = coub_qualities(mt@, qv, i as int);
                    let ghost f_before = *first;
                    assert(qv[i as int] == (qs@[i as int].0@, qs@[i as int].1@));
                    match coub_html5_format_of(mt, qs[i].0.as_str(), &qs[i].1) {
                        Some(f) => {
                            let ghost fg = (f.0@, f.1@, f.2@);
                            push_format(out, first, f);
                            proof {
                                lemma_first_after_concat(first0, f_before, *first, prev, seq![fg]);
                                assert(prev + seq![fg] =~= prev.push(fg));
                                assert(format_records(prev.push(fg)) =~= format_records(prev).push(fg.2));
                            }
                        },
                        None => {},
                    }
                    i = i + 1;
                }
            },
            _ => {
                assert(items_view(out@) =~= start + format_records(Seq::empty()));
            },
        },
        None => {
            assert(items_view(out@) =~= start + format_records(Seq::empty()));
        },
    }
}

/// The formats of a Coub API record, with the address and extension of the first.
pub fn coub_formats_of(coub: &JsonValue) -> (r: (Vec<JsonValue>, Option<(String, String)>))
    ensures
        items_view(r.0@) == format_records(coub_formats(coub@)),
        first_after(None, r.1, coub_formats(coub@)),
{
    let mut out: Vec<JsonValue> = Vec::new();
    let mut first: Option<(String, String)> = None;
    let fv = json_get(coub, "file_versions");
    let ghost h5 = match lookup_in(json_lookup(coub@, "file_versions"@), "html5"@) {
        Some(h) => coub_kind_formats(h, "video"@) + coub_kind_formats(h, "audio"@),
        None => Seq::empty(),
    };
    let html5 = match fv {
        Some(v) => json_get(v, "html5"),
        None => None,
    };
    match html5 {
        Some(h) => {
            coub_kind_formats_of(h, "video", &mut out, &mut first);
            let ghost f1 = first;
            coub_kind_formats_of(h, "audio", &mut out, &mut first);
            proof {
                lemma_first_after_concat(None, f1, first, coub_kind_formats(h@, "video"@), coub_kind_formats(h@, "audio"@));
                assert(format_records(coub_kind_formats(h@, "video"@) + coub_kind_formats(h@, "audio"@))
                    =~= format_records(coub_kind_formats(h@, "video"@)) + format_records(coub_kind_formats(h@, "audio"@)));
            }
        },
        None => {
            assert(items_view(out@) =~= format_records(Seq::empty()));
        },
    }
    let ghost f2 = first;
    let ghost before = items_view(out@);
    let iphone: Option<&str> = match fv {
        Some(v) => match json_get(v, "iphone") {
            Some(i) => json_string(i, "url"),
            None => None,
        },
        None => None,
    };
    let ghost ip = match str_in(lookup_in(json_lookup(coub@, "file_versions"@), "iphone"@), "url"@) {
        Some(u) => seq![(u, ext_of(u, "mp4"@), Json::Object(Seq::empty()
            .push(("url"@, Json::Str(u)))
            .push(("format_id"@, Json::Str("iphone"@)))
            .push(("ext"@, Json::Str(ext_of(u, "mp4"@))))))],
        None => Seq::empty(),
    };
    match iphone {
        Some(u) => {
            let ext = determine_ext(u, "mp4");
            let mut f = obj_new();
            obj_add(&mut f, "url", jstr(u));
            obj_add(&mut f, "format_id", jstr("iphone"));
            obj_add(&mut f, "ext", JsonValue::Str(ext.clone()));
            push_format(&mut out, &mut first, (owned(u), ext, obj_done(f)));
        },
        None => {},
    }
    proof {
        lemma_first_after_concat(None, f2, first, h5, ip);
        assert(format_records(h5 + ip) =~= format_records(h5) + format_records(ip));
    }
    let ghost f3 = first;
    let mobile: Option<&str> = match fv {
        Some(v) => match json_get(v, "mobile") {
            Some(m) => json_string(m, "audio_url"),
            None => None,
        },
        None => None,
    };
    let ghost mo = match str_in(lookup_in(json_lookup(coub@, "file_versions"@), "mobile"@), "audio_url"@) {
        Some(u) => seq![(u, ext_of(u, "mp3"@), Json::Object(Seq::empty()
            .push(("url"@, Json::Str(u)))
            .push(("format_id"@, Json::Str("mobile-audio"@)))
            .push(("ext"@, Json::Str(ext_of(u, "mp3"@))))
            .push(("vcodec"@, Json::Str("none"@)))))],
        None => Seq::empty(),
    };
    match mobile {
        Some(u) => {
            let ext = determine_ext(u, "mp3");
            let mut f = obj_new();
            obj_add(&mut f, "url", jstr(u));
            obj_add(&mut f, "format_id", jstr("mobile-audio"));
            obj_add(&mut f, "ext", JsonValue::Str(ext.clone()));
            obj_add(&mut f, "vcodec", jstr("none"));
            push_format(&mut out, &mut first, (owned(u), ext, obj_done(f)));
        },
        None => {},
    }
    proof {
        lemma_first_after_concat(None, f3, first, h5 + ip, mo);
        assert(format_records(h5 + ip + mo) =~= format_records(h5 + ip) + format_records(mo));
    }
    (out, first)
}

impl CoubExtractor {
    /// One step of a Coub extraction: the API record is fetched, then the metadata is built.
    pub fn extract_step(&self, url: &str, replies: &Vec<Reply>) -> (r: Result<Step, ExtractorError>)
        ensures
            match regex_named_capture(self.matcher().source(), url@, "id"@) {
                Some(id) => if replies@.len() == 0 {
                    fetches(r, "http://coub.com/api/v2/coubs/"@ + id + ".json"@, Expect::Json)
                } else {
                    match reply_json_at(replies@, 0) {
                        Some(coub) => if json_str_at(coub@, "error"@) is Some {
                            fails_saying(r, ExtractorErrorKind::Unsupported, "Coub API error: "@ + json_str_at(coub@, "error"@).unwrap())
                        } else if coub_formats(coub@).len() == 0 {
                            fails_saying(r, ExtractorErrorKind::Extraction, "Coub API returned no playable formats for "@ + id)
                        } else {
                            done_with(r, coub_info(id, coub@, coub_formats(coub@)))
                        },
                        None => fails_with(r, ExtractorErrorKind::Extraction),
                    }
                },
                None => fails_saying(r, ExtractorErrorKind::InvalidUrl, "Coub URL has no ID"@),
            },
    {
        let id = match self.site.capture(url, "id") {
            Some(v) => v,
            None => return Err(fail(ExtractorErrorKind::InvalidUrl, "Coub URL has no ID")),
        };
        if replies.len() == 0 {
            return Ok(Step::Fetch(get_json(concat3("http://coub.com/api/v2/coubs/", id.as_str(), ".json"))));
        }
        let coub = reply_json(replies, 0)?;
        match json_string(coub, "error") {
            Some(e) => return Err(ExtractorError::new(ExtractorErrorKind::Unsupported, concat2("Coub API error: ", e))),
            None => {},
        }
        let (formats, first) = coub_formats_of(coub);
        let (furl, fext) = match first {
            Some(p) => p,
            None => return Err(ExtractorError::new(
                ExtractorErrorKind::Extraction,
                concat2("Coub API returned no playable formats for ", id.as_str()),
            )),
        };
        let channel = json_get(coub, "channel");
        let mut info = InfoDict::new();
        info.insert("id", JsonValue::Str(id.clone()));
        info.insert_if_some("title", opt_str_json(json_string(coub, "title")));
        info.insert_if_some("thumbnail", opt_str_json(json_string(coub, "picture")));
        info.insert_if_some("duration", json_f64(coub, "duration"));
        info.insert_if_some("timestamp", opt_int_json(match json_string(coub, "published_at") {
            Some(t) => parse_timestamp(t),
            None => match json_string(coub, "created_at") {
                Some(t) => parse_timestamp(t),
                None => None,
            },
        }));
        info.insert_if_some("uploader", opt_str_json(match channel {
            Some(c) => json_string(c, "title"),
            None => None,
        }));
        info.insert_if_some("uploader_id", opt_str_json(match channel {
            Some(c) => json_string(c, "permalink"),
            None => None,
        }));
        info.insert_if_some("view_count", opt_int_json(match json_i64(coub, "views_count") {
            Some(v) => Some(v),
            None => json_i64(coub, "views_increase_count"),
        }));
        info.insert_if_some("like_count", opt_int_json(json_i64(coub, "likes_count")));
        info.insert_if_some("repost_count", opt_int_json(json_i64(coub, "recoubs_count")));
        let age = match json_bool(coub, "age_restricted") {
            Some(b) => Some(b),
            None => json_bool(coub, "age_restricted_by_admin"),
        };
        info.insert_if_some("age_limit", match age {
            Some(b) => Some(JsonValue::Int(if b { 18 } else { 0 })),
            None => None,
        });
        info.insert("url", JsonValue::Str(furl));
        info.insert("ext", JsonValue::Str(fext));
        info.insert("formats", arr_done(formats));
        Ok(Step::Done(ExtractorResult::single(info)))
    }
}

/// The audio address of a Freesound page: its `og:audio`, without the site prefix when
/// what follows is itself an address.
pub open spec fn freesound_audio(og: Seq<char>) -> Seq<char> {
    match without_prefix(og, "https://freesound.org"@) {
        Some(rest) => if has_prefix(rest, "http"@) { rest } else { og },
        None => og,
    }
}

/// The audio addresses of a Freesound page: its low quality one, then its high quality one
/// when the first names a low quality file.
pub open spec fn freesound_urls(au: Seq<char>) -> Seq<Seq<char>> {
    if has_infix(au, "-lq.mp3"@) { seq![au, replaced(au, "-lq.mp3"@, "-hq.mp3"@)] } else { seq![au] }
}

/// The channel description of a Freesound page.
pub open spec fn freesound_channels(html: Seq<char>) -> Option<Seq<char>> {
    match first_group("(?is)Channels\\s*</dt>\\s*<dd[^>]*>(.*?)</dd>"@, html, 1) {
        Some(v) => Some(text_fragment(v)),
        None => None,
    }
}

/// The format of audio address `u` of quality rank `q`.
pub open spec fn freesound_format(u: Seq<char>, q: int, channels: Option<Seq<char>>) -> Json {
    Json::Object(Seq::empty()
        .push(("url"@, Json::Str(u)))
        .push(("format_id"@, Json::Str(if q == 0 { "lq"@ } else { "hq"@ })))
        .push(("ext"@, Json::Str("mp3"@)))
        .push(("format_note"@, match channels { Some(c) => Json::Str(c), None => Json::Null }))
        .push(("quality"@, Json::Int(q)))
        .push(("vcodec"@, Json::Str("none"@))))
}

/// The duration of a Freesound page: its duration text as milliseconds, else as a clock time.
pub open spec fn freesound_duration(html: Seq<char>) -> Option<Json> {
    match first_group("(?is)class\\s*=\\s*[\"'][^\"']*\\bduration\\b[^\"']*[\"'][^>]*>([^<]+)"@, html, 1) {
        Some(v) => {
            let t = trimmed(v);
            match f64_text(t) {
                Some(j) => Some(per_thousand(j)),
                None => duration_of(t),
            }
        },
        None => None,
    }
}

/// The tags of the first `n` links of a Freesound tag list.
pub open spec fn freesound_tag_list(all: Seq<Seq<Option<Seq<char>>>>, n: int) -> Seq<Json>
    decreases n,
{
    if n <= 0 {
        Seq::empty()
    } else {
        let prev = freesound_tag_list(all, n - 1);
        match group_at(all[n - 1], 1) {
            Some(v) => if text_fragment(v).len() > 0 { prev.push(Json::Str(text_fragment(v))) } else { prev },
            None => prev,
        }
    }
}

/// The tags of a Freesound page, when it lists any.
pub open spec fn freesound_tags(html: Seq<char>) -> Option<Json> {
    match first_group("(?is)class\\s*=\\s*[\"'][^\"']*\\btags\\b[^\"']*[\"'][^>]*>(.*?)</(?:div|section)>"@, html, 1) {
        Some(body) => {
            let all = regex_all_captures("(?is)<a\\b[^>]*>([^<]+)</a>"@, body);
            let tags = freesound_tag_list(all, all.len() as int);
            if tags.len() > 0 { Some(Json::Array(tags)) } else { None }
        },
        None => None,
    }
}

/// The metadata of Freesound sound `id` from its page and its `og:audio`.
pub open spec fn freesound_info(id: Seq<char>, html: Seq<char>, og: Seq<char>) -> Map<Seq<char>, Json> {
    let au = freesound_audio(og);
    let urls = freesound_urls(au);
    let ch = freesound_channels(html);
    let m0 = Map::<Seq<char>, Json>::empty().insert("id"@, Json::Str(id));
    let m1 = put_opt(m0, "title"@, opt_str(first_str(meta_value(html, "og:audio:title"@), meta_value(html, "og:title"@))));
    let m2 = put_opt(m1, "description"@, opt_str(match first_group("(?is)\\bid\\s*=\\s*[\"']sound_description[\"'][^>]*>(.*?)</div>"@, html, 1) {
        Some(v) => Some(text_fragment(v)),
        None => None,
    }));
    let m3 = put_opt(m2, "duration"@, freesound_duration(html));
    let m4 = put_opt(m3, "uploader"@, opt_str(meta_value(html, "og:audio:artist"@)));
    let m5 = put_opt(m4, "tags"@, freesound_tags(html));
    m5.insert("url"@, Json::Str(au)).insert("ext"@, Json::Str("mp3"@)).insert("formats"@,
        Json::Array(Seq::new(urls.len(), |i: int| freesound_format(urls[i], i, ch))))
}

fn freesound_format_of(u: &str, q: i64, channels: &Option<String>) -> (r: JsonValue)
    ensures
        r@ == freesound_format(u@, q as int, match channels { Some(c) => Some(c@), None => None }),
{
    let mut f = obj_new();
    obj_add(&mut f, "url", jstr(u));
    obj_add(&mut f, "format_id", jstr(if q == 0 { "lq" } else { "hq" }));
    obj_add(&mut f, "ext", jstr("mp3"));
    obj_add(&mut f, "format_note", match channels { Some(c) => jstr(c.as_str()), None => JsonValue::Null });
    obj_add(&mut f, "quality", JsonValue::Int(q));
    obj_add(&mut f, "vcodec", jstr("none"));
    obj_done(f)
}

fn freesound_tags_of(html: &str) -> (r: Option<JsonValue>)
    ensures
        json_opt_view(r) == freesound_tags(html@),
{
    let body = match regex_first_group("(?is)class\\s*=\\s*[\"'][^\"']*\\btags\\b[^\"']*[\"'][^>]*>(.*?)</(?:div|section)>", html, 1) {
        Some(b) => b,
        None => return None,
    };
    let all = regex_captures_iter("(?is)<a\\b[^>]*>([^<]+)</a>", body.as_str());
    let ghost av = all_groups_view(all@);
    let mut out: Vec<JsonValue> = Vec::new();
    let mut i: usize = 0;
    assert(items_view(out@) =~= freesound_tag_list(av, 0));
    while i < all.len()
        invariant
            i <= all@.len(),
            av == all_groups_view(all@),
            items_view(out@) == freesound_tag_list(av, i as int),
        decreases all@.len() - i,
    {
        assert(av[i as int] == groups_view(all@[i as int]@));
        let ghost prev = out@;
        match capture_group(&all[i], 1) {
            Some(v) => {
                let t = html_text_fragment(v.as_str());
                if t.unicode_len() > 0 {
                    let ghost tv = t@;
                    out.push(JsonValue::Str(t));
                    assert(items_view(out@) =~= items_view(prev).push(Json::Str(tv)));
                }
            },
            None => {},
        }
        i = i + 1;
    }
    if out.len() > 0 { Some(arr_done(out)) } else { None }
}

fn freesound_duration_of(html: &str) -> (r: Option<JsonValue>)
    ensures
        json_opt_view(r) == freesound_duration(html@),
{
    match regex_first_group("(?is)class\\s*=\\s*[\"'][^\"']*\\bduration\\b[^\"']*[\"'][^>]*>([^<]+)", html, 1) {
        Some(v) => {
            let t = trim(v.as_str());
            match parse_f64_text(t.as_str()) {
                Some(j) => Some(per_thousand_value(j)),
                None => parse_duration(t.as_str()),
            }
        },
        None => None,
    }
}

impl FreesoundExtractor {
    /// One step of a Freesound extraction: the sound page is fetched, then the metadata is
    /// built from its Open Graph fields and markup.
    pub fn extract_step(&self, url: &str, replies: &Vec<Reply>) -> (r: Result<Step, ExtractorError>)
        ensures
            match regex_named_capture(self.matcher().source(), url@, "id"@) {
                Some(id) => if replies@.len() == 0 {
                    fetches(r, url@, Expect::Text)
                } else {
                    match reply_text_at(replies@, 0) {
                        Some(html) => match meta_value(html, "og:audio"@) {
                            Some(og) => done_with(r, freesound_info(id, html, og)),
                            None => fails_with(r, ExtractorErrorKind::Extraction),
                        },
                        None => fails_with(r, ExtractorErrorKind::Extraction),
                    }
                },
                None => fails_with(r, ExtractorErrorKind::InvalidUrl),
            },
    {
        let id = match self.site.capture(url, "id") {
            Some(v) => v,
            None => return Err(fail(ExtractorErrorKind::InvalidUrl, "Freesound URL has no ID")),
        };
        if replies.len() == 0 {
            return Ok(Step::Fetch(get_text(owned(url))));
        }
        let html = reply_text(replies, 0)?;
        let og = match html_meta_value(html.as_str(), "og:audio") {
            Some(o) => o,
            None => return Err(ExtractorError::new(ExtractorErrorKind::Extraction, concat3("Freesound page ", id.as_str(), " has no audio URL"))),
        };
        let au = match strip_prefix(og.as_str(), "https://freesound.org") {
            Some(rest) => if starts_with(rest.as_str(), "http") { rest } else { og.clone() },
            None => og.clone(),
        };
        let channels = match regex_first_group("(?is)Channels\\s*</dt>\\s*<dd[^>]*>(.*?)</dd>", html.as_str(), 1) {
            Some(v) => Some(html_text_fragment(v.as_str())),
            None => None,
        };
        let mut formats = arr_new();
        arr_add(&mut formats, freesound_format_of(au.as_str(), 0, &channels));
        if contains(au.as_str(), "-lq.mp3") {
            let hq = replace_str(au.as_str(), "-lq.mp3", "-hq.mp3");
            arr_add(&mut formats, freesound_format_of(hq.as_str(), 1, &channels));
        }
        let ghost urls = freesound_urls(au@);
        let ghost ch = match channels { Some(c) => Some(c@), None => None };
        assert(items_view(formats@) =~= Seq::new(urls.len(), |i: int| freesound_format(urls[i], i, ch)));
        let mut info = InfoDict::new();
        info.insert("id", JsonValue::Str(id.clone()));
        info.insert_if_some("title", match html_meta_value(html.as_str(), "og:audio:title") {
            Some(t) => Some(JsonValue::Str(t)),
            None => match html_meta_value(html.as_str(), "og:title") {
                Some(t) => Some(JsonValue::Str(t)),
                None => None,
            },
        });
        info.insert_if_some("description", match regex_first_group("(?is)\\bid\\s*=\\s*[\"']sound_description[\"'][^>]*>(.*?)</div>", html.as_str(), 1) {
            Some(v) => Some(JsonValue::Str(html_text_fragment(v.as_str()))),
            None => None,
        });
        info.insert_if_some("duration", freesound_duration_of(html.as_str()));
        info.insert_if_some("uploader", match html_meta_value(html.as_str(), "og:audio:artist") {
            Some(a) => Some(JsonValue::Str(a)),
            None => None,
        });
        info.insert_if_some("tags", freesound_tags_of(html.as_str()));
        info.insert("url", JsonValue::Str(au));
        info.insert("ext", jstr("mp3"));
        info.insert("formats", arr_done(formats));
        Ok(Step::Done(ExtractorResult::single(info)))
    }
}

/// The media host of a Vocaroo recording, chosen by the shape of its ID.
pub open spec fn vocaroo_host(id: Seq<char>) -> Seq<char> {
    if utf8_len(id) == 10 || (utf8_len(id) == 12 && has_prefix(id, "1"@)) { "media1"@ } else { "media"@ }
}

/// The MP3 address of a Vocaroo recording.
pub open spec fn vocaroo_media_url(id: Seq<char>) -> Seq<char> {
    "https://"@ + vocaroo_host(id) + ".vocaroo.com/mp3/"@ + id
}

/// The referring page that Vocaroo media requests carry.
pub open spec fn vocaroo_referer() -> Json {
    Json::Object(Seq::empty().push(("Referer"@, Json::Str("https://vocaroo.com/"@))))
}

/// Whether `f` is the HEAD request for a Vocaroo recording's media.
pub open spec fn is_vocaroo_probe(f: Fetch, id: Seq<char>) -> bool {
    f.url@ == vocaroo_media_url(id) && f.expect == Expect::Headers && f.method == Method::Head
        && headers_view(f.headers@) == seq![("Referer"@, "https://vocaroo.com/"@)] && f.body is None && !f.optional
}

/// The metadata of a Vocaroo recording from the headers its media answered with.
pub open spec fn vocaroo_info(id: Seq<char>, hs: Seq<(Seq<char>, Seq<char>)>) -> Map<Seq<char>, Json> {
    let m0 = Map::<Seq<char>, Json>::empty()
        .insert("id"@, Json::Str(id))
        .insert("title"@, Json::Str(Seq::empty()))
        .insert("url"@, Json::Str(vocaroo_media_url(id)))
        .insert("ext"@, Json::Str("mp3"@))
        .insert("vcodec"@, Json::Str("none"@))
        .insert("http_headers"@, vocaroo_referer());
    put_opt(m0, "timestamp"@, match header_value(hs, "x-bz-upload-timestamp"@) {
        Some(v) => match f64_text(v) {
            Some(j) => Some(per_thousand(j)),
            None => None,
        },
        None => None,
    })
}

impl VocarooExtractor {
    /// One step of a Vocaroo extraction: the media is asked for its headers, then the
    /// metadata is built with the upload time they carry.
    pub fn extract_step(&self, url: &str, replies: &Vec<Reply>) -> (r: Result<Step, ExtractorError>)
        ensures
            match regex_named_capture(self.matcher().source(), url@, "id"@) {
                Some(id) => if replies@.len() == 0 {
                    r matches Ok(Step::Fetch(f)) && is_vocaroo_probe(f, id)
                } else {
                    match replies@[0] {
                        Reply::Headers(hs) => done_with(r, vocaroo_info(id, headers_view(hs@))),
                        _ => fails_with(r, ExtractorErrorKind::Extraction),
                    }
                },
                None => fails_with(r, ExtractorErrorKind::InvalidUrl),
            },
    {
        let id = match self.site.capture(url, "id") {
            Some(v) => v,
            None => return Err(fail(ExtractorErrorKind::InvalidUrl, "Vocaroo URL has no ID")),
        };
        let ten = utf8_len_at_least(id.as_str(), 10) && !utf8_len_at_least(id.as_str(), 11);
        let twelve = utf8_len_at_least(id.as_str(), 12) && !utf8_len_at_least(id.as_str(), 13);
        let host = if ten || (twelve && starts_with(id.as_str(), "1")) { "media1" } else { "media" };
        let mut media = concat3("https://", host, ".vocaroo.com/mp3/");
        push_str(&mut media, id.as_str());
        if replies.len() == 0 {
            let headers = vec![(owned("Referer"), owned("https://vocaroo.com/"))];
            assert(headers_view(headers@) =~= seq![("Referer"@, "https://vocaroo.com/"@)]);
            return Ok(Step::Fetch(Fetch {
                url: media,
                expect: Expect::Headers,
                method: Method::Head,
                headers,
                body: None,
                optional: false,
            }));
        }
        let hs = match &replies[0] {
            Reply::Headers(hs) => hs,
            _ => return Err(fail(ExtractorErrorKind::Extraction, "Vocaroo media request gave no headers")),
        };
        let mut info = InfoDict::new();
        info.insert("id", JsonValue::Str(id.clone()));
        info.insert("title", JsonValue::Str(String::new()));
        info.insert("url", JsonValue::Str(media));
        info.insert("ext", jstr("mp3"));
        info.insert("vcodec", jstr("none"));
        let mut h = obj_new();
        obj_add(&mut h, "Referer", jstr("https://vocaroo.com/"));
        info.insert("http_headers", obj_done(h));
        info.insert_if_some("timestamp", match header_get(hs, "x-bz-upload-timestamp") {
            Some(v) => match parse_f64_text(v.as_str()) {
                Some(j) => Some(per_thousand_value(j)),
                None => None,
            },
            None => None,
        });
        Ok(Step::Done(ExtractorResult::single(info)))
    }
}

} // verus!
