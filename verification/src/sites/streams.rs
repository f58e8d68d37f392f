use vstd::prelude::*;

use crate::sites::generic::{last_path_segment, last_segment};
use crate::extract::{determine_ext, ext_of, format_records, int_or_null, json_f64, json_num_at, jstr, lookup_in, opt_int, opt_int_json, opt_str, opt_str_json, pair_records, put_opt, reply_json, reply_json_at, reply_text, reply_text_at, str_in, str_opt_view};
use crate::framework::{Expect, ExtractorDescriptor, ExtractorError, ExtractorErrorKind, ExtractorResult, Reply, SiteMatcher, Step, descriptor_ok, descriptor_source, done_with, fail, fails_with, fetches, fetches_optional, get_json, get_json_optional, get_text, descriptor_error};
use crate::html::{unescape_html, unescaped};
use crate::info::{InfoDict};
use crate::json::{Json, JsonValue, arr_add, arr_done, arr_new, fields_view, items_view, json_bool, json_bool_at, json_clone, json_get, json_i64, json_int_at, json_lookup, json_str_at, json_string, lemma_array_view, lemma_object_view, obj_add, obj_done, obj_new, push_opt, str_equal};
use crate::jsontext::{json_value_string, value_text};
use crate::number::{int_text, int_to_string, parse_int, parsed_int};
use crate::page::{html_script_json, script_json};
use crate::pattern::{regex_matches, regex_named_capture};
use crate::text::{concat2, concat3, contains, owned, push_str};
use crate::timestamp::{parse_timestamp, timestamp_of};
use crate::weburl::{form_encode, form_encoded, query_value, url_query_value};

verus! {

/// Native Yandex Disk extractor. The page store, public download URL, and
/// server-provided video streams are all read from the service's own answers.
pub struct YandexDiskExtractor {
    site: SiteMatcher,
}

impl YandexDiskExtractor {
    /// The descriptor and matcher the extractor was built with.
    pub closed spec fn matcher(&self) -> SiteMatcher {
        self.site
    }

    pub fn new(descriptor: ExtractorDescriptor) -> (r: Result<Self, ExtractorError>)
        ensures
            r is Ok <==> descriptor_ok(descriptor),
            r matches Ok(x) ==> x.matcher().spec_descriptor() == descriptor
                && Some(x.matcher().source()) == descriptor_source(descriptor),
            r matches Err(e) ==> e.kind == ExtractorErrorKind::Extraction && e.message@ == descriptor_error(descriptor),
    {
        match SiteMatcher::from_descriptor(descriptor) {
            Ok(site) => Ok(YandexDiskExtractor { site }),
            Err(e) => Err(e),
        }
    }

    pub fn descriptor(&self) -> (r: &ExtractorDescriptor)
        ensures
            *r == self.matcher().spec_descriptor(),
    {
        self.site.descriptor()
    }

    pub fn suitable(&self, url: &str) -> (r: bool)
        ensures
            r == regex_matches(self.matcher().source(), url@),
    {
        self.site.suitable(url)
    }

    pub fn is_native(&self) -> (r: bool)
        ensures
            r,
    {
        true
    }

    pub fn native_matcher_count(&self) -> (r: usize)
        ensures
            r == 1,
    {
        1
    }
}

/// Native Rumble embed API extractor. The embed JSON exposes direct, audio,
/// HLS, captions, live state, and author metadata without executing its player.
pub struct RumbleEmbedExtractor {
    site: SiteMatcher,
}

impl RumbleEmbedExtractor {
    /// The descriptor and matcher the extractor was built with.
    pub closed spec fn matcher(&self) -> SiteMatcher {
        self.site
    }

    pub fn new(descriptor: ExtractorDescriptor) -> (r: Result<Self, ExtractorError>)
        ensures
            r is Ok <==> descriptor_ok(descriptor),
            r matches Ok(x) ==> x.matcher().spec_descriptor() == descriptor
                && Some(x.matcher().source()) == descriptor_source(descriptor),
            r matches Err(e) ==> e.kind == ExtractorErrorKind::Extraction && e.message@ == descriptor_error(descriptor),
    {
        match SiteMatcher::from_descriptor(descriptor) {
            Ok(site) => Ok(RumbleEmbedExtractor { site }),
            Err(e) => Err(e),
        }
    }

    pub fn descriptor(&self) -> (r: &ExtractorDescriptor)
        ensures
            *r == self.matcher().spec_descriptor(),
    {
        self.site.descriptor()
    }

    pub fn suitable(&self, url: &str) -> (r: bool)
        ensures
            r == regex_matches(self.matcher().source(), url@),
    {
        self.site.suitable(url)
    }

    pub fn is_native(&self) -> (r: bool)
        ensures
            r,
    {
        true
    }

    pub fn native_matcher_count(&self) -> (r: usize)
        ensures
            r == 1,
    {
        1
    }
}

/// Native Clyp API extractor. The API response already contains stable media
/// URLs.
pub struct ClypExtractor {
    site: SiteMatcher,
}

impl ClypExtractor {
    /// The descriptor and matcher the extractor was built with.
    pub closed spec fn matcher(&self) -> SiteMatcher {
        self.site
    }

    pub fn new(descriptor: ExtractorDescriptor) -> (r: Result<Self, ExtractorError>)
        ensures
            r is Ok <==> descriptor_ok(descriptor),
            r matches Ok(x) ==> x.matcher().spec_descriptor() == descriptor
                && Some(x.matcher().source()) == descriptor_source(descriptor),
            r matches Err(e) ==> e.kind == ExtractorErrorKind::Extraction && e.message@ == descriptor_error(descriptor),
    {
        match SiteMatcher::from_descriptor(descriptor) {
            Ok(site) => Ok(ClypExtractor { site }),
            Err(e) => Err(e),
        }
    }

    pub fn descriptor(&self) -> (r: &ExtractorDescriptor)
        ensures
            *r == self.matcher().spec_descriptor(),
    {
        self.site.descriptor()
    }

    pub fn suitable(&self, url: &str) -> (r: bool)
        ensures
            r == regex_matches(self.matcher().source(), url@),
    {
        self.site.suitable(url)
    }

    pub fn is_native(&self) -> (r: bool)
        ensures
            r,
    {
        true
    }

    pub fn native_matcher_count(&self) -> (r: usize)
        ensures
            r == 1,
    {
        1
    }
}

/// The embed API address of Rumble video `id`.
pub open spec fn rumble_api_url(id: Seq<char>) -> Seq<char> {
    "https://rumble.com/embedJS/u3/?request=video&ver=2&v="@ + form_encoded(id)
}

/// The live status that the embed API's `live` and `livestream_has_dvr` give, empty when unknown.
pub open spec fn rumble_live_status(video: Json) -> Seq<char> {
    let live = json_int_at(video, "live"@);
    let dvr = json_bool_at(video, "livestream_has_dvr"@);
    if live == Some(0int) {
        if dvr == Some(true) { "was_live"@ } else { "not_live"@ }
    } else if live == Some(1int) {
        if dvr == Some(false) { "was_live"@ } else { "is_upcoming"@ }
    } else if live == Some(2int) {
        "is_live"@
    } else {
        Seq::empty()
    }
}

fn rumble_live_status_of(video: &JsonValue) -> (r: &'static str)
    ensures
        r@ == rumble_live_status(video@),
{
    proof {
        reveal_strlit("");
    }
    match (json_i64(video, "live"), json_bool(video, "livestream_has_dvr")) {
        (Some(0), Some(true)) => "was_live",
        (Some(0), _) => "not_live",
        (Some(1), Some(false)) => "was_live",
        (Some(1), _) => "is_upcoming",
        (Some(2), _) => "is_live",
        _ => "",
    }
}

/// The media of one format group: each item of an array, or each member of an object
/// with its key as a height hint.
pub open spec fn rumble_candidates(info: Json) -> Seq<(Option<Seq<char>>, Json)> {
    match info {
        Json::Array(a) => Seq::new(a.len(), |i: int| (None, a[i])),
        Json::Object(fs) => Seq::new(fs.len(), |i: int| (Some(fs[i].0), fs[i].1)),
        _ => Seq::empty(),
    }
}

/// `fields` with member `key` set to `meta`'s member `source`, when it has one.
pub open spec fn copy_member(fields: Seq<(Seq<char>, Json)>, meta: Json, source: Seq<char>, key: Seq<char>) -> Seq<(Seq<char>, Json)> {
    push_opt(fields, key, json_lookup(meta, source))
}

/// The format, with its address, of one Rumble medium of group `ty`; none for a medium
/// without an address or of the `tar` group.
pub open spec fn rumble_format(video: Json, ty: Seq<char>, hint: Option<Seq<char>>, vi: Json) -> Option<(Seq<char>, Json)> {
    match json_str_at(vi, "url"@) {
        Some(u) => if ty == "tar"@ {
            None
        } else if ty == "hls"@ {
            Some((u, Json::Object(Seq::empty()
                .push(("url"@, Json::Str(u)))
                .push(("format_id"@, Json::Str("hls"@)))
                .push(("ext"@, Json::Str("mp4"@)))
                .push(("protocol"@, Json::Str("m3u8_native"@))))))
        } else {
            let meta = match json_lookup(vi, "meta"@) {
                Some(m) => m,
                None => Json::Null,
            };
            let height = match json_int_at(meta, "h"@) {
                Some(h) => Some(h),
                None => match hint {
                    Some(t) => parsed_int(t),
                    None => None,
                },
            };
            let timeline = ty == "timeline"@;
            let audio = ty == "audio"@;
            let f0 = Seq::<(Seq<char>, Json)>::empty()
                .push(("url"@, Json::Str(u)))
                .push(("format_id"@, Json::Str(match height {
                    Some(h) => ty + "-"@ + int_text(h) + "p"@,
                    None => ty,
                })))
                .push(("format_note"@, Json::Str(if timeline { "Timeline"@ } else { Seq::empty() })))
                .push(("vcodec"@, Json::Str(if audio { "none"@ } else { "unknown"@ })))
                .push(("acodec"@, Json::Str(if timeline { "none"@ } else { "unknown"@ })))
                .push(("fps"@, if timeline || audio {
                    Json::Null
                } else {
                    match json_lookup(video, "fps"@) {
                        Some(f) => f,
                        None => Json::Null,
                    }
                }));
            let f1 = copy_member(f0, meta, "bitrate"@, "tbr"@);
            let f2 = copy_member(f1, meta, "size"@, "filesize"@);
            let f3 = copy_member(f2, meta, "w"@, "width"@);
            let f4 = copy_member(f3, meta, "h"@, "height"@);
            Some((u, Json::Object(f4)))
        },
        None => None,
    }
}

/// The formats of the first `n` media of format group `ty`.
pub open spec fn rumble_group_formats(video: Json, ty: Seq<char>, cands: Seq<(Option<Seq<char>>, Json)>, n: int) -> Seq<(Seq<char>, Json)>
    decreases n,
{
    if n <= 0 {
        Seq::empty()
    } else {
        let prev = rumble_group_formats(video, ty, cands, n - 1);
        match rumble_format(video, ty, cands[n - 1].0, cands[n - 1].1) {
            Some(f) => prev.push(f),
            None => prev,
        }
    }
}

/// The formats of the first `n` format groups, in order.
pub open spec fn rumble_formats(video: Json, groups: Seq<(Seq<char>, Json)>, n: int) -> Seq<(Seq<char>, Json)>
    decreases n,
{
    if n <= 0 {
        Seq::empty()
    } else {
        let cands = rumble_candidates(groups[n - 1].1);
        rumble_formats(video, groups, n - 1) + rumble_group_formats(video, groups[n - 1].0, cands, cands.len() as int)
    }
}

/// The formats of a Rumble embed API record.
pub open spec fn rumble_all_formats(video: Json) -> Seq<(Seq<char>, Json)> {
    match json_lookup(video, "ua"@) {
        Some(Json::Object(groups)) => rumble_formats(video, groups, groups.len() as int),
        _ => Seq::empty(),
    }
}

fn copy_member_of(fields: &mut Vec<(String, JsonValue)>, meta: &JsonValue, source: &str, key: &str)
    ensures
        fields_view(final(fields)@) == copy_member(fields_view(old(fields)@), meta@, source@, key@),
{
    match json_get(meta, source) {
        Some(v) => obj_add(fields, key, json_clone(v)),
        None => {},
    }
}

/// The format, with its address, of one Rumble medium of group `ty`.
pub fn rumble_format_of(video: &JsonValue, ty: &str, hint: Option<&str>, vi: &JsonValue) -> (r: Option<(String, JsonValue)>)
    ensures
        match r {
            Some((u, f)) => rumble_format(video@, ty@, str_opt_view(hint), vi@) == Some((u@, f@)),
            None => rumble_format(video@, ty@, str_opt_view(hint), vi@) is None,
        },
{
    let u = match json_string(vi, "url") {
        Some(u) => u,
        None => return None,
    };
    if str_equal(ty, "tar") {
        return None;
    }
    if str_equal(ty, "hls") {
        let mut f = obj_new();
        obj_add(&mut f, "url", jstr(u));
        obj_add(&mut f, "format_id", jstr("hls"));
        obj_add(&mut f, "ext", jstr("mp4"));
        obj_add(&mut f, "protocol", jstr("m3u8_native"));
        return Some((owned(u), obj_done(f)));
    }
    let null = JsonValue::Null;
    let meta = match json_get(vi, "meta") {
        Some(m) => m,
        None => &null,
    };
    let height = match json_i64(meta, "h") {
        Some(h) => Some(h),
        None => match hint {
            Some(t) => parse_int(t),
            None => None,
        },
    };
    let timeline = str_equal(ty, "timeline");
    let audio = str_equal(ty, "audio");
    proof {
        reveal_strlit("");
    }
    let ghost mv = match json_lookup(vi@, "meta"@) { Some(m) => m, None => Json::Null };
    assert(meta@ == mv);
    assert(match height { Some(h) => Some(h as int), None => None } == match json_int_at(mv, "h"@) {
        Some(h) => Some(h),
        None => match str_opt_view(hint) { Some(t) => parsed_int(t), None => None },
    });
    let mut f = obj_new();
    obj_add(&mut f, "url", jstr(u));
    let fid = match height {
        Some(h) => {
            let mut s = concat3(ty, "-", int_to_string(h).as_str());
            push_str(&mut s, "p");
            assert(s@ =~= ty@ + "-"@ + int_text(h as int) + "p"@);
            s
        },
        None => owned(ty),
    };
    obj_add(&mut f, "format_id", JsonValue::Str(fid));
    obj_add(&mut f, "format_note", jstr(if timeline { "Timeline" } else { "" }));
    obj_add(&mut f, "vcodec", jstr(if audio { "none" } else { "unknown" }));
    obj_add(&mut f, "acodec", jstr(if timeline { "none" } else { "unknown" }));
    obj_add(&mut f, "fps", if timeline || audio {
        JsonValue::Null
    } else {
        match json_get(video, "fps") {
            Some(x) => json_clone(x),
            None => JsonValue::Null,
        }
    });
    assert(fields_view(f@).len() == 6);
    assert(fields_view(f@)[0] == ("url"@, Json::Str(u@)));
    assert(fields_view(f@)[2] == ("format_note"@, Json::Str(if timeline { "Timeline"@ } else { Seq::empty() })));
    assert(fields_view(f@)[3] == ("vcodec"@, Json::Str(if audio { "none"@ } else { "unknown"@ })));
    copy_member_of(&mut f, meta, "bitrate", "tbr");
    copy_member_of(&mut f, meta, "size", "filesize");
    copy_member_of(&mut f, meta, "w", "width");
    copy_member_of(&mut f, meta, "h", "height");
    Some((owned(u), obj_done(f)))
}

/// Appends the formats of one Rumble format group, noting the first address seen.
fn rumble_group_of(video: &JsonValue, ty: &str, info: &JsonValue, out: &mut Vec<JsonValue>, first: &mut Option<String>)
    ensures
        ({
            let gf = rumble_group_formats(video@, ty@, rumble_candidates(info@), rumble_candidates(info@).len() as int);
            &&& items_view(final(out)@) == items_view(old(out)@) + pair_records(gf)
            &&& match *old(first) {
                Some(u) => *final(first) == Some(u),
                None => match *final(first) {
                    Some(u) => gf.len() > 0 && gf[0].0 == u@,
                    None => gf.len() == 0,
                },
            }
        }),
{
    let ghost cands = rumble_candidates(info@);
    let ghost start = items_view(out@);
    let ghost first0 = *first;
    match info {
        JsonValue::Array(a) => {
            proof { lemma_array_view(*info); }
            let mut i: usize = 0;
            assert(items_view(out@) =~= start + pair_records(rumble_group_formats(video@, ty@, cands, 0)));
            while i < a.len()
                invariant
                    i <= a@.len(),
                    cands.len() == a@.len(),
                    forall|j: int| 0 <= j < a@.len() ==> (#[trigger] cands[j]) == (None::<Seq<char>>, a@[j]@),
                    items_view(out@) == start + pair_records(rumble_group_formats(video@, ty@, cands, i as int)),
                    match first0 {
                        Some(u) => *first == Some(u),
                        None => match *first {
                            Some(u) => rumble_group_formats(video@, ty@, cands, i as int).len() > 0
                                && rumble_group_formats(video@, ty@, cands, i as int)[0].0 == u@,
                            None => rumble_group_formats(video@, ty@, cands, i as int).len() == 0,
                        },
                    },
                decreases a@.len() - i,
            {
                let ghost prev = rumble_group_formats(video@, ty@, cands, i as int);
                let ghost old_out = out@;
                assert(cands[i as int] == (None::<Seq<char>>, a@[i as int]@));
                match rumble_format_of(video, ty, None, &a[i]) {
                    Some((u, f)) => {
                        if first.is_none() {
                            *first = Some(u.clone());
                        }
                        out.push(f);
                        assert(items_view(out@) =~= items_view(old_out).push(f@));
                        assert(pair_records(prev.push((u@, f@))) =~= pair_records(prev).push(f@));
                    },
                    None => {},
                }
                i = i + 1;
            }
        },
        JsonValue::Object(fields) => {
            proof { lemma_object_view(*info); }
            let mut i: usize = 0;
            assert(items_view(out@) =~= start + pair_records(rumble_group_formats(video@, ty@, cands, 0)));
            while i < fields.len()
                invariant
                    i <= fields@.len(),
                    cands.len() == fields@.len(),
                    forall|j: int| 0 <= j < fields@.len() ==> (#[trigger] cands[j]) == (Some(fields@[j].0@), fields@[j].1@),
                    items_view(out@) == start + pair_records(rumble_group_formats(video@, ty@, cands, i as int)),
                    match first0 {
                        Some(u) => *first == Some(u),
                        None => match *first {
                            Some(u) => rumble_group_formats(video@, ty@, cands, i as int).len() > 0
                                && rumble_group_formats(video@, ty@, cands, i as int)[0].0 == u@,
                            None => rumble_group_formats(video@, ty@, cands, i as int).len() == 0,
                        },
                    },
                decreases fields@.len() - i,
            {
                let ghost prev = rumble_group_formats(video@, ty@, cands, i as int);
                let ghost old_out = out@;
                assert(cands[i as int] == (Some(fields@[i as int].0@), fields@[i as int].1@));
                match rumble_format_of(video, ty, Some(fields[i].0.as_str()), &fields[i].1) {
                    Some((u, f)) => {
                        if first.is_none() {
                            *first = Some(u.clone());
                        }
                        out.push(f);
                        assert(items_view(out@) =~= items_view(old_out).push(f@));
                        assert(pair_records(prev.push((u@, f@))) =~= pair_records(prev).push(f@));
                    },
                    None => {},
                }
                i = i + 1;
            }
        },
        _ => {
            assert(items_view(out@) =~= start + pair_records(Seq::empty()));
        },
    }
}

/// The thumbnails listed by the first `n` items of a Rumble record's `t`.
pub open spec fn rumble_thumbs(ts: Seq<Json>, n: int) -> Seq<Json>
    decreases n,
{
    if n <= 0 {
        Seq::empty()
    } else {
        let prev = rumble_thumbs(ts, n - 1);
        match json_str_at(ts[n - 1], "i"@) {
            Some(u) => prev.push(Json::Object(Seq::empty()
                .push(("url"@, Json::Str(u)))
                .push(("width"@, int_or_null(json_int_at(ts[n - 1], "w"@))))
                .push(("height"@, int_or_null(json_int_at(ts[n - 1], "h"@)))))),
            None => prev,
        }
    }
}

/// The thumbnails of a Rumble record: those it lists, else its single image.
pub open spec fn rumble_thumbnails(video: Json) -> Seq<Json> {
    let listed = match json_lookup(video, "t"@) {
        Some(Json::Array(ts)) => rumble_thumbs(ts, ts.len() as int),
        _ => Seq::empty(),
    };
    if listed.len() > 0 {
        listed
    } else {
        match json_str_at(video, "i"@) {
            Some(u) => seq![Json::Object(Seq::empty().push(("url"@, Json::Str(u))))],
            None => Seq::empty(),
        }
    }
}

/// The subtitles of the first `n` captions of a Rumble record, by language.
pub open spec fn rumble_subs(cs: Seq<(Seq<char>, Json)>, n: int) -> Seq<(Seq<char>, Json)>
    decreases n,
{
    if n <= 0 {
        Seq::empty()
    } else {
        let prev = rumble_subs(cs, n - 1);
        match json_str_at(cs[n - 1].1, "path"@) {
            Some(p) => prev.push((cs[n - 1].0, Json::Array(seq![Json::Object(Seq::empty()
                .push(("url"@, Json::Str(p)))
                .push(("name"@, Json::Str(match json_str_at(cs[n - 1].1, "language"@) {
                    Some(l) => l,
                    None => Seq::empty(),
                }))))]))),
            None => prev,
        }
    }
}

/// The subtitles of a Rumble record, by language.
pub open spec fn rumble_subtitles(video: Json) -> Seq<(Seq<char>, Json)> {
    match json_lookup(video, "cc"@) {
        Some(Json::Object(cs)) => rumble_subs(cs, cs.len() as int),
        _ => Seq::empty(),
    }
}

/// The metadata of Rumble video `id` from its embed API record and its formats.
pub open spec fn rumble_info(id: Seq<char>, video: Json, fs: Seq<(Seq<char>, Json)>) -> Map<Seq<char>, Json> {
    let author = match json_lookup(video, "author"@) {
        Some(a) => a,
        None => Json::Null,
    };
    let m0 = put_opt(Map::<Seq<char>, Json>::empty().insert("id"@, Json::Str(id)), "title"@, opt_str(match json_str_at(video, "title"@) {
        Some(t) => Some(unescaped(t)),
        None => None,
    }));
    let m1 = m0.insert("url"@, Json::Str(fs[0].0)).insert("ext"@, Json::Str("mp4"@)).insert("formats"@, Json::Array(pair_records(fs)));
    let m2 = put_opt(m1, "timestamp"@, opt_int(match json_str_at(video, "pubDate"@) {
        Some(d) => timestamp_of(d),
        None => None,
    }));
    let m3 = put_opt(m2, "channel"@, opt_str(json_str_at(author, "name"@)));
    let m4 = put_opt(m3, "channel_url"@, opt_str(json_str_at(author, "url"@)));
    let m5 = put_opt(m4, "uploader"@, opt_str(json_str_at(author, "name"@)));
    let ls = rumble_live_status(video);
    let m6 = if ls.len() > 0 { m5.insert("live_status"@, Json::Str(ls)) } else { m5 };
    let m7 = if ls != "is_live"@ { put_opt(m6, "duration"@, opt_int(json_int_at(video, "duration"@))) } else { m6 };
    let th = rumble_thumbnails(video);
    let m8 = if th.len() > 0 { m7.insert("thumbnails"@, Json::Array(th)) } else { m7 };
    let subs = rumble_subtitles(video);
    if subs.len() > 0 { m8.insert("subtitles"@, Json::Object(subs)) } else { m8 }
}

fn rumble_thumbnails_of(video: &JsonValue) -> (r: Vec<JsonValue>)
    ensures
        items_view(r@) == rumble_thumbnails(video@),
{
    let mut out: Vec<JsonValue> = Vec::new();
    match json_get(video, "t") {
        Some(t) => match t {
            JsonValue::Array(ts) => {
                proof { lemma_array_view(*t); }
                let ghost tv = items_view(ts@);
                let mut i: usize = 0;
                assert(items_view(out@) =~= rumble_thumbs(tv, 0));
                while i < ts.len()
                    invariant
                        i <= ts@.len(),
                        tv == items_view(ts@),
                        items_view(out@) == rumble_thumbs(tv, i as int),
                    decreases ts@.len() - i,
                {
                    let ghost old_out = out@;
                    match json_string(&ts[i], "i") {
                        Some(u) => {
                            let mut f = obj_new();
                            obj_add(&mut f, "url", jstr(u));
                            obj_add(&mut f, "width", match json_i64(&ts[i], "w") { Some(w) => JsonValue::Int(w), None => JsonValue::Null });
                            obj_add(&mut f, "height", match json_i64(&ts[i], "h") { Some(h) => JsonValue::Int(h), None => JsonValue::Null });
                            let o = obj_done(f);
                            out.push(o);
                            assert(items_view(out@) =~= items_view(old_out).push(o@));
                        },
                        None => {},
                    }
                    i = i + 1;
                }
            },
            _ => {},
        },
        None => {},
    }
    if out.len() == 0 {
        match json_string(video, "i") {
            Some(u) => {
                let mut f = obj_new();
                obj_add(&mut f, "url", jstr(u));
                let o = obj_done(f);
                out.push(o);
                assert(items_view(out@) =~= seq![o@]);
            },
            None => {
                assert(items_view(out@) =~= Seq::<Json>::empty());
            },
        }
    }
    out
}

fn rumble_subtitles_of(video: &JsonValue) -> (r: Vec<(String, JsonValue)>)
    ensures
        fields_view(r@) == rumble_subtitles(video@),
{
    let mut out = obj_new();
    match json_get(video, "cc") {
        Some(c) => match c {
            JsonValue::Object(cs) => {
                proof { lemma_object_view(*c); }
                let ghost cv = fields_view(cs@);
                let mut i: usize = 0;
                assert(fields_view(out@) =~= rumble_subs(cv, 0));
                while i < cs.len()
                    invariant
                        i <= cs@.len(),
                        cv == fields_view(cs@),
                        fields_view(out@) == rumble_subs(cv, i as int),
                    decreases cs@.len() - i,
                {
                    assert(cv[i as int] == (cs@[i as int].0@, cs@[i as int].1@));
                    match json_string(&cs[i].1, "path") {
                        Some(p) => {
                            proof { reveal_strlit(""); }
                            let mut f = obj_new();
                            obj_add(&mut f, "url", jstr(p));
                            let name: &str = match json_string(&cs[i].1, "language") {
                                Some(l) => l,
                                None => "",
                            };
                            assert(name@ == match json_str_at(cv[i as int].1, "language"@) {
                                Some(l) => l,
                                None => Seq::<char>::empty(),
                            });
                            obj_add(&mut f, "name", jstr(name));
                            let o = obj_done(f);
                            let ghost ov = o@;
                            let mut a = arr_new();
                            arr_add(&mut a, o);
                            let av = arr_done(a);
                            assert(av@ =~= Json::Array(seq![ov]));
                            assert(ov =~= Json::Object(Seq::empty()
                                .push(("url"@, Json::Str(p@)))
                                .push(("name"@, Json::Str(match json_str_at(cv[i as int].1, "language"@) {
                                    Some(l) => l,
                                    None => Seq::empty(),
                                })))));
                            obj_add(&mut out, cs[i].0.as_str(), av);
                        },
                        None => {},
                    }
                    i = i + 1;
                }
            },
            _ => {},
        },
        None => {},
    }
    out
}

/// The result of Rumble video `video_id` from its embed API record.
pub fn rumble_embed_result(video_id: &str, video: &JsonValue) -> (r: Result<Step, ExtractorError>)
    ensures
        rumble_all_formats(video@).len() == 0 ==> fails_with(r, ExtractorErrorKind::Extraction),
        rumble_all_formats(video@).len() > 0 ==> done_with(r, rumble_info(video_id@, video@, rumble_all_formats(video@))),
{
    let mut formats: Vec<JsonValue> = Vec::new();
    let mut first: Option<String> = None;
    match json_get(video, "ua") {
        Some(g) => match g {
            JsonValue::Object(groups) => {
                proof { lemma_object_view(*g); }
                let ghost gv = fields_view(groups@);
                let mut i: usize = 0;
                assert(items_view(formats@) =~= pair_records(rumble_formats(video@, gv, 0)));
                while i < groups.len()
                    invariant
                        i <= groups@.len(),
                        gv == fields_view(groups@),
                        items_view(formats@) == pair_records(rumble_formats(video@, gv, i as int)),
                        match first {
                            Some(u) => rumble_formats(video@, gv, i as int).len() > 0 && rumble_formats(video@, gv, i as int)[0].0 == u@,
                            None => rumble_formats(video@, gv, i as int).len() == 0,
                        },
                    decreases groups@.len() - i,
                {
                    let ghost prev = rumble_formats(video@, gv, i as int);
                    let ghost cands = rumble_candidates(gv[i as int].1);
                    rumble_group_of(video, groups[i].0.as_str(), &groups[i].1, &mut formats, &mut first);
                    let ghost gf = rumble_group_formats(video@, gv[i as int].0, cands, cands.len() as int);
                    assert(pair_records(prev + gf) =~= pair_records(prev) + pair_records(gf));
                    i = i + 1;
                }
            },
            _ => {},
        },
        None => {},
    }
    let first_url = match first {
        Some(u) => u,
        None => return Err(ExtractorError::new(
            ExtractorErrorKind::Extraction,
            concat3("Rumble video ", video_id, " has no playable formats"),
        )),
    };
    let null = JsonValue::Null;
    let author = match json_get(video, "author") {
        Some(a) => a,
        None => &null,
    };
    let mut info = InfoDict::new();
    info.insert("id", jstr(video_id));
    info.insert_if_some("title", match json_string(video, "title") {
        Some(t) => Some(JsonValue::Str(unescape_html(t))),
        None => None,
    });
    info.insert("url", JsonValue::Str(first_url));
    info.insert("ext", jstr("mp4"));
    info.insert("formats", arr_done(formats));
    info.insert_if_some("timestamp", opt_int_json(match json_string(video, "pubDate") {
        Some(d) => parse_timestamp(d),
        None => None,
    }));
    info.insert_if_some("channel", opt_str_json(json_string(author, "name")));
    info.insert_if_some("channel_url", opt_str_json(json_string(author, "url")));
    info.insert_if_some("uploader", opt_str_json(json_string(author, "name")));
    let ls = rumble_live_status_of(video);
    if ls.unicode_len() > 0 {
        info.insert("live_status", jstr(ls));
    }
    if !str_equal(ls, "is_live") {
        info.insert_if_some("duration", opt_int_json(json_i64(video, "duration")));
    }
    let th = rumble_thumbnails_of(video);
    if th.len() > 0 {
        info.insert("thumbnails", arr_done(th));
    }
    let subs = rumble_subtitles_of(video);
    if subs.len() > 0 {
        info.insert("subtitles", obj_done(subs));
    }
    Ok(Step::Done(ExtractorResult::single(info)))
}

impl RumbleEmbedExtractor {
    /// One step of a Rumble embed extraction: the embed API record is fetched, then the
    /// metadata is built from it.
    pub fn extract_step(&self, url: &str, replies: &Vec<Reply>) -> (r: Result<Step, ExtractorError>)
        ensures
            match regex_named_capture(self.matcher().source(), url@, "id"@) {
                Some(id) => if replies@.len() == 0 {
                    fetches(r, rumble_api_url(id), Expect::Json)
                } else {
                    match reply_json_at(replies@, 0) {
                        Some(video) => {
                            &&& rumble_all_formats(video@).len() == 0 ==> fails_with(r, ExtractorErrorKind::Extraction)
                            &&& rumble_all_formats(video@).len() > 0 ==> done_with(r, rumble_info(id, video@, rumble_all_formats(video@)))
                        },
                        None => fails_with(r, ExtractorErrorKind::Extraction),
                    }
                },
                None => fails_with(r, ExtractorErrorKind::InvalidUrl),
            },
    {
        let video_id = match self.site.capture(url, "id") {
            Some(v) => v,
            None => return Err(fail(ExtractorErrorKind::InvalidUrl, "Rumble embed URL has no ID")),
        };
        if replies.len() == 0 {
            let api = concat2("https://rumble.com/embedJS/u3/?request=video&ver=2&v=", form_encode(video_id.as_str()).as_str());
            return Ok(Step::Fetch(get_json(api)));
        }
        let video = reply_json(replies, 0)?;
        rumble_embed_result(video_id.as_str(), video)
    }
}

/// The public download API address for a Yandex Disk page address.
pub open spec fn yandex_download_api(url: Seq<char>) -> Seq<char> {
    "https://cloud-api.yandex.net/v1/disk/public/resources/download?public_key="@ + form_encoded(url)
}

/// The store of a Yandex Disk page and its root resource.
pub open spec fn yandex_resource(html: Seq<char>) -> Option<(Json, Json)> {
    match script_json(html, "store-prefetch"@) {
        Some(store) => match json_lookup(store, "rootResourceId"@) {
            Some(rid) => match lookup_in(json_lookup(store, "resources"@), value_text(rid)) {
                Some(res) => Some((store, res)),
                None => None,
            },
            None => None,
        },
        None => None,
    }
}

/// A resource's `meta`, or null.
pub open spec fn yandex_meta(res: Json) -> Json {
    match json_lookup(res, "meta"@) {
        Some(m) => m,
        None => Json::Null,
    }
}

/// The title of a Yandex Disk resource: its name, else the URL's ID.
pub open spec fn yandex_title(id: Seq<char>, res: Json) -> Seq<char> {
    match json_str_at(res, "name"@) {
        Some(n) => n,
        None => id,
    }
}

/// The ID of a Yandex Disk resource: the one its public short address names, else the URL's.
pub open spec fn yandex_id(pattern: Seq<char>, id: Seq<char>, res: Json) -> Seq<char> {
    match json_str_at(yandex_meta(res), "short_url"@) {
        Some(pk) => match regex_named_capture(pattern, pk, "id"@) {
            Some(p) => p,
            None => id,
        },
        None => id,
    }
}

/// The source format that the download API's answer gives, with its address and extension.
pub open spec fn yandex_source(title: Seq<char>, meta: Json, reply: Reply) -> Option<(Seq<char>, Seq<char>, Json)> {
    match reply {
        Reply::Json(v) => match json_str_at(v@, "href"@) {
            Some(h) => {
                let ext = ext_of(title, match json_str_at(meta, "ext"@) {
                    Some(e) => e,
                    None => match json_str_at(meta, "mime_type"@) {
                        Some(m) => m,
                        None => "mp4"@,
                    },
                });
                Some((h, ext, Json::Object(Seq::empty()
                    .push(("url"@, Json::Str(h)))
                    .push(("format_id"@, Json::Str("source"@)))
                    .push(("ext"@, Json::Str(ext)))
                    .push(("quality"@, Json::Int(1)))
                    .push(("filesize"@, int_or_null(json_int_at(meta, "size"@)))))))
            },
            None => None,
        },
        _ => None,
    }
}

/// The HLS formats of the first `n` video streams of a resource.
pub open spec fn yandex_stream_formats(videos: Seq<Json>, n: int) -> Seq<(Seq<char>, Seq<char>, Json)>
    decreases n,
{
    if n <= 0 {
        Seq::empty()
    } else {
        let prev = yandex_stream_formats(videos, n - 1);
        let v = videos[n - 1];
        match json_str_at(v, "url"@) {
            Some(u) => {
                let size = match json_lookup(v, "size"@) {
                    Some(s) => s,
                    None => Json::Null,
                };
                let h = json_int_at(size, "height"@);
                prev.push((u, "mp4"@, Json::Object(Seq::empty()
                    .push(("url"@, Json::Str(u)))
                    .push(("format_id"@, Json::Str(match h {
                        Some(x) => "hls-"@ + int_text(x) + "p"@,
                        None => "hls"@,
                    })))
                    .push(("ext"@, Json::Str("mp4"@)))
                    .push(("height"@, int_or_null(h)))
                    .push(("width"@, int_or_null(json_int_at(size, "width"@))))
                    .push(("protocol"@, Json::Str("m3u8_native"@))))))
            },
            None => prev,
        }
    }
}

/// The formats of a Yandex Disk resource: the downloadable source, then its video streams.
pub open spec fn yandex_formats(id: Seq<char>, res: Json, reply: Reply) -> Seq<(Seq<char>, Seq<char>, Json)> {
    let src = match yandex_source(yandex_title(id, res), yandex_meta(res), reply) {
        Some(f) => seq![f],
        None => Seq::empty(),
    };
    let streams = match lookup_in(json_lookup(res, "videoStreams"@), "videos"@) {
        Some(Json::Array(vs)) => yandex_stream_formats(vs, vs.len() as int),
        _ => Seq::empty(),
    };
    src + streams
}

/// The duration of a resource's video streams, given in milliseconds.
pub open spec fn yandex_duration(res: Json) -> Option<Json> {
    match json_lookup(res, "videoStreams"@) {
        Some(st) => match json_num_at(st, "duration"@) {
            Some(Json::Decimal(m, e)) => if e - 3 >= i32::MIN { Some(Json::Decimal(m, e - 3)) } else { None },
            _ => None,
        },
        None => None,
    }
}

/// The metadata of a Yandex Disk resource from the URL's ID, the page store, the resource
/// and its formats.
pub open spec fn yandex_info(pattern: Seq<char>, id: Seq<char>, store: Json, res: Json, fs: Seq<(Seq<char>, Seq<char>, Json)>) -> Map<Seq<char>, Json> {
    let m0 = Map::<Seq<char>, Json>::empty()
        .insert("id"@, Json::Str(yandex_id(pattern, id, res)))
        .insert("title"@, Json::Str(yandex_title(id, res)))
        .insert("url"@, Json::Str(fs[0].0))
        .insert("ext"@, Json::Str(fs[0].1))
        .insert("formats"@, Json::Array(format_records(fs)));
    let m1 = put_opt(m0, "duration"@, yandex_duration(res));
    let m2 = match json_str_at(res, "uid"@) {
        Some(uid) => put_opt(m1.insert("uploader_id"@, Json::Str(uid)), "uploader"@,
            opt_str(str_in(lookup_in(json_lookup(store, "users"@), uid), "displayName"@))),
        None => m1,
    };
    put_opt(m2, "view_count"@, opt_int(json_int_at(yandex_meta(res), "views_counter"@)))
}

fn yandex_source_of(title: &str, meta: &JsonValue, reply: &Reply) -> (r: Option<(String, String, JsonValue)>)
    ensures
        match r {
            Some((u, e, f)) => yandex_source(title@, meta@, *reply) == Some((u@, e@, f@)),
            None => yandex_source(title@, meta@, *reply) is None,
        },
{
    match reply {
        Reply::Json(v) => match json_string(v, "href") {
            Some(h) => {
                let dflt: &str = match json_string(meta, "ext") {
                    Some(e) => e,
                    None => match json_string(meta, "mime_type") {
                        Some(m) => m,
                        None => "mp4",
                    },
                };
                let ext = determine_ext(title, dflt);
                let mut f = obj_new();
                obj_add(&mut f, "url", jstr(h));
                obj_add(&mut f, "format_id", jstr("source"));
                obj_add(&mut f, "ext", JsonValue::Str(ext.clone()));
                obj_add(&mut f, "quality", JsonValue::Int(1));
                obj_add(&mut f, "filesize", match json_i64(meta, "size") { Some(s) => JsonValue::Int(s), None => JsonValue::Null });
                Some((owned(h), ext, obj_done(f)))
            },
            None => None,
        },
        _ => None,
    }
}

/// Appends the HLS formats of a resource's video streams, noting the first address seen.
fn yandex_streams_of(videos: &Vec<JsonValue>, out: &mut Vec<JsonValue>, first: &mut Option<(String, String)>)
    ensures
        ({
            let sf = yandex_stream_formats(items_view(videos@), videos@.len() as int);
            &&& items_view(final(out)@) == items_view(old(out)@) + format_records(sf)
            &&& match *old(first) {
                Some(p) => *final(first) == Some(p),
                None => match *final(first) {
                    Some((u, e)) => sf.len() > 0 && sf[0].0 == u@ && sf[0].1 == e@,
                    None => sf.len() == 0,
                },
            }
        }),
{
    let ghost vs = items_view(videos@);
    let ghost start = items_view(out@);
    let ghost first0 = *first;
    let mut i: usize = 0;
    assert(items_view(out@) =~= start + format_records(yandex_stream_formats(vs, 0)));
    while i < videos.len()
        invariant
            i <= videos@.len(),
            vs == items_view(videos@),
            items_view(out@) == start + format_records(yandex_stream_formats(vs, i as int)),
            match first0 {
                Some(p) => *first == Some(p),
                None => match *first {
                    Some((u, e)) => yandex_stream_formats(vs, i as int).len() > 0
                        && yandex_stream_formats(vs, i as int)[0].0 == u@
                        && yandex_stream_formats(vs, i as int)[0].1 == e@,
                    None => yandex_stream_formats(vs, i as int).len() == 0,
                },
            },
        decreases videos@.len() - i,
    {
        let ghost prev = yandex_stream_formats(vs, i as int);
        let ghost old_out = out@;
        let v = &videos[i];
        match json_string(v, "url") {
            Some(u) => {
                let null = JsonValue::Null;
                let size = match json_get(v, "size") {
                    Some(s) => s,
                    None => &null,
                };
                let h = json_i64(size, "height");
                let fid = match h {
                    Some(x) => {
                        let mut s = concat2("hls-", int_to_string(x).as_str());
                        push_str(&mut s, "p");
                        s
                    },
                    None => owned("hls"),
                };
                let mut f = obj_new();
                obj_add(&mut f, "url", jstr(u));
                obj_add(&mut f, "format_id", JsonValue::Str(fid));
                obj_add(&mut f, "ext", jstr("mp4"));
                obj_add(&mut f, "height", match h { Some(x) => JsonValue::Int(x), None => JsonValue::Null });
                obj_add(&mut f, "width", match json_i64(size, "width") { Some(x) => JsonValue::Int(x), None => JsonValue::Null });
                obj_add(&mut f, "protocol", jstr("m3u8_native"));
                let o = obj_done(f);
                let ghost ov = o@;
                if first.is_none() {
                    *first = Some((owned(u), owned("mp4")));
                }
                out.push(o);
                assert(items_view(out@) =~= items_view(old_out).push(ov));
                let ghost next = yandex_stream_formats(vs, i + 1);
                assert(next == prev.push((u@, "mp4"@, ov)));
                assert(format_records(next) =~= format_records(prev).push(ov));
            },
            None => {},
        }
        i = i + 1;
    }
}

impl YandexDiskExtractor {
    /// One step of a Yandex Disk extraction: the page is fetched for its store, then the
    /// public download API is asked, a failure being no error, then the metadata is built.
    pub fn extract_step(&self, url: &str, replies: &Vec<Reply>) -> (r: Result<Step, ExtractorError>)
        ensures
            match regex_named_capture(self.matcher().source(), url@, "id"@) {
                Some(id) => if replies@.len() == 0 {
                    fetches(r, url@, Expect::Text)
                } else {
                    match reply_text_at(replies@, 0) {
                        Some(html) => match yandex_resource(html) {
                            Some((store, res)) => if replies@.len() == 1 {
                                fetches_optional(r, yandex_download_api(url@), Expect::Json)
                            } else {
                                let fs = yandex_formats(id, res, replies@[1]);
                                if fs.len() == 0 {
                                    fails_with(r, ExtractorErrorKind::Extraction)
                                } else {
                                    done_with(r, yandex_info(self.matcher().source(), id, store, res, fs))
                                }
                            },
                            None => fails_with(r, ExtractorErrorKind::Extraction),
                        },
                        None => fails_with(r, ExtractorErrorKind::Extraction),
                    }
                },
                None => fails_with(r, ExtractorErrorKind::InvalidUrl),
            },
    {
        let url_id = match self.site.capture(url, "id") {
            Some(v) => v,
            None => return Err(fail(ExtractorErrorKind::InvalidUrl, "Yandex Disk URL has no ID")),
        };
        if replies.len() == 0 {
            return Ok(Step::Fetch(get_text(owned(url))));
        }
        let html = reply_text(replies, 0)?;
        let store = match html_script_json(html.as_str(), "store-prefetch") {
            Some(s) => s,
            None => return Err(fail(ExtractorErrorKind::Extraction, "Yandex Disk page has no store")),
        };
        let rid = match json_value_string(json_get(&store, "rootResourceId")) {
            Some(r) => r,
            None => return Err(fail(ExtractorErrorKind::Extraction, "Yandex Disk store has no root resource ID")),
        };
        let res = match json_get(&store, "resources") {
            Some(rs) => match json_get(rs, rid.as_str()) {
                Some(x) => x,
                None => return Err(fail(ExtractorErrorKind::Extraction, "Yandex Disk store has no root resource")),
            },
            None => return Err(fail(ExtractorErrorKind::Extraction, "Yandex Disk store has no root resource")),
        };
        if replies.len() == 1 {
            let api = concat2(
                "https://cloud-api.yandex.net/v1/disk/public/resources/download?public_key=",
                form_encode(url).as_str(),
            );
            return Ok(Step::Fetch(get_json_optional(api)));
        }
        let title = match json_string(res, "name") {
            Some(n) => owned(n),
            None => url_id.clone(),
        };
        let null = JsonValue::Null;
        let meta = match json_get(res, "meta") {
            Some(m) => m,
            None => &null,
        };
        let video_id = match json_string(meta, "short_url") {
            Some(pk) => match self.site.capture(pk, "id") {
                Some(p) => p,
                None => url_id.clone(),
            },
            None => url_id.clone(),
        };
        let mut formats: Vec<JsonValue> = Vec::new();
        let mut first: Option<(String, String)> = None;
        match yandex_source_of(title.as_str(), meta, &replies[1]) {
            Some((u, e, f)) => {
                first = Some((u, e));
                formats.push(f);
            },
            None => {},
        }
        let ghost src_part = formats@;
        match json_get(res, "videoStreams") {
            Some(st) => match json_get(st, "videos") {
                Some(vs) => match vs {
                    JsonValue::Array(videos) => {
                        proof { lemma_array_view(*vs); }
                        yandex_streams_of(videos, &mut formats, &mut first);
                    },
                    _ => {},
                },
                None => {},
            },
            None => {},
        }
        let ghost fs = yandex_formats(url_id@, res@, replies@[1]);
        assert(items_view(formats@) =~= format_records(fs));
        let (furl, fext) = match first {
            Some(p) => p,
            None => return Err(ExtractorError::new(
                ExtractorErrorKind::Extraction,
                concat3("Yandex Disk resource ", video_id.as_str(), " has no native media formats"),
            )),
        };
        let mut info = InfoDict::new();
        info.insert("id", JsonValue::Str(video_id));
        info.insert("title", JsonValue::Str(title));
        info.insert("url", JsonValue::Str(furl));
        info.insert("ext", JsonValue::Str(fext));
        info.insert("formats", arr_done(formats));
        let dur = match json_get(res, "videoStreams") {
            Some(st) => match json_f64(st, "duration") {
                Some(JsonValue::Decimal(m, e)) => if e >= i32::MIN + 3 { Some(JsonValue::Decimal(m, e - 3)) } else { None },
                _ => None,
            },
            None => None,
        };
        info.insert_if_some("duration", dur);
        match json_string(res, "uid") {
            Some(uid) => {
                info.insert("uploader_id", jstr(uid));
                let name = match json_get(&store, "users") {
                    Some(users) => match json_get(users, uid) {
                        Some(user) => json_string(user, "displayName"),
                        None => None,
                    },
                    None => None,
                };
                info.insert_if_some("uploader", opt_str_json(name));
            },
            None => {},
        }
        info.insert_if_some("view_count", opt_int_json(json_i64(meta, "views_counter")));
        Ok(Step::Done(ExtractorResult::single(info)))
    }
}


/// The Clyp API address of audio `id`, with the page's access token when it has one.
pub open spec fn clyp_api(url: Seq<char>, id: Seq<char>) -> Seq<char> {
    match query_value(url, "token"@) {
        Some(t) => "https://api.clyp.it/"@ + id + "?token="@ + form_encoded(t),
        None => "https://api.clyp.it/"@ + id,
    }
}

/// The Clyp format `prefix + kind` (`kind` is `Ogg` or `Mp3`, `lower` its file ending),
/// when the record has its address.
pub open spec fn clyp_format(meta: Json, prefix: Seq<char>, kind: Seq<char>, lower: Seq<char>) -> Seq<Json> {
    match json_str_at(meta, prefix + kind + "Url"@) {
        Some(u) => seq![Json::Object(seq![
            ("url"@, Json::Str(u)),
            ("format_id"@, Json::Str(prefix + kind)),
            ("ext"@, Json::Str(lower)),
            ("vcodec"@, Json::Str("none"@)),
            ("acodec"@, Json::Str(lower)),
        ])],
        None => Seq::empty(),
    }
}

/// The formats of a Clyp record: Ogg, MP3, secure Ogg, secure MP3, those it has.
pub open spec fn clyp_formats(meta: Json) -> Seq<Json> {
    clyp_format(meta, ""@, "Ogg"@, "ogg"@) + clyp_format(meta, ""@, "Mp3"@, "mp3"@)
        + clyp_format(meta, "Secure"@, "Ogg"@, "ogg"@) + clyp_format(meta, "Secure"@, "Mp3"@, "mp3"@)
}

/// The metadata of a Clyp audio.
pub open spec fn clyp_info(id: Seq<char>, meta: Json) -> Map<Seq<char>, Json> {
    let fs = clyp_formats(meta);
    let m = put_opt(put_opt(Map::<Seq<char>, Json>::empty()
        .insert("id"@, Json::Str(id))
        .insert("title"@, Json::Str(match json_str_at(meta, "Title"@) { Some(t) => t, None => id })),
        "description"@, opt_str(json_str_at(meta, "Description"@))),
        "duration"@, json_num_at(meta, "Duration"@))
        .insert("formats"@, Json::Array(fs));
    put_opt(put_opt(m, "url"@, json_lookup(fs[0], "url"@)), "ext"@, json_lookup(fs[0], "ext"@))
}

/// Adds Clyp format `prefix + kind` when the record has its address.
fn add_clyp_format(out: &mut Vec<JsonValue>, meta: &JsonValue, prefix: &str, kind: &str, lower: &str)
    ensures
        items_view(final(out)@) == items_view(old(out)@) + clyp_format(meta@, prefix@, kind@, lower@),
{
    let key = concat3(prefix, kind, "Url");
    match json_string(meta, key.as_str()) {
        Some(u) => {
            let mut f = obj_new();
            obj_add(&mut f, "url", jstr(u));
            obj_add(&mut f, "format_id", JsonValue::Str(concat2(prefix, kind)));
            obj_add(&mut f, "ext", jstr(lower));
            obj_add(&mut f, "vcodec", jstr("none"));
            obj_add(&mut f, "acodec", jstr(lower));
            assert(fields_view(f@) =~= seq![
                ("url"@, Json::Str(u@)),
                ("format_id"@, Json::Str(prefix@ + kind@)),
                ("ext"@, Json::Str(lower@)),
                ("vcodec"@, Json::Str("none"@)),
                ("acodec"@, Json::Str(lower@)),
            ]);
            let ghost before = items_view(out@);
            let fj = obj_done(f);
            arr_add(out, fj);
            assert(items_view(out@) =~= before + seq![fj@]);
        },
        None => {
            assert(items_view(out@) =~= items_view(out@) + Seq::<Json>::empty());
        },
    }
}

impl ClypExtractor {
    /// One step of a Clyp extraction: the audio record is asked of the API, with the
    /// page's token, and its Ogg and MP3 addresses become the formats.
    pub fn extract_step(&self, url: &str, replies: &Vec<Reply>) -> (r: Result<Step, ExtractorError>)
        ensures
            match last_segment(url@) {
                Some(id) => if replies@.len() == 0 {
                    fetches(r, clyp_api(url@, id), Expect::Json)
                } else {
                    match reply_json_at(replies@, 0) {
                        Some(meta) => if clyp_formats(meta@).len() == 0 {
                            fails_with(r, ExtractorErrorKind::Extraction)
                        } else {
                            done_with(r, clyp_info(id, meta@))
                        },
                        None => fails_with(r, ExtractorErrorKind::Extraction),
                    }
                },
                None => fails_with(r, ExtractorErrorKind::InvalidUrl),
            },
    {
        let audio_id = last_path_segment(url)?;
        if replies.len() == 0 {
            let mut api = concat2("https://api.clyp.it/", audio_id.as_str());
            match url_query_value(url, "token") {
                Some(t) => {
                    push_str(&mut api, "?token=");
                    push_str(&mut api, form_encode(t.as_str()).as_str());
                },
                None => {},
            }
            return Ok(Step::Fetch(get_json(api)));
        }
        let meta = reply_json(replies, 0)?;
        let mut formats = arr_new();
        add_clyp_format(&mut formats, meta, "", "Ogg", "ogg");
        add_clyp_format(&mut formats, meta, "", "Mp3", "mp3");
        add_clyp_format(&mut formats, meta, "Secure", "Ogg", "ogg");
        add_clyp_format(&mut formats, meta, "Secure", "Mp3", "mp3");
        if formats.len() == 0 {
            return Err(ExtractorError::new(ExtractorErrorKind::Extraction, concat2("Clyp API returned no playable formats for ", audio_id.as_str())));
        }
        let url0 = match json_get(&formats[0], "url") { Some(v) => Some(json_clone(v)), None => None };
        let ext0 = match json_get(&formats[0], "ext") { Some(v) => Some(json_clone(v)), None => None };
        let mut info = InfoDict::new();
        info.insert("id", JsonValue::Str(audio_id.clone()));
        info.insert("title", JsonValue::Str(match json_string(meta, "Title") { Some(t) => owned(t), None => audio_id.clone() }));
        info.insert_if_some("description", opt_str_json(json_string(meta, "Description")));
        info.insert_if_some("duration", json_f64(meta, "Duration"));
        info.insert("formats", arr_done(formats));
        info.insert_if_some("url", url0);
        info.insert_if_some("ext", ext0);
        Ok(Step::Done(ExtractorResult::single(info)))
    }
}

} // verus!
