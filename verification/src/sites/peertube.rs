use vstd::prelude::*;

use crate::extract::{determine_ext, ext_of, first_after, first_str, format_records, int_or_null, jstr, lemma_first_after_concat, opt_int, opt_int_json, opt_str, opt_str_json, or_null, push_format, put_opt, reply_json, reply_json_at, str_in, timestamp_in};
use crate::framework::{Expect, ExtractorDescriptor, ExtractorError, ExtractorErrorKind, ExtractorResult, Method, Reply, SiteMatcher, Step, SubStep, descriptor_ok, descriptor_source, done_with, fail, fails_with, get_json, get_json_optional, descriptor_error};
use crate::info::{InfoDict};
use crate::json::{Json, JsonValue, arr_add, arr_done, arr_new, fields_put, fields_view, items_view, json_bool, json_bool_at, json_clone, json_get, json_i64, json_int_at, json_lookup, json_opt_view, json_str_at, json_string, lemma_array_view, obj_add, obj_done, obj_new, obj_put, str_equal};
use crate::number::{int_text, int_to_string, parse_int, parsed_int};
use crate::pattern::{capture_group, group_at, regex_captures, regex_first_captures, regex_matches, regex_named_capture};
use crate::text::{concat2, concat3, concat4, ends_with, has_suffix, owned, push_str, strip_suffixes, trim_end_matches, utf8_len, utf8_len_at_least};
use crate::timestamp::{parse_timestamp};
use crate::weburl::{joined_url, url_is_valid, url_join, url_parses};

verus! {

/// Native PeerTube v1 video API extractor. PeerTube instances share one
/// metadata contract, so the generated URL matcher supplies the instance
/// host and this implementation handles files, streaming playlists, captions,
/// and common account/channel metadata without browser code.
pub struct PeerTubeExtractor {
    site: SiteMatcher,
}

impl PeerTubeExtractor {
    /// The descriptor and matcher the extractor was built with.
    pub closed spec fn matcher(&self) -> SiteMatcher {
        self.site
    }

    pub fn new(descriptor: ExtractorDescriptor) -> (r: Result<Self, ExtractorError>)
        ensures
            r is Ok <==> descriptor_ok(descriptor),
            r matches Ok(x) ==> x.matcher().spec_descriptor() == descriptor
                && Some(x.matcher().source()) == descriptor_source(descriptor),
            r matches Err(e) ==> e.kind == ExtractorErrorKind::Extraction && e.message@ == descriptor_error(descriptor),
    {
        match SiteMatcher::from_descriptor(descriptor) {
            Ok(site) => Ok(PeerTubeExtractor { site }),
            Err(e) => Err(e),
        }
    }

    pub fn descriptor(&self) -> (r: &ExtractorDescriptor)
        ensures
            *r == self.matcher().spec_descriptor(),
    {
        self.site.descriptor()
    }

    pub fn suitable(&self, url: &str) -> (r: bool)
        ensures
            r == regex_matches(self.matcher().source(), url@),
    {
        self.site.suitable(url)
    }

    pub fn is_native(&self) -> (r: bool)
        ensures
            r,
    {
        true
    }

    pub fn native_matcher_count(&self) -> (r: usize)
        ensures
            r == 1,
    {
        1
    }
}

/// The pattern of a `WIDTHxHEIGHT` resolution label.
pub open spec fn resolution_pattern() -> Seq<char> {
    "(?i)^(\\d+)x(\\d+)$"@
}

/// The width and height that a `WIDTHxHEIGHT` label names.
pub open spec fn resolution_of(label: Seq<char>) -> Option<(int, int)> {
    match regex_first_captures(resolution_pattern(), label) {
        Some(g) => match (group_at(g, 1), group_at(g, 2)) {
            (Some(w), Some(h)) => match (parsed_int(w), parsed_int(h)) {
                (Some(wi), Some(hi)) => Some((wi, hi)),
                _ => None,
            },
            _ => None,
        },
        None => None,
    }
}

/// `parse_resolution_label`: the width and height that a `WIDTHxHEIGHT` label names.
pub fn parse_resolution_label(label: &str) -> (r: Option<(i64, i64)>)
    ensures
        match r {
            Some((w, h)) => resolution_of(label@) == Some((w as int, h as int)),
            None => resolution_of(label@) is None,
        },
{
    let g = match regex_captures("(?i)^(\\d+)x(\\d+)$", label) {
        Some(g) => g,
        None => return None,
    };
    let w = match capture_group(&g, 1) {
        Some(w) => w,
        None => return None,
    };
    let h = match capture_group(&g, 2) {
        Some(h) => h,
        None => return None,
    };
    match (parse_int(w.as_str()), parse_int(h.as_str())) {
        (Some(wi), Some(hi)) => Some((wi, hi)),
        _ => None,
    }
}

/// The format of a PeerTube file record, with its address and extension; none without a file address.
pub open spec fn peertube_file_format(file: Json) -> Option<(Seq<char>, Seq<char>, Json)> {
    match json_str_at(file, "fileUrl"@) {
        Some(fu) => {
            let label = str_in(json_lookup(file, "resolution"@), "label"@);
            let ext0 = ext_of(fu, "mp4"@);
            let f0 = Seq::<(Seq<char>, Json)>::empty()
                .push(("url"@, Json::Str(fu)))
                .push(("format_id"@, match label { Some(l) => Json::Str(l), None => Json::Null }))
                .push(("filesize"@, int_or_null(json_int_at(file, "size"@))))
                .push(("ext"@, Json::Str(ext0)));
            let f2 = match label {
                Some(l) => {
                    let f1 = match resolution_of(l) {
                        Some((w, h)) => f0.push(("width"@, Json::Int(w))).push(("height"@, Json::Int(h))),
                        None => if has_suffix(l, "p"@) {
                            match parsed_int(strip_suffixes(l, "p"@)) {
                                Some(h) => f0.push(("height"@, Json::Int(h))),
                                None => f0,
                            }
                        } else {
                            f0
                        },
                    };
                    if l == "0p"@ {
                        f1.push(("vcodec"@, Json::Str("none"@)))
                    } else {
                        match json_int_at(file, "fps"@) {
                            Some(fps) => f1.push(("fps"@, Json::Int(fps))),
                            None => f1,
                        }
                    }
                },
                None => f0,
            };
            if ext0 == "m3u8"@ {
                Some((fu, "mp4"@, Json::Object(f2.update(3, ("ext"@, Json::Str("mp4"@))).push(("protocol"@, Json::Str("m3u8_native"@))))))
            } else {
                Some((fu, ext0, Json::Object(f2)))
            }
        },
        None => None,
    }
}

/// The format of a PeerTube file record, with its address and extension.
pub fn peertube_file_format_of(file: &JsonValue) -> (r: Option<(String, String, JsonValue)>)
    ensures
        match r {
            Some((u, e, f)) => peertube_file_format(file@) == Some((u@, e@, f@)),
            None => peertube_file_format(file@) is None,
        },
{
    let fu = match json_string(file, "fileUrl") {
        Some(u) => u,
        None => return None,
    };
    let label: Option<&str> = match json_get(file, "resolution") {
        Some(res) => json_string(res, "label"),
        None => None,
    };
    let ext0 = determine_ext(fu, "mp4");
    let mut f = obj_new();
    obj_add(&mut f, "url", jstr(fu));
    obj_add(&mut f, "format_id", match label { Some(l) => jstr(l), None => JsonValue::Null });
    obj_add(&mut f, "filesize", match json_i64(file, "size") { Some(s) => JsonValue::Int(s), None => JsonValue::Null });
    obj_add(&mut f, "ext", JsonValue::Str(ext0.clone()));
    match label {
        Some(l) => {
            match parse_resolution_label(l) {
                Some((w, h)) => {
                    obj_add(&mut f, "width", JsonValue::Int(w));
                    obj_add(&mut f, "height", JsonValue::Int(h));
                },
                None => {
                    if ends_with(l, "p") {
                        match parse_int(trim_end_matches(l, "p").as_str()) {
                            Some(h) => obj_add(&mut f, "height", JsonValue::Int(h)),
                            None => {},
                        }
                    }
                },
            }
            if str_equal(l, "0p") {
                obj_add(&mut f, "vcodec", jstr("none"));
            } else {
                match json_i64(file, "fps") {
                    Some(fps) => obj_add(&mut f, "fps", JsonValue::Int(fps)),
                    None => {},
                }
            }
        },
        None => {},
    }
    if str_equal(ext0.as_str(), "m3u8") {
        let ghost before = fields_view(f@);
        assert(before.len() >= 4);
        assert(f@.len() == before.len());
        assert(before[3].0 == "ext"@);
        f.set(3, (owned("ext"), jstr("mp4")));
        assert(fields_view(f@) =~= before.update(3, ("ext"@, Json::Str("mp4"@))));
        obj_add(&mut f, "protocol", jstr("m3u8_native"));
        Some((owned(fu), owned("mp4"), obj_done(f)))
    } else {
        Some((owned(fu), ext0, obj_done(f)))
    }
}

/// The formats of the first `n` file records.
pub open spec fn peertube_files(files: Seq<Json>, n: int) -> Seq<(Seq<char>, Seq<char>, Json)>
    decreases n,
{
    if n <= 0 {
        Seq::empty()
    } else {
        let prev = peertube_files(files, n - 1);
        match peertube_file_format(files[n - 1]) {
            Some(f) => prev.push(f),
            None => prev,
        }
    }
}

/// The formats of a record's `files`.
pub open spec fn peertube_files_of(v: Json) -> Seq<(Seq<char>, Seq<char>, Json)> {
    match json_lookup(v, "files"@) {
        Some(Json::Array(a)) => peertube_files(a, a.len() as int),
        _ => Seq::empty(),
    }
}

/// The HLS format of a streaming playlist.
pub open spec fn peertube_hls(u: Seq<char>) -> Json {
    Json::Object(Seq::empty()
        .push(("url"@, Json::Str(u)))
        .push(("format_id"@, Json::Str("hls"@)))
        .push(("ext"@, Json::Str("mp4"@)))
        .push(("protocol"@, Json::Str("m3u8_native"@))))
}

/// The formats of the first `n` streaming playlists: each one's HLS format, then its files.
pub open spec fn peertube_playlists(pls: Seq<Json>, n: int) -> Seq<(Seq<char>, Seq<char>, Json)>
    decreases n,
{
    if n <= 0 {
        Seq::empty()
    } else {
        let prev = peertube_playlists(pls, n - 1);
        match json_str_at(pls[n - 1], "playlistUrl"@) {
            Some(u) => prev + seq![(u, "mp4"@, peertube_hls(u))] + peertube_files_of(pls[n - 1]),
            None => prev,
        }
    }
}

/// Whether one of the first `n` streaming playlists has an address.
pub open spec fn peertube_has_stream(pls: Seq<Json>, n: int) -> bool
    decreases n,
{
    if n <= 0 {
        false
    } else {
        peertube_has_stream(pls, n - 1) || json_str_at(pls[n - 1], "playlistUrl"@) is Some
    }
}

/// The streaming playlists of a video record.
pub open spec fn peertube_streams(v: Json) -> Seq<Json> {
    match json_lookup(v, "streamingPlaylists"@) {
        Some(Json::Array(p)) => p,
        _ => Seq::empty(),
    }
}

/// The formats of a PeerTube video record: its streaming playlists', then its own files'.
pub open spec fn peertube_formats(v: Json) -> Seq<(Seq<char>, Seq<char>, Json)> {
    let p = peertube_streams(v);
    peertube_playlists(p, p.len() as int) + peertube_files_of(v)
}

/// Appends the formats of a record's files.
fn peertube_add_files(v: &JsonValue, out: &mut Vec<JsonValue>, first: &mut Option<(String, String)>)
    ensures
        items_view(final(out)@) == items_view(old(out)@) + format_records(peertube_files_of(v@)),
        first_after(*old(first), *final(first), peertube_files_of(v@)),
{
    let ghost start = items_view(out@);
    let ghost first0 = *first;
    match json_get(v, "files") {
        Some(fa) => match fa {
            JsonValue::Array(files) => {
                proof { lemma_array_view(*fa); }
                let ghost fv = items_view(files@);
                let mut i: usize = 0;
                assert(items_view(out@) =~= start + format_records(peertube_files(fv, 0)));
                while i < files.len()
                    invariant
                        i <= files@.len(),
                        fv == items_view(files@),
                        items_view(out@) == start + format_records(peertube_files(fv, i as int)),
                        first_after(first0, *first, peertube_files(fv, i as int)),
                    decreases files@.len() - i,
                {
                    let ghost prev = peertube_files(fv, i as int);
                    let ghost f_before = *first;
                    match peertube_file_format_of(&files[i]) {
                        Some(f) => {
                            let ghost fg = (f.0@, f.1@, f.2@);
                            push_format(out, first, f);
                            proof {
                                lemma_first_after_concat(first0, f_before, *first, prev, seq![fg]);
                                assert(prev + seq![fg] =~= prev.push(fg));
                                assert(format_records(prev.push(fg)) =~= format_records(prev).push(fg.2));
                            }
                        },
                        None => {},
                    }
                    i = i + 1;
                }
            },
            _ => {
                assert(items_view(out@) =~= start + format_records(Seq::empty()));
            },
        },
        None => {
            assert(items_view(out@) =~= start + format_records(Seq::empty()));
        },
    }
}

/// The formats of a PeerTube video record, with the address and extension of the first,
/// and whether it streams.
pub fn peertube_formats_of(v: &JsonValue) -> (r: (Vec<JsonValue>, Option<(String, String)>, bool))
    ensures
        items_view(r.0@) == format_records(peertube_formats(v@)),
        first_after(None, r.1, peertube_formats(v@)),
        r.2 == peertube_has_stream(peertube_streams(v@), peertube_streams(v@).len() as int),
{
    let mut out: Vec<JsonValue> = Vec::new();
    let mut first: Option<(String, String)> = None;
    let mut live = false;
    let ghost pv = peertube_streams(v@);
    assert(items_view(out@) =~= format_records(peertube_playlists(pv, 0)));
    match json_get(v, "streamingPlaylists") {
        Some(pa) => match pa {
            JsonValue::Array(pls) => {
                proof { lemma_array_view(*pa); }
                let mut i: usize = 0;
                while i < pls.len()
                    invariant
                        i <= pls@.len(),
                        pv == items_view(pls@),
                        items_view(out@) == format_records(peertube_playlists(pv, i as int)),
                        first_after(None, first, peertube_playlists(pv, i as int)),
                        live == peertube_has_stream(pv, i as int),
                    decreases pls@.len() - i,
                {
                    let ghost prev = peertube_playlists(pv, i as int);
                    let ghost f0 = first;
                    let pl = &pls[i];
                    match json_string(pl, "playlistUrl") {
                        Some(u) => {
                            live = true;
                            let mut h = obj_new();
                            obj_add(&mut h, "url", jstr(u));
                            obj_add(&mut h, "format_id", jstr("hls"));
                            obj_add(&mut h, "ext", jstr("mp4"));
                            obj_add(&mut h, "protocol", jstr("m3u8_native"));
                            let hj = obj_done(h);
                            let ghost hg = (u@, "mp4"@, hj@);
                            push_format(&mut out, &mut first, (owned(u), owned("mp4"), hj));
                            let ghost f1 = first;
                            let ghost mid = items_view(out@);
                            peertube_add_files(pl, &mut out, &mut first);
                            proof {
                                lemma_first_after_concat(None, f0, f1, prev, seq![hg]);
                                lemma_first_after_concat(None, f1, first, prev + seq![hg], peertube_files_of(pl@));
                                assert(format_records(prev + seq![hg] + peertube_files_of(pl@))
                                    =~= format_records(prev).push(hg.2) + format_records(peertube_files_of(pl@)));
                            }
                        },
                        None => {},
                    }
                    i = i + 1;
                }
            },
            _ => {},
        },
        None => {},
    }
    let ghost f_mid = first;
    let ghost before = peertube_playlists(pv, pv.len() as int);
    peertube_add_files(v, &mut out, &mut first);
    proof {
        lemma_first_after_concat(None, f_mid, first, before, peertube_files_of(v@));
        assert(format_records(before + peertube_files_of(v@)) =~= format_records(before) + format_records(peertube_files_of(v@)));
    }
    (out, first, live)
}

/// The subtitles of the first `n` caption records of a PeerTube instance, by language,
/// a later caption of a language replacing an earlier one.
pub open spec fn peertube_caption_list(host: Seq<char>, data: Seq<Json>, n: int) -> Seq<(Seq<char>, Json)>
    decreases n,
{
    if n <= 0 {
        Seq::empty()
    } else {
        let prev = peertube_caption_list(host, data, n - 1);
        let c = data[n - 1];
        match json_str_at(c, "captionPath"@) {
            Some(path) => {
                let lang = match str_in(json_lookup(c, "language"@), "id"@) {
                    Some(l) => l,
                    None => "en"@,
                };
                fields_put(prev, lang, Json::Array(seq![Json::Object(Seq::empty().push(("url"@, Json::Str("https://"@ + host + path))))]))
            },
            None => prev,
        }
    }
}

/// The subtitles that a captions answer gives, when there are any.
pub open spec fn peertube_subtitles(host: Seq<char>, captions: Json) -> Option<Json> {
    match json_lookup(captions, "data"@) {
        Some(Json::Array(d)) => {
            let s = peertube_caption_list(host, d, d.len() as int);
            if s.len() > 0 { Some(Json::Object(s)) } else { None }
        },
        _ => None,
    }
}

/// The subtitles that a captions answer gives, when there are any.
pub fn peertube_subtitles_of(host: &str, captions: &JsonValue) -> (r: Option<JsonValue>)
    ensures
        json_opt_view(r) == peertube_subtitles(host@, captions@),
{
    match json_get(captions, "data") {
        Some(da) => match da {
            JsonValue::Array(data) => {
                proof { lemma_array_view(*da); }
                let ghost dv = items_view(data@);
                let mut out = obj_new();
                let mut i: usize = 0;
                assert(fields_view(out@) =~= peertube_caption_list(host@, dv, 0));
                while i < data.len()
                    invariant
                        i <= data@.len(),
                        dv == items_view(data@),
                        fields_view(out@) == peertube_caption_list(host@, dv, i as int),
                    decreases data@.len() - i,
                {
                    let c = &data[i];
                    match json_string(c, "captionPath") {
                        Some(path) => {
                            let lang: &str = match json_get(c, "language") {
                                Some(l) => match json_string(l, "id") {
                                    Some(x) => x,
                                    None => "en",
                                },
                                None => "en",
                            };
                            let mut o = obj_new();
                            obj_add(&mut o, "url", JsonValue::Str(concat3("https://", host, path)));
                            let oj = obj_done(o);
                            let ghost ov = oj@;
                            let mut a = arr_new();
                            arr_add(&mut a, oj);
                            let aj = arr_done(a);
                            assert(aj@ =~= Json::Array(seq![ov]));
                            obj_put(&mut out, lang, aj);
                        },
                        None => {},
                    }
                    i = i + 1;
                }
                if out.len() > 0 {
                    Some(obj_done(out))
                } else {
                    None
                }
            },
            _ => None,
        },
        None => None,
    }
}

/// The decimal text of an integer member, when there is one.
pub open spec fn int_text_at(v: Json, key: Seq<char>) -> Option<Seq<char>> {
    match json_int_at(v, key) {
        Some(i) => Some(int_text(i)),
        None => None,
    }
}

/// `m` with the account, channel and catalogue fields of a PeerTube video record set.
pub open spec fn peertube_details(m: Map<Seq<char>, Json>, v: Json) -> Map<Seq<char>, Json> {
    let account = or_null(json_lookup(v, "account"@));
    let channel = or_null(json_lookup(v, "channel"@));
    let m1 = put_opt(m, "timestamp"@, opt_int(timestamp_in(json_str_at(v, "publishedAt"@))));
    let m2 = put_opt(m1, "uploader"@, opt_str(json_str_at(account, "displayName"@)));
    let m3 = put_opt(m2, "uploader_id"@, opt_str(int_text_at(account, "id"@)));
    let m4 = put_opt(m3, "uploader_url"@, opt_str(json_str_at(account, "url"@)));
    let m5 = put_opt(m4, "channel"@, opt_str(json_str_at(channel, "displayName"@)));
    let m6 = put_opt(m5, "channel_id"@, opt_str(int_text_at(channel, "id"@)));
    let m7 = put_opt(m6, "channel_url"@, opt_str(json_str_at(channel, "url"@)));
    let m8 = put_opt(m7, "language"@, opt_str(str_in(json_lookup(v, "language"@), "id"@)));
    let m9 = put_opt(m8, "license"@, opt_str(str_in(match json_lookup(v, "licence"@) {
        Some(l) => Some(l),
        None => json_lookup(v, "license"@),
    }, "label"@)));
    peertube_counts(m9, v)
}

/// `m` with the counts, rating, tags and category of a PeerTube video record set.
pub open spec fn peertube_counts(m9: Map<Seq<char>, Json>, v: Json) -> Map<Seq<char>, Json> {
    let m10 = put_opt(m9, "duration"@, opt_int(json_int_at(v, "duration"@)));
    let m11 = put_opt(m10, "view_count"@, opt_int(json_int_at(v, "views"@)));
    let m12 = put_opt(m11, "like_count"@, opt_int(json_int_at(v, "likes"@)));
    let m13 = put_opt(m12, "dislike_count"@, opt_int(json_int_at(v, "dislikes"@)));
    let m14 = put_opt(m13, "age_limit"@, match json_bool_at(v, "nsfw"@) {
        Some(b) => Some(Json::Int(if b { 18 } else { 0 })),
        None => None,
    });
    let m15 = put_opt(m14, "tags"@, json_lookup(v, "tags"@));
    put_opt(m15, "categories"@, match str_in(json_lookup(v, "category"@), "label"@) {
        Some(c) => Some(Json::Array(seq![Json::Str(c)])),
        None => None,
    })
}

fn int_text_of(v: &JsonValue, key: &str) -> (r: Option<JsonValue>)
    ensures
        json_opt_view(r) == opt_str(int_text_at(v@, key@)),
{
    match json_i64(v, key) {
        Some(i) => Some(JsonValue::Str(int_to_string(i))),
        None => None,
    }
}

fn peertube_details_of(info: &mut InfoDict, v: &JsonValue)
    requires
        old(info).wf(),
    ensures
        final(info).wf(),
        final(info)@ == peertube_details(old(info)@, v@),
{
    let null = JsonValue::Null;
    let account = match json_get(v, "account") { Some(a) => a, None => &null };
    let channel = match json_get(v, "channel") { Some(c) => c, None => &null };
    info.insert_if_some("timestamp", opt_int_json(match json_string(v, "publishedAt") {
        Some(t) => parse_timestamp(t),
        None => None,
    }));
    info.insert_if_some("uploader", opt_str_json(json_string(account, "displayName")));
    info.insert_if_some("uploader_id", int_text_of(account, "id"));
    info.insert_if_some("uploader_url", opt_str_json(json_string(account, "url")));
    info.insert_if_some("channel", opt_str_json(json_string(channel, "displayName")));
    info.insert_if_some("channel_id", int_text_of(channel, "id"));
    info.insert_if_some("channel_url", opt_str_json(json_string(channel, "url")));
    info.insert_if_some("language", opt_str_json(match json_get(v, "language") {
        Some(l) => json_string(l, "id"),
        None => None,
    }));
    let lic = match json_get(v, "licence") {
        Some(l) => Some(l),
        None => json_get(v, "license"),
    };
    info.insert_if_some("license", opt_str_json(match lic {
        Some(l) => json_string(l, "label"),
        None => None,
    }));
    peertube_counts_of(info, v);
}

fn peertube_counts_of(info: &mut InfoDict, v: &JsonValue)
    requires
        old(info).wf(),
    ensures
        final(info).wf(),
        final(info)@ == peertube_counts(old(info)@, v@),
{
    info.insert_if_some("duration", opt_int_json(json_i64(v, "duration")));
    info.insert_if_some("view_count", opt_int_json(json_i64(v, "views")));
    info.insert_if_some("like_count", opt_int_json(json_i64(v, "likes")));
    info.insert_if_some("dislike_count", opt_int_json(json_i64(v, "dislikes")));
    info.insert_if_some("age_limit", match json_bool(v, "nsfw") {
        Some(b) => Some(JsonValue::Int(if b { 18 } else { 0 })),
        None => None,
    });
    info.insert_if_some("tags", match json_get(v, "tags") {
        Some(t) => Some(json_clone(t)),
        None => None,
    });
    info.insert_if_some("categories", match json_get(v, "category") {
        Some(c) => match json_string(c, "label") {
            Some(l) => {
                let mut a = arr_new();
                arr_add(&mut a, jstr(l));
                let aj = arr_done(a);
                assert(aj@ =~= Json::Array(seq![Json::Str(l@)]));
                Some(aj)
            },
            None => None,
        },
        None => None,
    });
}

/// The API address of PeerTube video `id` on `host`.
pub open spec fn peertube_api(host: Seq<char>, id: Seq<char>) -> Seq<char> {
    "https://"@ + host + "/api/v1/videos/"@ + id
}

/// The metadata of a PeerTube video from its record, formats, description and subtitles.
pub open spec fn peertube_info(host: Seq<char>, id: Seq<char>, v: Json, fs: Seq<(Seq<char>, Seq<char>, Json)>, desc: Option<Seq<char>>, subs: Option<Json>) -> Map<Seq<char>, Json> {
    let p = peertube_streams(v);
    let m0 = Map::<Seq<char>, Json>::empty()
        .insert("id"@, Json::Str(id))
        .insert("title"@, Json::Str(match json_str_at(v, "name"@) { Some(n) => n, None => id }))
        .insert("url"@, Json::Str(fs[0].0))
        .insert("ext"@, Json::Str(fs[0].1))
        .insert("formats"@, Json::Array(format_records(fs)));
    let m1 = put_opt(m0, "description"@, opt_str(desc));
    let m2 = put_opt(m1, "thumbnail"@, opt_str(match json_str_at(v, "thumbnailPath"@) {
        Some(path) => joined_url("https://"@ + host, path),
        None => None,
    }));
    put_opt(peertube_details(m2, v), "subtitles"@, subs)
        .insert("is_live"@, Json::Bool(peertube_has_stream(p, p.len() as int)))
        .insert("webpage_url"@, Json::Str("https://"@ + host + "/videos/watch/"@ + id))
}

/// Where the extraction of one PeerTube video stands.
pub enum VideoOutcome {
    /// A JSON document is needed from this address; whether its failure is no error.
    Need(Seq<char>, bool),
    Failed(ExtractorErrorKind),
    /// The metadata, and the number of answers it took.
    Got(Map<Seq<char>, Json>, int),
}

/// Whether a description is long enough that the full one is asked for.
pub open spec fn peertube_long_description(v: Json) -> bool {
    match json_str_at(v, "description"@) {
        Some(d) => utf8_len(d) >= 250,
        None => false,
    }
}

/// Where the extraction of PeerTube video `id` on `host` stands when its answers start at
/// `replies[at]`: the video record, then the full description when the record's is long,
/// then the captions, neither of these two failing the extraction.
pub open spec fn peertube_outcome(host: Seq<char>, id: Seq<char>, replies: Seq<Reply>, at: int) -> VideoOutcome {
    let base = peertube_api(host, id);
    if replies.len() <= at {
        VideoOutcome::Need(base, false)
    } else {
        match reply_json_at(replies, at) {
            Some(vv) => {
                let v = vv@;
                let fs = peertube_formats(v);
                let long = peertube_long_description(v);
                let c_at = if long { at + 2 } else { at + 1 };
                if json_str_at(v, "error"@) is Some {
                    VideoOutcome::Failed(ExtractorErrorKind::Extraction)
                } else if fs.len() == 0 {
                    VideoOutcome::Failed(ExtractorErrorKind::Extraction)
                } else if !url_parses("https://"@ + host) {
                    VideoOutcome::Failed(ExtractorErrorKind::InvalidUrl)
                } else if long && replies.len() <= at + 1 {
                    VideoOutcome::Need(base + "/description"@, true)
                } else if replies.len() <= c_at {
                    VideoOutcome::Need(base + "/captions"@, true)
                } else {
                    let own = json_str_at(v, "description"@);
                    let desc = if long {
                        match replies[at + 1] {
                            Reply::Json(d) => first_str(json_str_at(d@, "description"@), own),
                            _ => own,
                        }
                    } else {
                        own
                    };
                    let subs = match replies[c_at] {
                        Reply::Json(c) => peertube_subtitles(host, c@),
                        _ => None,
                    };
                    VideoOutcome::Got(peertube_info(host, id, v, fs, desc, subs), c_at + 1 - at)
                }
            },
            None => VideoOutcome::Failed(ExtractorErrorKind::Extraction),
        }
    }
}

/// Whether a part's result is the one an outcome calls for.
pub open spec fn video_step_is(r: Result<(SubStep, usize), ExtractorError>, o: VideoOutcome) -> bool {
    match o {
        VideoOutcome::Need(u, optional) => r matches Ok((SubStep::Need(f), _)) && f.url@ == u
            && f.expect == Expect::Json && f.method == Method::Get && f.headers@.len() == 0
            && f.body is None && f.optional == optional,
        VideoOutcome::Failed(k) => r matches Err(e) && e.kind == k,
        VideoOutcome::Got(m, n) => r matches Ok((SubStep::Got(info), c)) && info.wf() && info@ == m && c == n,
    }
}

/// One part of an extraction, for PeerTube video `id` on `host`, whose answers start at
/// `replies[at]`; a finished part tells how many answers it took.
pub fn peertube_video_step(host: &str, id: &str, replies: &Vec<Reply>, at: usize) -> (r: Result<(SubStep, usize), ExtractorError>)
    ensures
        video_step_is(r, peertube_outcome(host@, id@, replies@, at as int)),
{
    let base = concat4("https://", host, "/api/v1/videos/", id);
    if replies.len() <= at {
        return Ok((SubStep::Need(get_json(base)), 0));
    }
    let v = reply_json(replies, at)?;
    if json_string(v, "error").is_some() {
        return Err(ExtractorError::new(ExtractorErrorKind::Extraction, concat2("PeerTube API rejected ", id)));
    }
    let (formats, first, live) = peertube_formats_of(v);
    let (furl, fext) = match first {
        Some(p) => p,
        None => return Err(ExtractorError::new(
            ExtractorErrorKind::Extraction,
            concat3("PeerTube video ", id, " has no playable formats"),
        )),
    };
    let root = concat2("https://", host);
    if !url_is_valid(root.as_str()) {
        return Err(ExtractorError::new(ExtractorErrorKind::InvalidUrl, concat2("invalid PeerTube host ", host)));
    }
    let long = match json_string(v, "description") {
        Some(d) => utf8_len_at_least(d, 250),
        None => false,
    };
    if long && replies.len() <= at + 1 {
        return Ok((SubStep::Need(get_json_optional(concat2(base.as_str(), "/description"))), 0));
    }
    let c_at: usize = if long { at + 2 } else { at + 1 };
    if replies.len() <= c_at {
        return Ok((SubStep::Need(get_json_optional(concat2(base.as_str(), "/captions"))), 0));
    }
    let own = json_string(v, "description");
    let desc: Option<&str> = if long {
        match &replies[at + 1] {
            Reply::Json(d) => match json_string(d, "description") {
                Some(x) => Some(x),
                None => own,
            },
            _ => own,
        }
    } else {
        own
    };
    let subs = match &replies[c_at] {
        Reply::Json(c) => peertube_subtitles_of(host, c),
        _ => None,
    };
    let mut info = InfoDict::new();
    info.insert("id", jstr(id));
    info.insert("title", jstr(match json_string(v, "name") {
        Some(n) => n,
        None => id,
    }));
    info.insert("url", JsonValue::Str(furl));
    info.insert("ext", JsonValue::Str(fext));
    info.insert("formats", arr_done(formats));
    info.insert_if_some("description", opt_str_json(desc));
    info.insert_if_some("thumbnail", match json_string(v, "thumbnailPath") {
        Some(path) => match url_join(root.as_str(), path) {
            Some(t) => Some(JsonValue::Str(t)),
            None => None,
        },
        None => None,
    });
    peertube_details_of(&mut info, v);
    info.insert_if_some("subtitles", subs);
    info.insert("is_live", JsonValue::Bool(live));
    let mut page = concat3("https://", host, "/videos/watch/");
    push_str(&mut page, id);
    info.insert("webpage_url", JsonValue::Str(page));
    Ok((SubStep::Got(info), c_at + 1 - at))
}

impl PeerTubeExtractor {
    /// One step of a PeerTube extraction: the video record, then the full description when
    /// the record's is long, then the captions, then the metadata.
    pub fn extract_step(&self, url: &str, replies: &Vec<Reply>) -> (r: Result<Step, ExtractorError>)
        ensures
            match (first_str(regex_named_capture(self.matcher().source(), url@, "host"@),
                regex_named_capture(self.matcher().source(), url@, "host_2"@)),
                regex_named_capture(self.matcher().source(), url@, "id"@)) {
                (Some(host), Some(id)) => match peertube_outcome(host, id, replies@, 0) {
                    VideoOutcome::Need(u, optional) => r matches Ok(Step::Fetch(f)) && f.url@ == u
                        && f.expect == Expect::Json && f.method == Method::Get && f.headers@.len() == 0
                        && f.body is None && f.optional == optional,
                    VideoOutcome::Failed(k) => fails_with(r, k),
                    VideoOutcome::Got(m, _) => done_with(r, m),
                },
                _ => fails_with(r, ExtractorErrorKind::InvalidUrl),
            },
    {
        let host = match self.site.capture(url, "host") {
            Some(h) => h,
            None => match self.site.capture(url, "host_2") {
                Some(h) => h,
                None => return Err(fail(ExtractorErrorKind::InvalidUrl, "PeerTube URL has no host")),
            },
        };
        let id = match self.site.capture(url, "id") {
            Some(i) => i,
            None => return Err(fail(ExtractorErrorKind::InvalidUrl, "PeerTube URL has no ID")),
        };
        match peertube_video_step(host.as_str(), id.as_str(), replies, 0)? {
            (SubStep::Need(f), _) => Ok(Step::Fetch(f)),
            (SubStep::Got(info), _) => Ok(Step::Done(ExtractorResult::single(info))),
        }
    }
}

} // verus!
