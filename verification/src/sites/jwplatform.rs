use vstd::prelude::*;

use crate::extract::{array_or_self, determine_ext, ext_of, format_records, items_or_self, json_f64, json_num_at, jstr, opt_int, opt_int_json, opt_str, opt_str_json, proto_relative, proto_relative_url, put_opt, refs_view, reply_json, reply_json_at, reply_text, reply_text_at, resolve_url, resolved, str_opt_view};
use crate::framework::{Expect, ExtractorDescriptor, ExtractorError, ExtractorErrorKind, ExtractorResult, Reply, SiteMatcher, SiteMatchers, Step, all_sources_ok, all_wf, any_matches, descriptor_ok, descriptor_source, dicts_view, done_playlist, done_with, fail, fails_with, fetches, first_named_capture, get_json, get_text, redirect_to, redirects, sources_view, first_pattern_error, descriptor_error};
use crate::html::{html_text_fragment, text_fragment, unescape_html, unescaped};
use crate::info::{InfoDict};
use crate::json::{Json, JsonValue, add_to_group, arr_done, fields_view, group_add, groups_json, groups_object, items_view, json_get, json_i64, json_int_at, json_lookup, json_opt_view, json_str_at, json_string, lang_groups_view, lemma_array_view, obj_add, obj_add_opt, obj_done, obj_new, push_opt, str_equal};
use crate::media_types::{mime_ext, mimetype_extension};
use crate::number::{nat_text, parse_int, parsed_int, usize_text};
use crate::pattern::{first_group, regex_first_group, regex_matches, regex_named_capture};
use crate::text::{concat2, concat3, contains, eq_ignore_ascii_case, has_infix, has_prefix, lowered, owned, starts_with, to_ascii_lowercase};
use crate::timestamp::{parse_timestamp, timestamp_of};

verus! {

/// Native JWPlatform extractor. JWPlatform's v2 endpoint is a stable JSON
/// contract used by the service's player URLs and by several site-specific
/// wrapper extractors.
pub struct JwPlatformExtractor {
    sites: SiteMatchers,
}

impl JwPlatformExtractor {
    /// The descriptor and matchers the extractor was built with.
    pub closed spec fn matchers(&self) -> SiteMatchers {
        self.sites
    }

    pub fn new(descriptor: ExtractorDescriptor) -> (r: Result<Self, ExtractorError>)
        ensures
            r is Ok <==> all_sources_ok(descriptor),
            r matches Ok(x) ==> x.matchers().spec_descriptor() == descriptor
                && x.matchers().sources() == sources_view(descriptor.valid_urls@),
            r matches Err(e) ==> e.kind == ExtractorErrorKind::Extraction
                && (first_pattern_error(sources_view(descriptor.valid_urls@), 0) matches Some(m)
                && e.message@ == "invalid JWPlatform URL pattern: "@ + m),
    {
        match SiteMatchers::from_descriptor(descriptor) {
            Ok(sites) => Ok(JwPlatformExtractor { sites }),
            Err(e) => Err(ExtractorError::new(ExtractorErrorKind::Extraction, concat2("invalid JWPlatform URL pattern: ", e.message.as_str()))),
        }
    }

    pub fn descriptor(&self) -> (r: &ExtractorDescriptor)
        ensures
            *r == self.matchers().spec_descriptor(),
    {
        self.sites.descriptor()
    }

    pub fn suitable(&self, url: &str) -> (r: bool)
        ensures
            r == any_matches(self.matchers().sources(), url@),
    {
        self.sites.suitable(url)
    }

    pub fn is_native(&self) -> (r: bool)
        ensures
            r,
    {
        true
    }

    pub fn native_matcher_count(&self) -> (r: usize)
        ensures
            r == self.matchers().sources().len(),
    {
        self.sites.count()
    }
}

/// Native wrapper for Bundesliga pages that expose a JWPlatform media ID.
pub struct BundesligaExtractor {
    site: SiteMatcher,
}

impl BundesligaExtractor {
    /// The descriptor and matcher the extractor was built with.
    pub closed spec fn matcher(&self) -> SiteMatcher {
        self.site
    }

    pub fn new(descriptor: ExtractorDescriptor) -> (r: Result<Self, ExtractorError>)
        ensures
            r is Ok <==> descriptor_ok(descriptor),
            r matches Ok(x) ==> x.matcher().spec_descriptor() == descriptor
                && Some(x.matcher().source()) == descriptor_source(descriptor),
            r matches Err(e) ==> e.kind == ExtractorErrorKind::Extraction && e.message@ == descriptor_error(descriptor),
    {
        match SiteMatcher::from_descriptor(descriptor) {
            Ok(site) => Ok(BundesligaExtractor { site }),
            Err(e) => Err(e),
        }
    }

    pub fn descriptor(&self) -> (r: &ExtractorDescriptor)
        ensures
            *r == self.matcher().spec_descriptor(),
    {
        self.site.descriptor()
    }

    pub fn suitable(&self, url: &str) -> (r: bool)
        ensures
            r == regex_matches(self.matcher().source(), url@),
    {
        self.site.suitable(url)
    }

    pub fn is_native(&self) -> (r: bool)
        ensures
            r,
    {
        true
    }

    pub fn native_matcher_count(&self) -> (r: usize)
        ensures
            r == 1,
    {
        1
    }
}

/// Native wrapper for OutsideTV pages that encode a JWPlatform media ID.
pub struct OutsideTvExtractor {
    site: SiteMatcher,
}

impl OutsideTvExtractor {
    /// The descriptor and matcher the extractor was built with.
    pub closed spec fn matcher(&self) -> SiteMatcher {
        self.site
    }

    pub fn new(descriptor: ExtractorDescriptor) -> (r: Result<Self, ExtractorError>)
        ensures
            r is Ok <==> descriptor_ok(descriptor),
            r matches Ok(x) ==> x.matcher().spec_descriptor() == descriptor
                && Some(x.matcher().source()) == descriptor_source(descriptor),
            r matches Err(e) ==> e.kind == ExtractorErrorKind::Extraction && e.message@ == descriptor_error(descriptor),
    {
        match SiteMatcher::from_descriptor(descriptor) {
            Ok(site) => Ok(OutsideTvExtractor { site }),
            Err(e) => Err(e),
        }
    }

    pub fn descriptor(&self) -> (r: &ExtractorDescriptor)
        ensures
            *r == self.matcher().spec_descriptor(),
    {
        self.site.descriptor()
    }

    pub fn suitable(&self, url: &str) -> (r: bool)
        ensures
            r == regex_matches(self.matcher().source(), url@),
    {
        self.site.suitable(url)
    }

    pub fn is_native(&self) -> (r: bool)
        ensures
            r,
    {
        true
    }

    pub fn native_matcher_count(&self) -> (r: usize)
        ensures
            r == 1,
    {
        1
    }
}

/// Native wrapper for TeachingChannel pages that expose a JWPlatform media
/// ID in either the player data attribute or element ID.
pub struct TeachingChannelExtractor {
    site: SiteMatcher,
}

impl TeachingChannelExtractor {
    /// The descriptor and matcher the extractor was built with.
    pub closed spec fn matcher(&self) -> SiteMatcher {
        self.site
    }

    pub fn new(descriptor: ExtractorDescriptor) -> (r: Result<Self, ExtractorError>)
        ensures
            r is Ok <==> descriptor_ok(descriptor),
            r matches Ok(x) ==> x.matcher().spec_descriptor() == descriptor
                && Some(x.matcher().source()) == descriptor_source(descriptor),
            r matches Err(e) ==> e.kind == ExtractorErrorKind::Extraction && e.message@ == descriptor_error(descriptor),
    {
        match SiteMatcher::from_descriptor(descriptor) {
            Ok(site) => Ok(TeachingChannelExtractor { site }),
            Err(e) => Err(e),
        }
    }

    pub fn descriptor(&self) -> (r: &ExtractorDescriptor)
        ensures
            *r == self.matcher().spec_descriptor(),
    {
        self.site.descriptor()
    }

    pub fn suitable(&self, url: &str) -> (r: bool)
        ensures
            r == regex_matches(self.matcher().source(), url@),
    {
        self.site.suitable(url)
    }

    pub fn is_native(&self) -> (r: bool)
        ensures
            r,
    {
        true
    }

    pub fn native_matcher_count(&self) -> (r: usize)
        ensures
            r == 1,
    {
        1
    }
}

/// The API address of a JWPlatform media item.
pub open spec fn jw_media_url(id: Seq<char>) -> Seq<char> {
    "https://cdn.jwplayer.com/v2/media/"@ + id
}

/// The pattern of a resolution label such as `720p`.
pub open spec fn jw_height_pattern() -> Seq<char> {
    "(?i)\\b(\\d{3,4})p\\b"@
}

/// The height that a label such as `720p` names.
pub open spec fn label_height(label: Seq<char>) -> Option<int> {
    match first_group(jw_height_pattern(), label, 1) {
        Some(g) => parsed_int(g),
        None => None,
    }
}

/// The height that a label such as `720p` names.
pub fn jwplatform_label_height(label: &str) -> (r: Option<i64>)
    ensures
        match r {
            Some(h) => label_height(label@) == Some(h as int),
            None => label_height(label@) is None,
        },
{
    match regex_first_group("(?i)\\b(\\d{3,4})p\\b", label, 1) {
        Some(g) => parse_int(g.as_str()),
        None => None,
    }
}

/// A JWPlatform source's media type, empty when it has none.
pub open spec fn jw_source_type(source: Json) -> Seq<char> {
    match json_str_at(source, "type"@) {
        Some(t) => t,
        None => Seq::empty(),
    }
}

/// Whether an extension names an audio-only file.
pub open spec fn jw_audio_ext(e: Seq<char>) -> bool {
    e == "mp3"@ || e == "m4a"@ || e == "aac"@ || e == "ogg"@ || e == "oga"@
}

/// The height of a source: its `height`, else the one its label names.
pub open spec fn jw_height(source: Json) -> Option<int> {
    match json_int_at(source, "height"@) {
        Some(h) => Some(h),
        None => match json_str_at(source, "label"@) {
            Some(l) => label_height(l),
            None => None,
        },
    }
}

/// The format that source `index` of a JWPlatform item gives, with its address and
/// extension; none for a source without a file or with an RTMP one.
pub open spec fn jw_format(base: Seq<char>, source: Json, index: int) -> Option<(Seq<char>, Seq<char>, Json)> {
    match json_str_at(source, "file"@) {
        Some(raw) => if raw.len() == 0 || has_prefix(raw, "rtmp:"@) {
            None
        } else {
            let su = resolved(base, proto_relative(raw, "https:"@));
            let ty = jw_source_type(source);
            let sext = match mime_ext(ty) {
                Some(e) => e,
                None => ext_of(su, "mp4"@),
            };
            let uext = ext_of(su, sext);
            let hls = lowered(ty) == "hls"@ || uext == "m3u8"@ || has_infix(su, "format=m3u8-aapl"@);
            let dash = lowered(ty) == "dash"@ || uext == "mpd"@ || has_infix(su, "format=mpd-time-csf"@);
            let fid = match json_str_at(source, "label"@) {
                Some(l) => l,
                None => "http-"@ + nat_text(index as nat),
            };
            let ext = if hls || dash { "mp4"@ } else { uext };
            let f0 = Seq::<(Seq<char>, Json)>::empty()
                .push(("url"@, Json::Str(su)))
                .push(("format_id"@, Json::Str(fid)))
                .push(("ext"@, Json::Str(ext)));
            let f1 = if hls {
                f0.push(("protocol"@, Json::Str("m3u8_native"@)))
            } else if dash {
                f0.push(("protocol"@, Json::Str("http_dash_segments"@)))
            } else if has_prefix(ty, "audio/"@) || has_prefix(sext, "mp3"@) || jw_audio_ext(uext) {
                f0.push(("vcodec"@, Json::Str("none"@)))
            } else {
                f0
            };
            let f2 = push_opt(f1, "width"@, opt_int(json_int_at(source, "width"@)));
            let f3 = push_opt(f2, "height"@, opt_int(jw_height(source)));
            let f4 = push_opt(f3, "tbr"@, match json_int_at(source, "bitrate"@) {
                Some(b) => Some(Json::Decimal(b, -3)),
                None => None,
            });
            let f5 = push_opt(f4, "filesize"@, opt_int(json_int_at(source, "filesize"@)));
            Some((su, ext, Json::Object(f5)))
        },
        None => None,
    }
}

/// The format that source `index` of a JWPlatform item gives, with its address and extension.
pub fn jw_format_of(base: &str, source: &JsonValue, index: usize) -> (r: Option<(String, String, JsonValue)>)
    ensures
        match r {
            Some((u, e, f)) => jw_format(base@, source@, index as int) == Some((u@, e@, f@)),
            None => jw_format(base@, source@, index as int) is None,
        },
{
    let raw = match json_string(source, "file") {
        Some(x) => x,
        None => return None,
    };
    if raw.unicode_len() == 0 || starts_with(raw, "rtmp:") {
        return None;
    }
    let su = resolve_url(base, proto_relative_url(raw, "https:").as_str());
    let ty = match json_string(source, "type") {
        Some(t) => t,
        None => "",
    };
    proof {
        reveal_strlit("");
        assert(ty@ == jw_source_type(source@));
    }
    let sext = match mimetype_extension(ty) {
        Some(e) => e,
        None => determine_ext(su.as_str(), "mp4"),
    };
    let uext = determine_ext(su.as_str(), sext.as_str());
    proof {
        reveal_strlit("hls");
        reveal_strlit("dash");
        assert(lowered("hls"@) =~= "hls"@);
        assert(lowered("dash"@) =~= "dash"@);
    }
    let hls = eq_ignore_ascii_case(ty, "hls") || str_equal(uext.as_str(), "m3u8") || contains(su.as_str(), "format=m3u8-aapl");
    let dash = eq_ignore_ascii_case(ty, "dash") || str_equal(uext.as_str(), "mpd") || contains(su.as_str(), "format=mpd-time-csf");
    let fid = match json_string(source, "label") {
        Some(l) => owned(l),
        None => concat2("http-", usize_text(index).as_str()),
    };
    let ext = if hls || dash { owned("mp4") } else { uext.clone() };
    assert(hls == (lowered(ty@) == "hls"@ || uext@ == "m3u8"@ || has_infix(su@, "format=m3u8-aapl"@)));
    assert(fid@ == match json_str_at(source@, "label"@) { Some(l) => l, None => "http-"@ + nat_text(index as nat) });
    let mut f = obj_new();
    obj_add(&mut f, "url", JsonValue::Str(su.clone()));
    obj_add(&mut f, "format_id", JsonValue::Str(fid));
    obj_add(&mut f, "ext", JsonValue::Str(ext.clone()));
    if hls {
        obj_add(&mut f, "protocol", jstr("m3u8_native"));
    } else if dash {
        obj_add(&mut f, "protocol", jstr("http_dash_segments"));
    } else if starts_with(ty, "audio/") || starts_with(sext.as_str(), "mp3") || str_equal(uext.as_str(), "mp3")
        || str_equal(uext.as_str(), "m4a") || str_equal(uext.as_str(), "aac") || str_equal(uext.as_str(), "ogg")
        || str_equal(uext.as_str(), "oga") {
        obj_add(&mut f, "vcodec", jstr("none"));
    }
    let ghost f1 = fields_view(f@);
    obj_add_opt(&mut f, "width", opt_int_json(json_i64(source, "width")));
    let height = match json_i64(source, "height") {
        Some(h) => Some(h),
        None => match json_string(source, "label") {
            Some(l) => jwplatform_label_height(l),
            None => None,
        },
    };
    assert(match height { Some(h) => Some(h as int), None => None } == jw_height(source@));
    obj_add_opt(&mut f, "height", opt_int_json(height));
    obj_add_opt(&mut f, "tbr", match json_i64(source, "bitrate") {
        Some(b) => Some(JsonValue::Decimal(b, -3)),
        None => None,
    });
    obj_add_opt(&mut f, "filesize", opt_int_json(json_i64(source, "filesize")));
    Some((su, ext, obj_done(f)))
}

/// The formats that the first `n` sources of a JWPlatform item give, in order.
pub open spec fn jw_formats(base: Seq<char>, sources: Seq<Json>, n: int) -> Seq<(Seq<char>, Seq<char>, Json)>
    decreases n,
{
    if n <= 0 {
        Seq::empty()
    } else {
        let prev = jw_formats(base, sources, n - 1);
        match jw_format(base, sources[n - 1], n - 1) {
            Some(f) => prev.push(f),
            None => prev,
        }
    }
}

/// The subtitle that a JWPlatform track gives: its language and its record; none for a
/// track that is not captions or subtitles, or has no file.
pub open spec fn jw_track(base: Seq<char>, track: Json) -> Option<(Seq<char>, Json)> {
    match json_str_at(track, "kind"@) {
        Some(kind) => if lowered(kind) == "captions"@ || lowered(kind) == "subtitles"@ {
            match json_str_at(track, "file"@) {
                Some(raw) => if raw.len() > 0 {
                    let lang = match json_str_at(track, "label"@) {
                        Some(l) => l,
                        None => "en"@,
                    };
                    Some((lang, Json::Object(Seq::empty().push(("url"@, Json::Str(resolved(base, proto_relative(raw, "https:"@))))))))
                } else {
                    None
                },
                None => None,
            }
        } else {
            None
        },
        None => None,
    }
}

/// The subtitles, by language, that the first `n` tracks of a JWPlatform item give.
pub open spec fn jw_subtitles(base: Seq<char>, tracks: Seq<Json>, n: int) -> Seq<(Seq<char>, Seq<Json>)>
    decreases n,
{
    if n <= 0 {
        Seq::empty()
    } else {
        let prev = jw_subtitles(base, tracks, n - 1);
        match jw_track(base, tracks[n - 1]) {
            Some((lang, item)) => group_add(prev, lang, item),
            None => prev,
        }
    }
}

/// The text of an optional HTML fragment.
pub open spec fn fragment_of(s: Option<Seq<char>>) -> Option<Seq<char>> {
    match s {
        Some(t) => Some(text_fragment(t)),
        None => None,
    }
}

/// The subtitle that a JWPlatform track gives, with its language.
pub fn jw_track_of(base: &str, track: &JsonValue) -> (r: Option<(String, JsonValue)>)
    ensures
        match r {
            Some((l, it)) => jw_track(base@, track@) == Some((l@, it@)),
            None => jw_track(base@, track@) is None,
        },
{
    let kind = match json_string(track, "kind") {
        Some(k) => k,
        None => return None,
    };
    let low = to_ascii_lowercase(kind);
    if !(str_equal(low.as_str(), "captions") || str_equal(low.as_str(), "subtitles")) {
        return None;
    }
    let raw = match json_string(track, "file") {
        Some(f) => f,
        None => return None,
    };
    if raw.unicode_len() == 0 {
        return None;
    }
    let lang = match json_string(track, "label") {
        Some(l) => owned(l),
        None => owned("en"),
    };
    let mut f = obj_new();
    obj_add(&mut f, "url", JsonValue::Str(resolve_url(base, proto_relative_url(raw, "https:").as_str())));
    Some((lang, obj_done(f)))
}

/// `m` with the descriptive fields of a JWPlatform item set.
pub open spec fn jw_described(m: Map<Seq<char>, Json>, base: Seq<char>, response: Json, item: Json) -> Map<Seq<char>, Json> {
    let m3 = put_opt(m, "description"@, opt_str(fragment_of(json_str_at(item, "description"@))));
    let m4 = put_opt(m3, "thumbnail"@, opt_str(match json_str_at(item, "image"@) {
        Some(u) => Some(resolved(base, proto_relative(u, "https:"@))),
        None => None,
    }));
    let m5 = put_opt(m4, "timestamp"@, opt_int(match json_int_at(item, "pubdate"@) {
        Some(t) => Some(t),
        None => match json_str_at(item, "pubdate"@) {
            Some(s) => timestamp_of(s),
            None => None,
        },
    }));
    let m6 = put_opt(m5, "duration"@, match json_num_at(response, "duration"@) {
        Some(d) => Some(d),
        None => json_num_at(item, "duration"@),
    });
    let m7 = put_opt(m6, "alt_title"@, opt_str(fragment_of(json_str_at(item, "subtitle"@))));
    let m8 = put_opt(m7, "genre"@, opt_str(fragment_of(json_str_at(item, "genre"@))));
    let m9 = put_opt(m8, "channel"@, opt_str(match json_str_at(item, "channel"@) {
        Some(c) => Some(c),
        None => json_str_at(item, "category"@),
    }));
    let m10 = put_opt(m9, "season_number"@, opt_int(json_int_at(item, "season"@)));
    let m11 = put_opt(m10, "episode_number"@, opt_int(json_int_at(item, "episode"@)));
    let m12 = put_opt(m11, "release_year"@, opt_int(json_int_at(item, "releasedate"@)));
    put_opt(m12, "age_limit"@, opt_int(json_int_at(item, "age_restriction"@)))
}

/// The metadata of one JWPlatform playlist item; none when it has no usable source.
pub open spec fn jw_entry(video_id: Seq<char>, response: Json, item: Json) -> Option<Map<Seq<char>, Json>> {
    let base = jw_media_url(video_id);
    let sources = items_or_self(item, "sources"@);
    let fs = jw_formats(base, sources, sources.len() as int);
    if fs.len() == 0 {
        None
    } else {
        let m0 = Map::<Seq<char>, Json>::empty().insert("id"@, Json::Str(match json_str_at(item, "mediaid"@) {
            Some(m) => m,
            None => video_id,
        }));
        let m1 = put_opt(m0, "title"@, opt_str(match json_str_at(item, "title"@) {
            Some(t) => Some(unescaped(t)),
            None => None,
        }));
        let m2 = m1.insert("url"@, Json::Str(fs[0].0)).insert("ext"@, Json::Str(fs[0].1)).insert(
            "formats"@,
            Json::Array(format_records(fs)),
        );
        let m13 = jw_described(m2, base, response, item);
        let subs = match json_lookup(item, "tracks"@) {
            Some(Json::Array(t)) => jw_subtitles(base, t, t.len() as int),
            _ => Seq::empty(),
        };
        Some(if subs.len() > 0 { m13.insert("subtitles"@, Json::Object(groups_json(subs))) } else { m13 })
    }
}

fn fragment_json(s: Option<&str>) -> (r: Option<JsonValue>)
    ensures
        json_opt_view(r) == opt_str(fragment_of(str_opt_view(s))),
{
    match s {
        Some(t) => Some(JsonValue::Str(html_text_fragment(t))),
        None => None,
    }
}

/// The subtitles of a JWPlatform item's tracks, by language.
fn jw_subtitles_of(base: &str, tracks: &Vec<JsonValue>) -> (r: Vec<(String, Vec<JsonValue>)>)
    ensures
        lang_groups_view(r@) == jw_subtitles(base@, items_view(tracks@), tracks@.len() as int),
{
    let ghost ts = items_view(tracks@);
    let mut groups: Vec<(String, Vec<JsonValue>)> = Vec::new();
    assert(lang_groups_view(groups@) =~= Seq::<(Seq<char>, Seq<Json>)>::empty());
    let mut i: usize = 0;
    while i < tracks.len()
        invariant
            i <= tracks@.len(),
            ts == items_view(tracks@),
            lang_groups_view(groups@) == jw_subtitles(base@, ts, i as int),
        decreases tracks@.len() - i,
    {
        match jw_track_of(base, &tracks[i]) {
            Some((lang, item)) => add_to_group(&mut groups, lang.as_str(), item),
            None => {},
        }
        i = i + 1;
    }
    groups
}

/// The formats of a JWPlatform item's sources, with the address and extension of the first.
fn jw_formats_of(base: &str, sources: &Vec<&JsonValue>) -> (r: (Vec<JsonValue>, Option<(String, String)>))
    ensures
        items_view(r.0@) == format_records(jw_formats(base@, refs_view(sources@), sources@.len() as int)),
        match r.1 {
            Some((u, e)) => jw_formats(base@, refs_view(sources@), sources@.len() as int).len() > 0
                && jw_formats(base@, refs_view(sources@), sources@.len() as int)[0].0 == u@
                && jw_formats(base@, refs_view(sources@), sources@.len() as int)[0].1 == e@,
            None => jw_formats(base@, refs_view(sources@), sources@.len() as int).len() == 0,
        },
{
    let ghost srcs = refs_view(sources@);
    let mut formats: Vec<JsonValue> = Vec::new();
    let mut first: Option<(String, String)> = None;
    let mut i: usize = 0;
    assert(items_view(formats@) =~= format_records(jw_formats(base@, srcs, 0)));
    while i < sources.len()
        invariant
            i <= sources@.len(),
            srcs == refs_view(sources@),
            items_view(formats@) == format_records(jw_formats(base@, srcs, i as int)),
            match first {
                Some((u, e)) => jw_formats(base@, srcs, i as int).len() > 0
                    && jw_formats(base@, srcs, i as int)[0].0 == u@
                    && jw_formats(base@, srcs, i as int)[0].1 == e@,
                None => jw_formats(base@, srcs, i as int).len() == 0,
            },
        decreases sources@.len() - i,
    {
        let ghost prev = jw_formats(base@, srcs, i as int);
        let ghost old_formats = formats@;
        assert(srcs[i as int] == sources@[i as int]@);
        match jw_format_of(base, sources[i], i) {
            Some((u, e, f)) => {
                if first.is_none() {
                    first = Some((u, e));
                }
                formats.push(f);
                assert(items_view(formats@) =~= items_view(old_formats).push(f@));
                assert(format_records(prev.push((u@, e@, f@))) =~= format_records(prev).push(f@));
            },
            None => {},
        }
        i = i + 1;
    }
    (formats, first)
}

/// Sets the descriptive fields of a JWPlatform item.
fn jw_describe(info: &mut InfoDict, base: &str, response: &JsonValue, item: &JsonValue)
    requires
        old(info).wf(),
    ensures
        final(info).wf(),
        final(info)@ == jw_described(old(info)@, base@, response@, item@),
{
    info.insert_if_some("description", fragment_json(json_string(item, "description")));
    info.insert_if_some("thumbnail", match json_string(item, "image") {
        Some(u) => Some(JsonValue::Str(resolve_url(base, proto_relative_url(u, "https:").as_str()))),
        None => None,
    });
    let ts = match json_i64(item, "pubdate") {
        Some(t) => Some(t),
        None => match json_string(item, "pubdate") {
            Some(s) => parse_timestamp(s),
            None => None,
        },
    };
    info.insert_if_some("timestamp", opt_int_json(ts));
    info.insert_if_some("duration", match json_f64(response, "duration") {
        Some(d) => Some(d),
        None => json_f64(item, "duration"),
    });
    info.insert_if_some("alt_title", fragment_json(json_string(item, "subtitle")));
    info.insert_if_some("genre", fragment_json(json_string(item, "genre")));
    info.insert_if_some("channel", opt_str_json(match json_string(item, "channel") {
        Some(c) => Some(c),
        None => json_string(item, "category"),
    }));
    info.insert_if_some("season_number", opt_int_json(json_i64(item, "season")));
    info.insert_if_some("episode_number", opt_int_json(json_i64(item, "episode")));
    info.insert_if_some("release_year", opt_int_json(json_i64(item, "releasedate")));
    info.insert_if_some("age_limit", opt_int_json(json_i64(item, "age_restriction")));
}

/// The metadata of one JWPlatform playlist item; none when it has no usable source.
pub fn jw_entry_of(video_id: &str, response: &JsonValue, item: &JsonValue) -> (r: Option<InfoDict>)
    ensures
        match r {
            Some(d) => d.wf() && jw_entry(video_id@, response@, item@) == Some(d@),
            None => jw_entry(video_id@, response@, item@) is None,
        },
{
    let base = concat2("https://cdn.jwplayer.com/v2/media/", video_id);
    let sources = array_or_self(item, "sources");
    let (formats, first) = jw_formats_of(base.as_str(), &sources);
    let (furl, fext) = match first {
        Some(p) => p,
        None => return None,
    };
    let mut info = InfoDict::new();
    info.insert("id", JsonValue::Str(match json_string(item, "mediaid") {
        Some(m) => owned(m),
        None => owned(video_id),
    }));
    info.insert_if_some("title", match json_string(item, "title") {
        Some(t) => Some(JsonValue::Str(unescape_html(t))),
        None => None,
    });
    info.insert("url", JsonValue::Str(furl));
    info.insert("ext", JsonValue::Str(fext));
    info.insert("formats", arr_done(formats));
    jw_describe(&mut info, base.as_str(), response, item);
    match json_get(item, "tracks") {
        Some(t) => match t {
            JsonValue::Array(tracks) => {
                proof { lemma_array_view(*t); }
                let groups = jw_subtitles_of(base.as_str(), tracks);
                if groups.len() > 0 {
                    info.insert("subtitles", groups_object(groups));
                }
            },
            _ => {},
        },
        None => {},
    }
    Some(info)
}

/// The entries that the first `n` items of a JWPlatform playlist give, in order.
pub open spec fn jw_entries(video_id: Seq<char>, response: Json, items: Seq<Json>, n: int) -> Seq<Map<Seq<char>, Json>>
    decreases n,
{
    if n <= 0 {
        Seq::empty()
    } else {
        let prev = jw_entries(video_id, response, items, n - 1);
        match jw_entry(video_id, response, items[n - 1]) {
            Some(e) => prev.push(e),
            None => prev,
        }
    }
}

/// The entries of a JWPlatform API response: one per playlist item with a usable source
/// (the response itself stands for its only item when it has no playlist).
pub open spec fn jw_all_entries(video_id: Seq<char>, response: Json) -> Seq<Map<Seq<char>, Json>> {
    let items = items_or_self(response, "playlist"@);
    jw_entries(video_id, response, items, items.len() as int)
}

/// The metadata of a JWPlatform playlist of several entries.
pub open spec fn jw_playlist_info(video_id: Seq<char>, response: Json) -> Map<Seq<char>, Json> {
    put_opt(Map::<Seq<char>, Json>::empty().insert("id"@, Json::Str(video_id)), "title"@, opt_str(json_str_at(response, "title"@)))
}

/// What a JWPlatform API response gives: an error when no item has a usable source,
/// the one entry when one has, else a playlist of the entries.
pub open spec fn jw_outcome(r: Result<Step, ExtractorError>, video_id: Seq<char>, response: Json) -> bool {
    let es = jw_all_entries(video_id, response);
    if es.len() == 0 {
        fails_with(r, ExtractorErrorKind::Extraction)
    } else if es.len() == 1 {
        done_with(r, es[0])
    } else {
        done_playlist(r, jw_playlist_info(video_id, response), es)
    }
}

/// The result of JWPlatform media `video_id` from its API response.
pub fn jwplatform_result(video_id: &str, response: &JsonValue) -> (r: Result<Step, ExtractorError>)
    ensures
        jw_outcome(r, video_id@, response@),
{
    let items = array_or_self(response, "playlist");
    let ghost its = refs_view(items@);
    let mut entries: Vec<InfoDict> = Vec::new();
    let mut i: usize = 0;
    assert(dicts_view(entries@) =~= jw_entries(video_id@, response@, its, 0));
    while i < items.len()
        invariant
            i <= items@.len(),
            its == refs_view(items@),
            all_wf(entries@),
            dicts_view(entries@) == jw_entries(video_id@, response@, its, i as int),
        decreases items@.len() - i,
    {
        let ghost prev = entries@;
        assert(its[i as int] == items@[i as int]@);
        match jw_entry_of(video_id, response, items[i]) {
            Some(e) => {
                entries.push(e);
                assert(dicts_view(entries@) =~= dicts_view(prev).push(e@));
            },
            None => {},
        }
        i = i + 1;
    }
    if entries.len() == 0 {
        return Err(ExtractorError::new(
            ExtractorErrorKind::Extraction,
            concat3("JWPlatform media ", video_id, " has no playable sources"),
        ));
    }
    if entries.len() == 1 {
        let ghost es = dicts_view(entries@);
        let e = entries.pop().unwrap();
        assert(es[0] == e@);
        return Ok(Step::Done(ExtractorResult::single(e)));
    }
    let mut info = InfoDict::new();
    info.insert("id", jstr(video_id));
    info.insert_if_some("title", opt_str_json(json_string(response, "title")));
    Ok(Step::Done(ExtractorResult::Playlist { info, entries }))
}

impl JwPlatformExtractor {
    /// One step of a JWPlatform extraction: the media's API record is fetched, then its
    /// entries are built from it.
    pub fn extract_step(&self, url: &str, replies: &Vec<Reply>) -> (r: Result<Step, ExtractorError>)
        ensures
            match first_named_capture(self.matchers().sources(), url@, "id"@) {
                Some(id) => if replies@.len() == 0 {
                    fetches(r, jw_media_url(id), Expect::Json)
                } else {
                    match reply_json_at(replies@, 0) {
                        Some(response) => jw_outcome(r, id, response@),
                        None => fails_with(r, ExtractorErrorKind::Extraction),
                    }
                },
                None => fails_with(r, ExtractorErrorKind::InvalidUrl),
            },
    {
        let video_id = match self.sites.capture(url, "id") {
            Some(v) => v,
            None => return Err(fail(ExtractorErrorKind::InvalidUrl, "JWPlatform URL did not contain a media ID")),
        };
        if replies.len() == 0 {
            return Ok(Step::Fetch(get_json(concat2("https://cdn.jwplayer.com/v2/media/", video_id.as_str()))));
        }
        let response = reply_json(replies, 0)?;
        jwplatform_result(video_id.as_str(), response)
    }
}

/// The address under which the JWPlatform extractor takes media `id`.
pub open spec fn jw_redirect_url(id: Seq<char>) -> Seq<char> {
    "jwplatform:"@ + id
}

impl BundesligaExtractor {
    /// A Bundesliga page hands its media ID on to the JWPlatform extractor.
    pub fn extract_step(&self, url: &str, replies: &Vec<Reply>) -> (r: Result<Step, ExtractorError>)
        ensures
            match regex_named_capture(self.matcher().source(), url@, "id"@) {
                Some(id) => redirects(r, jw_redirect_url(id), Some("JWPlatform"@)),
                None => fails_with(r, ExtractorErrorKind::InvalidUrl),
            },
    {
        match self.site.capture(url, "id") {
            Some(id) => Ok(redirect_to(concat2("jwplatform:", id.as_str()), "JWPlatform")),
            None => Err(fail(ExtractorErrorKind::InvalidUrl, "Bundesliga URL did not contain a media ID")),
        }
    }
}

impl OutsideTvExtractor {
    /// An OutsideTV page hands its media ID on to the JWPlatform extractor.
    pub fn extract_step(&self, url: &str, replies: &Vec<Reply>) -> (r: Result<Step, ExtractorError>)
        ensures
            match regex_named_capture(self.matcher().source(), url@, "id"@) {
                Some(id) => redirects(r, jw_redirect_url(id), Some("JWPlatform"@)),
                None => fails_with(r, ExtractorErrorKind::InvalidUrl),
            },
    {
        match self.site.capture(url, "id") {
            Some(id) => Ok(redirect_to(concat2("jwplatform:", id.as_str()), "JWPlatform")),
            None => Err(fail(ExtractorErrorKind::InvalidUrl, "OutsideTV URL did not contain a media ID")),
        }
    }
}

/// The pattern of a TeachingChannel page's JWPlatform media ID.
pub open spec fn teaching_channel_pattern() -> Seq<char> {
    "(?is)(?:data-mid\\s*=\\s*[\"']|id\\s*=\\s*[\"']jw-video-player-)([a-zA-Z0-9]{8})"@
}

impl TeachingChannelExtractor {
    /// One step of a TeachingChannel extraction: the page is fetched, then its JWPlatform
    /// media ID is handed on to the JWPlatform extractor.
    pub fn extract_step(&self, url: &str, replies: &Vec<Reply>) -> (r: Result<Step, ExtractorError>)
        ensures
            match regex_named_capture(self.matcher().source(), url@, "id"@) {
                Some(_) => if replies@.len() == 0 {
                    fetches(r, url@, Expect::Text)
                } else {
                    match reply_text_at(replies@, 0) {
                        Some(html) => match first_group(teaching_channel_pattern(), html, 1) {
                            Some(media) => redirects(r, jw_redirect_url(media), Some("JWPlatform"@)),
                            None => fails_with(r, ExtractorErrorKind::Extraction),
                        },
                        None => fails_with(r, ExtractorErrorKind::Extraction),
                    }
                },
                None => fails_with(r, ExtractorErrorKind::InvalidUrl),
            },
    {
        let display_id = match self.site.capture(url, "id") {
            Some(d) => d,
            None => return Err(fail(ExtractorErrorKind::InvalidUrl, "TeachingChannel URL did not contain a display ID")),
        };
        if replies.len() == 0 {
            return Ok(Step::Fetch(get_text(owned(url))));
        }
        let html = reply_text(replies, 0)?;
        match regex_first_group("(?is)(?:data-mid\\s*=\\s*[\"']|id\\s*=\\s*[\"']jw-video-player-)([a-zA-Z0-9]{8})", html.as_str(), 1) {
            Some(media) => Ok(redirect_to(concat2("jwplatform:", media.as_str()), "JWPlatform")),
            None => Err(ExtractorError::new(
                ExtractorErrorKind::Extraction,
                concat3("TeachingChannel page ", display_id.as_str(), " has no JWPlatform media ID"),
            )),
        }
    }
}

} // verus!
