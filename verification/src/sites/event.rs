use vstd::prelude::*;

use crate::sites::peertube_playlist::PlaylistRun;
use crate::sites::generic::{GenericOutcome, generic_outcome, generic_step};
use crate::extract::{array_or_self, determine_ext, ext_of, first_after, first_str, format_records, items_or_self, json_f64, json_num_at, jstr, lemma_first_after_concat, opt_int, opt_int_json, opt_str, opt_str_json, proto_relative, proto_relative_url, push_format, put_opt, refs_view, reply_text, reply_text_at};
use crate::framework::{Expect, ExtractorDescriptor, ExtractorError, ExtractorErrorKind, ExtractorResult, Reply, SiteMatcher, Step, SubStep, all_wf, descriptor_ok, descriptor_source, dicts_view, done_playlist, fail, fails_with, fetches, get_text, sources_view, descriptor_error};
use crate::html::{html_text_fragment, text_fragment, unescape_html, unescaped};
use crate::info::{InfoDict};
use crate::json::{Json, JsonValue, add_to_group, arr_done, group_add, groups_json, groups_object, items_view, json_get, json_i64, json_int_at, json_lookup, json_str_at, json_string, lang_groups_view, lemma_array_view, obj_add, obj_add_opt, obj_done, obj_new, push_opt, str_equal};
use crate::media_types::{mime_ext, mimetype_extension};
use crate::number::{nat_text, usize_text};
use crate::page::{html_meta_value, json_after_marker, json_object_after_marker, meta_value};
use crate::pattern::{all_groups_view, capture_group, group_at, groups_view, regex_all_captures, regex_captures_iter, regex_matches, regex_named_capture};
use crate::text::{concat2, concat3, eq_ignore_ascii_case, has_prefix, lowered, owned, starts_with};

verus! {

/// Native AtScale conference event playlist extractor. Event pages expose
/// canonical video URLs in data-url attributes; each entry is expanded by
/// the Generic extractor so OpenGraph/HTML5 media is preserved.
pub struct AtScaleConfEventExtractor {
    site: SiteMatcher,
}

impl AtScaleConfEventExtractor {
    /// The descriptor and matcher the extractor was built with.
    pub closed spec fn matcher(&self) -> SiteMatcher {
        self.site
    }

    pub fn new(descriptor: ExtractorDescriptor) -> (r: Result<Self, ExtractorError>)
        ensures
            r is Ok <==> descriptor_ok(descriptor),
            r matches Ok(x) ==> x.matcher().spec_descriptor() == descriptor
                && Some(x.matcher().source()) == descriptor_source(descriptor),
            r matches Err(e) ==> e.kind == ExtractorErrorKind::Extraction && e.message@ == descriptor_error(descriptor),
    {
        match SiteMatcher::from_descriptor(descriptor) {
            Ok(site) => Ok(AtScaleConfEventExtractor { site }),
            Err(e) => Err(e),
        }
    }

    pub fn descriptor(&self) -> (r: &ExtractorDescriptor)
        ensures
            *r == self.matcher().spec_descriptor(),
    {
        self.site.descriptor()
    }

    pub fn suitable(&self, url: &str) -> (r: bool)
        ensures
            r == regex_matches(self.matcher().source(), url@),
    {
        self.site.suitable(url)
    }

    pub fn is_native(&self) -> (r: bool)
        ensures
            r,
    {
        true
    }

    pub fn native_matcher_count(&self) -> (r: usize)
        ensures
            r == 1,
    {
        1
    }
}

/// Native NZZ article/video playlist extractor. NZZ embeds one or more
/// JWPlayer settings objects in page scripts; these are parsed as data and
/// never evaluated as JavaScript.
pub struct NzzExtractor {
    site: SiteMatcher,
}

impl NzzExtractor {
    /// The descriptor and matcher the extractor was built with.
    pub closed spec fn matcher(&self) -> SiteMatcher {
        self.site
    }

    pub fn new(descriptor: ExtractorDescriptor) -> (r: Result<Self, ExtractorError>)
        ensures
            r is Ok <==> descriptor_ok(descriptor),
            r matches Ok(x) ==> x.matcher().spec_descriptor() == descriptor
                && Some(x.matcher().source()) == descriptor_source(descriptor),
            r matches Err(e) ==> e.kind == ExtractorErrorKind::Extraction && e.message@ == descriptor_error(descriptor),
    {
        match SiteMatcher::from_descriptor(descriptor) {
            Ok(site) => Ok(NzzExtractor { site }),
            Err(e) => Err(e),
        }
    }

    pub fn descriptor(&self) -> (r: &ExtractorDescriptor)
        ensures
            *r == self.matcher().spec_descriptor(),
    {
        self.site.descriptor()
    }

    pub fn suitable(&self, url: &str) -> (r: bool)
        ensures
            r == regex_matches(self.matcher().source(), url@),
    {
        self.site.suitable(url)
    }

    pub fn is_native(&self) -> (r: bool)
        ensures
            r,
    {
        true
    }

    pub fn native_matcher_count(&self) -> (r: usize)
        ensures
            r == 1,
    {
        1
    }
}

/// The format that source `index` of an NZZ player item gives, with its address and
/// extension; `Some(None)` for an RTMP source, which is passed over, and `None` for a
/// source without an address, which makes the item unplayable.
pub open spec fn nzz_format(source: Json, index: int) -> Option<Option<(Seq<char>, Seq<char>, Json)>> {
    match first_str(json_str_at(source, "file"@), json_str_at(source, "url"@)) {
        Some(raw) => if raw.len() == 0 {
            None
        } else if has_prefix(raw, "rtmp:"@) {
            Some(None)
        } else {
            let ty = match json_str_at(source, "type"@) { Some(t) => t, None => Seq::empty() };
            let ext0 = match mime_ext(ty) { Some(e) => e, None => ext_of(raw, "mp4"@) };
            let sext = ext_of(raw, ext0);
            let hls = lowered(ty) == "hls"@ || sext == "m3u8"@;
            let dash = lowered(ty) == "dash"@ || sext == "mpd"@;
            let u = proto_relative(raw, "https:"@);
            let ext = if hls || dash { "mp4"@ } else { sext };
            let f0 = Seq::<(Seq<char>, Json)>::empty()
                .push(("url"@, Json::Str(u)))
                .push(("format_id"@, Json::Str(match json_str_at(source, "label"@) {
                    Some(l) => l,
                    None => "http-"@ + nat_text(index as nat),
                })))
                .push(("ext"@, Json::Str(ext)));
            let f1 = if hls {
                f0.push(("protocol"@, Json::Str("m3u8_native"@)))
            } else if dash {
                f0.push(("protocol"@, Json::Str("http_dash_segments"@)))
            } else {
                f0
            };
            let f2 = push_opt(push_opt(f1, "width"@, opt_int(json_int_at(source, "width"@))), "height"@, opt_int(json_int_at(source, "height"@)));
            let f3 = push_opt(f2, "tbr"@, match json_int_at(source, "bitrate"@) {
                Some(b) => Some(Json::Decimal(b, -3)),
                None => None,
            });
            Some(Some((u, ext, Json::Object(f3))))
        },
        None => None,
    }
}

/// The formats of the first `n` sources of an NZZ player item; none when one of them has
/// no address.
pub open spec fn nzz_formats(sources: Seq<Json>, n: int) -> Option<Seq<(Seq<char>, Seq<char>, Json)>>
    decreases n,
{
    if n <= 0 {
        Some(Seq::empty())
    } else {
        match nzz_formats(sources, n - 1) {
            Some(prev) => match nzz_format(sources[n - 1], n - 1) {
                Some(Some(f)) => Some(prev.push(f)),
                Some(None) => Some(prev),
                None => None,
            },
            None => None,
        }
    }
}

/// The subtitles, by language, of the first `n` tracks of an NZZ player item.
pub open spec fn nzz_tracks(tracks: Seq<Json>, n: int) -> Seq<(Seq<char>, Seq<Json>)>
    decreases n,
{
    if n <= 0 {
        Seq::empty()
    } else {
        let prev = nzz_tracks(tracks, n - 1);
        let t = tracks[n - 1];
        match json_str_at(t, "file"@) {
            Some(raw) => if raw.len() > 0 {
                let lang = match json_str_at(t, "label"@) { Some(l) => l, None => "en"@ };
                group_add(prev, lang, Json::Object(Seq::empty().push(("url"@, Json::Str(proto_relative(raw, "https:"@))))))
            } else {
                prev
            },
            None => prev,
        }
    }
}

/// `nzz_jw_entry`: the metadata of one NZZ player item; none when it has no playable source.
pub open spec fn nzz_entry(item: Json, fallback: Seq<char>) -> Option<Map<Seq<char>, Json>> {
    let sources = items_or_self(item, "sources"@);
    match nzz_formats(sources, sources.len() as int) {
        Some(fs) => if fs.len() == 0 {
            None
        } else {
            let m0 = Map::<Seq<char>, Json>::empty()
                .insert("id"@, Json::Str(match first_str(json_str_at(item, "mediaid"@), json_str_at(item, "id"@)) {
                    Some(i) => i,
                    None => fallback,
                }))
                .insert("title"@, Json::Str(match json_str_at(item, "title"@) {
                    Some(t) => unescaped(t),
                    None => fallback,
                }))
                .insert("url"@, Json::Str(fs[0].0))
                .insert("ext"@, Json::Str(fs[0].1))
                .insert("formats"@, Json::Array(format_records(fs)));
            let m1 = put_opt(m0, "description"@, opt_str(match json_str_at(item, "description"@) {
                Some(d) => Some(text_fragment(d)),
                None => None,
            }));
            let m2 = put_opt(m1, "thumbnail"@, opt_str(json_str_at(item, "image"@)));
            let m3 = put_opt(m2, "timestamp"@, opt_int(json_int_at(item, "pubdate"@)));
            let m4 = put_opt(m3, "duration"@, json_num_at(item, "duration"@));
            Some(match json_lookup(item, "tracks"@) {
                Some(Json::Array(ts)) => {
                    let subs = nzz_tracks(ts, ts.len() as int);
                    if subs.len() > 0 { m4.insert("subtitles"@, Json::Object(groups_json(subs))) } else { m4 }
                },
                _ => m4,
            })
        },
        None => None,
    }
}

fn nzz_format_of(source: &JsonValue, index: usize) -> (r: Option<Option<(String, String, JsonValue)>>)
    ensures
        match r {
            Some(Some((u, e, f))) => nzz_format(source@, index as int) == Some(Some((u@, e@, f@))),
            Some(None) => nzz_format(source@, index as int) == Some(None::<(Seq<char>, Seq<char>, Json)>),
            None => nzz_format(source@, index as int) is None,
        },
{
    let raw = match json_string(source, "file") {
        Some(x) => x,
        None => match json_string(source, "url") {
            Some(x) => x,
            None => return None,
        },
    };
    if raw.unicode_len() == 0 {
        return None;
    }
    if starts_with(raw, "rtmp:") {
        return Some(None);
    }
    proof {
        reveal_strlit("");
        reveal_strlit("hls");
        reveal_strlit("dash");
        assert(lowered("hls"@) =~= "hls"@);
        assert(lowered("dash"@) =~= "dash"@);
    }
    let ty: &str = match json_string(source, "type") { Some(t) => t, None => "" };
    let ext0 = match mimetype_extension(ty) { Some(e) => e, None => determine_ext(raw, "mp4") };
    let sext = determine_ext(raw, ext0.as_str());
    let hls = eq_ignore_ascii_case(ty, "hls") || str_equal(sext.as_str(), "m3u8");
    let dash = eq_ignore_ascii_case(ty, "dash") || str_equal(sext.as_str(), "mpd");
    let u = proto_relative_url(raw, "https:");
    let ext = if hls || dash { owned("mp4") } else { sext };
    let fid = match json_string(source, "label") {
        Some(l) => owned(l),
        None => concat2("http-", usize_text(index).as_str()),
    };
    let mut f = obj_new();
    obj_add(&mut f, "url", JsonValue::Str(u.clone()));
    obj_add(&mut f, "format_id", JsonValue::Str(fid));
    obj_add(&mut f, "ext", JsonValue::Str(ext.clone()));
    if hls {
        obj_add(&mut f, "protocol", jstr("m3u8_native"));
    } else if dash {
        obj_add(&mut f, "protocol", jstr("http_dash_segments"));
    }
    obj_add_opt(&mut f, "width", opt_int_json(json_i64(source, "width")));
    obj_add_opt(&mut f, "height", opt_int_json(json_i64(source, "height")));
    obj_add_opt(&mut f, "tbr", match json_i64(source, "bitrate") {
        Some(b) => Some(JsonValue::Decimal(b, -3)),
        None => None,
    });
    Some(Some((u, ext, obj_done(f))))
}

fn nzz_tracks_of(tracks: &Vec<JsonValue>) -> (r: Vec<(String, Vec<JsonValue>)>)
    ensures
        lang_groups_view(r@) == nzz_tracks(items_view(tracks@), tracks@.len() as int),
{
    let ghost tv = items_view(tracks@);
    let mut groups: Vec<(String, Vec<JsonValue>)> = Vec::new();
    assert(lang_groups_view(groups@) =~= Seq::<(Seq<char>, Seq<Json>)>::empty());
    let mut i: usize = 0;
    while i < tracks.len()
        invariant
            i <= tracks@.len(),
            tv == items_view(tracks@),
            lang_groups_view(groups@) == nzz_tracks(tv, i as int),
        decreases tracks@.len() - i,
    {
        let t = &tracks[i];
        match json_string(t, "file") {
            Some(raw) => if raw.unicode_len() > 0 {
                let lang: &str = match json_string(t, "label") { Some(l) => l, None => "en" };
                let mut o = obj_new();
                obj_add(&mut o, "url", JsonValue::Str(proto_relative_url(raw, "https:")));
                add_to_group(&mut groups, lang, obj_done(o));
            },
            None => {},
        }
        i = i + 1;
    }
    groups
}

/// `nzz_jw_entry`: the metadata of one NZZ player item; none when it has no playable source.
pub fn nzz_jw_entry(item: &JsonValue, fallback: &str) -> (r: Option<InfoDict>)
    ensures
        match r {
            Some(d) => d.wf() && nzz_entry(item@, fallback@) == Some(d@),
            None => nzz_entry(item@, fallback@) is None,
        },
{
    let sources = array_or_self(item, "sources");
    let ghost sv = refs_view(sources@);
    let mut formats: Vec<JsonValue> = Vec::new();
    let mut first: Option<(String, String)> = None;
    let mut i: usize = 0;
    assert(items_view(formats@) =~= format_records(Seq::<(Seq<char>, Seq<char>, Json)>::empty()));
    while i < sources.len()
        invariant
            i <= sources@.len(),
            sv == refs_view(sources@),
            sv == items_or_self(item@, "sources"@),
            nzz_formats(sv, i as int) is Some,
            items_view(formats@) == format_records(nzz_formats(sv, i as int)->0),
            first_after(None, first, nzz_formats(sv, i as int)->0),
        decreases sources@.len() - i,
    {
        assert(sv[i as int] == sources@[i as int]@);
        let ghost prev = nzz_formats(sv, i as int)->0;
        let ghost f0 = first;
        match nzz_format_of(sources[i], i) {
            Some(Some(f)) => {
                let ghost fg = (f.0@, f.1@, f.2@);
                push_format(&mut formats, &mut first, f);
                proof {
                    lemma_first_after_concat(None, f0, first, prev, seq![fg]);
                    assert(prev + seq![fg] =~= prev.push(fg));
                    assert(format_records(prev.push(fg)) =~= format_records(prev).push(fg.2));
                }
            },
            Some(None) => {},
            None => {
                proof {
                    lemma_nzz_formats_stuck(sv, i + 1, sv.len() as int);
                }
                return None;
            },
        }
        i = i + 1;
    }
    let (furl, fext) = match first {
        Some(p) => p,
        None => return None,
    };
    let mut info = InfoDict::new();
    info.insert("id", jstr(match json_string(item, "mediaid") {
        Some(m) => m,
        None => match json_string(item, "id") {
            Some(m) => m,
            None => fallback,
        },
    }));
    info.insert("title", JsonValue::Str(match json_string(item, "title") {
        Some(t) => unescape_html(t),
        None => owned(fallback),
    }));
    info.insert("url", JsonValue::Str(furl));
    info.insert("ext", JsonValue::Str(fext));
    info.insert("formats", arr_done(formats));
    info.insert_if_some("description", match json_string(item, "description") {
        Some(d) => Some(JsonValue::Str(html_text_fragment(d))),
        None => None,
    });
    info.insert_if_some("thumbnail", opt_str_json(json_string(item, "image")));
    info.insert_if_some("timestamp", opt_int_json(json_i64(item, "pubdate")));
    info.insert_if_some("duration", json_f64(item, "duration"));
    match json_get(item, "tracks") {
        Some(t) => match t {
            JsonValue::Array(tracks) => {
                proof { lemma_array_view(*t); }
                let groups = nzz_tracks_of(tracks);
                if groups.len() > 0 {
                    info.insert("subtitles", groups_object(groups));
                }
            },
            _ => {},
        },
        None => {},
    }
    Some(info)
}

/// Once a source without an address is met, the item stays unplayable.
proof fn lemma_nzz_formats_stuck(sources: Seq<Json>, k: int, n: int)
    requires
        0 <= k <= n,
        nzz_formats(sources, k) is None,
    ensures
        nzz_formats(sources, n) is None,
    decreases n - k,
{
    if k < n {
        lemma_nzz_formats_stuck(sources, k, n - 1);
    }
}

/// The pattern of an NZZ player script.
pub open spec fn nzz_script_pattern() -> Seq<char> {
    "(?is)<script\\b[^>]*\\bdata-hid\\s*=\\s*\"jw-video-jw[^\"]*\"[^>]*>(.*?)</script>"@
}

/// The entries of the first `n` items of an NZZ player's settings.
pub open spec fn nzz_item_entries(items: Seq<Json>, page_id: Seq<char>, n: int) -> Seq<Map<Seq<char>, Json>>
    decreases n,
{
    if n <= 0 {
        Seq::empty()
    } else {
        let prev = nzz_item_entries(items, page_id, n - 1);
        match nzz_entry(items[n - 1], page_id) {
            Some(e) => prev.push(e),
            None => prev,
        }
    }
}

/// The entries of the first `n` player scripts of an NZZ page.
pub open spec fn nzz_script_entries(all: Seq<Seq<Option<Seq<char>>>>, page_id: Seq<char>, n: int) -> Seq<Map<Seq<char>, Json>>
    decreases n,
{
    if n <= 0 {
        Seq::empty()
    } else {
        let prev = nzz_script_entries(all, page_id, n - 1);
        match group_at(all[n - 1], 1) {
            Some(script) => match json_after_marker(script, "var settings"@, '{') {
                Some(settings) => {
                    let items = items_or_self(settings, "playlist"@);
                    prev + nzz_item_entries(items, page_id, items.len() as int)
                },
                None => prev,
            },
            None => prev,
        }
    }
}

/// The entries of an NZZ page's player scripts.
pub open spec fn nzz_entries(html: Seq<char>, page_id: Seq<char>) -> Seq<Map<Seq<char>, Json>> {
    let all = regex_all_captures(nzz_script_pattern(), html);
    nzz_script_entries(all, page_id, all.len() as int)
}

fn nzz_items_of(items: &Vec<&JsonValue>, page_id: &str, entries: &mut Vec<InfoDict>)
    requires
        all_wf(old(entries)@),
    ensures
        all_wf(final(entries)@),
        dicts_view(final(entries)@) == dicts_view(old(entries)@) + nzz_item_entries(refs_view(items@), page_id@, items@.len() as int),
{
    let ghost iv = refs_view(items@);
    let ghost start = dicts_view(entries@);
    let mut i: usize = 0;
    assert(dicts_view(entries@) =~= start + nzz_item_entries(iv, page_id@, 0));
    while i < items.len()
        invariant
            i <= items@.len(),
            iv == refs_view(items@),
            all_wf(entries@),
            dicts_view(entries@) == start + nzz_item_entries(iv, page_id@, i as int),
        decreases items@.len() - i,
    {
        assert(iv[i as int] == items@[i as int]@);
        let ghost prev = dicts_view(entries@);
        match nzz_jw_entry(items[i], page_id) {
            Some(e) => {
                entries.push(e);
                assert(dicts_view(entries@) =~= prev.push(e@));
            },
            None => {},
        }
        i = i + 1;
    }
}

impl NzzExtractor {
    /// One step of an NZZ extraction: the page is fetched, then a playlist is built of the
    /// items of its JWPlayer scripts.
    pub fn extract_step(&self, url: &str, replies: &Vec<Reply>) -> (r: Result<Step, ExtractorError>)
        ensures
            match regex_named_capture(self.matcher().source(), url@, "id"@) {
                Some(id) => if replies@.len() == 0 {
                    fetches(r, url@, Expect::Text)
                } else {
                    match reply_text_at(replies@, 0) {
                        Some(html) => if nzz_entries(html, id).len() == 0 {
                            fails_with(r, ExtractorErrorKind::Extraction)
                        } else {
                            done_playlist(r, put_opt(put_opt(Map::<Seq<char>, Json>::empty().insert("id"@, Json::Str(id)),
                                "title"@, opt_str(meta_value(html, "og:title"@))),
                                "description"@, opt_str(meta_value(html, "og:description"@))),
                                nzz_entries(html, id))
                        },
                        None => fails_with(r, ExtractorErrorKind::Extraction),
                    }
                },
                None => fails_with(r, ExtractorErrorKind::InvalidUrl),
            },
    {
        let id = match self.site.capture(url, "id") {
            Some(v) => v,
            None => return Err(fail(ExtractorErrorKind::InvalidUrl, "NZZ URL did not contain a page ID")),
        };
        if replies.len() == 0 {
            return Ok(Step::Fetch(get_text(owned(url))));
        }
        let html = reply_text(replies, 0)?;
        let all = regex_captures_iter("(?is)<script\\b[^>]*\\bdata-hid\\s*=\\s*\"jw-video-jw[^\"]*\"[^>]*>(.*?)</script>", html.as_str());
        let ghost av = all_groups_view(all@);
        let mut entries: Vec<InfoDict> = Vec::new();
        let mut i: usize = 0;
        assert(dicts_view(entries@) =~= nzz_script_entries(av, id@, 0));
        while i < all.len()
            invariant
                i <= all@.len(),
                av == all_groups_view(all@),
                all_wf(entries@),
                dicts_view(entries@) == nzz_script_entries(av, id@, i as int),
            decreases all@.len() - i,
        {
            assert(av[i as int] == groups_view(all@[i as int]@));
            match capture_group(&all[i], 1) {
                Some(script) => match json_object_after_marker(script.as_str(), "var settings") {
                    Some(settings) => {
                        let items = array_or_self(&settings, "playlist");
                        nzz_items_of(&items, id.as_str(), &mut entries);
                    },
                    None => {},
                },
                None => {},
            }
            i = i + 1;
        }
        if entries.len() == 0 {
            return Err(ExtractorError::new(ExtractorErrorKind::Extraction, concat3("NZZ page ", id.as_str(), " has no playable JWPlayer entries")));
        }
        let mut info = InfoDict::new();
        info.insert("id", JsonValue::Str(id.clone()));
        info.insert_if_some("title", match html_meta_value(html.as_str(), "og:title") { Some(t) => Some(JsonValue::Str(t)), None => None });
        info.insert_if_some("description", match html_meta_value(html.as_str(), "og:description") { Some(t) => Some(JsonValue::Str(t)), None => None });
        Ok(Step::Done(ExtractorResult::Playlist { info, entries }))
    }
}

/// The pattern of an @Scale event's video link.
pub open spec fn atscale_link_pattern() -> Seq<char> {
    "(?is)\\bdata-url\\s*=\\s*\"((?:https?://)(?:www\\.)?atscaleconference\\.com/videos/[^\"]+)\""@
}

/// The video addresses of the first `n` video links of an @Scale event page.
pub open spec fn atscale_urls(all: Seq<Seq<Option<Seq<char>>>>, n: int) -> Seq<Seq<char>>
    decreases n,
{
    if n <= 0 {
        Seq::empty()
    } else {
        let prev = atscale_urls(all, n - 1);
        match group_at(all[n - 1], 1) {
            Some(u) => prev.push(u),
            None => prev,
        }
    }
}

/// Where the extraction of an event's videos stands, from video `j`, whose answer would be
/// `replies[pos]`, on, with entries `es` done; each video is extracted generically.
pub open spec fn atscale_run(urls: Seq<Seq<char>>, replies: Seq<Reply>, pos: int, j: int, es: Seq<Map<Seq<char>, Json>>) -> PlaylistRun
    decreases urls.len() - j,
{
    if j < 0 || j >= urls.len() {
        if es.len() == 0 { PlaylistRun::Failed(ExtractorErrorKind::Extraction) } else { PlaylistRun::Entries(es) }
    } else {
        match generic_outcome(urls[j], replies, pos) {
            GenericOutcome::NeedPage(u) => PlaylistRun::Need(u, false),
            GenericOutcome::Failed(k) => PlaylistRun::Failed(k),
            GenericOutcome::Got(m, n) => atscale_run(urls, replies, pos + n, j + 1, es.push(m)),
        }
    }
}

impl AtScaleConfEventExtractor {
    /// One step of an @Scale event extraction: the event page is fetched, then each video
    /// it links is extracted generically, into a playlist.
    #[verifier::loop_isolation(false)]
    pub fn extract_step(&self, url: &str, replies: &Vec<Reply>) -> (r: Result<Step, ExtractorError>)
        ensures
            match regex_named_capture(self.matcher().source(), url@, "id"@) {
                Some(id) => if replies@.len() == 0 {
                    fetches(r, url@, Expect::Text)
                } else {
                    match reply_text_at(replies@, 0) {
                        Some(html) => {
                            let all = regex_all_captures(atscale_link_pattern(), html);
                            match atscale_run(atscale_urls(all, all.len() as int), replies@, 1, 0, Seq::empty()) {
                                PlaylistRun::Need(u, _) => fetches(r, u, Expect::Text),
                                PlaylistRun::Failed(k) => fails_with(r, k),
                                PlaylistRun::Entries(es) => done_playlist(r, put_opt(put_opt(
                                    Map::<Seq<char>, Json>::empty().insert("id"@, Json::Str(id)),
                                    "title"@, opt_str(meta_value(html, "og:title"@))),
                                    "description"@, opt_str(meta_value(html, "og:description"@))), es),
                            }
                        },
                        None => fails_with(r, ExtractorErrorKind::Extraction),
                    }
                },
                None => fails_with(r, ExtractorErrorKind::InvalidUrl),
            },
    {
        let id = match self.site.capture(url, "id") {
            Some(v) => v,
            None => return Err(fail(ExtractorErrorKind::InvalidUrl, "AtScale event URL did not contain a playlist ID")),
        };
        if replies.len() == 0 {
            return Ok(Step::Fetch(get_text(owned(url))));
        }
        let html = reply_text(replies, 0)?;
        let all = regex_captures_iter("(?is)\\bdata-url\\s*=\\s*\"((?:https?://)(?:www\\.)?atscaleconference\\.com/videos/[^\"]+)\"", html.as_str());
        let ghost av = all_groups_view(all@);
        let mut urls: Vec<String> = Vec::new();
        let mut i: usize = 0;
        while i < all.len()
            invariant
                i <= all@.len(),
                av == all_groups_view(all@),
                sources_view(urls@) == atscale_urls(av, i as int),
            decreases all@.len() - i,
        {
            assert(av[i as int] == groups_view(all@[i as int]@));
            match capture_group(&all[i], 1) {
                Some(u) => {
                    let ghost before = urls@;
                    let ghost uv = u@;
                    urls.push(u);
                    assert(sources_view(urls@) =~= sources_view(before).push(uv));
                },
                None => {},
            }
            i = i + 1;
        }
        let ghost uv = sources_view(urls@);
        let ghost run0 = atscale_run(uv, replies@, 1, 0, Seq::empty());
        let mut entries: Vec<InfoDict> = Vec::new();
        let mut pos: usize = 1;
        let mut j: usize = 0;
        assert(dicts_view(entries@) =~= Seq::<Map<Seq<char>, Json>>::empty());
        while j < urls.len()
            invariant
                j <= urls@.len(),
                uv == sources_view(urls@),
                all_wf(entries@),
                run0 == atscale_run(uv, replies@, pos as int, j as int, dicts_view(entries@)),
            decreases urls@.len() - j,
        {
            match generic_step(urls[j].as_str(), replies, pos) {
                Ok((SubStep::Need(f), _)) => return Ok(Step::Fetch(f)),
                Ok((SubStep::Got(info), n)) => {
                    let ghost prev = dicts_view(entries@);
                    entries.push(info);
                    assert(dicts_view(entries@) =~= prev.push(info@));
                    if n > 0 {
                        if pos >= replies.len() {
                            assert(false);
                        }
                        pos = pos + 1;
                    }
                },
                Err(e) => return Err(e),
            }
            j = j + 1;
        }
        if entries.len() == 0 {
            return Err(ExtractorError::new(ExtractorErrorKind::Extraction, concat3("AtScale event ", id.as_str(), " has no video entries")));
        }
        let mut info = InfoDict::new();
        info.insert("id", JsonValue::Str(id.clone()));
        info.insert_if_some("title", match html_meta_value(html.as_str(), "og:title") { Some(t) => Some(JsonValue::Str(t)), None => None });
        info.insert_if_some("description", match html_meta_value(html.as_str(), "og:description") { Some(t) => Some(JsonValue::Str(t)), None => None });
        Ok(Step::Done(ExtractorResult::Playlist { info, entries }))
    }
}

} // verus!
