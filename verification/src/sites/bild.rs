use vstd::prelude::*;

use crate::sites::video::{first_item, first_item_at};
use crate::extract::{format_str, format_string, jstr, opt_int, opt_int_json, opt_str, opt_str_json, put_opt, reply_json, reply_json_at};
use crate::framework::{Expect, ExtractorDescriptor, ExtractorError, ExtractorErrorKind, ExtractorResult, Reply, SiteMatcher, Step, descriptor_ok, descriptor_source, done_with, fail, fails_with, fetches, get_json, descriptor_error};
use crate::html::{unescape_html, unescaped};
use crate::info::{InfoDict};
use crate::json::{Json, JsonValue, arr_add, arr_done, arr_new, fields_view, items_view, json_get, json_i64, json_int_at, json_lookup, json_opt_view, json_str_at, json_string, lemma_array_view, obj_add, obj_done, obj_new};
use crate::pattern::{regex_matches, regex_named_capture};
use crate::text::{before_str, concat2, concat3, contains, eq_ignore_ascii_case, has_infix, lowered, owned, split_first, trim, trimmed};

verus! {

/// Native Bild.de JSON clip/source extractor.
pub struct BildExtractor {
    site: SiteMatcher,
}

impl BildExtractor {
    /// The descriptor and matcher the extractor was built with.
    pub closed spec fn matcher(&self) -> SiteMatcher {
        self.site
    }

    pub fn new(descriptor: ExtractorDescriptor) -> (r: Result<Self, ExtractorError>)
        ensures
            r is Ok <==> descriptor_ok(descriptor),
            r matches Ok(x) ==> x.matcher().spec_descriptor() == descriptor
                && Some(x.matcher().source()) == descriptor_source(descriptor),
            r matches Err(e) ==> e.kind == ExtractorErrorKind::Extraction && e.message@ == descriptor_error(descriptor),
    {
        match SiteMatcher::from_descriptor(descriptor) {
            Ok(site) => Ok(BildExtractor { site }),
            Err(e) => Err(e),
        }
    }

    pub fn descriptor(&self) -> (r: &ExtractorDescriptor)
        ensures
            *r == self.matcher().spec_descriptor(),
    {
        self.site.descriptor()
    }

    pub fn suitable(&self, url: &str) -> (r: bool)
        ensures
            r == regex_matches(self.matcher().source(), url@),
    {
        self.site.suitable(url)
    }

    pub fn is_native(&self) -> (r: bool)
        ensures
            r,
    {
        true
    }

    pub fn native_matcher_count(&self) -> (r: usize)
        ensures
            r == 1,
    {
        1
    }
}


/// The format of a Bild clip source, when it is HLS or MP4.
pub open spec fn bild_format(source: Json) -> Option<Json> {
    match json_str_at(source, "src"@) {
        Some(u) => if u.len() == 0 {
            None
        } else {
            let ty = match json_str_at(source, "type"@) { Some(t) => t, None => Seq::empty() };
            if lowered(ty) == lowered("application/x-mpegURL"@) {
                Some(Json::Object(seq![
                    ("url"@, Json::Str(u)),
                    ("format_id"@, Json::Str("hls"@)),
                    ("protocol"@, Json::Str("m3u8_native"@)),
                    ("ext"@, Json::Str("mp4"@)),
                ]))
            } else if lowered(ty) == lowered("video/mp4"@) {
                Some(Json::Object(seq![
                    ("url"@, Json::Str(u)),
                    ("format_id"@, Json::Str("http-mp4"@)),
                    ("ext"@, Json::Str("mp4"@)),
                ]))
            } else {
                None
            }
        },
        None => None,
    }
}

/// The formats of the first `n` clip sources.
pub open spec fn bild_formats(sources: Seq<Json>, n: int) -> Seq<Json>
    decreases n,
{
    if n <= 0 {
        Seq::empty()
    } else {
        match bild_format(sources[n - 1]) {
            Some(f) => bild_formats(sources, n - 1).push(f),
            None => bild_formats(sources, n - 1),
        }
    }
}

/// The formats of a Bild clip.
pub open spec fn bild_clip_formats(clip: Json) -> Seq<Json> {
    match json_lookup(clip, "srces"@) {
        Some(Json::Array(ss)) => bild_formats(ss, ss.len() as int),
        _ => Seq::empty(),
    }
}

/// The metadata of a Bild clip.
pub open spec fn bild_info(id: Seq<char>, data: Json, fs: Seq<Json>) -> Map<Seq<char>, Json> {
    put_opt(put_opt(put_opt(put_opt(put_opt(Map::<Seq<char>, Json>::empty()
        .insert("id"@, Json::Str(id))
        .insert("title"@, Json::Str(trimmed(match json_str_at(data, "title"@) { Some(t) => unescaped(t), None => id }))),
        "description"@, match json_str_at(data, "description"@) { Some(d) => Some(Json::Str(unescaped(d))), None => None }),
        "thumbnail"@, opt_str(json_str_at(data, "poster"@))),
        "duration"@, opt_int(json_int_at(data, "durationSec"@))),
        "url"@, format_str(fs[0], "url"@)),
        "ext"@, format_str(fs[0], "ext"@))
        .insert("formats"@, Json::Array(fs))
}

/// The format of a Bild clip source.
fn bild_format_of(source: &JsonValue) -> (r: Option<JsonValue>)
    ensures
        json_opt_view(r) == bild_format(source@),
{
    let u = match json_string(source, "src") {
        Some(u) => u,
        None => return None,
    };
    if u.unicode_len() == 0 {
        return None;
    }
    let ty = match json_string(source, "type") { Some(t) => owned(t), None => String::new() };
    let mut f = obj_new();
    if eq_ignore_ascii_case(ty.as_str(), "application/x-mpegURL") {
        obj_add(&mut f, "url", jstr(u));
        obj_add(&mut f, "format_id", jstr("hls"));
        obj_add(&mut f, "protocol", jstr("m3u8_native"));
        obj_add(&mut f, "ext", jstr("mp4"));
        let fj = obj_done(f);
        assert(Some(fj@) == bild_format(source@)) by {
            assert(fields_view(f@) =~= bild_format(source@).unwrap()->Object_0);
        }
        Some(fj)
    } else if eq_ignore_ascii_case(ty.as_str(), "video/mp4") {
        obj_add(&mut f, "url", jstr(u));
        obj_add(&mut f, "format_id", jstr("http-mp4"));
        obj_add(&mut f, "ext", jstr("mp4"));
        let fj = obj_done(f);
        assert(Some(fj@) == bild_format(source@)) by {
            assert(fields_view(f@) =~= bild_format(source@).unwrap()->Object_0);
        }
        Some(fj)
    } else {
        None
    }
}

impl BildExtractor {
    /// One step of a Bild extraction: the clip's JSON view is fetched, and its HLS and MP4
    /// sources are the formats.
    pub fn extract_step(&self, url: &str, replies: &Vec<Reply>) -> (r: Result<Step, ExtractorError>)
        ensures
            match regex_named_capture(self.matcher().source(), url@, "id"@) {
                Some(id) => if !has_infix(url@, ".bild.html"@) {
                    fails_with(r, ExtractorErrorKind::InvalidUrl)
                } else if replies@.len() == 0 {
                    fetches(r, before_str(url@, ".bild.html"@) + ",view=json.bild.html"@, Expect::Json)
                } else {
                    match reply_json_at(replies@, 0) {
                        Some(data) => match first_item_at(Some(data@), "clipList"@) {
                            Some(clip) => if bild_clip_formats(clip).len() > 0 {
                                done_with(r, bild_info(id, data@, bild_clip_formats(clip)))
                            } else {
                                fails_with(r, ExtractorErrorKind::Extraction)
                            },
                            None => fails_with(r, ExtractorErrorKind::Extraction),
                        },
                        None => fails_with(r, ExtractorErrorKind::Extraction),
                    }
                },
                None => fails_with(r, ExtractorErrorKind::InvalidUrl),
            },
    {
        let video_id = match self.site.capture(url, "id") {
            Some(v) => v,
            None => return Err(fail(ExtractorErrorKind::InvalidUrl, "Bild URL has no clip ID")),
        };
        if !contains(url, ".bild.html") {
            return Err(fail(ExtractorErrorKind::InvalidUrl, "Bild URL has no .bild.html suffix"));
        }
        if replies.len() == 0 {
            return Ok(Step::Fetch(get_json(concat2(split_first(url, ".bild.html").as_str(), ",view=json.bild.html"))));
        }
        let data = reply_json(replies, 0)?;
        let clip = match first_item(data, "clipList") {
            Some(c) => c,
            None => return Err(ExtractorError::new(ExtractorErrorKind::Extraction, concat3("Bild clip ", video_id.as_str(), " has no clip data"))),
        };
        let mut formats = arr_new();
        match json_get(clip, "srces") {
            Some(x) => match x {
                JsonValue::Array(ss) => {
                    proof { lemma_array_view(*x); }
                    let ghost sv = items_view(ss@);
                    let mut i: usize = 0;
                    while i < ss.len()
                        invariant
                            i <= ss@.len(),
                            sv == items_view(ss@),
                            items_view(formats@) == bild_formats(sv, i as int),
                        decreases ss@.len() - i,
                    {
                        match bild_format_of(&ss[i]) {
                            Some(f) => arr_add(&mut formats, f),
                            None => {},
                        }
                        i = i + 1;
                    }
                },
                _ => {},
            },
            None => {},
        }
        if formats.len() == 0 {
            return Err(ExtractorError::new(ExtractorErrorKind::Extraction, concat3("Bild clip ", video_id.as_str(), " has no playable sources")));
        }
        let url0 = format_string(&formats[0], "url");
        let ext0 = format_string(&formats[0], "ext");
        let mut info = InfoDict::new();
        info.insert("id", JsonValue::Str(video_id.clone()));
        info.insert("title", JsonValue::Str(trim(match json_string(data, "title") { Some(t) => unescape_html(t), None => video_id.clone() }.as_str())));
        info.insert_if_some("description", match json_string(data, "description") { Some(d) => Some(JsonValue::Str(unescape_html(d))), None => None });
        info.insert_if_some("thumbnail", opt_str_json(json_string(data, "poster")));
        info.insert_if_some("duration", opt_int_json(json_i64(data, "durationSec")));
        info.insert_if_some("url", url0);
        info.insert_if_some("ext", ext0);
        info.insert("formats", arr_done(formats));
        Ok(Step::Done(ExtractorResult::single(info)))
    }
}

} // verus!
