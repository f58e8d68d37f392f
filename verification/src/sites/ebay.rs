use vstd::prelude::*;

use crate::extract::{format_str, format_string, jstr, put_opt, reply_text, reply_text_at};
use crate::framework::{Expect, ExtractorDescriptor, ExtractorError, ExtractorErrorKind, ExtractorResult, Reply, SiteMatcher, Step, descriptor_ok, descriptor_source, done_with, fail, fails_with, fetches, get_text, descriptor_error};
use crate::info::{InfoDict};
use crate::json::{Json, JsonValue, arr_add, arr_done, arr_new, fields_view, items_view, json_get, json_lookup, obj_add, obj_done, obj_new};
use crate::page::{html_title_value, json_after_marker, json_object_after_marker, str_opt_of, title_value};
use crate::pattern::{regex_matches, regex_named_capture};
use crate::text::{chars_of, concat3, contains, ends_with, has_suffix, owned, string_of_range};

verus! {

/// Native eBay item-page video extractor.
///
/// eBay embeds a video object whose playlist map contains HLS and DASH
/// manifests. The manifests are handed on as they are, to be expanded by
/// whoever downloads them.
pub struct EbayExtractor {
    site: SiteMatcher,
}

impl EbayExtractor {
    /// The descriptor and matcher the extractor was built with.
    pub closed spec fn matcher(&self) -> SiteMatcher {
        self.site
    }

    pub fn new(descriptor: ExtractorDescriptor) -> (r: Result<Self, ExtractorError>)
        ensures
            r is Ok <==> descriptor_ok(descriptor),
            r matches Ok(x) ==> x.matcher().spec_descriptor() == descriptor
                && Some(x.matcher().source()) == descriptor_source(descriptor),
            r matches Err(e) ==> e.kind == ExtractorErrorKind::Extraction && e.message@ == descriptor_error(descriptor),
    {
        match SiteMatcher::from_descriptor(descriptor) {
            Ok(site) => Ok(EbayExtractor { site }),
            Err(e) => Err(e),
        }
    }

    pub fn descriptor(&self) -> (r: &ExtractorDescriptor)
        ensures
            *r == self.matcher().spec_descriptor(),
    {
        self.site.descriptor()
    }

    pub fn suitable(&self, url: &str) -> (r: bool)
        ensures
            r == regex_matches(self.matcher().source(), url@),
    {
        self.site.suitable(url)
    }

    pub fn is_native(&self) -> (r: bool)
        ensures
            r,
    {
        true
    }

    pub fn native_matcher_count(&self) -> (r: usize)
        ensures
            r == 1,
    {
        1
    }
}


/// The manifest format of playlist kind `kind`, when the playlist map has its address.
pub open spec fn ebay_format(map: Json, kind: Seq<char>, fid: Seq<char>, proto: Seq<char>) -> Seq<Json> {
    match json_lookup(map, kind) {
        Some(Json::Str(u)) => if u.len() > 0 {
            seq![Json::Object(seq![
                ("format_id"@, Json::Str(fid)),
                ("url"@, Json::Str(u)),
                ("ext"@, Json::Str("mp4"@)),
                ("protocol"@, Json::Str(proto)),
            ])]
        } else {
            Seq::empty()
        },
        _ => Seq::empty(),
    }
}

/// The HLS and DASH formats of an eBay playlist map.
pub open spec fn ebay_formats(map: Json) -> Seq<Json> {
    ebay_format(map, "HLS"@, "hls"@, "m3u8_native"@) + ebay_format(map, "DASH"@, "dash"@, "http_dash_segments"@)
}

/// The title of an eBay item page.
pub open spec fn ebay_title(id: Seq<char>, html: Seq<char>) -> Seq<char> {
    match title_value(html) {
        Some(t) => {
            let s = match without_suffix(t, " | eBay"@) { Some(x) => x, None => t };
            if s.len() > 0 { s } else { id }
        },
        None => id,
    }
}

/// `s` without the ending `p`, when it has it (`str::strip_suffix`).
pub open spec fn without_suffix(s: Seq<char>, p: Seq<char>) -> Option<Seq<char>> {
    if has_suffix(s, p) { Some(s.subrange(0, s.len() - p.len())) } else { None }
}

/// Adds the manifest format of playlist kind `kind`, when the map has its address.
fn ebay_add_format(out: &mut Vec<JsonValue>, map: &JsonValue, kind: &str, fid: &str, proto: &str)
    ensures
        items_view(final(out)@) == items_view(old(out)@) + ebay_format(map@, kind@, fid@, proto@),
{
    match json_get(map, kind) {
        Some(JsonValue::Str(u)) => if u.unicode_len() > 0 {
            let mut f = obj_new();
            obj_add(&mut f, "format_id", jstr(fid));
            obj_add(&mut f, "url", jstr(u.as_str()));
            obj_add(&mut f, "ext", jstr("mp4"));
            obj_add(&mut f, "protocol", jstr(proto));
            let ghost before = items_view(out@);
            let fj = obj_done(f);
            assert(seq![fj@] =~= ebay_format(map@, kind@, fid@, proto@)) by {
                assert(fields_view(f@) =~= ebay_format(map@, kind@, fid@, proto@)[0]->Object_0);
            }
            arr_add(out, fj);
            assert(items_view(out@) =~= before + seq![fj@]);
        } else {
            assert(items_view(out@) =~= items_view(out@) + Seq::<Json>::empty());
        },
        _ => {
            assert(items_view(out@) =~= items_view(out@) + Seq::<Json>::empty());
        },
    }
}

/// `str::strip_suffix`: `s` without the ending `p`, when it has it.
fn strip_suffix(s: &str, p: &str) -> (r: Option<String>)
    ensures
        str_opt_of(r) == without_suffix(s@, p@),
{
    if ends_with(s, p) {
        let cs = chars_of(s);
        let n = p.unicode_len();
        Some(string_of_range(&cs, 0, cs.len() - n))
    } else {
        None
    }
}

impl EbayExtractor {
    /// One step of an eBay extraction: the item page's video object has the playlist map,
    /// whose HLS and DASH manifests are the formats.
    pub fn extract_step(&self, url: &str, replies: &Vec<Reply>) -> (r: Result<Step, ExtractorError>)
        ensures
            match regex_named_capture(self.matcher().source(), url@, "id"@) {
                Some(id) => if replies@.len() == 0 {
                    fetches(r, url@, Expect::Text)
                } else {
                    match reply_text_at(replies@, 0) {
                        Some(html) => match json_after_marker(html, "\"video\":"@, '{') {
                            Some(video) => match json_lookup(video, "playlistMap"@) {
                                Some(Json::Object(fs)) => {
                                    let formats = ebay_formats(Json::Object(fs));
                                    if formats.len() > 0 {
                                        done_with(r, put_opt(put_opt(Map::<Seq<char>, Json>::empty()
                                            .insert("id"@, Json::Str(id))
                                            .insert("title"@, Json::Str(ebay_title(id, html))),
                                            "url"@, format_str(formats[0], "url"@)),
                                            "ext"@, format_str(formats[0], "ext"@))
                                            .insert("formats"@, Json::Array(formats)))
                                    } else {
                                        fails_with(r, ExtractorErrorKind::Extraction)
                                    }
                                },
                                _ => fails_with(r, ExtractorErrorKind::Extraction),
                            },
                            None => fails_with(r, ExtractorErrorKind::Extraction),
                        },
                        None => fails_with(r, ExtractorErrorKind::Extraction),
                    }
                },
                None => fails_with(r, ExtractorErrorKind::InvalidUrl),
            },
    {
        let item_id = match self.site.capture(url, "id") {
            Some(v) => v,
            None => return Err(fail(ExtractorErrorKind::InvalidUrl, "eBay URL has no item ID")),
        };
        if replies.len() == 0 {
            return Ok(Step::Fetch(get_text(owned(url))));
        }
        let html = reply_text(replies, 0)?;
        let video = match json_object_after_marker(html.as_str(), "\"video\":") {
            Some(v) => v,
            None => return Err(ExtractorError::new(ExtractorErrorKind::Extraction, concat3("eBay item ", item_id.as_str(), " has no embedded video object"))),
        };
        let map = match json_get(&video, "playlistMap") {
            Some(m) => match m {
                JsonValue::Object(_) => m,
                _ => return Err(ExtractorError::new(ExtractorErrorKind::Extraction, concat3("eBay item ", item_id.as_str(), " has no playlist map"))),
            },
            None => return Err(ExtractorError::new(ExtractorErrorKind::Extraction, concat3("eBay item ", item_id.as_str(), " has no playlist map"))),
        };
        let mut formats = arr_new();
        ebay_add_format(&mut formats, map, "HLS", "hls", "m3u8_native");
        ebay_add_format(&mut formats, map, "DASH", "dash", "http_dash_segments");
        assert(items_view(formats@) =~= ebay_formats(map@));
        if formats.len() == 0 {
            return Err(ExtractorError::new(ExtractorErrorKind::Extraction, concat3("eBay item ", item_id.as_str(), " has no playable HLS or DASH manifest")));
        }
        let url0 = format_string(&formats[0], "url");
        let ext0 = format_string(&formats[0], "ext");
        let title = match html_title_value(html.as_str()) {
            Some(t) => {
                let s = match strip_suffix(t.as_str(), " | eBay") { Some(x) => x, None => t };
                if s.unicode_len() > 0 { s } else { item_id.clone() }
            },
            None => item_id.clone(),
        };
        let mut info = InfoDict::new();
        info.insert("id", JsonValue::Str(item_id));
        info.insert("title", JsonValue::Str(title));
        info.insert_if_some("url", url0);
        info.insert_if_some("ext", ext0);
        info.insert("formats", arr_done(formats));
        Ok(Step::Done(ExtractorResult::single(info)))
    }
}

} // verus!
