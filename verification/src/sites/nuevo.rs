use vstd::prelude::*;

use crate::sites::unistra::{nonempty_unescaped, nonempty_unescaped_of};
use crate::extract::{determine_ext, ext_of, format_str, format_string, jstr, opt_str, put_opt, reply_text, reply_text_at, resolve_url, resolved};
use crate::framework::{Expect, ExtractorDescriptor, ExtractorError, ExtractorErrorKind, ExtractorResult, Reply, SiteMatcher, Step, descriptor_ok, descriptor_source, done_with, fail, fails_with, fetches, get_text, descriptor_error};
use crate::html::{nonempty_fragment};
use crate::info::{InfoDict};
use crate::json::{Json, JsonValue, arr_add, arr_done, arr_new, fields_view, items_view, json_opt_view, obj_add, obj_done, obj_new};
use crate::number::{float_text, parse_float};
use crate::page::{html5_formats, html5_media_formats, html_meta_value, meta_value, str_opt_of, xml_element_pattern, xml_element_text};
use crate::pattern::{first_group, regex_first_group, regex_matches, regex_named_capture};
use crate::text::{concat2, concat3, owned, trim, trimmed};

verus! {

/// Native NonkTube HTML5-video extractor.
pub struct NonkTubeExtractor {
    site: SiteMatcher,
}

impl NonkTubeExtractor {
    /// The descriptor and matcher the extractor was built with.
    pub closed spec fn matcher(&self) -> SiteMatcher {
        self.site
    }

    pub fn new(descriptor: ExtractorDescriptor) -> (r: Result<Self, ExtractorError>)
        ensures
            r is Ok <==> descriptor_ok(descriptor),
            r matches Ok(x) ==> x.matcher().spec_descriptor() == descriptor
                && Some(x.matcher().source()) == descriptor_source(descriptor),
            r matches Err(e) ==> e.kind == ExtractorErrorKind::Extraction && e.message@ == descriptor_error(descriptor),
    {
        match SiteMatcher::from_descriptor(descriptor) {
            Ok(site) => Ok(NonkTubeExtractor { site }),
            Err(e) => Err(e),
        }
    }

    pub fn descriptor(&self) -> (r: &ExtractorDescriptor)
        ensures
            *r == self.matcher().spec_descriptor(),
    {
        self.site.descriptor()
    }

    pub fn suitable(&self, url: &str) -> (r: bool)
        ensures
            r == regex_matches(self.matcher().source(), url@),
    {
        self.site.suitable(url)
    }

    pub fn is_native(&self) -> (r: bool)
        ensures
            r,
    {
        true
    }

    pub fn native_matcher_count(&self) -> (r: usize)
        ensures
            r == 1,
    {
        1
    }
}

/// Native LoveHomePorn extractor backed by the shared Nuevo XML config.
pub struct LoveHomePornExtractor {
    site: SiteMatcher,
}

impl LoveHomePornExtractor {
    /// The descriptor and matcher the extractor was built with.
    pub closed spec fn matcher(&self) -> SiteMatcher {
        self.site
    }

    pub fn new(descriptor: ExtractorDescriptor) -> (r: Result<Self, ExtractorError>)
        ensures
            r is Ok <==> descriptor_ok(descriptor),
            r matches Ok(x) ==> x.matcher().spec_descriptor() == descriptor
                && Some(x.matcher().source()) == descriptor_source(descriptor),
            r matches Err(e) ==> e.kind == ExtractorErrorKind::Extraction && e.message@ == descriptor_error(descriptor),
    {
        match SiteMatcher::from_descriptor(descriptor) {
            Ok(site) => Ok(LoveHomePornExtractor { site }),
            Err(e) => Err(e),
        }
    }

    pub fn descriptor(&self) -> (r: &ExtractorDescriptor)
        ensures
            *r == self.matcher().spec_descriptor(),
    {
        self.site.descriptor()
    }

    pub fn suitable(&self, url: &str) -> (r: bool)
        ensures
            r == regex_matches(self.matcher().source(), url@),
    {
        self.site.suitable(url)
    }

    pub fn is_native(&self) -> (r: bool)
        ensures
            r,
    {
        true
    }

    pub fn native_matcher_count(&self) -> (r: usize)
        ensures
            r == 1,
    {
        1
    }
}


/// `nuevo_html5_thumbnail`: the poster of a page's HTML5 media element, resolved.
pub open spec fn nuevo_thumb(page: Seq<char>, html: Seq<char>) -> Option<Seq<char>> {
    match first_group("(?is)<(?:video|audio)\\b[^>]*\\bposter\\s*=\\s*[\"']([^\"']+)[\"']"@, html, 1) {
        Some(v) => Some(resolved(page, v)),
        None => None,
    }
}

/// `nuevo_html5_duration`: the duration an HTML5 media element states.
pub open spec fn nuevo_duration(html: Seq<char>) -> Option<Json> {
    match first_group("(?is)<(?:video|audio)\\b[^>]*\\b(?:data-duration|duration)\\s*=\\s*[\"']?([0-9]+(?:\\.[0-9]+)?)"@, html, 1) {
        Some(v) => float_text(v),
        None => None,
    }
}

/// The metadata of a NonkTube page with HTML5 formats `fs`.
pub open spec fn nonktube_info(url: Seq<char>, id: Seq<char>, html: Seq<char>, title: Seq<char>, fs: Seq<Json>) -> Map<Seq<char>, Json> {
    put_opt(put_opt(put_opt(put_opt(Map::<Seq<char>, Json>::empty()
        .insert("id"@, Json::Str(id))
        .insert("title"@, Json::Str(title))
        .insert("age_limit"@, Json::Int(18)),
        "thumbnail"@, opt_str(nuevo_thumb(url, html))),
        "duration"@, match meta_value(html, "og:video:duration"@) {
            Some(v) => match float_text(v) { Some(d) => Some(d), None => nuevo_duration(html) },
            None => nuevo_duration(html),
        }),
        "url"@, format_str(fs[0], "url"@)),
        "ext"@, format_str(fs[0], "ext"@))
        .insert("formats"@, Json::Array(fs))
        .insert("subtitles"@, Json::Object(Seq::empty()))
}

impl NonkTubeExtractor {
    /// One step of a NonkTube extraction: the page's HTML5 media are the formats.
    pub fn extract_step(&self, url: &str, replies: &Vec<Reply>) -> (r: Result<Step, ExtractorError>)
        ensures
            match regex_named_capture(self.matcher().source(), url@, "id"@) {
                Some(id) => if replies@.len() == 0 {
                    fetches(r, url@, Expect::Text)
                } else {
                    match reply_text_at(replies@, 0) {
                        Some(html) => match nonempty_unescaped(meta_value(html, "og:title"@)) {
                            Some(title) => if html5_formats(url@, html).len() > 0 {
                                done_with(r, nonktube_info(url@, id, html, title, html5_formats(url@, html)))
                            } else {
                                fails_with(r, ExtractorErrorKind::Extraction)
                            },
                            None => fails_with(r, ExtractorErrorKind::Extraction),
                        },
                        None => fails_with(r, ExtractorErrorKind::Extraction),
                    }
                },
                None => fails_with(r, ExtractorErrorKind::InvalidUrl),
            },
    {
        let video_id = match self.site.capture(url, "id") {
            Some(v) => v,
            None => return Err(fail(ExtractorErrorKind::InvalidUrl, "NonkTube URL has no video ID")),
        };
        if replies.len() == 0 {
            return Ok(Step::Fetch(get_text(owned(url))));
        }
        let html = reply_text(replies, 0)?;
        let title = match nonempty_unescaped_of(html_meta_value(html.as_str(), "og:title")) {
            Some(t) => t,
            None => return Err(ExtractorError::new(ExtractorErrorKind::Extraction, concat3("NonkTube video ", video_id.as_str(), " has no title"))),
        };
        let formats = html5_media_formats(url, html.as_str());
        if formats.len() == 0 {
            return Err(ExtractorError::new(ExtractorErrorKind::Extraction, concat3("NonkTube video ", video_id.as_str(), " has no HTML5 media")));
        }
        let url0 = format_string(&formats[0], "url");
        let ext0 = format_string(&formats[0], "ext");
        let thumb = match regex_first_group("(?is)<(?:video|audio)\\b[^>]*\\bposter\\s*=\\s*[\"']([^\"']+)[\"']", html.as_str(), 1) {
            Some(v) => Some(JsonValue::Str(resolve_url(url, v.as_str()))),
            None => None,
        };
        let html5_duration = match regex_first_group("(?is)<(?:video|audio)\\b[^>]*\\b(?:data-duration|duration)\\s*=\\s*[\"']?([0-9]+(?:\\.[0-9]+)?)", html.as_str(), 1) {
            Some(v) => parse_float(v.as_str()),
            None => None,
        };
        let duration = match html_meta_value(html.as_str(), "og:video:duration") {
            Some(v) => match parse_float(v.as_str()) { Some(d) => Some(d), None => html5_duration },
            None => html5_duration,
        };
        let mut info = InfoDict::new();
        info.insert("id", JsonValue::Str(video_id));
        info.insert("title", JsonValue::Str(title));
        info.insert("age_limit", JsonValue::Int(18));
        info.insert_if_some("thumbnail", thumb);
        info.insert_if_some("duration", duration);
        info.insert_if_some("url", url0);
        info.insert_if_some("ext", ext0);
        info.insert("formats", arr_done(formats));
        let subs = obj_done(obj_new());
        assert(subs@ =~= Json::Object(Seq::empty()));
        info.insert("subtitles", subs);
        Ok(Step::Done(ExtractorResult::single(info)))
    }
}

/// The trimmed text of XML element `e`, when it is not empty.
pub open spec fn xml_trimmed(xml: Seq<char>, e: Seq<char>) -> Option<Seq<char>> {
    match nonempty_fragment(first_group(xml_element_pattern(e), xml, 1)) {
        Some(v) => if trimmed(v).len() > 0 { Some(trimmed(v)) } else { None },
        None => None,
    }
}

/// The Nuevo format stored in element `e`, when it has an address.
pub open spec fn nuevo_format(xml: Seq<char>, e: Seq<char>, fid: Seq<char>) -> Seq<Json> {
    match xml_trimmed(xml, e) {
        Some(u) => seq![Json::Object(seq![
            ("url"@, Json::Str(u)),
            ("format_id"@, Json::Str(fid)),
            ("ext"@, Json::Str(ext_of(u, "mp4"@))),
        ])],
        None => Seq::empty(),
    }
}

/// `nuevo_xml_formats`: the SD and HD files of a Nuevo configuration.
pub open spec fn nuevo_formats(xml: Seq<char>) -> Seq<Json> {
    nuevo_format(xml, "file"@, "sd"@) + nuevo_format(xml, "filehd"@, "hd"@)
}

/// The thumbnail of a Nuevo configuration: its image, else its thumb, trimmed.
pub open spec fn lhp_thumb(xml: Seq<char>) -> Option<Seq<char>> {
    match nonempty_fragment(first_group(xml_element_pattern("image"@), xml, 1)) {
        Some(t) => Some(trimmed(t)),
        None => match nonempty_fragment(first_group(xml_element_pattern("thumb"@), xml, 1)) {
            Some(t) => Some(trimmed(t)),
            None => None,
        },
    }
}

/// The duration of a Nuevo configuration.
pub open spec fn lhp_duration(xml: Seq<char>) -> Option<Json> {
    match nonempty_fragment(first_group(xml_element_pattern("duration"@), xml, 1)) {
        Some(d) => float_text(trimmed(d)),
        None => None,
    }
}

/// The thumbnail of a Nuevo configuration.
fn lhp_thumb_of(xml: &str) -> (r: Option<JsonValue>)
    ensures
        json_opt_view(r) == opt_str(lhp_thumb(xml@)),
{
    match xml_element_text(xml, "image") {
        Some(t) => Some(JsonValue::Str(trim(t.as_str()))),
        None => match xml_element_text(xml, "thumb") {
            Some(t) => Some(JsonValue::Str(trim(t.as_str()))),
            None => None,
        },
    }
}

/// The duration of a Nuevo configuration.
fn lhp_duration_of(xml: &str) -> (r: Option<JsonValue>)
    ensures
        json_opt_view(r) == lhp_duration(xml@),
{
    match xml_element_text(xml, "duration") {
        Some(d) => parse_float(trim(d.as_str()).as_str()),
        None => None,
    }
}

/// The metadata of a LoveHomePorn video.
pub open spec fn lhp_info(req: Seq<char>, display: Option<Seq<char>>, xml: Seq<char>, title: Seq<char>, fs: Seq<Json>) -> Map<Seq<char>, Json> {
    let id = match xml_trimmed(xml, "mediaid"@) { Some(v) => v, None => req };
    let thumb = lhp_thumb(xml);
    put_opt(put_opt(put_opt(put_opt(put_opt(Map::<Seq<char>, Json>::empty()
        .insert("id"@, Json::Str(id))
        .insert("title"@, Json::Str(title)),
        "display_id"@, opt_str(display))
        .insert("age_limit"@, Json::Int(18)),
        "thumbnail"@, opt_str(thumb)),
        "duration"@, lhp_duration(xml)),
        "url"@, format_str(fs[0], "url"@)),
        "ext"@, format_str(fs[0], "ext"@))
        .insert("formats"@, Json::Array(fs))
}

/// The trimmed text of XML element `e`, when it is not empty.
fn xml_trimmed_of(xml: &str, e: &str) -> (r: Option<String>)
    ensures
        str_opt_of(r) == xml_trimmed(xml@, e@),
{
    match xml_element_text(xml, e) {
        Some(v) => {
            let t = trim(v.as_str());
            if t.unicode_len() > 0 { Some(t) } else { None }
        },
        None => None,
    }
}

/// Adds the Nuevo format stored in element `e`.
fn nuevo_add_format(out: &mut Vec<JsonValue>, xml: &str, e: &str, fid: &str)
    ensures
        items_view(final(out)@) == items_view(old(out)@) + nuevo_format(xml@, e@, fid@),
{
    match xml_trimmed_of(xml, e) {
        Some(u) => {
            let mut f = obj_new();
            obj_add(&mut f, "url", jstr(u.as_str()));
            obj_add(&mut f, "format_id", jstr(fid));
            obj_add(&mut f, "ext", JsonValue::Str(determine_ext(u.as_str(), "mp4")));
            let ghost before = items_view(out@);
            let fj = obj_done(f);
            assert(seq![fj@] =~= nuevo_format(xml@, e@, fid@)) by {
                assert(fields_view(f@) =~= nuevo_format(xml@, e@, fid@)[0]->Object_0);
            }
            arr_add(out, fj);
            assert(items_view(out@) =~= before + seq![fj@]);
        },
        None => {
            assert(items_view(out@) =~= items_view(out@) + Seq::<Json>::empty());
        },
    }
}

impl LoveHomePornExtractor {
    /// One step of a LoveHomePorn extraction: the Nuevo player configuration gives the
    /// title and the SD and HD files.
    pub fn extract_step(&self, url: &str, replies: &Vec<Reply>) -> (r: Result<Step, ExtractorError>)
        ensures
            match regex_named_capture(self.matcher().source(), url@, "id"@) {
                Some(id) => if replies@.len() == 0 {
                    fetches(r, "http://lovehomeporn.com/media/nuevo/config.php?key="@ + id, Expect::Text)
                } else {
                    match reply_text_at(replies@, 0) {
                        Some(xml) => match xml_trimmed(xml, "title"@) {
                            Some(title) => if nuevo_formats(xml).len() > 0 {
                                done_with(r, lhp_info(id, regex_named_capture(self.matcher().source(), url@, "display_id"@), xml, title, nuevo_formats(xml)))
                            } else {
                                fails_with(r, ExtractorErrorKind::Extraction)
                            },
                            None => fails_with(r, ExtractorErrorKind::Extraction),
                        },
                        None => fails_with(r, ExtractorErrorKind::Extraction),
                    }
                },
                None => fails_with(r, ExtractorErrorKind::InvalidUrl),
            },
    {
        let requested = match self.site.capture(url, "id") {
            Some(v) => v,
            None => return Err(fail(ExtractorErrorKind::InvalidUrl, "LoveHomePorn URL has no ID")),
        };
        let display_id = self.site.capture(url, "display_id");
        if replies.len() == 0 {
            return Ok(Step::Fetch(get_text(concat2("http://lovehomeporn.com/media/nuevo/config.php?key=", requested.as_str()))));
        }
        let xml = reply_text(replies, 0)?;
        let title = match xml_trimmed_of(xml.as_str(), "title") {
            Some(t) => t,
            None => return Err(ExtractorError::new(ExtractorErrorKind::Extraction, concat3("LoveHomePorn video ", requested.as_str(), " has no title"))),
        };
        let video_id = match xml_trimmed_of(xml.as_str(), "mediaid") { Some(v) => v, None => requested.clone() };
        let mut formats = arr_new();
        nuevo_add_format(&mut formats, xml.as_str(), "file", "sd");
        nuevo_add_format(&mut formats, xml.as_str(), "filehd", "hd");
        assert(items_view(formats@) =~= nuevo_formats(xml@));
        if formats.len() == 0 {
            return Err(ExtractorError::new(ExtractorErrorKind::Extraction, concat3("LoveHomePorn video ", video_id.as_str(), " has no media files")));
        }
        let url0 = format_string(&formats[0], "url");
        let ext0 = format_string(&formats[0], "ext");
        let thumb = lhp_thumb_of(xml.as_str());
        let duration = lhp_duration_of(xml.as_str());
        let mut info = InfoDict::new();
        info.insert("id", JsonValue::Str(video_id));
        info.insert("title", JsonValue::Str(title));
        info.insert_if_some("display_id", match display_id { Some(d) => Some(JsonValue::Str(d)), None => None });
        info.insert("age_limit", JsonValue::Int(18));
        info.insert_if_some("thumbnail", thumb);
        info.insert_if_some("duration", duration);
        info.insert_if_some("url", url0);
        info.insert_if_some("ext", ext0);
        info.insert("formats", arr_done(formats));
        Ok(Step::Done(ExtractorResult::single(info)))
    }
}

} // verus!
