use vstd::prelude::*;

use crate::extract::{jstr, opt_str, put_opt, reply_text, reply_text_at};
use crate::framework::{Expect, ExtractorDescriptor, ExtractorError, ExtractorErrorKind, ExtractorResult, Reply, SiteMatcher, Step, descriptor_ok, descriptor_source, done_with, fail, fails_with, fetches, get_text, descriptor_error};
use crate::html::{nonempty_fragment, nonempty_fragment_of};
use crate::info::{InfoDict};
use crate::json::{Json, JsonValue, arr_add, arr_done, arr_new, fields_view, obj_add, obj_done, obj_new};
use crate::page::{element_by_class_pattern, html_element_by_class, html_meta_value, meta_value};
use crate::pattern::{first_group, regex_first_group, regex_matches, regex_named_capture};
use crate::text::{byte_boundary, char_boundary, chars_of, concat3, owned, push_str, string_of_range};

verus! {

/// Native FilmArchiv.at deterministic CDN/HLS extractor.
pub struct FilmArchivExtractor {
    site: SiteMatcher,
}

impl FilmArchivExtractor {
    /// The descriptor and matcher the extractor was built with.
    pub closed spec fn matcher(&self) -> SiteMatcher {
        self.site
    }

    pub fn new(descriptor: ExtractorDescriptor) -> (r: Result<Self, ExtractorError>)
        ensures
            r is Ok <==> descriptor_ok(descriptor),
            r matches Ok(x) ==> x.matcher().spec_descriptor() == descriptor
                && Some(x.matcher().source()) == descriptor_source(descriptor),
            r matches Err(e) ==> e.kind == ExtractorErrorKind::Extraction && e.message@ == descriptor_error(descriptor),
    {
        match SiteMatcher::from_descriptor(descriptor) {
            Ok(site) => Ok(FilmArchivExtractor { site }),
            Err(e) => Err(e),
        }
    }

    pub fn descriptor(&self) -> (r: &ExtractorDescriptor)
        ensures
            *r == self.matcher().spec_descriptor(),
    {
        self.site.descriptor()
    }

    pub fn suitable(&self, url: &str) -> (r: bool)
        ensures
            r == regex_matches(self.matcher().source(), url@),
    {
        self.site.suitable(url)
    }

    pub fn is_native(&self) -> (r: bool)
        ensures
            r,
    {
        true
    }

    pub fn native_matcher_count(&self) -> (r: usize)
        ensures
            r == 1,
    {
        1
    }
}


/// The storage path of FilmArchiv medium `id`: its first six bytes, a slash, the rest.
pub open spec fn fa_path(id: Seq<char>, k: int) -> Seq<char> {
    id.subrange(0, k) + "/"@ + id.subrange(k, id.len() as int)
}

/// The metadata of a FilmArchiv medium whose storage path is `path`.
pub open spec fn fa_info(id: Seq<char>, html: Seq<char>, path: Seq<char>) -> Map<Seq<char>, Json> {
    let stream = "https://cdn.filmarchiv.at/"@ + path + "_v1_sv1/playlist.m3u8"@;
    let title = match nonempty_fragment(first_group("(?is)<title-div\\b[^>]*>(.*?)</title-div\\s*>"@, html, 1)) {
        Some(t) => Some(t),
        None => meta_value(html, "og:title"@),
    };
    let description = match nonempty_fragment(first_group(element_by_class_pattern("border-base-content"@), html, 2)) {
        Some(d) => Some(d),
        None => meta_value(html, "description"@),
    };
    put_opt(put_opt(Map::<Seq<char>, Json>::empty()
        .insert("id"@, Json::Str(id)),
        "title"@, opt_str(title)),
        "description"@, opt_str(description))
        .insert("thumbnail"@, Json::Str("https://cdn.filmarchiv.at/"@ + path + "_v1/poster.jpg"@))
        .insert("url"@, Json::Str(stream))
        .insert("ext"@, Json::Str("mp4"@))
        .insert("formats"@, Json::Array(seq![Json::Object(seq![
            ("url"@, Json::Str(stream)),
            ("format_id"@, Json::Str("hls"@)),
            ("protocol"@, Json::Str("m3u8_native"@)),
            ("ext"@, Json::Str("mp4"@)),
        ])]))
}

impl FilmArchivExtractor {
    /// One step of a FilmArchiv extraction: the medium's ID names its stream and poster;
    /// the page gives the title and description. The ID's sixth byte must end a
    /// character.
    pub fn extract_step(&self, url: &str, replies: &Vec<Reply>) -> (r: Result<Step, ExtractorError>)
        requires
            regex_named_capture(self.matcher().source(), url@, "id"@) matches Some(id) ==> byte_boundary(id, 6, 0) is Some,
        ensures
            match regex_named_capture(self.matcher().source(), url@, "id"@) {
                Some(id) => if replies@.len() == 0 {
                    fetches(r, url@, Expect::Text)
                } else {
                    match reply_text_at(replies@, 0) {
                        Some(html) => done_with(r, fa_info(id, html, fa_path(id, byte_boundary(id, 6, 0).unwrap()))),
                        None => fails_with(r, ExtractorErrorKind::Extraction),
                    }
                },
                None => fails_with(r, ExtractorErrorKind::InvalidUrl),
            },
    {
        let media_id = match self.site.capture(url, "id") {
            Some(v) => v,
            None => return Err(fail(ExtractorErrorKind::InvalidUrl, "FilmArchiv URL has no media ID")),
        };
        if replies.len() == 0 {
            return Ok(Step::Fetch(get_text(owned(url))));
        }
        let html = reply_text(replies, 0)?;
        let k = match char_boundary(media_id.as_str(), 6) {
            Some(k) => k,
            None => return Err(fail(ExtractorErrorKind::InvalidUrl, "FilmArchiv media ID is too short")),
        };
        let cs = chars_of(media_id.as_str());
        let mut path = string_of_range(&cs, 0, k);
        push_str(&mut path, "/");
        push_str(&mut path, string_of_range(&cs, k, cs.len()).as_str());
        let title = match nonempty_fragment_of(regex_first_group("(?is)<title-div\\b[^>]*>(.*?)</title-div\\s*>", html.as_str(), 1)) {
            Some(t) => Some(JsonValue::Str(t)),
            None => match html_meta_value(html.as_str(), "og:title") { Some(t) => Some(JsonValue::Str(t)), None => None },
        };
        let description = match nonempty_fragment_of(html_element_by_class(html.as_str(), "border-base-content")) {
            Some(d) => Some(JsonValue::Str(d)),
            None => match html_meta_value(html.as_str(), "description") { Some(t) => Some(JsonValue::Str(t)), None => None },
        };
        let stream = concat3("https://cdn.filmarchiv.at/", path.as_str(), "_v1_sv1/playlist.m3u8");
        let mut info = InfoDict::new();
        info.insert("id", JsonValue::Str(media_id));
        info.insert_if_some("title", title);
        info.insert_if_some("description", description);
        info.insert("thumbnail", JsonValue::Str(concat3("https://cdn.filmarchiv.at/", path.as_str(), "_v1/poster.jpg")));
        info.insert("url", jstr(stream.as_str()));
        info.insert("ext", jstr("mp4"));
        let mut f = obj_new();
        obj_add(&mut f, "url", jstr(stream.as_str()));
        obj_add(&mut f, "format_id", jstr("hls"));
        obj_add(&mut f, "protocol", jstr("m3u8_native"));
        obj_add(&mut f, "ext", jstr("mp4"));
        assert(fields_view(f@) =~= seq![
            ("url"@, Json::Str(stream@)),
            ("format_id"@, Json::Str("hls"@)),
            ("protocol"@, Json::Str("m3u8_native"@)),
            ("ext"@, Json::Str("mp4"@)),
        ]);
        let mut a = arr_new();
        arr_add(&mut a, obj_done(f));
        info.insert("formats", arr_done(a));
        Ok(Step::Done(ExtractorResult::single(info)))
    }
}


impl FilmArchivExtractor {
    /// `extract_step` where the medium's ID lets it run: `None` where the URL's ID has no
    /// character boundary after its sixth byte, on which the extraction cannot cut the ID.
    pub fn checked_extract_step(&self, url: &str, replies: &Vec<Reply>) -> (r: Option<Result<Step, ExtractorError>>)
        ensures
            match r {
                None => regex_named_capture(self.matcher().source(), url@, "id"@) matches Some(id)
                    && byte_boundary(id, 6, 0) is None,
                Some(step) => (regex_named_capture(self.matcher().source(), url@, "id"@) matches Some(id)
                    ==> byte_boundary(id, 6, 0) is Some) && match regex_named_capture(self.matcher().source(), url@, "id"@) {
                    Some(id) => if replies@.len() == 0 {
                        fetches(step, url@, Expect::Text)
                    } else {
                        match reply_text_at(replies@, 0) {
                            Some(html) => done_with(step, fa_info(id, html, fa_path(id, byte_boundary(id, 6, 0).unwrap()))),
                            None => fails_with(step, ExtractorErrorKind::Extraction),
                        }
                    },
                    None => fails_with(step, ExtractorErrorKind::InvalidUrl),
                },
            },
    {
        match self.site.capture(url, "id") {
            Some(id) => match char_boundary(id.as_str(), 6) {
                Some(_) => Some(self.extract_step(url, replies)),
                None => None,
            },
            None => Some(self.extract_step(url, replies)),
        }
    }
}

} // verus!
