use vstd::prelude::*;

use crate::extract::{determine_ext, ext_of, jstr, reply_json, reply_json_at, reply_text, reply_text_at, str_in};
use crate::framework::{Expect, ExtractorDescriptor, ExtractorError, ExtractorErrorKind, ExtractorResult, Reply, SiteMatcher, Step, descriptor_ok, descriptor_source, done_with, fail, fails_with, fetches, get_json, get_text, descriptor_error};
use crate::html::{html_text_fragment, text_fragment};
use crate::info::{InfoDict};
use crate::json::{Json, JsonValue, arr_add, arr_done, arr_new, fields_view, json_get, json_lookup, json_string, obj_add, obj_done, obj_new};
use crate::page::{html_title_value, title_value};
use crate::pattern::{first_group, regex_first_group, regex_matches, regex_named_capture};
use crate::text::{concat3, owned, trim, trimmed};

verus! {

/// Native Ku6 page/API extractor. Ku6 publishes the page title in the HTML
/// document and the playable F4V URL in a small JSON endpoint; both are
/// fetched in turn.
pub struct Ku6Extractor {
    site: SiteMatcher,
}

impl Ku6Extractor {
    /// The descriptor and matcher the extractor was built with.
    pub closed spec fn matcher(&self) -> SiteMatcher {
        self.site
    }

    pub fn new(descriptor: ExtractorDescriptor) -> (r: Result<Self, ExtractorError>)
        ensures
            r is Ok <==> descriptor_ok(descriptor),
            r matches Ok(x) ==> x.matcher().spec_descriptor() == descriptor
                && Some(x.matcher().source()) == descriptor_source(descriptor),
            r matches Err(e) ==> e.kind == ExtractorErrorKind::Extraction && e.message@ == descriptor_error(descriptor),
    {
        match SiteMatcher::from_descriptor(descriptor) {
            Ok(site) => Ok(Ku6Extractor { site }),
            Err(e) => Err(e),
        }
    }

    pub fn descriptor(&self) -> (r: &ExtractorDescriptor)
        ensures
            *r == self.matcher().spec_descriptor(),
    {
        self.site.descriptor()
    }

    pub fn suitable(&self, url: &str) -> (r: bool)
        ensures
            r == regex_matches(self.matcher().source(), url@),
    {
        self.site.suitable(url)
    }

    pub fn is_native(&self) -> (r: bool)
        ensures
            r,
    {
        true
    }

    pub fn native_matcher_count(&self) -> (r: usize)
        ensures
            r == 1,
    {
        1
    }
}


/// Where a Ku6 page gives its title.
pub open spec fn ku6_title_pattern() -> Seq<char> {
    "(?is)<h1\\b[^>]*\\btitle\\s*=\\s*[\"'][^\"']*[\"'][^>]*>(.*?)</h1>"@
}

/// The title of a Ku6 page.
pub open spec fn ku6_title(id: Seq<char>, html: Seq<char>) -> Seq<char> {
    match first_group(ku6_title_pattern(), html, 1) {
        Some(g) => if trimmed(text_fragment(g)).len() > 0 {
            trimmed(text_fragment(g))
        } else {
            match title_value(html) { Some(t) => t, None => id }
        },
        None => match title_value(html) { Some(t) => t, None => id },
    }
}

/// The metadata of a Ku6 video.
pub open spec fn ku6_info(id: Seq<char>, title: Seq<char>, media: Seq<char>) -> Map<Seq<char>, Json> {
    let ext = ext_of(media, "f4v"@);
    Map::<Seq<char>, Json>::empty()
        .insert("id"@, Json::Str(id))
        .insert("title"@, Json::Str(title))
        .insert("url"@, Json::Str(media))
        .insert("ext"@, Json::Str(ext))
        .insert("formats"@, Json::Array(seq![Json::Object(seq![
            ("url"@, Json::Str(media)),
            ("format_id"@, Json::Str("source"@)),
            ("ext"@, Json::Str(ext)),
        ])]))
}

impl Ku6Extractor {
    /// One step of a Ku6 extraction: the page gives the title, then the player record
    /// gives the media address.
    pub fn extract_step(&self, url: &str, replies: &Vec<Reply>) -> (r: Result<Step, ExtractorError>)
        ensures
            match regex_named_capture(self.matcher().source(), url@, "id"@) {
                Some(id) => if replies@.len() == 0 {
                    fetches(r, url@, Expect::Text)
                } else {
                    match reply_text_at(replies@, 0) {
                        Some(html) => if replies@.len() == 1 {
                            fetches(r, "http://v.ku6.com/fetchVideo4Player/"@ + id + ".html"@, Expect::Json)
                        } else {
                            match reply_json_at(replies@, 1) {
                                Some(resp) => match str_in(json_lookup(resp@, "data"@), "f"@) {
                                    Some(m) => if m.len() > 0 {
                                        done_with(r, ku6_info(id, ku6_title(id, html), m))
                                    } else {
                                        fails_with(r, ExtractorErrorKind::Extraction)
                                    },
                                    None => fails_with(r, ExtractorErrorKind::Extraction),
                                },
                                None => fails_with(r, ExtractorErrorKind::Extraction),
                            }
                        },
                        None => fails_with(r, ExtractorErrorKind::Extraction),
                    }
                },
                None => fails_with(r, ExtractorErrorKind::InvalidUrl),
            },
    {
        let video_id = match self.site.capture(url, "id") {
            Some(v) => v,
            None => return Err(fail(ExtractorErrorKind::InvalidUrl, "Ku6 URL has no ID")),
        };
        if replies.len() == 0 {
            return Ok(Step::Fetch(get_text(owned(url))));
        }
        let html = reply_text(replies, 0)?;
        let heading = match regex_first_group("(?is)<h1\\b[^>]*\\btitle\\s*=\\s*[\"'][^\"']*[\"'][^>]*>(.*?)</h1>", html.as_str(), 1) {
            Some(g) => {
                let t = trim(html_text_fragment(g.as_str()).as_str());
                if t.unicode_len() > 0 { Some(t) } else { None }
            },
            None => None,
        };
        let title = match heading {
            Some(t) => t,
            None => match html_title_value(html.as_str()) { Some(t) => t, None => video_id.clone() },
        };
        if replies.len() == 1 {
            return Ok(Step::Fetch(get_json(concat3("http://v.ku6.com/fetchVideo4Player/", video_id.as_str(), ".html"))));
        }
        let resp = reply_json(replies, 1)?;
        let media = match json_get(resp, "data") {
            Some(d) => match json_string(d, "f") {
                Some(m) => if m.unicode_len() > 0 { m } else {
                    return Err(ExtractorError::new(ExtractorErrorKind::Extraction, concat3("Ku6 video ", video_id.as_str(), " has no playable URL")));
                },
                None => return Err(ExtractorError::new(ExtractorErrorKind::Extraction, concat3("Ku6 video ", video_id.as_str(), " has no playable URL"))),
            },
            None => return Err(ExtractorError::new(ExtractorErrorKind::Extraction, concat3("Ku6 video ", video_id.as_str(), " has no playable URL"))),
        };
        let ext = determine_ext(media, "f4v");
        let mut info = InfoDict::new();
        info.insert("id", JsonValue::Str(video_id));
        info.insert("title", JsonValue::Str(title));
        info.insert("url", jstr(media));
        info.insert("ext", jstr(ext.as_str()));
        let mut f = obj_new();
        obj_add(&mut f, "url", jstr(media));
        obj_add(&mut f, "format_id", jstr("source"));
        obj_add(&mut f, "ext", jstr(ext.as_str()));
        assert(fields_view(f@) =~= seq![
            ("url"@, Json::Str(media@)),
            ("format_id"@, Json::Str("source"@)),
            ("ext"@, Json::Str(ext@)),
        ]);
        let mut a = arr_new();
        arr_add(&mut a, obj_done(f));
        info.insert("formats", arr_done(a));
        Ok(Step::Done(ExtractorResult::single(info)))
    }
}

} // verus!
