use vstd::prelude::*;

use crate::sites::generic::{GenericOutcome, generic_outcome, generic_step};
use crate::extract::{format_str, format_string, opt_str, put_opt, reply_text, reply_text_at};
use crate::framework::{Expect, ExtractorDescriptor, ExtractorError, ExtractorErrorKind, ExtractorResult, Reply, SiteMatcher, Step, SubStep, descriptor_ok, descriptor_source, done_with, fail, fails_with, fetches, get_text, descriptor_error};
use crate::html::{html_text_fragment, text_fragment};
use crate::info::{InfoDict};
use crate::json::{Json, JsonValue, arr_done};
use crate::page::{html5_formats, html5_media_formats, html_meta_value, meta_value, str_opt_of};
use crate::pattern::{first_group, regex_first_group, regex_matches, regex_named_capture};
use crate::text::{concat3, owned, trim, trimmed};

verus! {

/// Native WorldStarHipHop HTML5 media extractor.
pub struct WorldStarHipHopExtractor {
    site: SiteMatcher,
}

impl WorldStarHipHopExtractor {
    /// The descriptor and matcher the extractor was built with.
    pub closed spec fn matcher(&self) -> SiteMatcher {
        self.site
    }

    pub fn new(descriptor: ExtractorDescriptor) -> (r: Result<Self, ExtractorError>)
        ensures
            r is Ok <==> descriptor_ok(descriptor),
            r matches Ok(x) ==> x.matcher().spec_descriptor() == descriptor
                && Some(x.matcher().source()) == descriptor_source(descriptor),
            r matches Err(e) ==> e.kind == ExtractorErrorKind::Extraction && e.message@ == descriptor_error(descriptor),
    {
        match SiteMatcher::from_descriptor(descriptor) {
            Ok(site) => Ok(WorldStarHipHopExtractor { site }),
            Err(e) => Err(e),
        }
    }

    pub fn descriptor(&self) -> (r: &ExtractorDescriptor)
        ensures
            *r == self.matcher().spec_descriptor(),
    {
        self.site.descriptor()
    }

    pub fn suitable(&self, url: &str) -> (r: bool)
        ensures
            r == regex_matches(self.matcher().source(), url@),
    {
        self.site.suitable(url)
    }

    pub fn is_native(&self) -> (r: bool)
        ensures
            r,
    {
        true
    }

    pub fn native_matcher_count(&self) -> (r: usize)
        ensures
            r == 1,
    {
        1
    }
}


/// The text of an HTML fragment, when it is not blank.
pub open spec fn nonblank_fragment(g: Option<Seq<char>>) -> Option<Seq<char>> {
    match g {
        Some(v) => if trimmed(text_fragment(v)).len() > 0 { Some(text_fragment(v)) } else { None },
        None => None,
    }
}

/// Where a WorldStar page gives its heading.
pub open spec fn ws_heading_pattern() -> Seq<char> {
    "(?is)<div\\b[^>]*class\\s*=\\s*[\"'][^\"']*content-heading[^\"']*[\"'][^>]*>\\s*<h1\\b[^>]*>(.*?)</h1>"@
}

/// Where a WorldStar page gives its pinned title.
pub open spec fn ws_pinned_pattern() -> Seq<char> {
    "(?is)<span\\b[^>]*class\\s*=\\s*[\"'][^\"']*tc-sp-pinned-title[^\"']*[\"'][^>]*>(.*?)</span>"@
}

/// The title of a WorldStar page.
pub open spec fn ws_title(html: Seq<char>) -> Option<Seq<char>> {
    match nonblank_fragment(first_group(ws_heading_pattern(), html, 1)) {
        Some(t) => Some(t),
        None => match nonblank_fragment(first_group(ws_pinned_pattern(), html, 1)) {
            Some(t) => Some(t),
            None => meta_value(html, "og:title"@),
        },
    }
}


/// The metadata of a WorldStar page with HTML5 formats `fs`.
pub open spec fn ws_info(id: Seq<char>, title: Seq<char>, html: Seq<char>, fs: Seq<Json>) -> Map<Seq<char>, Json> {
    put_opt(put_opt(put_opt(Map::<Seq<char>, Json>::empty()
        .insert("id"@, Json::Str(id))
        .insert("title"@, Json::Str(title)),
        "thumbnail"@, opt_str(meta_value(html, "og:image"@))),
        "url"@, format_str(fs[0], "url"@)),
        "ext"@, format_str(fs[0], "ext"@))
        .insert("formats"@, Json::Array(fs))
}

/// The text of group 1 of `pattern` in `html`, when it is not blank.
pub(crate) fn nonblank_group(pattern: &str, html: &str) -> (r: Option<String>)
    ensures
        str_opt_of(r) == nonblank_fragment(first_group(pattern@, html@, 1)),
{
    match regex_first_group(pattern, html, 1) {
        Some(v) => {
            let t = html_text_fragment(v.as_str());
            if trim(t.as_str()).unicode_len() > 0 { Some(t) } else { None }
        },
        None => None,
    }
}


impl WorldStarHipHopExtractor {
    /// One step of a WorldStar extraction: the page is fetched; its HTML5 media are the
    /// formats, and without any the video is extracted generically under the page's ID
    /// and title.
    pub fn extract_step(&self, url: &str, replies: &Vec<Reply>) -> (r: Result<Step, ExtractorError>)
        ensures
            match regex_named_capture(self.matcher().source(), url@, "id"@) {
                Some(id) => if replies@.len() == 0 {
                    fetches(r, url@, Expect::Text)
                } else {
                    match reply_text_at(replies@, 0) {
                        Some(html) => match ws_title(html) {
                            Some(title) => if html5_formats(url@, html).len() > 0 {
                                done_with(r, ws_info(id, title, html, html5_formats(url@, html)))
                            } else {
                                match generic_outcome(url@, replies@, 1) {
                                    GenericOutcome::NeedPage(u) => fetches(r, u, Expect::Text),
                                    GenericOutcome::Failed(k) => fails_with(r, k),
                                    GenericOutcome::Got(m, _) => done_with(r, m.insert("id"@, Json::Str(id)).insert("title"@, Json::Str(title))),
                                }
                            },
                            None => fails_with(r, ExtractorErrorKind::Extraction),
                        },
                        None => fails_with(r, ExtractorErrorKind::Extraction),
                    }
                },
                None => fails_with(r, ExtractorErrorKind::InvalidUrl),
            },
    {
        let video_id = match self.site.capture(url, "id") {
            Some(v) => v,
            None => return Err(fail(ExtractorErrorKind::InvalidUrl, "WorldStar URL has no ID")),
        };
        if replies.len() == 0 {
            return Ok(Step::Fetch(get_text(owned(url))));
        }
        let html = reply_text(replies, 0)?;
        let title = match nonblank_group("(?is)<div\\b[^>]*class\\s*=\\s*[\"'][^\"']*content-heading[^\"']*[\"'][^>]*>\\s*<h1\\b[^>]*>(.*?)</h1>", html.as_str()) {
            Some(t) => t,
            None => match nonblank_group("(?is)<span\\b[^>]*class\\s*=\\s*[\"'][^\"']*tc-sp-pinned-title[^\"']*[\"'][^>]*>(.*?)</span>", html.as_str()) {
                Some(t) => t,
                None => match html_meta_value(html.as_str(), "og:title") {
                    Some(t) => t,
                    None => return Err(ExtractorError::new(ExtractorErrorKind::Extraction, concat3("WorldStar video ", video_id.as_str(), " has no title"))),
                },
            },
        };
        let formats = html5_media_formats(url, html.as_str());
        if formats.len() == 0 {
            return match generic_step(url, replies, 1) {
                Ok((SubStep::Need(f), _)) => Ok(Step::Fetch(f)),
                Ok((SubStep::Got(mut info), _)) => {
                    info.insert("id", JsonValue::Str(video_id));
                    info.insert("title", JsonValue::Str(title));
                    Ok(Step::Done(ExtractorResult::single(info)))
                },
                Err(e) => Err(e),
            };
        }
        let url0 = format_string(&formats[0], "url");
        let ext0 = format_string(&formats[0], "ext");
        let mut info = InfoDict::new();
        info.insert("id", JsonValue::Str(video_id));
        info.insert("title", JsonValue::Str(title));
        info.insert_if_some("thumbnail", match html_meta_value(html.as_str(), "og:image") { Some(t) => Some(JsonValue::Str(t)), None => None });
        info.insert_if_some("url", url0);
        info.insert_if_some("ext", ext0);
        info.insert("formats", arr_done(formats));
        Ok(Step::Done(ExtractorResult::single(info)))
    }
}

} // verus!
