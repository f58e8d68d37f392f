use vstd::prelude::*;

use crate::extract::{determine_ext, ext_of, first_str, jstr, proto_relative, proto_relative_url, put_opt, reply_text, reply_text_at, resolve_url, resolved};
use crate::framework::{Expect, ExtractorDescriptor, ExtractorError, ExtractorErrorKind, ExtractorResult, Reply, SiteMatcher, Step, descriptor_ok, descriptor_source, done_with, fail, fails_with, fetches, get_text, descriptor_error};
use crate::html::{unescape_html, unescaped};
use crate::info::{InfoDict};
use crate::json::{Json, JsonValue, arr_add, arr_done, arr_new, fields_view, obj_add, obj_done, obj_new};
use crate::page::{html_meta_value, html_title_value, meta_value, str_opt_of, title_value};
use crate::pattern::{first_group, regex_first_group, regex_matches, regex_named_capture};
use crate::text::{concat3, owned, trim, trimmed};

verus! {

/// Native Glide shared-message page extractor.
///
/// Glide embeds a normal HTML5 source and poster on the share page. The
/// source is kept as a direct format.
pub struct GlideExtractor {
    site: SiteMatcher,
}

impl GlideExtractor {
    /// The descriptor and matcher the extractor was built with.
    pub closed spec fn matcher(&self) -> SiteMatcher {
        self.site
    }

    pub fn new(descriptor: ExtractorDescriptor) -> (r: Result<Self, ExtractorError>)
        ensures
            r is Ok <==> descriptor_ok(descriptor),
            r matches Ok(x) ==> x.matcher().spec_descriptor() == descriptor
                && Some(x.matcher().source()) == descriptor_source(descriptor),
            r matches Err(e) ==> e.kind == ExtractorErrorKind::Extraction && e.message@ == descriptor_error(descriptor),
    {
        match SiteMatcher::from_descriptor(descriptor) {
            Ok(site) => Ok(GlideExtractor { site }),
            Err(e) => Err(e),
        }
    }

    pub fn descriptor(&self) -> (r: &ExtractorDescriptor)
        ensures
            *r == self.matcher().spec_descriptor(),
    {
        self.site.descriptor()
    }

    pub fn suitable(&self, url: &str) -> (r: bool)
        ensures
            r == regex_matches(self.matcher().source(), url@),
    {
        self.site.suitable(url)
    }

    pub fn is_native(&self) -> (r: bool)
        ensures
            r,
    {
        true
    }

    pub fn native_matcher_count(&self) -> (r: usize)
        ensures
            r == 1,
    {
        1
    }
}


/// The pattern of the quoted attribute value that follows `prefix`.
pub open spec fn glide_pattern(prefix: Seq<char>) -> Seq<char> {
    "(?is)"@ + prefix + "\\s*=\\s*[\"']([^\"']+)[\"']"@
}

/// `glide_attribute`: the decoded attribute value that follows `prefix`, when not blank.
pub open spec fn glide_attr(html: Seq<char>, prefix: Seq<char>) -> Option<Seq<char>> {
    match first_group(glide_pattern(prefix), html, 1) {
        Some(v) => if trimmed(unescaped(v)).len() > 0 { Some(unescaped(v)) } else { None },
        None => None,
    }
}

/// An address of a Glide page at `url`, made absolute.
pub open spec fn glide_abs(url: Seq<char>, v: Seq<char>) -> Seq<char> {
    resolved(url, proto_relative(v, "https:"@))
}

/// The video address of a Glide page.
pub open spec fn glide_video(html: Seq<char>) -> Option<Seq<char>> {
    match glide_attr(html, "<source\\b[^>]*\\bsrc"@) {
        Some(v) => Some(v),
        None => match meta_value(html, "og:video:secure_url"@) {
            Some(v) => Some(v),
            None => first_str(meta_value(html, "og:video"@), meta_value(html, "twitter:player:stream"@)),
        },
    }
}

/// The metadata of a Glide page.
pub open spec fn glide_info(url: Seq<char>, id: Seq<char>, html: Seq<char>, video: Seq<char>) -> Map<Seq<char>, Json> {
    let ext = ext_of(video, "mp4"@);
    let thumb = match glide_attr(html, "<img\\b[^>]*\\bid\\s*=\\s*[\"']video-thumbnail[\"'][^>]*\\bsrc"@) {
        Some(t) => Some(t),
        None => meta_value(html, "og:image"@),
    };
    put_opt(Map::<Seq<char>, Json>::empty()
        .insert("id"@, Json::Str(id))
        .insert("title"@, Json::Str(match first_str(title_value(html), meta_value(html, "og:title"@)) { Some(t) => t, None => id }))
        .insert("url"@, Json::Str(video))
        .insert("ext"@, Json::Str(ext)),
        "thumbnail"@, match thumb { Some(t) => Some(Json::Str(glide_abs(url, t))), None => None })
        .insert("formats"@, Json::Array(seq![Json::Object(seq![
            ("format_id"@, Json::Str("http"@)),
            ("url"@, Json::Str(video)),
            ("ext"@, Json::Str(ext)),
        ])]))
}

/// `glide_attribute`: the decoded attribute value that follows `prefix`.
fn glide_attribute(html: &str, prefix: &str) -> (r: Option<String>)
    ensures
        str_opt_of(r) == glide_attr(html@, prefix@),
{
    let p = concat3("(?is)", prefix, "\\s*=\\s*[\"']([^\"']+)[\"']");
    match regex_first_group(p.as_str(), html, 1) {
        Some(v) => {
            let u = unescape_html(v.as_str());
            if trim(u.as_str()).unicode_len() > 0 { Some(u) } else { None }
        },
        None => None,
    }
}

impl GlideExtractor {
    /// One step of a Glide extraction: the page's `<source>` or Open Graph video is the
    /// file.
    pub fn extract_step(&self, url: &str, replies: &Vec<Reply>) -> (r: Result<Step, ExtractorError>)
        ensures
            match regex_named_capture(self.matcher().source(), url@, "id"@) {
                Some(id) => if replies@.len() == 0 {
                    fetches(r, url@, Expect::Text)
                } else {
                    match reply_text_at(replies@, 0) {
                        Some(html) => match glide_video(html) {
                            Some(v) => done_with(r, glide_info(url@, id, html, glide_abs(url@, v))),
                            None => fails_with(r, ExtractorErrorKind::Extraction),
                        },
                        None => fails_with(r, ExtractorErrorKind::Extraction),
                    }
                },
                None => fails_with(r, ExtractorErrorKind::InvalidUrl),
            },
    {
        let video_id = match self.site.capture(url, "id") {
            Some(v) => v,
            None => return Err(fail(ExtractorErrorKind::InvalidUrl, "Glide URL has no ID")),
        };
        if replies.len() == 0 {
            return Ok(Step::Fetch(get_text(owned(url))));
        }
        let html = reply_text(replies, 0)?;
        let raw = match glide_attribute(html.as_str(), "<source\\b[^>]*\\bsrc") {
            Some(v) => Some(v),
            None => match html_meta_value(html.as_str(), "og:video:secure_url") {
                Some(v) => Some(v),
                None => match html_meta_value(html.as_str(), "og:video") {
                    Some(v) => Some(v),
                    None => html_meta_value(html.as_str(), "twitter:player:stream"),
                },
            },
        };
        let video = match raw {
            Some(v) => resolve_url(url, proto_relative_url(v.as_str(), "https:").as_str()),
            None => return Err(ExtractorError::new(ExtractorErrorKind::Extraction, concat3("Glide page ", video_id.as_str(), " has no video source"))),
        };
        let thumb = match glide_attribute(html.as_str(), "<img\\b[^>]*\\bid\\s*=\\s*[\"']video-thumbnail[\"'][^>]*\\bsrc") {
            Some(t) => Some(t),
            None => html_meta_value(html.as_str(), "og:image"),
        };
        let title = match html_title_value(html.as_str()) {
            Some(t) => t,
            None => match html_meta_value(html.as_str(), "og:title") { Some(t) => t, None => video_id.clone() },
        };
        let ext = determine_ext(video.as_str(), "mp4");
        let mut info = InfoDict::new();
        info.insert("id", JsonValue::Str(video_id));
        info.insert("title", JsonValue::Str(title));
        info.insert("url", jstr(video.as_str()));
        info.insert("ext", jstr(ext.as_str()));
        info.insert_if_some("thumbnail", match thumb {
            Some(t) => Some(JsonValue::Str(resolve_url(url, proto_relative_url(t.as_str(), "https:").as_str()))),
            None => None,
        });
        let mut f = obj_new();
        obj_add(&mut f, "format_id", jstr("http"));
        obj_add(&mut f, "url", jstr(video.as_str()));
        obj_add(&mut f, "ext", jstr(ext.as_str()));
        assert(fields_view(f@) =~= seq![
            ("format_id"@, Json::Str("http"@)),
            ("url"@, Json::Str(video@)),
            ("ext"@, Json::Str(ext@)),
        ]);
        let mut a = arr_new();
        arr_add(&mut a, obj_done(f));
        info.insert("formats", arr_done(a));
        Ok(Step::Done(ExtractorResult::single(info)))
    }
}

} // verus!
