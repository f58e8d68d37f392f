use vstd::prelude::*;

use crate::extract::{reply_text, reply_text_at, resolve_url, resolved};
use crate::framework::{Expect, ExtractorDescriptor, ExtractorError, ExtractorErrorKind, ExtractorResult, Reply, SiteMatcher, Step, descriptor_ok, descriptor_source, fail, fails_with, fetches, get_text, redirects, descriptor_error};
use crate::html::{unescape_html, unescaped};
use crate::pattern::{first_group, regex_first_group, regex_matches, regex_named_capture};
use crate::text::{concat3, owned, trim, trimmed};

verus! {

/// Native MyVidster page extractor.
///
/// MyVidster keeps the playable resource in a `videolink` anchor, which is
/// handed on as a redirect to whichever extractor handles it.
pub struct MyVidsterExtractor {
    site: SiteMatcher,
}

impl MyVidsterExtractor {
    /// The descriptor and matcher the extractor was built with.
    pub closed spec fn matcher(&self) -> SiteMatcher {
        self.site
    }

    pub fn new(descriptor: ExtractorDescriptor) -> (r: Result<Self, ExtractorError>)
        ensures
            r is Ok <==> descriptor_ok(descriptor),
            r matches Ok(x) ==> x.matcher().spec_descriptor() == descriptor
                && Some(x.matcher().source()) == descriptor_source(descriptor),
            r matches Err(e) ==> e.kind == ExtractorErrorKind::Extraction && e.message@ == descriptor_error(descriptor),
    {
        match SiteMatcher::from_descriptor(descriptor) {
            Ok(site) => Ok(MyVidsterExtractor { site }),
            Err(e) => Err(e),
        }
    }

    pub fn descriptor(&self) -> (r: &ExtractorDescriptor)
        ensures
            *r == self.matcher().spec_descriptor(),
    {
        self.site.descriptor()
    }

    pub fn suitable(&self, url: &str) -> (r: bool)
        ensures
            r == regex_matches(self.matcher().source(), url@),
    {
        self.site.suitable(url)
    }

    pub fn is_native(&self) -> (r: bool)
        ensures
            r,
    {
        true
    }

    pub fn native_matcher_count(&self) -> (r: usize)
        ensures
            r == 1,
    {
        1
    }
}


/// The target that a MyVidster page's video link names, resolved against `url`.
pub open spec fn myvidster_target(url: Seq<char>, html: Seq<char>) -> Option<Seq<char>> {
    match first_group("(?is)\\brel\\s*=\\s*[\"']videolink[\"'][^>]*\\bhref\\s*=\\s*[\"']([^\"']+)"@, html, 1) {
        Some(v) => if trimmed(unescaped(v)).len() > 0 { Some(resolved(url, trimmed(unescaped(v)))) } else { None },
        None => None,
    }
}

impl MyVidsterExtractor {
    /// One step of a MyVidster extraction: the page's video link is handed on.
    pub fn extract_step(&self, url: &str, replies: &Vec<Reply>) -> (r: Result<Step, ExtractorError>)
        ensures
            match regex_named_capture(self.matcher().source(), url@, "id"@) {
                Some(_) => if replies@.len() == 0 {
                    fetches(r, url@, Expect::Text)
                } else {
                    match reply_text_at(replies@, 0) {
                        Some(html) => match myvidster_target(url@, html) {
                            Some(t) => redirects(r, t, None),
                            None => fails_with(r, ExtractorErrorKind::Extraction),
                        },
                        None => fails_with(r, ExtractorErrorKind::Extraction),
                    }
                },
                None => fails_with(r, ExtractorErrorKind::InvalidUrl),
            },
    {
        let video_id = match self.site.capture(url, "id") {
            Some(v) => v,
            None => return Err(fail(ExtractorErrorKind::InvalidUrl, "MyVidster URL has no ID")),
        };
        if replies.len() == 0 {
            return Ok(Step::Fetch(get_text(owned(url))));
        }
        let html = reply_text(replies, 0)?;
        let target = match regex_first_group("(?is)\\brel\\s*=\\s*[\"']videolink[\"'][^>]*\\bhref\\s*=\\s*[\"']([^\"']+)", html.as_str(), 1) {
            Some(v) => {
                let t = trim(unescape_html(v.as_str()).as_str());
                if t.unicode_len() > 0 { Some(resolve_url(url, t.as_str())) } else { None }
            },
            None => None,
        };
        match target {
            Some(t) => Ok(Step::Done(ExtractorResult::Redirect { url: t, ie_key: None })),
            None => Err(ExtractorError::new(ExtractorErrorKind::Extraction, concat3("MyVidster page ", video_id.as_str(), " has no videolink target"))),
        }
    }
}

} // verus!
