use vstd::prelude::*;

use crate::sites::generic::{contains_string};
use crate::extract::{jstr, reply_text, reply_text_at};
use crate::framework::{Expect, ExtractorDescriptor, ExtractorError, ExtractorErrorKind, ExtractorResult, Reply, SiteMatcher, Step, descriptor_ok, descriptor_source, done_with, fail, fails_with, fetches, get_text, sources_view, descriptor_error};
use crate::html::{nonempty_fragment, nonempty_fragment_of, unescape_html, unescaped};
use crate::info::{InfoDict};
use crate::json::{Json, JsonValue, arr_add, arr_done, arr_new, fields_view, items_view, obj_add, obj_done, obj_new};
use crate::page::{html_meta_value, meta_value, str_opt_of};
use crate::pattern::{all_groups_view, capture_group, first_group, group_at, groups_view, regex_all_captures, regex_captures_iter, regex_compiles, regex_first_group, regex_matches, regex_named_capture, regex_valid};
use crate::text::{concat2, concat3, contains, ends_with, has_suffix, owned};

verus! {

/// Native UTV Strasbourg progressive-video extractor.
pub struct UnistraExtractor {
    site: SiteMatcher,
}

impl UnistraExtractor {
    /// The descriptor and matcher the extractor was built with.
    pub closed spec fn matcher(&self) -> SiteMatcher {
        self.site
    }

    pub fn new(descriptor: ExtractorDescriptor) -> (r: Result<Self, ExtractorError>)
        ensures
            r is Ok <==> descriptor_ok(descriptor),
            r matches Ok(x) ==> x.matcher().spec_descriptor() == descriptor
                && Some(x.matcher().source()) == descriptor_source(descriptor),
            r matches Err(e) ==> e.kind == ExtractorErrorKind::Extraction && e.message@ == descriptor_error(descriptor),
    {
        match SiteMatcher::from_descriptor(descriptor) {
            Ok(site) => Ok(UnistraExtractor { site }),
            Err(e) => Err(e),
        }
    }

    pub fn descriptor(&self) -> (r: &ExtractorDescriptor)
        ensures
            *r == self.matcher().spec_descriptor(),
    {
        self.site.descriptor()
    }

    pub fn suitable(&self, url: &str) -> (r: bool)
        ensures
            r == regex_matches(self.matcher().source(), url@),
    {
        self.site.suitable(url)
    }

    pub fn is_native(&self) -> (r: bool)
        ensures
            r,
    {
        true
    }

    pub fn native_matcher_count(&self) -> (r: usize)
        ensures
            r == 1,
    {
        1
    }
}


/// The media files a Unistra page names.
pub open spec fn unistra_file_pattern() -> Seq<char> {
    "(?is)\\bfile\\s*:\\s*\"([^\"]+)\""@
}

/// The media file paths among the first `n` matches, each once, in order.
pub open spec fn unistra_files(all: Seq<Seq<Option<Seq<char>>>>, n: int) -> Seq<Seq<char>>
    decreases n,
{
    if n <= 0 {
        Seq::empty()
    } else {
        let prev = unistra_files(all, n - 1);
        match group_at(all[n - 1], 1) {
            Some(p) => if prev.contains(unescaped(p)) { prev } else { prev.push(unescaped(p)) },
            None => prev,
        }
    }
}

/// The format of a Unistra media file: HD when its name ends so.
pub open spec fn unistra_format(path: Seq<char>) -> Json {
    let hd = has_suffix(path, "-HD.mp4"@);
    Json::Object(seq![
        ("url"@, Json::Str("http://vod-flash.u-strasbg.fr:8080"@ + path)),
        ("format_id"@, Json::Str(if hd { "HD"@ } else { "SD"@ })),
        ("quality"@, Json::Int(if hd { 1 } else { 0 })),
        ("ext"@, Json::Str("mp4"@)),
    ])
}

/// The metadata of a Unistra video.
pub open spec fn unistra_info(id: Seq<char>, title: Seq<char>, description: Seq<char>, thumbnail: Seq<char>, files: Seq<Seq<char>>) -> Map<Seq<char>, Json> {
    Map::<Seq<char>, Json>::empty()
        .insert("id"@, Json::Str(id))
        .insert("title"@, Json::Str(title))
        .insert("description"@, Json::Str(description))
        .insert("thumbnail"@, Json::Str(thumbnail))
        .insert("url"@, Json::Str("http://vod-flash.u-strasbg.fr:8080"@ + files[0]))
        .insert("ext"@, Json::Str("mp4"@))
        .insert("formats"@, Json::Array(Seq::new(files.len(), |i: int| unistra_format(files[i]))))
}

/// The non-empty decoded text of an optional value.
pub open spec fn nonempty_unescaped(v: Option<Seq<char>>) -> Option<Seq<char>> {
    match v {
        Some(s) => if unescaped(s).len() > 0 { Some(unescaped(s)) } else { None },
        None => None,
    }
}

/// The non-empty decoded text of an optional string.
pub(crate) fn nonempty_unescaped_of(v: Option<String>) -> (r: Option<String>)
    ensures
        str_opt_of(r) == nonempty_unescaped(str_opt_of(v)),
{
    match v {
        Some(s) => {
            let u = unescape_html(s.as_str());
            if u.unicode_len() > 0 { Some(u) } else { None }
        },
        None => None,
    }
}

impl UnistraExtractor {
    /// One step of a Unistra extraction: the page's player names the media files, SD and
    /// HD, and the page gives the title, description and thumbnail.
    pub fn extract_step(&self, url: &str, replies: &Vec<Reply>) -> (r: Result<Step, ExtractorError>)
        ensures
            match regex_named_capture(self.matcher().source(), url@, "id"@) {
                Some(id) => if replies@.len() == 0 {
                    fetches(r, url@, Expect::Text)
                } else {
                    match reply_text_at(replies@, 0) {
                        Some(html) => if !regex_valid(unistra_file_pattern()) {
                            fails_with(r, ExtractorErrorKind::Extraction)
                        } else {
                            let all = regex_all_captures(unistra_file_pattern(), html);
                            let files = unistra_files(all, all.len() as int);
                            let title = nonempty_fragment(first_group("(?is)<title\\b[^>]*>\\s*UTV\\s*-\\s*(.*?)</title\\b"@, html, 1));
                            let desc = nonempty_unescaped(meta_value(html, "Description"@));
                            let thumb = nonempty_unescaped(first_group("(?is)\\bimage\\s*:\\s*\"([^\"]+)\""@, html, 1));
                            if files.len() > 0 && title is Some && desc is Some && thumb is Some {
                                done_with(r, unistra_info(id, title.unwrap(), desc.unwrap(), thumb.unwrap(), files))
                            } else {
                                fails_with(r, ExtractorErrorKind::Extraction)
                            }
                        },
                        None => fails_with(r, ExtractorErrorKind::Extraction),
                    }
                },
                None => fails_with(r, ExtractorErrorKind::InvalidUrl),
            },
    {
        let video_id = match self.site.capture(url, "id") {
            Some(v) => v,
            None => return Err(fail(ExtractorErrorKind::InvalidUrl, "Unistra URL has no video ID")),
        };
        if replies.len() == 0 {
            return Ok(Step::Fetch(get_text(owned(url))));
        }
        let html = reply_text(replies, 0)?;
        let pattern = "(?is)\\bfile\\s*:\\s*\"([^\"]+)\"";
        if !regex_compiles(pattern) {
            return Err(fail(ExtractorErrorKind::Extraction, "invalid Unistra media matcher"));
        }
        let all = regex_captures_iter(pattern, html.as_str());
        let ghost av = all_groups_view(all@);
        let mut files: Vec<String> = Vec::new();
        let mut i: usize = 0;
        assert(sources_view(files@) =~= Seq::<Seq<char>>::empty());
        while i < all.len()
            invariant
                i <= all@.len(),
                av == all_groups_view(all@),
                sources_view(files@) == unistra_files(av, i as int),
            decreases all@.len() - i,
        {
            assert(av[i as int] == groups_view(all@[i as int]@));
            match capture_group(&all[i], 1) {
                Some(p) => {
                    let u = unescape_html(p.as_str());
                    if !contains_string(&files, u.as_str()) {
                        let ghost before = sources_view(files@);
                        let ghost uv = u@;
                        files.push(u);
                        assert(sources_view(files@) =~= before.push(uv));
                    }
                },
                None => {},
            }
            i = i + 1;
        }
        if files.len() == 0 {
            return Err(ExtractorError::new(ExtractorErrorKind::Extraction, concat3("Unistra video ", video_id.as_str(), " has no media files")));
        }
        let ghost fv = sources_view(files@);
        let mut formats = arr_new();
        let mut j: usize = 0;
        while j < files.len()
            invariant
                j <= files@.len(),
                fv == sources_view(files@),
                items_view(formats@) == Seq::new(j as nat, |k: int| unistra_format(fv[k])),
            decreases files@.len() - j,
        {
            let hd = ends_with(files[j].as_str(), "-HD.mp4");
            let mut f = obj_new();
            obj_add(&mut f, "url", JsonValue::Str(concat2("http://vod-flash.u-strasbg.fr:8080", files[j].as_str())));
            obj_add(&mut f, "format_id", jstr(if hd { "HD" } else { "SD" }));
            obj_add(&mut f, "quality", JsonValue::Int(if hd { 1 } else { 0 }));
            obj_add(&mut f, "ext", jstr("mp4"));
            let fj = obj_done(f);
            assert(fj@ == unistra_format(fv[j as int])) by {
                assert(fields_view(f@) =~= unistra_format(fv[j as int])->Object_0);
            }
            let ghost prev = items_view(formats@);
            arr_add(&mut formats, fj);
            assert(items_view(formats@) =~= Seq::new((j + 1) as nat, |k: int| unistra_format(fv[k])));
            j = j + 1;
        }
        let title = match nonempty_fragment_of(regex_first_group("(?is)<title\\b[^>]*>\\s*UTV\\s*-\\s*(.*?)</title\\b", html.as_str(), 1)) {
            Some(t) => t,
            None => return Err(ExtractorError::new(ExtractorErrorKind::Extraction, concat3("Unistra video ", video_id.as_str(), " has no title"))),
        };
        let description = match nonempty_unescaped_of(html_meta_value(html.as_str(), "Description")) {
            Some(d) => d,
            None => return Err(ExtractorError::new(ExtractorErrorKind::Extraction, concat3("Unistra video ", video_id.as_str(), " has no description"))),
        };
        let thumbnail = match nonempty_unescaped_of(regex_first_group("(?is)\\bimage\\s*:\\s*\"([^\"]+)\"", html.as_str(), 1)) {
            Some(t) => t,
            None => return Err(ExtractorError::new(ExtractorErrorKind::Extraction, concat3("Unistra video ", video_id.as_str(), " has no thumbnail"))),
        };
        let mut info = InfoDict::new();
        info.insert("id", JsonValue::Str(video_id));
        info.insert("title", JsonValue::Str(title));
        info.insert("description", JsonValue::Str(description));
        info.insert("thumbnail", JsonValue::Str(thumbnail));
        info.insert("url", JsonValue::Str(concat2("http://vod-flash.u-strasbg.fr:8080", files[0].as_str())));
        info.insert("ext", jstr("mp4"));
        info.insert("formats", arr_done(formats));
        Ok(Step::Done(ExtractorResult::single(info)))
    }
}

} // verus!
