use vstd::prelude::*;

use crate::sites::generic::{contains_string};
use crate::sites::peertube_playlist::{PlaylistRun};
use crate::extract::{determine_ext, ext_of, jstr, opt_str, put_opt, reply_text, reply_text_at, resolved};
use crate::framework::{Expect, ExtractorDescriptor, ExtractorError, ExtractorErrorKind, ExtractorResult, Reply, SiteMatcher, Step, all_wf, descriptor_ok, descriptor_source, dicts_view, done_playlist, done_with, fail, fails_with, fetches, get_text, sources_view, descriptor_error};
use crate::html::{html_text_fragment, text_fragment, unescape_html, unescaped};
use crate::info::{InfoDict};
use crate::json::{Json, JsonValue, arr_add, arr_done, arr_new, fields_view, obj_add, obj_done, obj_new};
use crate::page::{str_opt_of};
use crate::pattern::{all_groups_view, capture_group, first_group, group_at, groups_view, regex_all_captures, regex_capture_name, regex_captures_iter, regex_compiles, regex_first_group, regex_matches, regex_named_capture, regex_valid};
use crate::text::{concat3, contains, has_infix, owned};
use crate::weburl::{joined_url, url_is_valid, url_join, url_parses};

verus! {

/// Native Soundgasm single-audio extractor. Audio URLs and metadata are
/// embedded in the page's jPlayer markup and require no JavaScript execution.
pub struct SoundgasmExtractor {
    site: SiteMatcher,
}

impl SoundgasmExtractor {
    /// The descriptor and matcher the extractor was built with.
    pub closed spec fn matcher(&self) -> SiteMatcher {
        self.site
    }

    pub fn new(descriptor: ExtractorDescriptor) -> (r: Result<Self, ExtractorError>)
        ensures
            r is Ok <==> descriptor_ok(descriptor),
            r matches Ok(x) ==> x.matcher().spec_descriptor() == descriptor
                && Some(x.matcher().source()) == descriptor_source(descriptor),
            r matches Err(e) ==> e.kind == ExtractorErrorKind::Extraction && e.message@ == descriptor_error(descriptor),
    {
        match SiteMatcher::from_descriptor(descriptor) {
            Ok(site) => Ok(SoundgasmExtractor { site }),
            Err(e) => Err(e),
        }
    }

    pub fn descriptor(&self) -> (r: &ExtractorDescriptor)
        ensures
            *r == self.matcher().spec_descriptor(),
    {
        self.site.descriptor()
    }

    pub fn suitable(&self, url: &str) -> (r: bool)
        ensures
            r == regex_matches(self.matcher().source(), url@),
    {
        self.site.suitable(url)
    }

    pub fn is_native(&self) -> (r: bool)
        ensures
            r,
    {
        true
    }

    pub fn native_matcher_count(&self) -> (r: usize)
        ensures
            r == 1,
    {
        1
    }
}

/// Native Soundgasm profile playlist extractor. Profile pages expose links
/// to audio pages, each of which is expanded into a full entry.
pub struct SoundgasmProfileExtractor {
    site: SiteMatcher,
}

impl SoundgasmProfileExtractor {
    /// The descriptor and matcher the extractor was built with.
    pub closed spec fn matcher(&self) -> SiteMatcher {
        self.site
    }

    pub fn new(descriptor: ExtractorDescriptor) -> (r: Result<Self, ExtractorError>)
        ensures
            r is Ok <==> descriptor_ok(descriptor),
            r matches Ok(x) ==> x.matcher().spec_descriptor() == descriptor
                && Some(x.matcher().source()) == descriptor_source(descriptor),
            r matches Err(e) ==> e.kind == ExtractorErrorKind::Extraction && e.message@ == descriptor_error(descriptor),
    {
        match SiteMatcher::from_descriptor(descriptor) {
            Ok(site) => Ok(SoundgasmProfileExtractor { site }),
            Err(e) => Err(e),
        }
    }

    pub fn descriptor(&self) -> (r: &ExtractorDescriptor)
        ensures
            *r == self.matcher().spec_descriptor(),
    {
        self.site.descriptor()
    }

    pub fn suitable(&self, url: &str) -> (r: bool)
        ensures
            r == regex_matches(self.matcher().source(), url@),
    {
        self.site.suitable(url)
    }

    pub fn is_native(&self) -> (r: bool)
        ensures
            r,
    {
        true
    }

    pub fn native_matcher_count(&self) -> (r: usize)
        ensures
            r == 1,
    {
        1
    }
}


/// Where a Soundgasm page gives its audio address.
pub open spec fn sg_audio_pattern() -> Seq<char> {
    "\\bm4a\\s*:\\s*[\"']([^\"']+)[\"']"@
}

/// Where a Soundgasm page gives its title.
pub open spec fn sg_title_pattern() -> Seq<char> {
    "(?is)<div[^>]*\\bclass\\s*=\\s*[\"'][^\"']*\\bjp-title\\b[^\"']*[\"'][^>]*>(.*?)</div>"@
}

/// Where a Soundgasm page gives its description.
pub open spec fn sg_description_pattern() -> Seq<char> {
    "(?is)<div[^>]*\\bclass\\s*=\\s*[\"'][^\"']*\\bjp-description\\b[^\"']*[\"'][^>]*>(.*?)</div>"@
}

/// Where an older Soundgasm page gives its description.
pub open spec fn sg_description_item_pattern() -> Seq<char> {
    "(?is)<li>\\s*Description:\\s*(.*?)</li>"@
}

/// The file name of an audio address.
pub open spec fn sg_file_pattern() -> Seq<char> {
    "/([^/]+)\\.m4a(?:[?#]|$)"@
}

/// The text of group 1 of `pattern` in `html`, when it is not empty.
pub open spec fn sg_text(pattern: Seq<char>, html: Seq<char>) -> Option<Seq<char>> {
    match first_group(pattern, html, 1) {
        Some(t) => if text_fragment(t).len() > 0 { Some(text_fragment(t)) } else { None },
        None => None,
    }
}

/// The metadata of the Soundgasm audio page `url` of `user`, named `display_id`, whose
/// markup is `html`; none without an audio address.
pub open spec fn soundgasm_info(url: Seq<char>, user: Seq<char>, display_id: Seq<char>, html: Seq<char>) -> Option<Map<Seq<char>, Json>> {
    match first_group(sg_audio_pattern(), html, 1) {
        Some(raw) => {
            let audio = unescaped(raw);
            let ext = ext_of(audio, "m4a"@);
            let title = match sg_text(sg_title_pattern(), html) { Some(t) => t, None => display_id };
            let description = match sg_text(sg_description_pattern(), html) {
                Some(d) => Some(d),
                None => sg_text(sg_description_item_pattern(), html),
            };
            let id = match first_group(sg_file_pattern(), audio, 1) { Some(x) => x, None => display_id };
            Some(put_opt(Map::<Seq<char>, Json>::empty()
                .insert("id"@, Json::Str(id))
                .insert("display_id"@, Json::Str(display_id))
                .insert("url"@, Json::Str(audio))
                .insert("ext"@, Json::Str(ext))
                .insert("vcodec"@, Json::Str("none"@))
                .insert("formats"@, Json::Array(seq![Json::Object(seq![
                    ("url"@, Json::Str(audio)),
                    ("format_id"@, Json::Str("audio"@)),
                    ("ext"@, Json::Str(ext)),
                    ("vcodec"@, Json::Str("none"@)),
                ])]))
                .insert("title"@, Json::Str(title)),
                "description"@, opt_str(description))
                .insert("uploader"@, Json::Str(user))
                .insert("webpage_url"@, Json::Str(url)))
        },
        None => None,
    }
}

/// Group 1 of `pattern` in `html`, as text, when it is not empty.
fn sg_text_of(pattern: &str, html: &str) -> (r: Option<String>)
    ensures
        str_opt_of(r) == sg_text(pattern@, html@),
{
    match regex_first_group(pattern, html, 1) {
        Some(t) => {
            let f = html_text_fragment(t.as_str());
            if f.unicode_len() > 0 { Some(f) } else { None }
        },
        None => None,
    }
}

/// `SoundgasmExtractor`'s reading of an audio page.
pub fn soundgasm_page(url: &str, user: &str, display_id: &str, html: &str) -> (r: Option<InfoDict>)
    ensures
        match r {
            Some(info) => info.wf() && soundgasm_info(url@, user@, display_id@, html@) == Some(info@),
            None => soundgasm_info(url@, user@, display_id@, html@) is None,
        },
{
    let raw = match regex_first_group("\\bm4a\\s*:\\s*[\"']([^\"']+)[\"']", html, 1) {
        Some(r) => r,
        None => return None,
    };
    let audio = unescape_html(raw.as_str());
    let ext = determine_ext(audio.as_str(), "m4a");
    let title = match sg_text_of("(?is)<div[^>]*\\bclass\\s*=\\s*[\"'][^\"']*\\bjp-title\\b[^\"']*[\"'][^>]*>(.*?)</div>", html) {
        Some(t) => t,
        None => owned(display_id),
    };
    let description = match sg_text_of("(?is)<div[^>]*\\bclass\\s*=\\s*[\"'][^\"']*\\bjp-description\\b[^\"']*[\"'][^>]*>(.*?)</div>", html) {
        Some(d) => Some(d),
        None => sg_text_of("(?is)<li>\\s*Description:\\s*(.*?)</li>", html),
    };
    let id = match regex_first_group("/([^/]+)\\.m4a(?:[?#]|$)", audio.as_str(), 1) {
        Some(x) => x,
        None => owned(display_id),
    };
    let mut info = InfoDict::new();
    info.insert("id", JsonValue::Str(id));
    info.insert("display_id", jstr(display_id));
    info.insert("url", jstr(audio.as_str()));
    info.insert("ext", jstr(ext.as_str()));
    info.insert("vcodec", jstr("none"));
    let mut f = obj_new();
    obj_add(&mut f, "url", jstr(audio.as_str()));
    obj_add(&mut f, "format_id", jstr("audio"));
    obj_add(&mut f, "ext", jstr(ext.as_str()));
    obj_add(&mut f, "vcodec", jstr("none"));
    let fj = obj_done(f);
    assert(fj@ == Json::Object(seq![
        ("url"@, Json::Str(audio@)),
        ("format_id"@, Json::Str("audio"@)),
        ("ext"@, Json::Str(ext@)),
        ("vcodec"@, Json::Str("none"@)),
    ])) by {
        assert(fields_view(f@) =~= seq![
            ("url"@, Json::Str(audio@)),
            ("format_id"@, Json::Str("audio"@)),
            ("ext"@, Json::Str(ext@)),
            ("vcodec"@, Json::Str("none"@)),
        ]);
    }
    let mut a = arr_new();
    arr_add(&mut a, fj);
    info.insert("formats", arr_done(a));
    info.insert("title", JsonValue::Str(title));
    info.insert_if_some("description", match description { Some(d) => Some(JsonValue::Str(d)), None => None });
    info.insert("uploader", jstr(user));
    info.insert("webpage_url", jstr(url));
    Some(info)
}

/// What the Soundgasm audio extraction of `url`, matched against `source`, gives for the
/// answers from `pos` on: `Need` a page, a failure, or the metadata.
pub open spec fn soundgasm_outcome(source: Seq<char>, url: Seq<char>, replies: Seq<Reply>, pos: int) -> SgOutcome {
    match regex_named_capture(source, url, "user"@) {
        None => SgOutcome::Failed(ExtractorErrorKind::InvalidUrl),
        Some(user) => match regex_named_capture(source, url, "display_id"@) {
            None => SgOutcome::Failed(ExtractorErrorKind::InvalidUrl),
            Some(display_id) => if pos >= replies.len() {
                SgOutcome::NeedPage
            } else {
                match reply_text_at(replies, pos) {
                    Some(html) => match soundgasm_info(url, user, display_id, html) {
                        Some(m) => SgOutcome::Got(m),
                        None => SgOutcome::Failed(ExtractorErrorKind::Extraction),
                    },
                    None => SgOutcome::Failed(ExtractorErrorKind::Extraction),
                }
            },
        },
    }
}

/// The outcome of a Soundgasm audio extraction.
pub enum SgOutcome {
    NeedPage,
    Failed(ExtractorErrorKind),
    Got(Map<Seq<char>, Json>),
}

/// The exec side of a Soundgasm audio extraction, with the answer at `pos`.
pub enum SgStep {
    NeedPage,
    Got(InfoDict),
}

/// A Soundgasm audio extraction of `url` matched against `source`, reading the answer at
/// `pos`.
pub fn soundgasm_step(source: &str, url: &str, replies: &Vec<Reply>, pos: usize) -> (r: Result<SgStep, ExtractorError>)
    ensures
        match soundgasm_outcome(source@, url@, replies@, pos as int) {
            SgOutcome::NeedPage => r matches Ok(SgStep::NeedPage),
            SgOutcome::Failed(k) => fails_with(r, k),
            SgOutcome::Got(m) => r matches Ok(SgStep::Got(info)) && info.wf() && info@ == m,
        },
{
    let user = match regex_capture_name(source, url, "user") {
        Some(v) => v,
        None => return Err(fail(ExtractorErrorKind::InvalidUrl, "Soundgasm URL has no user")),
    };
    let display_id = match regex_capture_name(source, url, "display_id") {
        Some(v) => v,
        None => return Err(fail(ExtractorErrorKind::InvalidUrl, "Soundgasm URL has no title")),
    };
    if pos >= replies.len() {
        return Ok(SgStep::NeedPage);
    }
    let html = reply_text(replies, pos)?;
    match soundgasm_page(url, user.as_str(), display_id.as_str(), html.as_str()) {
        Some(info) => Ok(SgStep::Got(info)),
        None => Err(ExtractorError::new(ExtractorErrorKind::Extraction, concat3("Soundgasm audio ", display_id.as_str(), " has no m4a URL"))),
    }
}

impl SoundgasmExtractor {
    /// One step of a Soundgasm extraction: the audio page is fetched and read.
    pub fn extract_step(&self, url: &str, replies: &Vec<Reply>) -> (r: Result<Step, ExtractorError>)
        ensures
            match soundgasm_outcome(self.matcher().source(), url@, replies@, 0) {
                SgOutcome::NeedPage => fetches(r, url@, Expect::Text),
                SgOutcome::Failed(k) => fails_with(r, k),
                SgOutcome::Got(m) => done_with(r, m),
            },
    {
        match soundgasm_step(self.site.source_text(), url, replies, 0) {
            Ok(SgStep::NeedPage) => Ok(Step::Fetch(get_text(owned(url)))),
            Ok(SgStep::Got(info)) => Ok(Step::Done(ExtractorResult::single(info))),
            Err(e) => Err(e),
        }
    }
}


/// The address pattern of a Soundgasm audio page.
pub open spec fn sg_page_pattern() -> Seq<char> {
    "https?://(?:www\\.)?soundgasm\\.net/u/(?P<user>[0-9a-zA-Z_-]+)/(?P<display_id>[0-9a-zA-Z_-]+)"@
}

/// The links of a Soundgasm profile page.
pub open spec fn sg_link_pattern() -> Seq<char> {
    "(?is)\\bhref\\s*=\\s*[\"']([^\"']+)[\"']"@
}

/// The audio pages of profile `id` that the first `n` links of a profile page at `base`
/// lead to, resolved against `base`, each once, in order.
pub open spec fn sg_links(all: Seq<Seq<Option<Seq<char>>>>, base: Seq<char>, id: Seq<char>, n: int) -> Seq<Seq<char>>
    decreases n,
{
    if n <= 0 {
        Seq::empty()
    } else {
        let prev = sg_links(all, base, id, n - 1);
        match group_at(all[n - 1], 1) {
            Some(raw) => match joined_url(base, raw) {
                Some(l) => if has_infix(l, "/u/"@ + id + "/"@) && !prev.contains(l) { prev.push(l) } else { prev },
                None => prev,
            },
            None => prev,
        }
    }
}

/// Where the extraction of a profile's audio pages stands, from page `j`, whose answer is
/// `replies[1 + j]`, on, with entries `es` done.
pub open spec fn sg_profile_run(links: Seq<Seq<char>>, replies: Seq<Reply>, j: int, es: Seq<Map<Seq<char>, Json>>) -> PlaylistRun
    decreases links.len() - j,
{
    if j < 0 || j >= links.len() {
        PlaylistRun::Entries(es)
    } else {
        match soundgasm_outcome(sg_page_pattern(), links[j], replies, 1 + j) {
            SgOutcome::NeedPage => PlaylistRun::Need(links[j], false),
            SgOutcome::Failed(_) => PlaylistRun::Failed(ExtractorErrorKind::Extraction),
            SgOutcome::Got(m) => sg_profile_run(links, replies, j + 1, es.push(m)),
        }
    }
}

/// The audio pages that a profile page links to.
fn sg_profile_links(html: &str, base: &str, id: &str) -> (r: Vec<String>)
    ensures
        sources_view(r@) == sg_links(regex_all_captures(sg_link_pattern(), html@), base@, id@, regex_all_captures(sg_link_pattern(), html@).len() as int),
{
    let all = regex_captures_iter("(?is)\\bhref\\s*=\\s*[\"']([^\"']+)[\"']", html);
    let ghost av = all_groups_view(all@);
    let marker = concat3("/u/", id, "/");
    let mut links: Vec<String> = Vec::new();
    let mut i: usize = 0;
    while i < all.len()
        invariant
            i <= all@.len(),
            av == all_groups_view(all@),
            av == regex_all_captures(sg_link_pattern(), html@),
            marker@ == "/u/"@ + id@ + "/"@,
            sources_view(links@) == sg_links(av, base@, id@, i as int),
        decreases all@.len() - i,
    {
        assert(av[i as int] == groups_view(all@[i as int]@));
        match capture_group(&all[i], 1) {
            Some(raw) => match url_join(base, raw.as_str()) {
                Some(l) => {
                    if contains(l.as_str(), marker.as_str()) && !contains_string(&links, l.as_str()) {
                        let ghost before = sources_view(links@);
                        let ghost lv = l@;
                        links.push(l);
                        assert(sources_view(links@) =~= before.push(lv));
                    }
                },
                None => {},
            },
            None => {},
        }
        i = i + 1;
    }
    links
}

impl SoundgasmProfileExtractor {
    /// One step of a Soundgasm profile extraction: the profile page is fetched, then each
    /// audio page it links to is extracted in turn, into a playlist.
    #[verifier::loop_isolation(false)]
    pub fn extract_step(&self, url: &str, replies: &Vec<Reply>) -> (r: Result<Step, ExtractorError>)
        ensures
            match regex_named_capture(self.matcher().source(), url@, "id"@) {
                Some(id) => if replies@.len() == 0 {
                    fetches(r, url@, Expect::Text)
                } else {
                    match reply_text_at(replies@, 0) {
                        Some(html) => if !regex_valid(sg_link_pattern()) {
                            fails_with(r, ExtractorErrorKind::Extraction)
                        } else if !url_parses(url@) {
                            fails_with(r, ExtractorErrorKind::InvalidUrl)
                        } else if !regex_valid(sg_page_pattern()) {
                            fails_with(r, ExtractorErrorKind::Extraction)
                        } else {
                            let all = regex_all_captures(sg_link_pattern(), html);
                            match sg_profile_run(sg_links(all, url@, id, all.len() as int), replies@, 0, Seq::empty()) {
                                PlaylistRun::Need(u, _) => fetches(r, u, Expect::Text),
                                PlaylistRun::Failed(k) => fails_with(r, k),
                                PlaylistRun::Entries(es) => done_playlist(r, Map::<Seq<char>, Json>::empty().insert("id"@, Json::Str(id)), es),
                            }
                        },
                        None => fails_with(r, ExtractorErrorKind::Extraction),
                    }
                },
                None => fails_with(r, ExtractorErrorKind::InvalidUrl),
            },
    {
        let profile_id = match self.site.capture(url, "id") {
            Some(v) => v,
            None => return Err(fail(ExtractorErrorKind::InvalidUrl, "Soundgasm profile has no ID")),
        };
        if replies.len() == 0 {
            return Ok(Step::Fetch(get_text(owned(url))));
        }
        let html = reply_text(replies, 0)?;
        if !regex_compiles("(?is)\\bhref\\s*=\\s*[\"']([^\"']+)[\"']") {
            return Err(fail(ExtractorErrorKind::Extraction, "invalid Soundgasm profile link matcher"));
        }
        if !url_is_valid(url) {
            return Err(fail(ExtractorErrorKind::InvalidUrl, "invalid Soundgasm profile URL"));
        }
        let page_pattern = "https?://(?:www\\.)?soundgasm\\.net/u/(?P<user>[0-9a-zA-Z_-]+)/(?P<display_id>[0-9a-zA-Z_-]+)";
        if !regex_compiles(page_pattern) {
            return Err(fail(ExtractorErrorKind::Extraction, "Soundgasm audio URL pattern does not compile"));
        }
        let links = sg_profile_links(html.as_str(), url, profile_id.as_str());
        let ghost lv = sources_view(links@);
        let ghost run0 = sg_profile_run(lv, replies@, 0, Seq::empty());
        let mut entries: Vec<InfoDict> = Vec::new();
        let mut j: usize = 0;
        assert(dicts_view(entries@) =~= Seq::<Map<Seq<char>, Json>>::empty());
        while j < links.len()
            invariant
                j <= links@.len(),
                lv == sources_view(links@),
                page_pattern@ == sg_page_pattern(),
                all_wf(entries@),
                run0 == sg_profile_run(lv, replies@, j as int, dicts_view(entries@)),
            decreases links@.len() - j,
        {
            let pos = if j < replies.len() { j + 1 } else { replies.len() };
            assert(soundgasm_outcome(sg_page_pattern(), lv[j as int], replies@, pos as int)
                == soundgasm_outcome(sg_page_pattern(), lv[j as int], replies@, 1 + j));
            match soundgasm_step(page_pattern, links[j].as_str(), replies, pos) {
                Ok(SgStep::NeedPage) => return Ok(Step::Fetch(get_text(links[j].clone()))),
                Ok(SgStep::Got(info)) => {
                    let ghost prev = dicts_view(entries@);
                    entries.push(info);
                    assert(dicts_view(entries@) =~= prev.push(info@));
                },
                Err(e) => return Err(ExtractorError::new(ExtractorErrorKind::Extraction, concat3("Soundgasm profile entry ", links[j].as_str(), " failed"))),
            }
            j = j + 1;
        }
        let mut info = InfoDict::new();
        info.insert("id", JsonValue::Str(profile_id));
        Ok(Step::Done(ExtractorResult::Playlist { info, entries }))
    }
}

} // verus!
