use vstd::prelude::*;

use crate::extract::{after_last, before_first, determine_ext, ext_of, first_str, jstr, opt_str, put_opt, reply_text, reply_text_at, resolve_url, resolved};
use crate::framework::{Expect, ExtractorDescriptor, ExtractorError, ExtractorErrorKind, ExtractorResult, Reply, SiteMatcher, Step, descriptor_ok, descriptor_source, done_with, fail, fails_with, fetches, get_text, descriptor_error};
use crate::html::{nonempty_fragment, nonempty_fragment_of, unescape_html, unescaped};
use crate::info::{InfoDict};
use crate::json::{Json, JsonValue, arr_add, arr_done, arr_new, fields_view, json_opt_view, obj_add, obj_done, obj_new};
use crate::media_types::{after_char, before_char, duration_of, parse_duration};
use crate::page::{html_meta_value, html_title_value, meta_value, str_opt_of, title_value};
use crate::pattern::{first_group, regex_first_group, regex_matches, regex_named_capture};
use crate::text::{concat3, concat4, contains, has_infix, owned, push_str, strip_suffixes, trim, trim_end_matches, trimmed};

verus! {

/// Native BehindKink HTML5 video extractor.
pub struct BehindKinkExtractor {
    site: SiteMatcher,
}

impl BehindKinkExtractor {
    /// The descriptor and matcher the extractor was built with.
    pub closed spec fn matcher(&self) -> SiteMatcher {
        self.site
    }

    pub fn new(descriptor: ExtractorDescriptor) -> (r: Result<Self, ExtractorError>)
        ensures
            r is Ok <==> descriptor_ok(descriptor),
            r matches Ok(x) ==> x.matcher().spec_descriptor() == descriptor
                && Some(x.matcher().source()) == descriptor_source(descriptor),
            r matches Err(e) ==> e.kind == ExtractorErrorKind::Extraction && e.message@ == descriptor_error(descriptor),
    {
        match SiteMatcher::from_descriptor(descriptor) {
            Ok(site) => Ok(BehindKinkExtractor { site }),
            Err(e) => Err(e),
        }
    }

    pub fn descriptor(&self) -> (r: &ExtractorDescriptor)
        ensures
            *r == self.matcher().spec_descriptor(),
    {
        self.site.descriptor()
    }

    pub fn suitable(&self, url: &str) -> (r: bool)
        ensures
            r == regex_matches(self.matcher().source(), url@),
    {
        self.site.suitable(url)
    }

    pub fn is_native(&self) -> (r: bool)
        ensures
            r,
    {
        true
    }

    pub fn native_matcher_count(&self) -> (r: usize)
        ensures
            r == 1,
    {
        1
    }
}

/// Native Historic Films page extractor. The page supplies the tape ID and
/// descriptive metadata while the media URL follows a stable service path.
pub struct HistoricFilmsExtractor {
    site: SiteMatcher,
}

impl HistoricFilmsExtractor {
    /// The descriptor and matcher the extractor was built with.
    pub closed spec fn matcher(&self) -> SiteMatcher {
        self.site
    }

    pub fn new(descriptor: ExtractorDescriptor) -> (r: Result<Self, ExtractorError>)
        ensures
            r is Ok <==> descriptor_ok(descriptor),
            r matches Ok(x) ==> x.matcher().spec_descriptor() == descriptor
                && Some(x.matcher().source()) == descriptor_source(descriptor),
            r matches Err(e) ==> e.kind == ExtractorErrorKind::Extraction && e.message@ == descriptor_error(descriptor),
    {
        match SiteMatcher::from_descriptor(descriptor) {
            Ok(site) => Ok(HistoricFilmsExtractor { site }),
            Err(e) => Err(e),
        }
    }

    pub fn descriptor(&self) -> (r: &ExtractorDescriptor)
        ensures
            *r == self.matcher().spec_descriptor(),
    {
        self.site.descriptor()
    }

    pub fn suitable(&self, url: &str) -> (r: bool)
        ensures
            r == regex_matches(self.matcher().source(), url@),
    {
        self.site.suitable(url)
    }

    pub fn is_native(&self) -> (r: bool)
        ensures
            r,
    {
        true
    }

    pub fn native_matcher_count(&self) -> (r: usize)
        ensures
            r == 1,
    {
        1
    }
}

/// Native OnePlace podcast episode extractor.
pub struct OnePlacePodcastExtractor {
    site: SiteMatcher,
}

impl OnePlacePodcastExtractor {
    /// The descriptor and matcher the extractor was built with.
    pub closed spec fn matcher(&self) -> SiteMatcher {
        self.site
    }

    pub fn new(descriptor: ExtractorDescriptor) -> (r: Result<Self, ExtractorError>)
        ensures
            r is Ok <==> descriptor_ok(descriptor),
            r matches Ok(x) ==> x.matcher().spec_descriptor() == descriptor
                && Some(x.matcher().source()) == descriptor_source(descriptor),
            r matches Err(e) ==> e.kind == ExtractorErrorKind::Extraction && e.message@ == descriptor_error(descriptor),
    {
        match SiteMatcher::from_descriptor(descriptor) {
            Ok(site) => Ok(OnePlacePodcastExtractor { site }),
            Err(e) => Err(e),
        }
    }

    pub fn descriptor(&self) -> (r: &ExtractorDescriptor)
        ensures
            *r == self.matcher().spec_descriptor(),
    {
        self.site.descriptor()
    }

    pub fn suitable(&self, url: &str) -> (r: bool)
        ensures
            r == regex_matches(self.matcher().source(), url@),
    {
        self.site.suitable(url)
    }

    pub fn is_native(&self) -> (r: bool)
        ensures
            r,
    {
        true
    }

    pub fn native_matcher_count(&self) -> (r: usize)
        ensures
            r == 1,
    {
        1
    }
}


/// The text of `s`, or nothing.
pub open spec fn or_empty(s: Option<Seq<char>>) -> Seq<char> {
    match s {
        Some(x) => x,
        None => Seq::empty(),
    }
}

/// The media ID in a BehindKink video address: its file name before `_`, without a
/// `.mp4` or `.mov` ending.
pub open spec fn behindkink_media_id(video: Seq<char>) -> Seq<char> {
    strip_suffixes(strip_suffixes(before_first(after_last(before_first(video, '?'), '/'), '_'), ".mp4"@), ".mov"@)
}

/// Where a BehindKink page gives its video.
pub open spec fn behindkink_source_pattern() -> Seq<char> {
    "(?is)<source\\b[^>]*\\bsrc\\s*=\\s*[\"']([^\"']+)"@
}

/// The metadata of a BehindKink page.
pub open spec fn behindkink_info(display_id: Seq<char>, date: Seq<char>, html: Seq<char>, video: Seq<char>) -> Map<Seq<char>, Json> {
    let media_id = behindkink_media_id(video);
    let ext = ext_of(video, "mp4"@);
    put_opt(put_opt(Map::<Seq<char>, Json>::empty()
        .insert("id"@, Json::Str(media_id))
        .insert("display_id"@, Json::Str(display_id))
        .insert("url"@, Json::Str(video))
        .insert("ext"@, Json::Str(ext))
        .insert("title"@, Json::Str(match meta_value(html, "og:title"@) {
            Some(t) => t,
            None => match title_value(html) { Some(t) => t, None => media_id },
        })),
        "thumbnail"@, opt_str(meta_value(html, "og:image"@))),
        "description"@, opt_str(meta_value(html, "og:description"@)))
        .insert("upload_date"@, Json::Str(date))
        .insert("age_limit"@, Json::Int(18))
        .insert("formats"@, Json::Array(seq![Json::Object(seq![
            ("url"@, Json::Str(video)),
            ("format_id"@, Json::Str("source"@)),
            ("ext"@, Json::Str(ext)),
        ])]))
}

/// A named group of the matcher's match, or nothing.
fn capture_or_empty(site: &SiteMatcher, url: &str, name: &str) -> (r: String)
    ensures
        r@ == or_empty(regex_named_capture(site.source(), url@, name@)),
{
    match site.capture(url, name) {
        Some(v) => v,
        None => {
            let e = String::new();
            e
        },
    }
}

impl BehindKinkExtractor {
    /// One step of a BehindKink extraction: the page is fetched, and its `<source>` is
    /// the video; the date comes from the address.
    pub fn extract_step(&self, url: &str, replies: &Vec<Reply>) -> (r: Result<Step, ExtractorError>)
        ensures
            match regex_named_capture(self.matcher().source(), url@, "id"@) {
                Some(id) => if replies@.len() == 0 {
                    fetches(r, url@, Expect::Text)
                } else {
                    match reply_text_at(replies@, 0) {
                        Some(html) => match first_group(behindkink_source_pattern(), html, 1) {
                            Some(src) => done_with(r, behindkink_info(id,
                                or_empty(regex_named_capture(self.matcher().source(), url@, "year"@))
                                    + or_empty(regex_named_capture(self.matcher().source(), url@, "month"@))
                                    + or_empty(regex_named_capture(self.matcher().source(), url@, "day"@)),
                                html, resolved(url@, unescaped(src)))),
                            None => fails_with(r, ExtractorErrorKind::Extraction),
                        },
                        None => fails_with(r, ExtractorErrorKind::Extraction),
                    }
                },
                None => fails_with(r, ExtractorErrorKind::InvalidUrl),
            },
    {
        let display_id = match self.site.capture(url, "id") {
            Some(v) => v,
            None => return Err(fail(ExtractorErrorKind::InvalidUrl, "BehindKink URL has no ID")),
        };
        let mut date = capture_or_empty(&self.site, url, "year");
        push_str(&mut date, capture_or_empty(&self.site, url, "month").as_str());
        push_str(&mut date, capture_or_empty(&self.site, url, "day").as_str());
        if replies.len() == 0 {
            return Ok(Step::Fetch(get_text(owned(url))));
        }
        let html = reply_text(replies, 0)?;
        let video = match regex_first_group("(?is)<source\\b[^>]*\\bsrc\\s*=\\s*[\"']([^\"']+)", html.as_str(), 1) {
            Some(s) => resolve_url(url, unescape_html(s.as_str()).as_str()),
            None => return Err(ExtractorError::new(ExtractorErrorKind::Extraction, concat3("BehindKink page ", display_id.as_str(), " has no video source"))),
        };
        let base = after_char(before_char(video.as_str(), '?').as_str(), '/');
        let media_id = trim_end_matches(trim_end_matches(before_char(base.as_str(), '_').as_str(), ".mp4").as_str(), ".mov");
        let ext = determine_ext(video.as_str(), "mp4");
        let mut info = InfoDict::new();
        info.insert("id", jstr(media_id.as_str()));
        info.insert("display_id", JsonValue::Str(display_id));
        info.insert("url", jstr(video.as_str()));
        info.insert("ext", jstr(ext.as_str()));
        let title = match html_meta_value(html.as_str(), "og:title") {
            Some(t) => t,
            None => match html_title_value(html.as_str()) { Some(t) => t, None => media_id.clone() },
        };
        info.insert("title", JsonValue::Str(title));
        info.insert_if_some("thumbnail", match html_meta_value(html.as_str(), "og:image") { Some(t) => Some(JsonValue::Str(t)), None => None });
        info.insert_if_some("description", match html_meta_value(html.as_str(), "og:description") { Some(t) => Some(JsonValue::Str(t)), None => None });
        info.insert("upload_date", JsonValue::Str(date));
        info.insert("age_limit", JsonValue::Int(18));
        let mut f = obj_new();
        obj_add(&mut f, "url", jstr(video.as_str()));
        obj_add(&mut f, "format_id", jstr("source"));
        obj_add(&mut f, "ext", jstr(ext.as_str()));
        assert(fields_view(f@) =~= seq![
            ("url"@, Json::Str(video@)),
            ("format_id"@, Json::Str("source"@)),
            ("ext"@, Json::Str(ext@)),
        ]);
        let mut a = arr_new();
        arr_add(&mut a, obj_done(f));
        info.insert("formats", arr_done(a));
        Ok(Step::Done(ExtractorResult::single(info)))
    }
}

/// Where a Historic Films page gives its tape.
pub open spec fn historic_tape_pattern() -> Seq<char> {
    "(?is)(?:class\\s*=\\s*[\"']tapeId[\"'][^>]*>|[\"']tapeId[\"']\\s*:\\s*[\"'])([^<\"']+)"@
}

/// The tape ID in its trimmed text `t`: what follows its last `:`, unless that holds a `/`.
pub open spec fn historic_tape(t: Seq<char>) -> Seq<char> {
    if has_infix(t, ":"@) && !has_infix(after_last(t, ':'), "/"@) { after_last(t, ':') } else { t }
}

/// The address of a Historic Films tape.
pub open spec fn historic_media(tape: Seq<char>, id: Seq<char>) -> Seq<char> {
    "http://www.historicfilms.com/video/"@ + tape + "_"@ + id + "_web.mov"@
}

/// The metadata of a Historic Films page.
pub open spec fn historic_info(id: Seq<char>, tape: Seq<char>, html: Seq<char>) -> Map<Seq<char>, Json> {
    let m = historic_media(tape, id);
    put_opt(put_opt(put_opt(put_opt(Map::<Seq<char>, Json>::empty()
        .insert("id"@, Json::Str(id))
        .insert("url"@, Json::Str(m))
        .insert("ext"@, Json::Str("mov"@)),
        "title"@, opt_str(first_str(meta_value(html, "og:title"@), title_value(html)))),
        "description"@, opt_str(meta_value(html, "og:description"@))),
        "thumbnail"@, opt_str(first_str(meta_value(html, "thumbnailUrl"@), meta_value(html, "og:image"@)))),
        "duration"@, match meta_value(html, "duration"@) { Some(d) => duration_of(d), None => None })
        .insert("formats"@, Json::Array(seq![Json::Object(seq![
            ("url"@, Json::Str(m)),
            ("format_id"@, Json::Str("source"@)),
            ("ext"@, Json::Str("mov"@)),
        ])]))
}

/// A page fact from `a`, else from `b`, as JSON.
fn first_of(a: Option<String>, b: Option<String>) -> (r: Option<JsonValue>)
    ensures
        json_opt_view(r) == opt_str(first_str(str_opt_of(a), str_opt_of(b))),
{
    match a {
        Some(x) => Some(JsonValue::Str(x)),
        None => match b {
            Some(y) => Some(JsonValue::Str(y)),
            None => None,
        },
    }
}

/// The tape ID in its text `t` (`historic_tape` of the trimmed text).
pub(crate) fn historic_tape_of(t: &str) -> (r: String)
    ensures
        r@ == historic_tape(trimmed(t@)),
{
    let v = trim(t);
    if contains(v.as_str(), ":") {
        let suffix = after_char(v.as_str(), ':');
        if !contains(suffix.as_str(), "/") { suffix } else { v }
    } else {
        v
    }
}

/// The metadata dictionary of a Historic Films page.
fn historic_dict(video_id: &str, tape: &str, html: &str) -> (info: InfoDict)
    ensures
        info.wf(),
        info@ == historic_info(video_id@, tape@, html@),
{
    let mut media = concat4("http://www.historicfilms.com/video/", tape, "_", video_id);
    push_str(&mut media, "_web.mov");
    let mut info = InfoDict::new();
    info.insert("id", jstr(video_id));
    info.insert("url", jstr(media.as_str()));
    info.insert("ext", jstr("mov"));
    info.insert_if_some("title", first_of(html_meta_value(html, "og:title"), html_title_value(html)));
    info.insert_if_some("description", match html_meta_value(html, "og:description") { Some(t) => Some(JsonValue::Str(t)), None => None });
    info.insert_if_some("thumbnail", first_of(html_meta_value(html, "thumbnailUrl"), html_meta_value(html, "og:image")));
    info.insert_if_some("duration", match html_meta_value(html, "duration") { Some(d) => parse_duration(d.as_str()), None => None });
    let mut f = obj_new();
    obj_add(&mut f, "url", jstr(media.as_str()));
    obj_add(&mut f, "format_id", jstr("source"));
    obj_add(&mut f, "ext", jstr("mov"));
    assert(fields_view(f@) =~= seq![
        ("url"@, Json::Str(media@)),
        ("format_id"@, Json::Str("source"@)),
        ("ext"@, Json::Str("mov"@)),
    ]);
    let mut a = arr_new();
    arr_add(&mut a, obj_done(f));
    info.insert("formats", arr_done(a));
    info
}

impl HistoricFilmsExtractor {
    /// One step of a Historic Films extraction: the page is fetched, and its tape ID
    /// names the video file.
    pub fn extract_step(&self, url: &str, replies: &Vec<Reply>) -> (r: Result<Step, ExtractorError>)
        ensures
            match regex_named_capture(self.matcher().source(), url@, "id"@) {
                Some(id) => if replies@.len() == 0 {
                    fetches(r, url@, Expect::Text)
                } else {
                    match reply_text_at(replies@, 0) {
                        Some(html) => match first_group(historic_tape_pattern(), html, 1) {
                            Some(t) => if historic_tape(trimmed(t)).len() > 0 {
                                done_with(r, historic_info(id, historic_tape(trimmed(t)), html))
                            } else {
                                fails_with(r, ExtractorErrorKind::Extraction)
                            },
                            None => fails_with(r, ExtractorErrorKind::Extraction),
                        },
                        None => fails_with(r, ExtractorErrorKind::Extraction),
                    }
                },
                None => fails_with(r, ExtractorErrorKind::InvalidUrl),
            },
    {
        let video_id = match self.site.capture(url, "id") {
            Some(v) => v,
            None => return Err(fail(ExtractorErrorKind::InvalidUrl, "Historic Films URL has no ID")),
        };
        if replies.len() == 0 {
            return Ok(Step::Fetch(get_text(owned(url))));
        }
        let html = reply_text(replies, 0)?;
        let tape = match regex_first_group("(?is)(?:class\\s*=\\s*[\"']tapeId[\"'][^>]*>|[\"']tapeId[\"']\\s*:\\s*[\"'])([^<\"']+)", html.as_str(), 1) {
            Some(t) => historic_tape_of(t.as_str()),
            None => return Err(ExtractorError::new(ExtractorErrorKind::Extraction, concat3("Historic Films page ", video_id.as_str(), " has no tape ID"))),
        };
        if tape.unicode_len() == 0 {
            return Err(ExtractorError::new(ExtractorErrorKind::Extraction, concat3("Historic Films page ", video_id.as_str(), " has no tape ID")));
        }
        let info = historic_dict(video_id.as_str(), tape.as_str(), html.as_str());
        Ok(Step::Done(ExtractorResult::single(info)))
    }
}

/// Where a OnePlace page gives its audio, in the order they are tried.
pub open spec fn oneplace_audio_patterns() -> (Seq<char>, Seq<char>) {
    ("(?is)\\bmp3-url\\s*=\\s*\"([^\"]+)"@,
     "(?is)<div[^>]+\\bid\\s*=\\s*\"player\"[^>]+\\bdata-media-url\\s*=\\s*\"([^\"]+)"@)
}

/// Where a OnePlace page gives its title.
pub open spec fn oneplace_title_pattern() -> Seq<char> {
    "(?is)<div[^>]*\\bclass\\s*=\\s*\"[^\"]*\\bdetails\\b[^\"]*\"[^>]*>.*?<h2\\b[^>]*>(.*?)</h2>"@
}

/// Where a OnePlace page gives its description.
pub open spec fn oneplace_description_pattern() -> Seq<char> {
    "(?is)<div[^>]*\\bclass\\s*=\\s*\"[^\"]*\\bepDesc\\b[^\"]*\"[^>]*>(.*?)</div>"@
}

/// The audio address of a OnePlace page at `url`.
pub open spec fn oneplace_audio(url: Seq<char>, html: Seq<char>) -> Option<Seq<char>> {
    match first_group(oneplace_audio_patterns().0, html, 1) {
        Some(v) => Some(resolved(url, unescaped(v))),
        None => match first_group(oneplace_audio_patterns().1, html, 1) {
            Some(v) => Some(resolved(url, unescaped(v))),
            None => None,
        },
    }
}

/// The metadata of a OnePlace episode page.
pub open spec fn oneplace_info(id: Seq<char>, audio: Seq<char>, html: Seq<char>) -> Map<Seq<char>, Json> {
    let title = match nonempty_fragment(first_group(oneplace_title_pattern(), html, 1)) {
        Some(t) => Some(t),
        None => first_str(meta_value(html, "og:title"@), title_value(html)),
    };
    put_opt(put_opt(Map::<Seq<char>, Json>::empty()
        .insert("id"@, Json::Str(id))
        .insert("url"@, Json::Str(audio))
        .insert("ext"@, Json::Str("mp3"@))
        .insert("vcodec"@, Json::Str("none"@)),
        "title"@, opt_str(title)),
        "description"@, opt_str(nonempty_fragment(first_group(oneplace_description_pattern(), html, 1))))
        .insert("formats"@, Json::Array(seq![Json::Object(seq![
            ("url"@, Json::Str(audio)),
            ("format_id"@, Json::Str("audio"@)),
            ("ext"@, Json::Str("mp3"@)),
            ("vcodec"@, Json::Str("none"@)),
        ])]))
}

impl OnePlacePodcastExtractor {
    /// One step of a OnePlace extraction: the episode page is fetched and its audio
    /// address read.
    pub fn extract_step(&self, url: &str, replies: &Vec<Reply>) -> (r: Result<Step, ExtractorError>)
        ensures
            match regex_named_capture(self.matcher().source(), url@, "id"@) {
                Some(id) => if replies@.len() == 0 {
                    fetches(r, url@, Expect::Text)
                } else {
                    match reply_text_at(replies@, 0) {
                        Some(html) => match oneplace_audio(url@, html) {
                            Some(a) => done_with(r, oneplace_info(id, a, html)),
                            None => fails_with(r, ExtractorErrorKind::Extraction),
                        },
                        None => fails_with(r, ExtractorErrorKind::Extraction),
                    }
                },
                None => fails_with(r, ExtractorErrorKind::InvalidUrl),
            },
    {
        let video_id = match self.site.capture(url, "id") {
            Some(v) => v,
            None => return Err(fail(ExtractorErrorKind::InvalidUrl, "OnePlace URL has no ID")),
        };
        if replies.len() == 0 {
            return Ok(Step::Fetch(get_text(owned(url))));
        }
        let html = reply_text(replies, 0)?;
        let raw = match regex_first_group("(?is)\\bmp3-url\\s*=\\s*\"([^\"]+)", html.as_str(), 1) {
            Some(v) => v,
            None => match regex_first_group("(?is)<div[^>]+\\bid\\s*=\\s*\"player\"[^>]+\\bdata-media-url\\s*=\\s*\"([^\"]+)", html.as_str(), 1) {
                Some(v) => v,
                None => return Err(ExtractorError::new(ExtractorErrorKind::Extraction, concat3("OnePlace episode ", video_id.as_str(), " has no audio URL"))),
            },
        };
        let audio = resolve_url(url, unescape_html(raw.as_str()).as_str());
        let title = match nonempty_fragment_of(regex_first_group("(?is)<div[^>]*\\bclass\\s*=\\s*\"[^\"]*\\bdetails\\b[^\"]*\"[^>]*>.*?<h2\\b[^>]*>(.*?)</h2>", html.as_str(), 1)) {
            Some(t) => Some(JsonValue::Str(t)),
            None => first_of(html_meta_value(html.as_str(), "og:title"), html_title_value(html.as_str())),
        };
        let description = nonempty_fragment_of(regex_first_group("(?is)<div[^>]*\\bclass\\s*=\\s*\"[^\"]*\\bepDesc\\b[^\"]*\"[^>]*>(.*?)</div>", html.as_str(), 1));
        let mut info = InfoDict::new();
        info.insert("id", jstr(video_id.as_str()));
        info.insert("url", jstr(audio.as_str()));
        info.insert("ext", jstr("mp3"));
        info.insert("vcodec", jstr("none"));
        info.insert_if_some("title", title);
        info.insert_if_some("description", match description { Some(d) => Some(JsonValue::Str(d)), None => None });
        let mut f = obj_new();
        obj_add(&mut f, "url", jstr(audio.as_str()));
        obj_add(&mut f, "format_id", jstr("audio"));
        obj_add(&mut f, "ext", jstr("mp3"));
        obj_add(&mut f, "vcodec", jstr("none"));
        assert(fields_view(f@) =~= seq![
            ("url"@, Json::Str(audio@)),
            ("format_id"@, Json::Str("audio"@)),
            ("ext"@, Json::Str("mp3"@)),
            ("vcodec"@, Json::Str("none"@)),
        ]);
        let mut a = arr_new();
        arr_add(&mut a, obj_done(f));
        info.insert("formats", arr_done(a));
        Ok(Step::Done(ExtractorResult::single(info)))
    }
}

} // verus!
