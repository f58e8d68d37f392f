use vstd::prelude::*;

use crate::extract::{after_last, determine_ext, ext_of, jstr, opt_int, opt_int_json, put_opt, reply_text, reply_text_at, resolve_url, resolved};
use crate::framework::{Expect, ExtractorDescriptor, ExtractorError, ExtractorErrorKind, ExtractorResult, Reply, SiteMatcher, Step, descriptor_ok, descriptor_source, done_with, fail, fails_with, fetches, get_text, descriptor_error};
use crate::info::{InfoDict};
use crate::json::{Json, JsonValue, arr_add, arr_done, arr_new, fields_view, items_view, json_opt_view, obj_add, obj_add_opt, obj_done, obj_new, push_opt, str_equal};
use crate::number::{float_text, parse_float, parse_int, parsed_int};
use crate::pattern::{regex_matches, regex_named_capture};
use crate::text::{chars_of, concat2, concat3, owned, push_str, string_of_range, trim, trimmed};
use crate::xml::{XmlEvent, XmlEventModel, event_model, events_model, xml_attribute, xml_attribute_of, xml_entity, xml_entity_of, xml_events, xml_events_of};

verus! {

/// Native Golem XML player/configuration extractor.
pub struct GolemExtractor {
    site: SiteMatcher,
}

impl GolemExtractor {
    /// The descriptor and matcher the extractor was built with.
    pub closed spec fn matcher(&self) -> SiteMatcher {
        self.site
    }

    pub fn new(descriptor: ExtractorDescriptor) -> (r: Result<Self, ExtractorError>)
        ensures
            r is Ok <==> descriptor_ok(descriptor),
            r matches Ok(x) ==> x.matcher().spec_descriptor() == descriptor
                && Some(x.matcher().source()) == descriptor_source(descriptor),
            r matches Err(e) ==> e.kind == ExtractorErrorKind::Extraction && e.message@ == descriptor_error(descriptor),
    {
        match SiteMatcher::from_descriptor(descriptor) {
            Ok(site) => Ok(GolemExtractor { site }),
            Err(e) => Err(e),
        }
    }

    pub fn descriptor(&self) -> (r: &ExtractorDescriptor)
        ensures
            *r == self.matcher().spec_descriptor(),
    {
        self.site.descriptor()
    }

    pub fn suitable(&self, url: &str) -> (r: bool)
        ensures
            r == regex_matches(self.matcher().source(), url@),
    {
        self.site.suitable(url)
    }

    pub fn is_native(&self) -> (r: bool)
        ensures
            r,
    {
        true
    }

    pub fn native_matcher_count(&self) -> (r: usize)
        ensures
            r == 1,
    {
        1
    }
}


/// The part of `s` after its last `c` (`str::rsplit_once`, all of `s` when there is none).
pub fn after_last_char(s: &str, c: char) -> (r: String)
    ensures
        r@ == after_last(s@, c),
{
    let cs = chars_of(s);
    let mut start: usize = 0;
    let mut i: usize = 0;
    while i < cs.len()
        invariant
            start <= i <= cs@.len(),
            after_last(cs@.subrange(0, i as int), c) == cs@.subrange(start as int, i as int),
        decreases cs@.len() - i,
    {
        assert(cs@.subrange(0, i + 1).drop_last() =~= cs@.subrange(0, i as int));
        if cs[i] == c {
            start = i + 1;
            assert(cs@.subrange(start as int, i + 1) =~= Seq::<char>::empty());
        } else {
            assert(cs@.subrange(start as int, i + 1) =~= cs@.subrange(start as int, i as int).push(cs@[i as int]));
        }
        i = i + 1;
    }
    assert(cs@.subrange(0, cs@.len() as int) =~= cs@);
    string_of_range(&cs, start, cs.len())
}

/// A format of a Golem player configuration while it is read.
pub struct GolemFormat {
    pub format_id: String,
    pub url: String,
    pub filename: Option<String>,
    pub width: Option<i64>,
    pub height: Option<i64>,
    pub filesize: Option<i64>,
    pub extension: String,
}

/// A thumbnail of a Golem player configuration.
pub struct GolemThumbnail {
    pub url: String,
    pub width: Option<i64>,
    pub height: Option<i64>,
}

/// What a Golem player configuration holds.
pub struct GolemConfig {
    pub title: Option<String>,
    pub duration: Option<JsonValue>,
    pub formats: Vec<GolemFormat>,
    pub thumbnails: Vec<GolemThumbnail>,
}

/// The mathematical value of a `GolemFormat`.
pub struct FormatModel {
    pub format_id: Seq<char>,
    pub url: Seq<char>,
    pub filename: Option<Seq<char>>,
    pub width: Option<int>,
    pub height: Option<int>,
    pub filesize: Option<int>,
    pub extension: Seq<char>,
}

/// The mathematical value of a `GolemThumbnail`.
pub struct ThumbnailModel {
    pub url: Seq<char>,
    pub width: Option<int>,
    pub height: Option<int>,
}

/// The mathematical value of a `GolemConfig`.
pub struct ConfigModel {
    pub title: Option<Seq<char>>,
    pub duration: Option<Json>,
    pub formats: Seq<FormatModel>,
    pub thumbnails: Seq<ThumbnailModel>,
}

/// Where the reading of a configuration stands: what was read, the format or thumbnail
/// whose element is open, and the names of the open elements.
pub struct ReadModel {
    pub config: ConfigModel,
    pub format: Option<FormatModel>,
    pub thumbnail: Option<ThumbnailModel>,
    pub elements: Seq<Seq<char>>,
}

pub open spec fn text_opt(v: Option<String>) -> Option<Seq<char>> {
    match v {
        Some(s) => Some(s@),
        None => None,
    }
}

pub open spec fn int_opt(v: Option<i64>) -> Option<int> {
    match v {
        Some(x) => Some(x as int),
        None => None,
    }
}

impl View for GolemFormat {
    type V = FormatModel;

    open spec fn view(&self) -> FormatModel {
        FormatModel {
            format_id: self.format_id@,
            url: self.url@,
            filename: text_opt(self.filename),
            width: int_opt(self.width),
            height: int_opt(self.height),
            filesize: int_opt(self.filesize),
            extension: self.extension@,
        }
    }
}

impl View for GolemThumbnail {
    type V = ThumbnailModel;

    open spec fn view(&self) -> ThumbnailModel {
        ThumbnailModel { url: self.url@, width: int_opt(self.width), height: int_opt(self.height) }
    }
}

pub open spec fn formats_model(v: Seq<GolemFormat>) -> Seq<FormatModel> {
    Seq::new(v.len(), |i: int| v[i]@)
}

pub open spec fn thumbnails_model(v: Seq<GolemThumbnail>) -> Seq<ThumbnailModel> {
    Seq::new(v.len(), |i: int| v[i]@)
}

impl View for GolemConfig {
    type V = ConfigModel;

    open spec fn view(&self) -> ConfigModel {
        ConfigModel {
            title: text_opt(self.title),
            duration: json_opt_view(self.duration),
            formats: formats_model(self.formats@),
            thumbnails: thumbnails_model(self.thumbnails@),
        }
    }
}

pub open spec fn format_model_opt(v: Option<GolemFormat>) -> Option<FormatModel> {
    match v {
        Some(f) => Some(f@),
        None => None,
    }
}

pub open spec fn thumbnail_model_opt(v: Option<GolemThumbnail>) -> Option<ThumbnailModel> {
    match v {
        Some(t) => Some(t@),
        None => None,
    }
}

pub open spec fn names_model(v: Seq<String>) -> Seq<Seq<char>> {
    Seq::new(v.len(), |i: int| v[i]@)
}

/// The reading of a Golem configuration in progress.
struct GolemReading {
    config: GolemConfig,
    format: Option<GolemFormat>,
    thumbnail: Option<GolemThumbnail>,
    elements: Vec<String>,
}

impl View for GolemReading {
    type V = ReadModel;

    closed spec fn view(&self) -> ReadModel {
        ReadModel {
            config: self.config@,
            format: format_model_opt(self.format),
            thumbnail: thumbnail_model_opt(self.thumbnail),
            elements: names_model(self.elements@),
        }
    }
}

/// The integer value of the attribute `key`, when it has one.
pub open spec fn int_attribute(attributes: Seq<char>, key: Seq<char>) -> Option<int> {
    match xml_attribute_of(attributes, key) {
        Some(v) => parsed_int(v),
        None => None,
    }
}

/// `s` with `v` appended, starting from the empty text where there is none yet.
pub open spec fn appended(s: Option<Seq<char>>, v: Seq<char>) -> Option<Seq<char>> {
    match s {
        Some(t) => Some(t + v),
        None => Some(v),
    }
}

/// What a piece of character data does: it goes to the innermost open element.
pub open spec fn golem_text(m: ReadModel, value: Seq<char>) -> ReadModel {
    if m.elements.len() == 0 {
        m
    } else {
        let last = m.elements.last();
        if last == "title"@ && m.format is None {
            ReadModel { config: ConfigModel { title: appended(m.config.title, value), ..m.config }, ..m }
        } else if last == "playtime"@ && m.format is None {
            ReadModel { config: ConfigModel { duration: float_text(trimmed(value)), ..m.config }, ..m }
        } else if last == "url"@ {
            match m.format {
                Some(f) => ReadModel { format: Some(FormatModel { url: f.url + value, ..f }), ..m },
                None => match m.thumbnail {
                    Some(t) => ReadModel { thumbnail: Some(ThumbnailModel { url: t.url + value, ..t }), ..m },
                    None => m,
                },
            }
        } else if last == "filename"@ {
            match m.format {
                Some(f) => ReadModel { format: Some(FormatModel { filename: appended(f.filename, value), ..f }), ..m },
                None => m,
            }
        } else if last == "filesize"@ {
            match m.format {
                Some(f) => ReadModel { format: Some(FormatModel { filesize: parsed_int(trimmed(value)), ..f }), ..m },
                None => m,
            }
        } else {
            m
        }
    }
}

/// What a start tag does: a child of the root opens a thumbnail (`teaser`) or a format
/// (any name but `title` and `playtime`).
pub open spec fn golem_start(m: ReadModel, qname: Seq<char>, attributes: Seq<char>) -> ReadModel {
    let name = after_last(qname, ':');
    let width = int_attribute(attributes, "width"@);
    let height = int_attribute(attributes, "height"@);
    let opened = if m.elements.len() == 1 {
        if name == "teaser"@ {
            ReadModel { thumbnail: Some(ThumbnailModel { url: Seq::empty(), width, height }), ..m }
        } else if name != "title"@ && name != "playtime"@ {
            ReadModel {
                format: Some(FormatModel {
                    format_id: name,
                    url: Seq::empty(),
                    filename: None,
                    width,
                    height,
                    filesize: None,
                    extension: Seq::empty(),
                }),
                ..m
            }
        } else {
            m
        }
    } else {
        m
    };
    ReadModel { elements: opened.elements.push(name), ..opened }
}

/// What an empty-element tag does: a `teaser` child of the root with a `url` is a thumbnail.
pub open spec fn golem_empty(m: ReadModel, qname: Seq<char>, attributes: Seq<char>) -> ReadModel {
    if m.elements.len() == 1 && after_last(qname, ':') == "teaser"@ {
        match xml_attribute_of(attributes, "url"@) {
            Some(u) => ReadModel {
                config: ConfigModel {
                    thumbnails: m.config.thumbnails.push(ThumbnailModel {
                        url: u,
                        width: int_attribute(attributes, "width"@),
                        height: int_attribute(attributes, "height"@),
                    }),
                    ..m.config
                },
                ..m
            },
            None => m,
        }
    } else {
        m
    }
}

pub open spec fn trimmed_opt(s: Option<Seq<char>>) -> Option<Seq<char>> {
    match s {
        Some(t) => Some(trimmed(t)),
        None => None,
    }
}

/// The extension of a format's file name, `unknown` where it has none.
pub open spec fn filename_ext(filename: Option<Seq<char>>) -> Seq<char> {
    match filename {
        Some(f) => ext_of(f, "unknown"@),
        None => "unknown"@,
    }
}

/// What the end of a child of the root does to an open format: it is kept when its element
/// closes and it has a URL.
pub open spec fn close_format(m: ReadModel, name: Seq<char>) -> ReadModel {
    match m.format {
        Some(f) => {
            let url = trimmed(f.url);
            let filename = trimmed_opt(f.filename);
            if f.format_id == name && url.len() > 0 {
                ReadModel {
                    config: ConfigModel {
                        formats: m.config.formats.push(FormatModel { url, filename, extension: filename_ext(filename), ..f }),
                        ..m.config
                    },
                    format: None,
                    ..m
                }
            } else {
                ReadModel { format: None, ..m }
            }
        },
        None => m,
    }
}

/// What the end of a child of the root does to an open thumbnail: it is kept when it is
/// a `teaser` with a URL.
pub open spec fn close_thumbnail(m: ReadModel, name: Seq<char>) -> ReadModel {
    match m.thumbnail {
        Some(t) => {
            let url = trimmed(t.url);
            if name == "teaser"@ && url.len() > 0 {
                ReadModel {
                    config: ConfigModel { thumbnails: m.config.thumbnails.push(ThumbnailModel { url, ..t }), ..m.config },
                    thumbnail: None,
                    ..m
                }
            } else {
                ReadModel { thumbnail: None, ..m }
            }
        },
        None => m,
    }
}

/// What an end tag does.
pub open spec fn golem_end(m: ReadModel, qname: Seq<char>) -> ReadModel {
    let name = after_last(qname, ':');
    let closed = if m.elements.len() == 2 { close_thumbnail(close_format(m, name), name) } else { m };
    ReadModel {
        elements: if closed.elements.len() > 0 { closed.elements.drop_last() } else { closed.elements },
        ..closed
    }
}

/// What one event does to the reading of a configuration.
pub open spec fn golem_event(m: ReadModel, e: XmlEventModel) -> ReadModel {
    match e {
        XmlEventModel::Start(q, a) => golem_start(m, q, a),
        XmlEventModel::Empty(q, a) => golem_empty(m, q, a),
        XmlEventModel::End(q) => golem_end(m, q),
        XmlEventModel::Text(v) => golem_text(m, v),
        XmlEventModel::Reference(n) => golem_text(m, match xml_entity_of(n) {
            Some(v) => v,
            None => Seq::empty(),
        }),
        _ => m,
    }
}

/// Nothing read yet.
pub open spec fn golem_unread() -> ReadModel {
    ReadModel {
        config: ConfigModel { title: None, duration: None, formats: Seq::empty(), thumbnails: Seq::empty() },
        format: None,
        thumbnail: None,
        elements: Seq::empty(),
    }
}

/// The reading after the events `events`, in order.
pub open spec fn golem_read(events: Seq<XmlEventModel>) -> ReadModel
    decreases events.len(),
{
    if events.len() == 0 {
        golem_unread()
    } else {
        golem_event(golem_read(events.drop_last()), events.last())
    }
}

/// The configuration that the events `events` of a Golem player document describe.
pub open spec fn golem_config_of(events: Seq<XmlEventModel>) -> ConfigModel {
    golem_read(events).config
}


/// The integer value of the attribute `key`, when it has one (`str::parse::<i64>`).
fn int_attribute_value(attributes: &str, key: &str) -> (r: Option<i64>)
    ensures
        int_opt(r) == int_attribute(attributes@, key@),
{
    match xml_attribute(attributes, key) {
        Some(v) => parse_int(v.as_str()),
        None => None,
    }
}

proof fn lemma_last_name(v: Seq<String>)
    requires
        v.len() > 0,
    ensures
        names_model(v).last() == v[v.len() - 1]@,
{
}

/// Character data goes to the innermost open element.
fn golem_append_text(st: &mut GolemReading, value: &str)
    ensures
        final(st)@ == golem_text(old(st)@, value@),
{
    let n = st.elements.len();
    if n == 0 {
        return;
    }
    proof { lemma_last_name(st.elements@); }
    let is_title = str_equal(st.elements[n - 1].as_str(), "title");
    let is_playtime = str_equal(st.elements[n - 1].as_str(), "playtime");
    let is_url = str_equal(st.elements[n - 1].as_str(), "url");
    let is_filename = str_equal(st.elements[n - 1].as_str(), "filename");
    let is_filesize = str_equal(st.elements[n - 1].as_str(), "filesize");
    if is_title && st.format.is_none() {
        let t = match st.config.title.take() {
            Some(mut t) => {
                push_str(&mut t, value);
                t
            },
            None => owned(value),
        };
        st.config.title = Some(t);
    } else if is_playtime && st.format.is_none() {
        let tv = trim(value);
        st.config.duration = parse_float(tv.as_str());
    } else if is_url {
        match st.format.take() {
            Some(mut f) => {
                push_str(&mut f.url, value);
                st.format = Some(f);
            },
            None => match st.thumbnail.take() {
                Some(mut t) => {
                    push_str(&mut t.url, value);
                    st.thumbnail = Some(t);
                },
                None => {},
            },
        }
    } else if is_filename {
        match st.format.take() {
            Some(mut f) => {
                let name = match f.filename.take() {
                    Some(mut x) => {
                        push_str(&mut x, value);
                        x
                    },
                    None => owned(value),
                };
                f.filename = Some(name);
                st.format = Some(f);
            },
            None => {},
        }
    } else if is_filesize {
        match st.format.take() {
            Some(mut f) => {
                let tv = trim(value);
                f.filesize = parse_int(tv.as_str());
                st.format = Some(f);
            },
            None => {},
        }
    }
}

/// A start tag: a child of the root opens a thumbnail or a format.
fn golem_open(st: &mut GolemReading, qname: &str, attributes: &str)
    ensures
        final(st)@ == golem_start(old(st)@, qname@, attributes@),
{
    let name = after_last_char(qname, ':');
    proof { reveal_strlit(""); assert(""@ =~= Seq::<char>::empty()); }
    if st.elements.len() == 1 {
        if str_equal(name.as_str(), "teaser") {
            let width = int_attribute_value(attributes, "width");
            let height = int_attribute_value(attributes, "height");
            st.thumbnail = Some(GolemThumbnail { url: owned(""), width, height });
        } else if !str_equal(name.as_str(), "title") && !str_equal(name.as_str(), "playtime") {
            let width = int_attribute_value(attributes, "width");
            let height = int_attribute_value(attributes, "height");
            st.format = Some(GolemFormat {
                format_id: owned(name.as_str()),
                url: owned(""),
                filename: None,
                width,
                height,
                filesize: None,
                extension: owned(""),
            });
        }
    }
    let ghost before = st.elements@;
    st.elements.push(name);
    assert(names_model(st.elements@) =~= names_model(before).push(after_last(qname@, ':')));
}

/// An empty-element tag: a `teaser` child of the root with a `url` is a thumbnail.
fn golem_empty_tag(st: &mut GolemReading, qname: &str, attributes: &str)
    ensures
        final(st)@ == golem_empty(old(st)@, qname@, attributes@),
{
    let name = after_last_char(qname, ':');
    if st.elements.len() == 1 && str_equal(name.as_str(), "teaser") {
        match xml_attribute(attributes, "url") {
            Some(url) => {
                let width = int_attribute_value(attributes, "width");
                let height = int_attribute_value(attributes, "height");
                let ghost before = st.config.thumbnails@;
                let t = GolemThumbnail { url, width, height };
                let ghost tm = t@;
                st.config.thumbnails.push(t);
                assert(thumbnails_model(st.config.thumbnails@) =~= thumbnails_model(before).push(tm));
            },
            None => {},
        }
    }
}

/// An end tag: closing a child of the root keeps its format or thumbnail when it is complete.
fn golem_close(st: &mut GolemReading, qname: &str)
    ensures
        final(st)@ == golem_end(old(st)@, qname@),
{
    let name = after_last_char(qname, ':');
    if st.elements.len() == 2 {
        match st.format.take() {
            Some(f) => {
                let url = trim(f.url.as_str());
                let filename = match &f.filename {
                    Some(x) => Some(trim(x.as_str())),
                    None => None,
                };
                if str_equal(f.format_id.as_str(), name.as_str()) && url.unicode_len() > 0 {
                    let extension = match &filename {
                        Some(x) => determine_ext(x.as_str(), "unknown"),
                        None => owned("unknown"),
                    };
                    let kept = GolemFormat {
                        format_id: f.format_id,
                        url,
                        filename,
                        width: f.width,
                        height: f.height,
                        filesize: f.filesize,
                        extension,
                    };
                    let ghost before = st.config.formats@;
                    let ghost km = kept@;
                    st.config.formats.push(kept);
                    assert(formats_model(st.config.formats@) =~= formats_model(before).push(km));
                }
            },
            None => {},
        }
        match st.thumbnail.take() {
            Some(t) => {
                let url = trim(t.url.as_str());
                if str_equal(name.as_str(), "teaser") && url.unicode_len() > 0 {
                    let kept = GolemThumbnail { url, width: t.width, height: t.height };
                    let ghost before = st.config.thumbnails@;
                    let ghost km = kept@;
                    st.config.thumbnails.push(kept);
                    assert(thumbnails_model(st.config.thumbnails@) =~= thumbnails_model(before).push(km));
                }
            },
            None => {},
        }
    }
    let ghost before = st.elements@;
    st.elements.pop();
    assert(names_model(st.elements@) =~= if before.len() > 0 { names_model(before).drop_last() } else { names_model(before) });
}

/// What one event does to the reading.
fn golem_apply(st: &mut GolemReading, e: &XmlEvent)
    ensures
        final(st)@ == golem_event(old(st)@, event_model(*e)),
{
    match e {
        XmlEvent::Start(q, a) => {
            golem_open(st, q.as_str(), a.as_str());
            assert(st@ == golem_event(old(st)@, event_model(*e)));
        },
        XmlEvent::Empty(q, a) => {
            golem_empty_tag(st, q.as_str(), a.as_str());
            assert(st@ == golem_event(old(st)@, event_model(*e)));
        },
        XmlEvent::End(q) => {
            golem_close(st, q.as_str());
            assert(st@ == golem_event(old(st)@, event_model(*e)));
        },
        XmlEvent::Text(v) => {
            golem_append_text(st, v.as_str());
            assert(st@ == golem_event(old(st)@, event_model(*e)));
        },
        XmlEvent::Reference(n) => {
            proof { reveal_strlit(""); assert(""@ =~= Seq::<char>::empty()); }
            let v = match xml_entity(n.as_str()) {
                Some(v) => v,
                None => owned(""),
            };
            golem_append_text(st, v.as_str());
            assert(st@ == golem_event(old(st)@, event_model(*e)));
        },
        _ => {
            assert(st@ == golem_event(old(st)@, event_model(*e)));
        },
    }
}

/// The configuration that the events of a Golem player document describe.
pub fn golem_config(events: &Vec<XmlEvent>) -> (r: GolemConfig)
    ensures
        r@ == golem_config_of(events_model(events@)),
{
    let mut st = GolemReading {
        config: GolemConfig { title: None, duration: None, formats: Vec::new(), thumbnails: Vec::new() },
        format: None,
        thumbnail: None,
        elements: Vec::new(),
    };
    assert(formats_model(st.config.formats@) =~= Seq::<FormatModel>::empty());
    assert(thumbnails_model(st.config.thumbnails@) =~= Seq::<ThumbnailModel>::empty());
    assert(names_model(st.elements@) =~= Seq::<Seq<char>>::empty());
    let ghost em = events_model(events@);
    assert(em.subrange(0, 0) =~= Seq::<XmlEventModel>::empty());
    let mut i: usize = 0;
    while i < events.len()
        invariant
            i <= events@.len(),
            em == events_model(events@),
            st@ == golem_read(em.subrange(0, i as int)),
        decreases events@.len() - i,
    {
        golem_apply(&mut st, &events[i]);
        assert(em.subrange(0, i + 1).drop_last() =~= em.subrange(0, i as int));
        i = i + 1;
    }
    assert(em.subrange(0, events@.len() as int) =~= em);
    st.config
}


/// Where Golem's player URLs are resolved against.
pub open spec fn golem_base() -> Seq<char> {
    "http://video.golem.de"@
}

/// The format record of a configuration format.
pub open spec fn golem_format_json(f: FormatModel) -> Json {
    Json::Object(push_opt(push_opt(push_opt(seq![
        ("format_id"@, Json::Str(f.format_id)),
        ("url"@, Json::Str(resolved(golem_base(), f.url))),
        ("ext"@, Json::Str(f.extension)),
    ], "width"@, opt_int(f.width)), "height"@, opt_int(f.height)), "filesize"@, opt_int(f.filesize)))
}

/// The thumbnail record of a configuration thumbnail.
pub open spec fn golem_thumbnail_json(t: ThumbnailModel) -> Json {
    Json::Object(push_opt(push_opt(seq![("url"@, Json::Str(resolved(golem_base(), t.url)))],
        "width"@, opt_int(t.width)), "height"@, opt_int(t.height)))
}

/// The metadata of the Golem video `id` from its configuration, which has a format: the
/// first format gives the URL and the extension.
pub open spec fn golem_info(id: Seq<char>, c: ConfigModel) -> Map<Seq<char>, Json> {
    let formats = Seq::new(c.formats.len(), |i: int| golem_format_json(c.formats[i]));
    let thumbnails = Seq::new(c.thumbnails.len(), |i: int| golem_thumbnail_json(c.thumbnails[i]));
    let m = put_opt(Map::<Seq<char>, Json>::empty()
        .insert("id"@, Json::Str(id))
        .insert("title"@, Json::Str(match c.title { Some(t) => t, None => "golem"@ })),
        "duration"@, c.duration)
        .insert("url"@, Json::Str(resolved(golem_base(), c.formats[0].url)))
        .insert("ext"@, Json::Str(c.formats[0].extension))
        .insert("formats"@, Json::Array(formats));
    if thumbnails.len() > 0 { m.insert("thumbnails"@, Json::Array(thumbnails)) } else { m }
}

/// What a Golem extraction answers for the video `id` whose player document has the
/// events `events`: its metadata, or an extraction error where it has no format.
#[verifier::opaque]
pub open spec fn golem_outcome(r: Result<Step, ExtractorError>, id: Seq<char>, events: Seq<XmlEventModel>) -> bool {
    let c = golem_config_of(events);
    if c.formats.len() == 0 {
        fails_with(r, ExtractorErrorKind::Extraction)
    } else {
        done_with(r, golem_info(id, c))
    }
}

/// The format record of a configuration format.
fn golem_format_value(f: &GolemFormat) -> (r: JsonValue)
    ensures
        r@ == golem_format_json(f@),
{
    let mut o = obj_new();
    obj_add(&mut o, "format_id", jstr(f.format_id.as_str()));
    let url = resolve_url("http://video.golem.de", f.url.as_str());
    obj_add(&mut o, "url", jstr(url.as_str()));
    obj_add(&mut o, "ext", jstr(f.extension.as_str()));
    assert(fields_view(o@) =~= seq![
        ("format_id"@, Json::Str(f.format_id@)),
        ("url"@, Json::Str(resolved(golem_base(), f.url@))),
        ("ext"@, Json::Str(f.extension@)),
    ]);
    obj_add_opt(&mut o, "width", opt_int_json(f.width));
    obj_add_opt(&mut o, "height", opt_int_json(f.height));
    obj_add_opt(&mut o, "filesize", opt_int_json(f.filesize));
    obj_done(o)
}

/// The thumbnail record of a configuration thumbnail.
fn golem_thumbnail_value(t: &GolemThumbnail) -> (r: JsonValue)
    ensures
        r@ == golem_thumbnail_json(t@),
{
    let mut o = obj_new();
    let url = resolve_url("http://video.golem.de", t.url.as_str());
    obj_add(&mut o, "url", jstr(url.as_str()));
    assert(fields_view(o@) =~= seq![("url"@, Json::Str(resolved(golem_base(), t.url@)))]);
    obj_add_opt(&mut o, "width", opt_int_json(t.width));
    obj_add_opt(&mut o, "height", opt_int_json(t.height));
    obj_done(o)
}

/// The answer for the Golem video `video_id` whose player document has the events `events`.
pub fn golem_result(video_id: &str, events: &Vec<XmlEvent>) -> (r: Result<Step, ExtractorError>)
    ensures
        golem_outcome(r, video_id@, events_model(events@)),
{
    proof { reveal(golem_outcome); }
    let config = golem_config(events);
    if config.formats.len() == 0 {
        return Err(ExtractorError::new(ExtractorErrorKind::Extraction, concat3("Golem video ", video_id, " has no playable formats")));
    }
    let ghost c = config@;
    let mut formats = arr_new();
    let mut i: usize = 0;
    while i < config.formats.len()
        invariant
            i <= config.formats@.len(),
            c == config@,
            items_view(formats@) =~= Seq::new(i as nat, |k: int| golem_format_json(c.formats[k])),
        decreases config.formats@.len() - i,
    {
        let v = golem_format_value(&config.formats[i]);
        arr_add(&mut formats, v);
        i = i + 1;
    }
    let mut thumbnails = arr_new();
    let mut j: usize = 0;
    while j < config.thumbnails.len()
        invariant
            j <= config.thumbnails@.len(),
            c == config@,
            items_view(thumbnails@) =~= Seq::new(j as nat, |k: int| golem_thumbnail_json(c.thumbnails[k])),
        decreases config.thumbnails@.len() - j,
    {
        let v = golem_thumbnail_value(&config.thumbnails[j]);
        arr_add(&mut thumbnails, v);
        j = j + 1;
    }
    let first_url = resolve_url("http://video.golem.de", config.formats[0].url.as_str());
    let mut info = InfoDict::new();
    info.insert("id", jstr(video_id));
    let title = match &config.title {
        Some(t) => jstr(t.as_str()),
        None => jstr("golem"),
    };
    info.insert("title", title);
    info.insert_if_some("duration", config.duration);
    info.insert("url", jstr(first_url.as_str()));
    info.insert("ext", jstr(config.formats[0].extension.as_str()));
    let has_thumbnails = thumbnails.len() > 0;
    info.insert("formats", arr_done(formats));
    if has_thumbnails {
        info.insert("thumbnails", arr_done(thumbnails));
    }
    Ok(Step::Done(ExtractorResult::single(info)))
}

impl GolemExtractor {
    /// One step of a Golem extraction: the video's XML player document, read event by event,
    /// gives its formats and thumbnails.
    pub fn extract_step(&self, url: &str, replies: &Vec<Reply>) -> (r: Result<Step, ExtractorError>)
        ensures
            match regex_named_capture(self.matcher().source(), url@, "id"@) {
                Some(id) => if replies@.len() == 0 {
                    fetches(r, "https://video.golem.de/xml/"@ + id + ".xml"@, Expect::Text)
                } else {
                    match reply_text_at(replies@, 0) {
                        Some(html) => match xml_events_of(html) {
                            Some(events) => golem_outcome(r, id, events),
                            None => fails_with(r, ExtractorErrorKind::Extraction),
                        },
                        None => fails_with(r, ExtractorErrorKind::Extraction),
                    }
                },
                None => fails_with(r, ExtractorErrorKind::InvalidUrl),
            },
    {
        let video_id = match self.site.capture(url, "id") {
            Some(v) => v,
            None => return Err(fail(ExtractorErrorKind::InvalidUrl, "Golem URL has no video ID")),
        };
        if replies.len() == 0 {
            return Ok(Step::Fetch(get_text(concat3("https://video.golem.de/xml/", video_id.as_str(), ".xml"))));
        }
        let body = reply_text(replies, 0)?;
        let events = match xml_events(body.as_str()) {
            Ok(events) => events,
            Err(message) => {
                return Err(ExtractorError::new(ExtractorErrorKind::Extraction, concat2("invalid Golem XML configuration: ", message.as_str())));
            },
        };
        let outcome = golem_result(video_id.as_str(), &events);
        outcome
    }
}

} // verus!
