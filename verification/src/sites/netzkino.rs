use vstd::prelude::*;

use crate::extract::{determine_ext, ext_of, jstr, lookup_in, opt_int, opt_int_json, opt_str, opt_str_json, put_opt, reply_text, reply_text_at, resolve_url, resolved, str_in};
use crate::framework::{Expect, ExtractorDescriptor, ExtractorError, ExtractorErrorKind, ExtractorResult, Reply, SiteMatcher, Step, descriptor_ok, descriptor_source, done_with, fail, fails_with, fetches, get_text, descriptor_error};
use crate::html::{nonempty_fragment, nonempty_fragment_of};
use crate::info::{InfoDict};
use crate::json::{Json, JsonValue, arr_add, arr_done, arr_new, fields_view, items_view, json_get, json_i64, json_int_at, json_lookup, json_str_at, json_string, lemma_array_view, obj_add, obj_done, obj_new, str_equal};
use crate::page::{html_script_json, script_json};
use crate::pattern::{regex_matches, regex_named_capture};
use crate::text::{concat3, lowered, owned, to_ascii_lowercase};

verus! {

/// Native Netzkino Next.js/CMS movie extractor.
pub struct NetzkinoExtractor {
    site: SiteMatcher,
}

impl NetzkinoExtractor {
    /// The descriptor and matcher the extractor was built with.
    pub closed spec fn matcher(&self) -> SiteMatcher {
        self.site
    }

    pub fn new(descriptor: ExtractorDescriptor) -> (r: Result<Self, ExtractorError>)
        ensures
            r is Ok <==> descriptor_ok(descriptor),
            r matches Ok(x) ==> x.matcher().spec_descriptor() == descriptor
                && Some(x.matcher().source()) == descriptor_source(descriptor),
            r matches Err(e) ==> e.kind == ExtractorErrorKind::Extraction && e.message@ == descriptor_error(descriptor),
    {
        match SiteMatcher::from_descriptor(descriptor) {
            Ok(site) => Ok(NetzkinoExtractor { site }),
            Err(e) => Err(e),
        }
    }

    pub fn descriptor(&self) -> (r: &ExtractorDescriptor)
        ensures
            *r == self.matcher().spec_descriptor(),
    {
        self.site.descriptor()
    }

    pub fn suitable(&self, url: &str) -> (r: bool)
        ensures
            r == regex_matches(self.matcher().source(), url@),
    {
        self.site.suitable(url)
    }

    pub fn is_native(&self) -> (r: bool)
        ensures
            r,
    {
        true
    }

    pub fn native_matcher_count(&self) -> (r: usize)
        ensures
            r == 1,
    {
        1
    }
}


/// The movie record among the page state's queries from `i` on.
pub open spec fn nk_find(qs: Seq<Json>, i: int) -> Option<Json>
    decreases qs.len() - i,
{
    if i < 0 || i >= qs.len() {
        None
    } else {
        match lookup_in(lookup_in(json_lookup(qs[i], "state"@), "data"@), "data"@) {
            Some(d) => if json_str_at(d, "__typename"@) == Some("CmsMovie"@) { Some(d) } else { nk_find(qs, i + 1) },
            None => nk_find(qs, i + 1),
        }
    }
}

/// The movie record of a Netzkino page's state.
pub open spec fn nk_movie(html: Seq<char>) -> Option<Json> {
    match script_json(html, "__NEXT_DATA__"@) {
        Some(d) => match lookup_in(lookup_in(json_lookup(d, "props"@), "__dehydratedState"@), "queries"@) {
            Some(Json::Array(qs)) => nk_find(qs, 0),
            _ => None,
        },
        None => None,
    }
}

/// The name a credit node gives: its person's, else its category's.
pub open spec fn nk_node_name(node: Json) -> Option<Seq<char>> {
    match nonempty_fragment(str_in(json_lookup(node, "person"@), "name"@)) {
        Some(n) => Some(n),
        None => nonempty_fragment(str_in(json_lookup(node, "category"@), "title"@)),
    }
}

/// The names of the first `n` nodes.
pub open spec fn nk_node_names(nodes: Seq<Json>, n: int) -> Seq<Json>
    decreases n,
{
    if n <= 0 {
        Seq::empty()
    } else {
        match nk_node_name(nodes[n - 1]) {
            Some(x) => nk_node_names(nodes, n - 1).push(Json::Str(x)),
            None => nk_node_names(nodes, n - 1),
        }
    }
}

/// The names of a movie's credit list `source`.
pub open spec fn nk_names(movie: Json, source: Seq<char>) -> Seq<Json> {
    match lookup_in(json_lookup(movie, source), "nodes"@) {
        Some(Json::Array(nodes)) => nk_node_names(nodes, nodes.len() as int),
        _ => Seq::empty(),
    }
}

/// `m` with the names under `key`, when there are any.
pub open spec fn put_names(m: Map<Seq<char>, Json>, key: Seq<char>, names: Seq<Json>) -> Map<Seq<char>, Json> {
    if names.len() > 0 { m.insert(key, Json::Array(names)) } else { m }
}

/// The format id, protocol and file ending of a Netzkino media address's ending.
pub open spec fn nk_kind(ext: Seq<char>) -> (Seq<char>, Seq<char>, Seq<char>) {
    if ext == "m3u8"@ {
        ("hls"@, "m3u8_native"@, "mp4"@)
    } else if ext == "mpd"@ {
        ("dash"@, "http_dash_segments"@, "mp4"@)
    } else {
        ("http"@, "http"@, ext)
    }
}

/// The metadata of a Netzkino movie.
pub open spec fn nk_info(url: Seq<char>, id: Seq<char>, movie: Json, media: Seq<char>) -> Map<Seq<char>, Json> {
    let (fid, proto, fext) = nk_kind(lowered(ext_of(media, "mp4"@)));
    let title = nonempty_fragment(json_str_at(movie, "originalTitle"@));
    let m0 = put_opt(put_opt(put_opt(put_opt(put_opt(put_opt(put_opt(put_opt(Map::<Seq<char>, Json>::empty()
        .insert("id"@, Json::Str(id)),
        "title"@, opt_str(title)),
        "alt_title"@, opt_str(title)),
        "age_limit"@, opt_int(json_int_at(movie, "fskRating"@))),
        "description"@, opt_str(nonempty_fragment(json_str_at(movie, "longSynopsis"@)))),
        "duration"@, opt_int(json_int_at(movie, "runtimeInSeconds"@))),
        "location"@, opt_str(json_str_at(movie, "productionCountry"@))),
        "release_year"@, opt_int(json_int_at(movie, "productionYear"@))),
        "thumbnail"@, match str_in(json_lookup(movie, "coverImage"@), "masterUrl"@) { Some(t) => Some(Json::Str(resolved(url, t))), None => None });
    let m1 = put_names(put_names(put_names(m0, "cast"@, nk_names(movie, "cast"@)),
        "creators"@, nk_names(movie, "directors"@) + nk_names(movie, "writers"@)),
        "categories"@, nk_names(movie, "categories"@));
    m1.insert("url"@, Json::Str(media))
        .insert("ext"@, Json::Str(fext))
        .insert("formats"@, Json::Array(seq![Json::Object(seq![
            ("url"@, Json::Str(media)),
            ("format_id"@, Json::Str(fid)),
            ("protocol"@, Json::Str(proto)),
            ("ext"@, Json::Str(fext)),
        ])]))
}

/// The movie record among the page state's queries.
fn nk_find_exec(qs: &Vec<JsonValue>) -> (r: Option<&JsonValue>)
    ensures
        match r {
            Some(d) => nk_find(items_view(qs@), 0) == Some(d@),
            None => nk_find(items_view(qs@), 0) is None,
        },
{
    let ghost qv = items_view(qs@);
    let mut i: usize = 0;
    while i < qs.len()
        invariant
            i <= qs@.len(),
            qv == items_view(qs@),
            nk_find(qv, 0) == nk_find(qv, i as int),
        decreases qs@.len() - i,
    {
        let d = match json_get(&qs[i], "state") {
            Some(s) => match json_get(s, "data") {
                Some(d1) => json_get(d1, "data"),
                None => None,
            },
            None => None,
        };
        match d {
            Some(d) => {
                let is_movie = match json_string(d, "__typename") { Some(t) => str_equal(t, "CmsMovie"), None => false };
                if is_movie {
                    return Some(d);
                }
            },
            None => {},
        }
        i = i + 1;
    }
    None
}

/// Adds the names of a movie's credit list `source`.
fn nk_add_names(out: &mut Vec<JsonValue>, movie: &JsonValue, source: &str)
    ensures
        items_view(final(out)@) == items_view(old(out)@) + nk_names(movie@, source@),
{
    let nodes = match json_get(movie, source) {
        Some(v) => match json_get(v, "nodes") {
            Some(x) => match x {
                JsonValue::Array(nodes) => {
                    proof { lemma_array_view(*x); }
                    nodes
                },
                _ => {
                    assert(items_view(out@) =~= items_view(out@) + Seq::<Json>::empty());
                    return;
                },
            },
            None => {
                assert(items_view(out@) =~= items_view(out@) + Seq::<Json>::empty());
                return;
            },
        },
        None => {
            assert(items_view(out@) =~= items_view(out@) + Seq::<Json>::empty());
            return;
        },
    };
    let ghost nv = items_view(nodes@);
    let ghost start = items_view(out@);
    let mut i: usize = 0;
    assert(start =~= start + nk_node_names(nv, 0));
    while i < nodes.len()
        invariant
            i <= nodes@.len(),
            nv == items_view(nodes@),
            items_view(out@) == start + nk_node_names(nv, i as int),
        decreases nodes@.len() - i,
    {
        let person = match json_get(&nodes[i], "person") { Some(p) => json_string(p, "name"), None => None };
        let name = match nonempty_fragment_of(match person { Some(p) => Some(owned(p)), None => None }) {
            Some(n) => Some(n),
            None => {
                let cat = match json_get(&nodes[i], "category") { Some(c) => json_string(c, "title"), None => None };
                nonempty_fragment_of(match cat { Some(c) => Some(owned(c)), None => None })
            },
        };
        match name {
            Some(n) => {
                let ghost before = items_view(out@);
                let ghost nvw = n@;
                arr_add(out, JsonValue::Str(n));
                assert(items_view(out@) =~= start + nk_node_names(nv, i + 1));
            },
            None => {},
        }
        i = i + 1;
    }
}

/// Sets `key` to the names gathered, when there are any.
fn put_names_exec(info: &mut InfoDict, key: &str, names: Vec<JsonValue>)
    requires
        old(info).wf(),
    ensures
        final(info).wf(),
        final(info)@ == put_names(old(info)@, key@, items_view(names@)),
{
    if names.len() > 0 {
        info.insert(key, arr_done(names));
    }
}

impl NetzkinoExtractor {
    /// One step of a Netzkino extraction: the page's state holds the movie record, whose
    /// video source is the media.
    pub fn extract_step(&self, url: &str, replies: &Vec<Reply>) -> (r: Result<Step, ExtractorError>)
        ensures
            match regex_named_capture(self.matcher().source(), url@, "id"@) {
                Some(id) => if replies@.len() == 0 {
                    fetches(r, url@, Expect::Text)
                } else {
                    match reply_text_at(replies@, 0) {
                        Some(html) => match nk_movie(html) {
                            Some(movie) => match str_in(json_lookup(movie, "videoSource"@), "pmdUrl"@) {
                                Some(raw) => if raw.len() > 0 {
                                    done_with(r, nk_info(url@, id, movie, resolved("https://pmd.netzkino-seite.netzkino.de/"@, raw)))
                                } else {
                                    fails_with(r, ExtractorErrorKind::Extraction)
                                },
                                None => fails_with(r, ExtractorErrorKind::Extraction),
                            },
                            None => fails_with(r, ExtractorErrorKind::Extraction),
                        },
                        None => fails_with(r, ExtractorErrorKind::Extraction),
                    }
                },
                None => fails_with(r, ExtractorErrorKind::InvalidUrl),
            },
    {
        let video_id = match self.site.capture(url, "id") {
            Some(v) => v,
            None => return Err(fail(ExtractorErrorKind::InvalidUrl, "Netzkino URL has no movie ID")),
        };
        if replies.len() == 0 {
            return Ok(Step::Fetch(get_text(owned(url))));
        }
        let html = reply_text(replies, 0)?;
        let data = match html_script_json(html.as_str(), "__NEXT_DATA__") {
            Some(d) => d,
            None => return Err(ExtractorError::new(ExtractorErrorKind::Extraction, concat3("Netzkino movie ", video_id.as_str(), " is missing from page state"))),
        };
        let queries = match json_get(&data, "props") {
            Some(p) => match json_get(p, "__dehydratedState") {
                Some(s) => json_get(s, "queries"),
                None => None,
            },
            None => None,
        };
        let movie = match queries {
            Some(x) => match x {
                JsonValue::Array(qs) => {
                    proof { lemma_array_view(*x); }
                    nk_find_exec(qs)
                },
                _ => None,
            },
            None => None,
        };
        let movie = match movie {
            Some(m) => m,
            None => return Err(ExtractorError::new(ExtractorErrorKind::Extraction, concat3("Netzkino movie ", video_id.as_str(), " is missing from page state"))),
        };
        let raw = match json_get(movie, "videoSource") {
            Some(v) => match json_string(v, "pmdUrl") {
                Some(r) => if r.unicode_len() > 0 { r } else {
                    return Err(ExtractorError::new(ExtractorErrorKind::Extraction, concat3("Netzkino movie ", video_id.as_str(), " has no media URL")));
                },
                None => return Err(ExtractorError::new(ExtractorErrorKind::Extraction, concat3("Netzkino movie ", video_id.as_str(), " has no media URL"))),
            },
            None => return Err(ExtractorError::new(ExtractorErrorKind::Extraction, concat3("Netzkino movie ", video_id.as_str(), " has no media URL"))),
        };
        let media = resolve_url("https://pmd.netzkino-seite.netzkino.de/", raw);
        let ext = to_ascii_lowercase(determine_ext(media.as_str(), "mp4").as_str());
        let (fid, proto, fext) = if str_equal(ext.as_str(), "m3u8") {
            (owned("hls"), owned("m3u8_native"), owned("mp4"))
        } else if str_equal(ext.as_str(), "mpd") {
            (owned("dash"), owned("http_dash_segments"), owned("mp4"))
        } else {
            (owned("http"), owned("http"), ext.clone())
        };
        let title = nonempty_fragment_of(match json_string(movie, "originalTitle") { Some(t) => Some(owned(t)), None => None });
        let mut info = InfoDict::new();
        info.insert("id", JsonValue::Str(video_id));
        info.insert_if_some("title", match &title { Some(t) => Some(JsonValue::Str(t.clone())), None => None });
        info.insert_if_some("alt_title", match title { Some(t) => Some(JsonValue::Str(t)), None => None });
        info.insert_if_some("age_limit", opt_int_json(json_i64(movie, "fskRating")));
        info.insert_if_some("description", match nonempty_fragment_of(match json_string(movie, "longSynopsis") { Some(t) => Some(owned(t)), None => None }) {
            Some(d) => Some(JsonValue::Str(d)),
            None => None,
        });
        info.insert_if_some("duration", opt_int_json(json_i64(movie, "runtimeInSeconds")));
        info.insert_if_some("location", opt_str_json(json_string(movie, "productionCountry")));
        info.insert_if_some("release_year", opt_int_json(json_i64(movie, "productionYear")));
        info.insert_if_some("thumbnail", match json_get(movie, "coverImage") {
            Some(c) => match json_string(c, "masterUrl") { Some(t) => Some(JsonValue::Str(resolve_url(url, t))), None => None },
            None => None,
        });
        let mut cast = arr_new();
        nk_add_names(&mut cast, movie, "cast");
        assert(items_view(cast@) =~= nk_names(movie@, "cast"@));
        put_names_exec(&mut info, "cast", cast);
        let mut creators = arr_new();
        nk_add_names(&mut creators, movie, "directors");
        nk_add_names(&mut creators, movie, "writers");
        assert(items_view(creators@) =~= nk_names(movie@, "directors"@) + nk_names(movie@, "writers"@));
        put_names_exec(&mut info, "creators", creators);
        let mut cats = arr_new();
        nk_add_names(&mut cats, movie, "categories");
        assert(items_view(cats@) =~= nk_names(movie@, "categories"@));
        put_names_exec(&mut info, "categories", cats);
        info.insert("url", jstr(media.as_str()));
        info.insert("ext", jstr(fext.as_str()));
        let mut f = obj_new();
        obj_add(&mut f, "url", jstr(media.as_str()));
        obj_add(&mut f, "format_id", jstr(fid.as_str()));
        obj_add(&mut f, "protocol", jstr(proto.as_str()));
        obj_add(&mut f, "ext", jstr(fext.as_str()));
        assert(fields_view(f@) =~= seq![
            ("url"@, Json::Str(media@)),
            ("format_id"@, Json::Str(fid@)),
            ("protocol"@, Json::Str(proto@)),
            ("ext"@, Json::Str(fext@)),
        ]);
        let mut a = arr_new();
        arr_add(&mut a, obj_done(f));
        info.insert("formats", arr_done(a));
        Ok(Step::Done(ExtractorResult::single(info)))
    }
}

} // verus!
