use vstd::prelude::*;

use crate::extract::{first_after, format_records, json_f64, json_num_at, jstr, lemma_first_after_concat, lookup_in, opt_int, opt_int_json, opt_str, opt_str_json, push_format, put_opt, reply_json, reply_json_at, resolve_url, resolved, thousandth};
use crate::framework::{Expect, ExtractorDescriptor, ExtractorError, ExtractorErrorKind, ExtractorResult, Fetch, Method, Reply, SiteMatcher, Step, descriptor_ok, descriptor_source, done_with, fail, fails_with, fetches, get_json, headers_view, descriptor_error};
use crate::info::{InfoDict};
use crate::json::{Json, JsonValue, arr_done, fields_lookup, fields_put, fields_view, items_view, json_get, json_i64, json_int_at, json_lookup, json_opt_view, json_str_at, json_string, lemma_array_view, lemma_fields_lookup_none, lemma_fields_lookup_step, lemma_object_view, obj_add, obj_add_opt, obj_done, obj_new, obj_put, push_opt, str_equal};
use crate::jsontext::{json_serialized, json_to_text};
use crate::number::{parse_int, parsed_int};
use crate::pattern::{regex_matches, regex_named_capture};
use crate::text::{concat2, concat3, contains, has_infix, lowered, owned, strip_suffixes, to_ascii_lowercase, trim_end_matches};

verus! {

/// Native Stream.cz/Televize Seznam GraphQL and playlist extractor.
pub struct StreamCzExtractor {
    site: SiteMatcher,
}

impl StreamCzExtractor {
    /// The descriptor and matcher the extractor was built with.
    pub closed spec fn matcher(&self) -> SiteMatcher {
        self.site
    }

    pub fn new(descriptor: ExtractorDescriptor) -> (r: Result<Self, ExtractorError>)
        ensures
            r is Ok <==> descriptor_ok(descriptor),
            r matches Ok(x) ==> x.matcher().spec_descriptor() == descriptor
                && Some(x.matcher().source()) == descriptor_source(descriptor),
            r matches Err(e) ==> e.kind == ExtractorErrorKind::Extraction && e.message@ == descriptor_error(descriptor),
    {
        match SiteMatcher::from_descriptor(descriptor) {
            Ok(site) => Ok(StreamCzExtractor { site }),
            Err(e) => Err(e),
        }
    }

    pub fn descriptor(&self) -> (r: &ExtractorDescriptor)
        ensures
            *r == self.matcher().spec_descriptor(),
    {
        self.site.descriptor()
    }

    pub fn suitable(&self, url: &str) -> (r: bool)
        ensures
            r == regex_matches(self.matcher().source(), url@),
    {
        self.site.suitable(url)
    }

    pub fn is_native(&self) -> (r: bool)
        ensures
            r,
    {
        true
    }

    pub fn native_matcher_count(&self) -> (r: usize)
        ensures
            r == 1,
    {
        1
    }
}

/// The integer item `i` of an array.
pub open spec fn int_item(a: Seq<Json>, i: int) -> Option<int> {
    if 0 <= i < a.len() {
        match a[i] {
            Json::Int(v) => Some(v),
            _ => None,
        }
    } else {
        None
    }
}

/// The width and height members that a stream's `resolution` gives.
pub open spec fn stream_cz_size(fields: Seq<(Seq<char>, Json)>, stream: Json) -> Seq<(Seq<char>, Json)> {
    match json_lookup(stream, "resolution"@) {
        Some(Json::Array(res)) => push_opt(push_opt(fields, "width"@, opt_int(int_item(res, 0))), "height"@, opt_int(int_item(res, 1))),
        _ => fields,
    }
}

/// Whether a member list has a `height`.
pub open spec fn has_height(fields: Seq<(Seq<char>, Json)>) -> bool {
    fields_lookup(fields, "height"@) is Some
}

/// The codec members that a stream's codec name gives.
pub open spec fn stream_cz_codecs(fields: Seq<(Seq<char>, Json)>, stream: Json) -> Seq<(Seq<char>, Json)> {
    match json_str_at(stream, "codec"@) {
        Some(c) => {
            let low = lowered(c);
            let f1 = if has_infix(low, "avc"@) || has_infix(low, "h264"@) || has_infix(low, "vp8"@) {
                fields.push(("vcodec"@, Json::Str(low)))
            } else {
                fields
            };
            if has_infix(low, "aac"@) || has_infix(low, "mp4a"@) || has_infix(low, "opus"@) {
                f1.push(("acodec"@, Json::Str(low)))
            } else {
                f1
            }
        },
        None => fields,
    }
}

/// `add_stream_cz_format`: the format of quality `fid` of a Stream.cz stream, with its
/// address and extension; none for a stream without an address.
pub open spec fn stream_cz_format(pl_url: Seq<char>, fid: Seq<char>, stream: Json, ext: Seq<char>, pref: int) -> Option<(Seq<char>, Seq<char>, Json)> {
    match json_str_at(stream, "url"@) {
        Some(raw) => {
            let u = resolved(pl_url, raw);
            let f0 = Seq::<(Seq<char>, Json)>::empty()
                .push(("format_id"@, Json::Str(fid + "-"@ + ext)))
                .push(("ext"@, Json::Str(ext)))
                .push(("source_preference"@, Json::Int(pref)))
                .push(("url"@, Json::Str(u)));
            let f1 = push_opt(f0, "tbr"@, thousandth(json_num_at(stream, "bandwidth"@)));
            let f2 = push_opt(f1, "duration"@, thousandth(json_num_at(stream, "duration"@)));
            let f3 = stream_cz_size(f2, stream);
            let f4 = if has_height(f3) {
                f3
            } else {
                push_opt(f3, "height"@, opt_int(parsed_int(strip_suffixes(fid, "p"@))))
            };
            Some((u, ext, Json::Object(stream_cz_codecs(f4, stream))))
        },
        None => None,
    }
}

fn thousandth_of(v: Option<JsonValue>) -> (r: Option<JsonValue>)
    ensures
        json_opt_view(r) == thousandth(json_opt_view(v)),
{
    match v {
        Some(JsonValue::Decimal(m, e)) => if e >= i32::MIN + 3 { Some(JsonValue::Decimal(m, e - 3)) } else { None },
        _ => None,
    }
}

fn stream_cz_size_of(fields: &mut Vec<(String, JsonValue)>, stream: &JsonValue)
    ensures
        fields_view(final(fields)@) == stream_cz_size(fields_view(old(fields)@), stream@),
{
    match json_get(stream, "resolution") {
        Some(ra) => match ra {
            JsonValue::Array(res) => {
                proof { lemma_array_view(*ra); }
                let w = if res.len() > 0 { match &res[0] { JsonValue::Int(v) => Some(*v), _ => None } } else { None };
                let h = if res.len() > 1 { match &res[1] { JsonValue::Int(v) => Some(*v), _ => None } } else { None };
                obj_add_opt(fields, "width", opt_int_json(w));
                obj_add_opt(fields, "height", opt_int_json(h));
            },
            _ => {},
        },
        None => {},
    }
}

fn stream_cz_codecs_of(fields: &mut Vec<(String, JsonValue)>, stream: &JsonValue)
    ensures
        fields_view(final(fields)@) == stream_cz_codecs(fields_view(old(fields)@), stream@),
{
    match json_string(stream, "codec") {
        Some(c) => {
            let low = to_ascii_lowercase(c);
            if contains(low.as_str(), "avc") || contains(low.as_str(), "h264") || contains(low.as_str(), "vp8") {
                obj_add(fields, "vcodec", JsonValue::Str(low.clone()));
            }
            if contains(low.as_str(), "aac") || contains(low.as_str(), "mp4a") || contains(low.as_str(), "opus") {
                obj_add(fields, "acodec", JsonValue::Str(low));
            }
        },
        None => {},
    }
}

fn fields_have(fields: &Vec<(String, JsonValue)>, key: &str) -> (r: bool)
    ensures
        r == (fields_lookup(fields_view(fields@), key@) is Some),
{
    let ghost fv = fields_view(fields@);
    let mut i: usize = 0;
    while i < fields.len()
        invariant
            i <= fields@.len(),
            fv == fields_view(fields@),
            forall|j: int| 0 <= j < i ==> (#[trigger] fv[j]).0 != key@,
        decreases fields@.len() - i,
    {
        assert(fv[i as int].0 == fields@[i as int].0@);
        if str_equal(fields[i].0.as_str(), key) {
            proof { lemma_fields_lookup_step(fv, key@, i as int); }
            return true;
        }
        i = i + 1;
    }
    proof { lemma_fields_lookup_none(fv, key@); }
    false
}

/// `add_stream_cz_format`: the format of quality `fid` of a Stream.cz stream, with its
/// address and extension.
pub fn add_stream_cz_format(pl_url: &str, fid: &str, stream: &JsonValue, ext: &str, pref: i64) -> (r: Option<(String, String, JsonValue)>)
    ensures
        match r {
            Some((u, e, f)) => stream_cz_format(pl_url@, fid@, stream@, ext@, pref as int) == Some((u@, e@, f@)),
            None => stream_cz_format(pl_url@, fid@, stream@, ext@, pref as int) is None,
        },
{
    let raw = match json_string(stream, "url") {
        Some(r) => r,
        None => return None,
    };
    let u = resolve_url(pl_url, raw);
    let mut f = obj_new();
    obj_add(&mut f, "format_id", JsonValue::Str(concat3(fid, "-", ext)));
    obj_add(&mut f, "ext", jstr(ext));
    obj_add(&mut f, "source_preference", JsonValue::Int(pref));
    obj_add(&mut f, "url", JsonValue::Str(u.clone()));
    obj_add_opt(&mut f, "tbr", thousandth_of(json_f64(stream, "bandwidth")));
    obj_add_opt(&mut f, "duration", thousandth_of(json_f64(stream, "duration")));
    stream_cz_size_of(&mut f, stream);
    if !fields_have(&f, "height") {
        obj_add_opt(&mut f, "height", opt_int_json(parse_int(trim_end_matches(fid, "p").as_str())));
    }
    stream_cz_codecs_of(&mut f, stream);
    Some((u, owned(ext), obj_done(f)))
}

/// The formats of the first `n` qualities of a Stream.cz format group.
pub open spec fn stream_cz_group_list(pl_url: Seq<char>, qs: Seq<(Seq<char>, Json)>, ext: Seq<char>, pref: int, n: int) -> Seq<(Seq<char>, Seq<char>, Json)>
    decreases n,
{
    if n <= 0 {
        Seq::empty()
    } else {
        let prev = stream_cz_group_list(pl_url, qs, ext, pref, n - 1);
        match stream_cz_format(pl_url, qs[n - 1].0, qs[n - 1].1, ext, pref) {
            Some(f) => prev.push(f),
            None => prev,
        }
    }
}

/// The formats of a Stream.cz format group.
pub open spec fn stream_cz_group(pl_url: Seq<char>, v: Option<Json>, ext: Seq<char>, pref: int) -> Seq<(Seq<char>, Seq<char>, Json)> {
    match v {
        Some(Json::Object(qs)) => stream_cz_group_list(pl_url, qs, ext, pref, qs.len() as int),
        _ => Seq::empty(),
    }
}

/// The formats of a Stream.cz playlist: its HTTP stream qualities, then its MP4 ones.
pub open spec fn stream_cz_formats(pl_url: Seq<char>, video: Json) -> Seq<(Seq<char>, Seq<char>, Json)> {
    stream_cz_group(pl_url, lookup_in(json_lookup(video, "http_stream"@), "qualities"@), "ts"@, -1)
        + stream_cz_group(pl_url, json_lookup(video, "mp4"@), "mp4"@, 1)
}

/// The subtitle files of the first `n` members of a subtitle's `urls`, string ones only.
pub open spec fn stream_cz_sub_files(pl_url: Seq<char>, urls: Seq<(Seq<char>, Json)>, n: int) -> Seq<Json>
    decreases n,
{
    if n <= 0 {
        Seq::empty()
    } else {
        let prev = stream_cz_sub_files(pl_url, urls, n - 1);
        match urls[n - 1].1 {
            Json::Str(u) => prev.push(Json::Object(Seq::empty()
                .push(("ext"@, Json::Str(urls[n - 1].0)))
                .push(("url"@, Json::Str(resolved(pl_url, u)))))),
            _ => prev,
        }
    }
}

/// The subtitles of the first `n` subtitle records, by language.
pub open spec fn stream_cz_sub_list(pl_url: Seq<char>, subs: Seq<(Seq<char>, Json)>, n: int) -> Seq<(Seq<char>, Json)>
    decreases n,
{
    if n <= 0 {
        Seq::empty()
    } else {
        let prev = stream_cz_sub_list(pl_url, subs, n - 1);
        let sub = subs[n - 1].1;
        match (json_str_at(sub, "language"@), json_lookup(sub, "urls"@)) {
            (Some(lang), Some(Json::Object(us))) => {
                let files = stream_cz_sub_files(pl_url, us, us.len() as int);
                if files.len() > 0 { fields_put(prev, lang, Json::Array(files)) } else { prev }
            },
            _ => prev,
        }
    }
}

/// The subtitles of a Stream.cz playlist, by language.
pub open spec fn stream_cz_subtitles(pl_url: Seq<char>, video: Json) -> Seq<(Seq<char>, Json)> {
    match json_lookup(video, "subtitles"@) {
        Some(Json::Object(vs)) => stream_cz_sub_list(pl_url, vs, vs.len() as int),
        _ => Seq::empty(),
    }
}

/// The metadata of a Stream.cz episode.
pub open spec fn stream_cz_info(url: Seq<char>, display: Seq<char>, id: Seq<char>, episode: Json, pl_url: Seq<char>, video: Json) -> Map<Seq<char>, Json> {
    let fs = stream_cz_formats(pl_url, video);
    let subs = stream_cz_subtitles(pl_url, video);
    let m0 = Map::<Seq<char>, Json>::empty().insert("id"@, Json::Str(id)).insert("display_id"@, Json::Str(display));
    let m1 = put_opt(m0, "title"@, opt_str(json_str_at(episode, "name"@)));
    let m2 = put_opt(m1, "description"@, opt_str(json_str_at(episode, "perex"@)));
    let m3 = put_opt(m2, "duration"@, json_num_at(episode, "duration"@));
    let m4 = put_opt(m3, "view_count"@, opt_int(json_int_at(episode, "views"@)));
    let m5 = m4.insert("url"@, Json::Str(fs[0].0)).insert("ext"@, Json::Str(fs[0].1)).insert("formats"@, Json::Array(format_records(fs)));
    let m6 = if subs.len() > 0 { m5.insert("subtitles"@, Json::Object(subs)) } else { m5 };
    m6.insert("webpage_url"@, Json::Str(url))
}

/// The GraphQL query that loads a Stream.cz episode.
pub open spec fn stream_cz_query() -> Seq<char> {
    "query LoadEpisode($urlName : String){ episode(urlName: $urlName){ id spl urlName name perex duration views } }"@
}

/// The GraphQL request document for Stream.cz episode `id`.
pub open spec fn stream_cz_payload(id: Seq<char>) -> Json {
    Json::Object(Seq::empty()
        .push(("variables"@, Json::Object(Seq::empty().push(("urlName"@, Json::Str(id))))))
        .push(("query"@, Json::Str(stream_cz_query()))))
}

/// Whether `f` posts the GraphQL request for Stream.cz episode `id`.
pub open spec fn is_stream_cz_query(f: Fetch, id: Seq<char>) -> bool {
    f.url@ == "https://www.televizeseznam.cz/api/graphql"@ && f.expect == Expect::Json && f.method == Method::Post
        && headers_view(f.headers@) == seq![("Content-Type"@, "application/json"@)]
        && !f.optional && (f.body matches Some(b) && b@ == json_serialized(stream_cz_payload(id)))
}

/// Appends the formats of a Stream.cz format group.
fn stream_cz_group_of(pl_url: &str, v: Option<&JsonValue>, ext: &str, pref: i64, out: &mut Vec<JsonValue>, first: &mut Option<(String, String)>)
    ensures
        items_view(final(out)@) == items_view(old(out)@) + format_records(stream_cz_group(pl_url@, match v { Some(x) => Some(x@), None => None }, ext@, pref as int)),
        first_after(*old(first), *final(first), stream_cz_group(pl_url@, match v { Some(x) => Some(x@), None => None }, ext@, pref as int)),
{
    let ghost start = items_view(out@);
    let ghost first0 = *first;
    match v {
        Some(qo) => match qo {
            JsonValue::Object(qs) => {
                proof { lemma_object_view(*qo); }
                let ghost qv = fields_view(qs@);
                let mut i: usize = 0;
                assert(items_view(out@) =~= start + format_records(stream_cz_group_list(pl_url@, qv, ext@, pref as int, 0)));
                while i < qs.len()
                    invariant
                        i <= qs@.len(),
                        qv == fields_view(qs@),
                        items_view(out@) == start + format_records(stream_cz_group_list(pl_url@, qv, ext@, pref as int, i as int)),
                        first_after(first0, *first, stream_cz_group_list(pl_url@, qv, ext@, pref as int, i as int)),
                    decreases qs@.len() - i,
                {
                    let ghost prev = stream_cz_group_list(pl_url@, qv, ext@, pref as int, i as int);
                    let ghost f_before = *first;
                    assert(qv[i as int] == (qs@[i as int].0@, qs@[i as int].1@));
                    match add_stream_cz_format(pl_url, qs[i].0.as_str(), &qs[i].1, ext, pref) {
                        Some(f) => {
                            let ghost fg = (f.0@, f.1@, f.2@);
                            push_format(out, first, f);
                            proof {
                                lemma_first_after_concat(first0, f_before, *first, prev, seq![fg]);
                                assert(prev + seq![fg] =~= prev.push(fg));
                                assert(format_records(prev.push(fg)) =~= format_records(prev).push(fg.2));
                            }
                        },
                        None => {},
                    }
                    i = i + 1;
                }
            },
            _ => {
                assert(items_view(out@) =~= start + format_records(Seq::empty()));
            },
        },
        None => {
            assert(items_view(out@) =~= start + format_records(Seq::empty()));
        },
    }
}

fn stream_cz_sub_files_of(pl_url: &str, urls: &Vec<(String, JsonValue)>) -> (r: Vec<JsonValue>)
    ensures
        items_view(r@) == stream_cz_sub_files(pl_url@, fields_view(urls@), urls@.len() as int),
{
    let ghost uv = fields_view(urls@);
    let mut out: Vec<JsonValue> = Vec::new();
    let mut i: usize = 0;
    assert(items_view(out@) =~= stream_cz_sub_files(pl_url@, uv, 0));
    while i < urls.len()
        invariant
            i <= urls@.len(),
            uv == fields_view(urls@),
            items_view(out@) == stream_cz_sub_files(pl_url@, uv, i as int),
        decreases urls@.len() - i,
    {
        assert(uv[i as int] == (urls@[i as int].0@, urls@[i as int].1@));
        let ghost prev = out@;
        match &urls[i].1 {
            JsonValue::Str(u) => {
                let mut o = obj_new();
                obj_add(&mut o, "ext", jstr(urls[i].0.as_str()));
                obj_add(&mut o, "url", JsonValue::Str(resolve_url(pl_url, u.as_str())));
                let oj = obj_done(o);
                out.push(oj);
                assert(items_view(out@) =~= items_view(prev).push(oj@));
            },
            _ => {},
        }
        i = i + 1;
    }
    out
}

fn stream_cz_subtitles_of(pl_url: &str, video: &JsonValue) -> (r: Vec<(String, JsonValue)>)
    ensures
        fields_view(r@) == stream_cz_subtitles(pl_url@, video@),
{
    let mut out = obj_new();
    match json_get(video, "subtitles") {
        Some(so) => match so {
            JsonValue::Object(vs) => {
                proof { lemma_object_view(*so); }
                let ghost vv = fields_view(vs@);
                let mut i: usize = 0;
                assert(fields_view(out@) =~= stream_cz_sub_list(pl_url@, vv, 0));
                while i < vs.len()
                    invariant
                        i <= vs@.len(),
                        vv == fields_view(vs@),
                        fields_view(out@) == stream_cz_sub_list(pl_url@, vv, i as int),
                    decreases vs@.len() - i,
                {
                    assert(vv[i as int] == (vs@[i as int].0@, vs@[i as int].1@));
                    let sub = &vs[i].1;
                    match (json_string(sub, "language"), json_get(sub, "urls")) {
                        (Some(lang), Some(uo)) => match uo {
                            JsonValue::Object(us) => {
                                proof { lemma_object_view(*uo); }
                                let files = stream_cz_sub_files_of(pl_url, us);
                                if files.len() > 0 {
                                    obj_put(&mut out, lang, arr_done(files));
                                }
                            },
                            _ => {},
                        },
                        _ => {},
                    }
                    i = i + 1;
                }
            },
            _ => {},
        },
        None => {},
    }
    out
}

fn stream_cz_info_of(url: &str, display: &str, id: &str, episode: &JsonValue, pl_url: &str, video: &JsonValue) -> (r: Result<InfoDict, ExtractorError>)
    ensures
        stream_cz_formats(pl_url@, video@).len() == 0 ==> r is Err && r->Err_0.kind == ExtractorErrorKind::Extraction,
        stream_cz_formats(pl_url@, video@).len() > 0 ==> (r matches Ok(d) && d.wf() && d@ == stream_cz_info(url@, display@, id@, episode@, pl_url@, video@)),
{
    let mut formats: Vec<JsonValue> = Vec::new();
    let mut first: Option<(String, String)> = None;
    let hs = match json_get(video, "http_stream") {
        Some(h) => json_get(h, "qualities"),
        None => None,
    };
    stream_cz_group_of(pl_url, hs, "ts", -1, &mut formats, &mut first);
    let ghost f1 = first;
    let ghost g1 = stream_cz_group(pl_url@, lookup_in(json_lookup(video@, "http_stream"@), "qualities"@), "ts"@, -1);
    stream_cz_group_of(pl_url, json_get(video, "mp4"), "mp4", 1, &mut formats, &mut first);
    let ghost g2 = stream_cz_group(pl_url@, json_lookup(video@, "mp4"@), "mp4"@, 1);
    proof {
        lemma_first_after_concat(None, f1, first, g1, g2);
        assert(format_records(g1 + g2) =~= format_records(g1) + format_records(g2));
        assert(items_view(formats@) =~= format_records(g1 + g2));
    }
    let (furl, fext) = match first {
        Some(p) => p,
        None => return Err(ExtractorError::new(
            ExtractorErrorKind::Extraction,
            concat3("Stream.cz episode ", id, " has no playable formats"),
        )),
    };
    let subs = stream_cz_subtitles_of(pl_url, video);
    let mut info = InfoDict::new();
    info.insert("id", jstr(id));
    info.insert("display_id", jstr(display));
    info.insert_if_some("title", opt_str_json(json_string(episode, "name")));
    info.insert_if_some("description", opt_str_json(json_string(episode, "perex")));
    info.insert_if_some("duration", json_f64(episode, "duration"));
    info.insert_if_some("view_count", opt_int_json(json_i64(episode, "views")));
    info.insert("url", JsonValue::Str(furl));
    info.insert("ext", JsonValue::Str(fext));
    info.insert("formats", arr_done(formats));
    if subs.len() > 0 {
        info.insert("subtitles", obj_done(subs));
    }
    info.insert("webpage_url", jstr(url));
    Ok(info)
}

impl StreamCzExtractor {
    /// One step of a Stream.cz extraction: the episode is asked for by GraphQL, then its
    /// playlist is fetched, following the playlist's `Location` once when it has no data,
    /// then the metadata is built.
    pub fn extract_step(&self, url: &str, replies: &Vec<Reply>) -> (r: Result<Step, ExtractorError>)
        ensures
            match (regex_named_capture(self.matcher().source(), url@, "display_id"@), regex_named_capture(self.matcher().source(), url@, "id"@)) {
                (Some(display), Some(id)) => if replies@.len() == 0 {
                    r matches Ok(Step::Fetch(f)) && is_stream_cz_query(f, id)
                } else {
                    match reply_json_at(replies@, 0) {
                        Some(g) => match lookup_in(json_lookup(g@, "data"@), "episode"@) {
                            Some(episode) => match json_str_at(episode, "spl"@) {
                                Some(spl) => {
                                    let pl_url = spl + "spl2,3"@;
                                    if replies@.len() == 1 {
                                        fetches(r, pl_url, Expect::Json)
                                    } else {
                                        match reply_json_at(replies@, 1) {
                                            Some(pl) => {
                                                let moved = json_lookup(pl@, "data"@) is None && json_str_at(pl@, "Location"@) is Some;
                                                if moved && replies@.len() == 2 {
                                                    fetches(r, json_str_at(pl@, "Location"@)->0, Expect::Json)
                                                } else {
                                                    match (if moved { reply_json_at(replies@, 2) } else { Some(pl) }) {
                                                        Some(p2) => match json_lookup(p2@, "data"@) {
                                                            Some(video) => if stream_cz_formats(pl_url, video).len() == 0 {
                                                                fails_with(r, ExtractorErrorKind::Extraction)
                                                            } else {
                                                                done_with(r, stream_cz_info(url@, display, id, episode, pl_url, video))
                                                            },
                                                            None => fails_with(r, ExtractorErrorKind::Extraction),
                                                        },
                                                        None => fails_with(r, ExtractorErrorKind::Extraction),
                                                    }
                                                }
                                            },
                                            None => fails_with(r, ExtractorErrorKind::Extraction),
                                        }
                                    }
                                },
                                None => fails_with(r, ExtractorErrorKind::Extraction),
                            },
                            None => fails_with(r, ExtractorErrorKind::Extraction),
                        },
                        None => fails_with(r, ExtractorErrorKind::Extraction),
                    }
                },
                _ => fails_with(r, ExtractorErrorKind::InvalidUrl),
            },
    {
        let display = match self.site.capture(url, "display_id") {
            Some(d) => d,
            None => return Err(fail(ExtractorErrorKind::InvalidUrl, "Stream.cz URL has no slug")),
        };
        let id = match self.site.capture(url, "id") {
            Some(i) => i,
            None => return Err(fail(ExtractorErrorKind::InvalidUrl, "Stream.cz URL has no ID")),
        };
        if replies.len() == 0 {
            let mut vars = obj_new();
            obj_add(&mut vars, "urlName", JsonValue::Str(id.clone()));
            let mut payload = obj_new();
            obj_add(&mut payload, "variables", obj_done(vars));
            obj_add(&mut payload, "query", jstr("query LoadEpisode($urlName : String){ episode(urlName: $urlName){ id spl urlName name perex duration views } }"));
            let pj = obj_done(payload);
            assert(pj@ =~= stream_cz_payload(id@));
            let headers = vec![(owned("Content-Type"), owned("application/json"))];
            assert(headers_view(headers@) =~= seq![("Content-Type"@, "application/json"@)]);
            return Ok(Step::Fetch(Fetch {
                url: owned("https://www.televizeseznam.cz/api/graphql"),
                expect: Expect::Json,
                method: Method::Post,
                headers,
                body: Some(json_to_text(&pj)),
                optional: false,
            }));
        }
        let g = reply_json(replies, 0)?;
        let episode = match json_get(g, "data") {
            Some(d) => match json_get(d, "episode") {
                Some(e) => e,
                None => return Err(ExtractorError::new(ExtractorErrorKind::Extraction, concat3("Stream.cz episode ", id.as_str(), " is missing from GraphQL response"))),
            },
            None => return Err(ExtractorError::new(ExtractorErrorKind::Extraction, concat3("Stream.cz episode ", id.as_str(), " is missing from GraphQL response"))),
        };
        let spl = match json_string(episode, "spl") {
            Some(s) => s,
            None => return Err(ExtractorError::new(ExtractorErrorKind::Extraction, concat3("Stream.cz episode ", id.as_str(), " has no playlist URL"))),
        };
        let pl_url = concat2(spl, "spl2,3");
        if replies.len() == 1 {
            return Ok(Step::Fetch(get_json(pl_url)));
        }
        let pl = reply_json(replies, 1)?;
        let moved = json_get(pl, "data").is_none() && json_string(pl, "Location").is_some();
        let p2 = if moved {
            if replies.len() == 2 {
                let loc = match json_string(pl, "Location") {
                    Some(l) => l,
                    None => return Err(fail(ExtractorErrorKind::Extraction, "Stream.cz playlist has no location")),
                };
                return Ok(Step::Fetch(get_json(owned(loc))));
            }
            reply_json(replies, 2)?
        } else {
            pl
        };
        let video = match json_get(p2, "data") {
            Some(v) => v,
            None => return Err(ExtractorError::new(ExtractorErrorKind::Extraction, concat3("Stream.cz playlist ", pl_url.as_str(), " has no data"))),
        };
        let info = stream_cz_info_of(url, display.as_str(), id.as_str(), episode, pl_url.as_str(), video)?;
        Ok(Step::Done(ExtractorResult::single(info)))
    }
}

} // verus!
