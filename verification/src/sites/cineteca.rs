use vstd::prelude::*;

use crate::extract::{json_f64, json_num_at, jstr, opt_int, opt_int_json, opt_str, opt_str_json, put_opt, reply_json, reply_json_at, resolve_url, resolved, str_in, str_opt_view};
use crate::framework::{Expect, ExtractorDescriptor, ExtractorError, ExtractorErrorKind, ExtractorResult, Fetch, Method, Reply, SiteMatcher, Step, descriptor_ok, descriptor_source, done_with, fail, fails_with, headers_view, sources_view, descriptor_error};
use crate::info::{InfoDict};
use crate::json::{Json, JsonValue, arr_add, arr_done, arr_new, fields_view, json_bool, json_bool_at, json_get, json_lookup, json_str_at, json_string, obj_add, obj_done, obj_new};
use crate::pattern::{regex_matches, regex_named_capture};
use crate::text::{concat2, concat3, owned, replace_str, replaced, split_char, split_on, strip_prefix, trim, trimmed, without_prefix};
use crate::timestamp::{parse_timestamp, timestamp_of};

verus! {

/// Native Cineteca Milano catalog/API HLS extractor.
pub struct CinetecaMilanoExtractor {
    site: SiteMatcher,
}

impl CinetecaMilanoExtractor {
    /// The descriptor and matcher the extractor was built with.
    pub closed spec fn matcher(&self) -> SiteMatcher {
        self.site
    }

    pub fn new(descriptor: ExtractorDescriptor) -> (r: Result<Self, ExtractorError>)
        ensures
            r is Ok <==> descriptor_ok(descriptor),
            r matches Ok(x) ==> x.matcher().spec_descriptor() == descriptor
                && Some(x.matcher().source()) == descriptor_source(descriptor),
            r matches Err(e) ==> e.kind == ExtractorErrorKind::Extraction && e.message@ == descriptor_error(descriptor),
    {
        match SiteMatcher::from_descriptor(descriptor) {
            Ok(site) => Ok(CinetecaMilanoExtractor { site }),
            Err(e) => Err(e),
        }
    }

    pub fn descriptor(&self) -> (r: &ExtractorDescriptor)
        ensures
            *r == self.matcher().spec_descriptor(),
    {
        self.site.descriptor()
    }

    pub fn suitable(&self, url: &str) -> (r: bool)
        ensures
            r == regex_matches(self.matcher().source(), url@),
    {
        self.site.suitable(url)
    }

    pub fn is_native(&self) -> (r: bool)
        ensures
            r,
    {
        true
    }

    pub fn native_matcher_count(&self) -> (r: usize)
        ensures
            r == 1,
    {
        1
    }
}


/// The first piece from `i` on whose trimmed text starts with `cnt-token=`: what follows.
pub open spec fn cnt_token_from(pieces: Seq<Seq<char>>, i: int) -> Option<Seq<char>>
    decreases pieces.len() - i,
{
    if i < 0 || i >= pieces.len() {
        None
    } else {
        match without_prefix(trimmed(pieces[i]), "cnt-token="@) {
            Some(v) => Some(v),
            None => cnt_token_from(pieces, i + 1),
        }
    }
}

/// `cineteca_authorization`: the bearer token of the `cnt-token` cookie in a `Cookie`
/// header, empty without one.
pub open spec fn cineteca_auth(cookies: Option<Seq<char>>) -> Seq<char> {
    match cookies {
        Some(c) => match cnt_token_from(split_on(c, ';'), 0) {
            Some(v) => if v.len() > 0 { "Bearer "@ + v } else { Seq::empty() },
            None => Seq::empty(),
        },
        None => Seq::empty(),
    }
}

/// `cineteca_authorization`: the bearer token of the `cnt-token` cookie, empty without one.
pub fn cineteca_authorization(cookies: Option<&str>) -> (r: String)
    ensures
        r@ == cineteca_auth(str_opt_view(cookies)),
{
    let c = match cookies {
        Some(c) => c,
        None => return String::new(),
    };
    let pieces = split_char(c, ';');
    let ghost pv = sources_view(pieces@);
    let mut i: usize = 0;
    while i < pieces.len()
        invariant
            i <= pieces@.len(),
            pv == sources_view(pieces@),
            pv == split_on(c@, ';'),
            str_opt_view(cookies) == Some(c@),
            cnt_token_from(pv, 0) == cnt_token_from(pv, i as int),
        decreases pieces@.len() - i,
    {
        match strip_prefix(trim(pieces[i].as_str()).as_str(), "cnt-token=") {
            Some(v) => {
                if v.unicode_len() > 0 {
                    return concat2("Bearer ", v.as_str());
                }
                return String::new();
            },
            None => {},
        }
        i = i + 1;
    }
    String::new()
}

/// Whether `f` asks for the catalogue record of Cineteca Milano film `id`, with the page
/// as referrer and authorization `auth`.
pub open spec fn is_cineteca_request(f: Fetch, url: Seq<char>, id: Seq<char>, auth: Seq<char>) -> bool {
    f.url@ == "https://www.cinetecamilano.it/api/catalogo/"@ + id + "/?"@ && f.expect == Expect::Json
        && f.method == Method::Get && headers_view(f.headers@) == seq![("Referer"@, url), ("Authorization"@, auth)]
        && f.body is None && !f.optional
}

/// `cineteca_timestamp`: a timestamp, read as given or with its space as `T`.
pub open spec fn cineteca_ts(archive: Json, key: Seq<char>) -> Option<int> {
    match json_str_at(archive, key) {
        Some(v) => match timestamp_of(v) {
            Some(t) => Some(t),
            None => timestamp_of(replaced(v, " "@, "T"@)),
        },
        None => None,
    }
}

/// A number of minutes as seconds (`minutes * 60.0`), when the product fits the mantissa.
pub open spec fn minutes_as_seconds(v: Option<Json>) -> Option<Json> {
    match v {
        Some(Json::Decimal(m, e)) => if i64::MIN <= m * 60 <= i64::MAX { Some(Json::Decimal(m * 60, e)) } else { None },
        _ => None,
    }
}

/// The metadata of a Cineteca Milano film.
pub open spec fn cineteca_info(url: Seq<char>, id: Seq<char>, archive: Json, media: Seq<char>) -> Map<Seq<char>, Json> {
    put_opt(put_opt(put_opt(put_opt(put_opt(put_opt(Map::<Seq<char>, Json>::empty()
        .insert("id"@, Json::Str(id)),
        "title"@, opt_str(json_str_at(archive, "title"@))),
        "description"@, match json_str_at(archive, "description"@) {
            Some(d) => if trimmed(d).len() > 0 { Some(Json::Str(trimmed(d))) } else { None },
            None => None,
        }),
        "duration"@, minutes_as_seconds(json_num_at(archive, "duration"@))),
        "release_timestamp"@, opt_int(cineteca_ts(archive, "updated_at"@))),
        "modified_timestamp"@, opt_int(cineteca_ts(archive, "created_at"@))),
        "thumbnail"@, match str_in(json_lookup(archive, "thumb"@), "src"@) {
            Some(t) => Some(Json::Str(resolved(url, replaced(t, "/public/"@, "/storage/"@)))),
            None => None,
        })
        .insert("url"@, Json::Str(media))
        .insert("ext"@, Json::Str("mp4"@))
        .insert("formats"@, Json::Array(seq![Json::Object(seq![
            ("url"@, Json::Str(media)),
            ("format_id"@, Json::Str("hls"@)),
            ("protocol"@, Json::Str("m3u8_native"@)),
            ("ext"@, Json::Str("mp4"@)),
        ])]))
}

/// `cineteca_timestamp`: a timestamp of the archive record.
fn cineteca_timestamp(archive: &JsonValue, key: &str) -> (r: Option<i64>)
    ensures
        match r { Some(t) => Some(t as int), None => None } == cineteca_ts(archive@, key@),
{
    let v = match json_string(archive, key) {
        Some(v) => v,
        None => return None,
    };
    match parse_timestamp(v) {
        Some(t) => Some(t),
        None => parse_timestamp(replace_str(v, " ", "T").as_str()),
    }
}

impl CinetecaMilanoExtractor {
    /// One step of a Cineteca Milano extraction: the catalogue record is asked for with
    /// the site's token from `cookies` (the `Cookie` header the session holds for the
    /// site, if any), and its DRM-free HLS address is the stream.
    pub fn extract_step(&self, url: &str, cookies: Option<&str>, replies: &Vec<Reply>) -> (r: Result<Step, ExtractorError>)
        ensures
            match regex_named_capture(self.matcher().source(), url@, "id"@) {
                Some(id) => if replies@.len() == 0 {
                    r matches Ok(Step::Fetch(f)) && is_cineteca_request(f, url@, id, cineteca_auth(str_opt_view(cookies)))
                } else {
                    match reply_json_at(replies@, 0) {
                        Some(film) => if json_bool_at(film@, "success"@) != Some(true) {
                            fails_with(r, ExtractorErrorKind::Extraction)
                        } else {
                            match json_lookup(film@, "archive"@) {
                                Some(archive) => match str_in(json_lookup(archive, "drm"@), "hls"@) {
                                    Some(h) => if resolved(url@, h).len() > 0 {
                                        done_with(r, cineteca_info(url@, id, archive, resolved(url@, h)))
                                    } else {
                                        fails_with(r, ExtractorErrorKind::Extraction)
                                    },
                                    None => fails_with(r, ExtractorErrorKind::Extraction),
                                },
                                None => fails_with(r, ExtractorErrorKind::Extraction),
                            }
                        },
                        None => fails_with(r, ExtractorErrorKind::Extraction),
                    }
                },
                None => fails_with(r, ExtractorErrorKind::InvalidUrl),
            },
    {
        let video_id = match self.site.capture(url, "id") {
            Some(v) => v,
            None => return Err(fail(ExtractorErrorKind::InvalidUrl, "Cineteca Milano URL has no film ID")),
        };
        if replies.len() == 0 {
            let headers = vec![
                (owned("Referer"), owned(url)),
                (owned("Authorization"), cineteca_authorization(cookies)),
            ];
            assert(headers_view(headers@) =~= seq![("Referer"@, url@), ("Authorization"@, cineteca_auth(str_opt_view(cookies)))]);
            return Ok(Step::Fetch(Fetch {
                url: concat3("https://www.cinetecamilano.it/api/catalogo/", video_id.as_str(), "/?"),
                expect: Expect::Json,
                method: Method::Get,
                headers,
                body: None,
                optional: false,
            }));
        }
        let film = reply_json(replies, 0)?;
        if json_bool(film, "success") != Some(true) {
            return Err(ExtractorError::new(ExtractorErrorKind::Extraction, concat3("Cineteca Milano film ", video_id.as_str(), " information was not found")));
        }
        let archive = match json_get(film, "archive") {
            Some(a) => a,
            None => return Err(ExtractorError::new(ExtractorErrorKind::Extraction, concat3("Cineteca Milano film ", video_id.as_str(), " has no archive data"))),
        };
        let media = match json_get(archive, "drm") {
            Some(d) => match json_string(d, "hls") {
                Some(h) => resolve_url(url, h),
                None => return Err(ExtractorError::new(ExtractorErrorKind::Extraction, concat3("Cineteca Milano film ", video_id.as_str(), " has no HLS URL"))),
            },
            None => return Err(ExtractorError::new(ExtractorErrorKind::Extraction, concat3("Cineteca Milano film ", video_id.as_str(), " has no HLS URL"))),
        };
        if media.unicode_len() == 0 {
            return Err(ExtractorError::new(ExtractorErrorKind::Extraction, concat3("Cineteca Milano film ", video_id.as_str(), " has no HLS URL")));
        }
        let duration = match json_f64(archive, "duration") {
            Some(JsonValue::Decimal(m, e)) => if -153722867280912930 <= m && m <= 153722867280912930 {
                Some(JsonValue::Decimal(m * 60, e))
            } else {
                None
            },
            _ => None,
        };
        let mut info = InfoDict::new();
        info.insert("id", JsonValue::Str(video_id));
        info.insert_if_some("title", opt_str_json(json_string(archive, "title")));
        info.insert_if_some("description", match json_string(archive, "description") {
            Some(d) => {
                let t = trim(d);
                if t.unicode_len() > 0 { Some(JsonValue::Str(t)) } else { None }
            },
            None => None,
        });
        info.insert_if_some("duration", duration);
        info.insert_if_some("release_timestamp", opt_int_json(cineteca_timestamp(archive, "updated_at")));
        info.insert_if_some("modified_timestamp", opt_int_json(cineteca_timestamp(archive, "created_at")));
        info.insert_if_some("thumbnail", match json_get(archive, "thumb") {
            Some(t) => match json_string(t, "src") {
                Some(s) => Some(JsonValue::Str(resolve_url(url, replace_str(s, "/public/", "/storage/").as_str()))),
                None => None,
            },
            None => None,
        });
        info.insert("url", jstr(media.as_str()));
        info.insert("ext", jstr("mp4"));
        let mut f = obj_new();
        obj_add(&mut f, "url", jstr(media.as_str()));
        obj_add(&mut f, "format_id", jstr("hls"));
        obj_add(&mut f, "protocol", jstr("m3u8_native"));
        obj_add(&mut f, "ext", jstr("mp4"));
        assert(fields_view(f@) =~= seq![
            ("url"@, Json::Str(media@)),
            ("format_id"@, Json::Str("hls"@)),
            ("protocol"@, Json::Str("m3u8_native"@)),
            ("ext"@, Json::Str("mp4"@)),
        ]);
        let mut a = arr_new();
        arr_add(&mut a, obj_done(f));
        info.insert("formats", arr_done(a));
        Ok(Step::Done(ExtractorResult::single(info)))
    }
}

} // verus!
