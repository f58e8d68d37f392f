use vstd::prelude::*;

use crate::extract::{json_f64, json_num_at, jstr, lookup_in, opt_str, put_opt, reply_text, reply_text_at};
use crate::framework::{Expect, ExtractorDescriptor, ExtractorError, ExtractorErrorKind, ExtractorResult, Reply, SiteMatcher, Step, descriptor_ok, descriptor_source, done_with, fail, fails_with, fetches, get_text, descriptor_error};
use crate::info::{InfoDict};
use crate::json::{Json, JsonValue, arr_add, arr_done, arr_new, items_view, json_clone, json_get, json_str_at, json_string, lemma_array_view, obj_add, obj_done, obj_new};
use crate::page::{json_after_marker, json_object_after_marker};
use crate::pattern::{regex_matches, regex_named_capture};
use crate::text::{lowered, owned, to_ascii_lowercase};

verus! {

/// Native radio.de station-page extractor. The service may no longer answer,
/// but its station pages are still read as they were.
pub struct RadioDeExtractor {
    site: SiteMatcher,
}

impl RadioDeExtractor {
    /// The descriptor and matcher the extractor was built with.
    pub closed spec fn matcher(&self) -> SiteMatcher {
        self.site
    }

    pub fn new(descriptor: ExtractorDescriptor) -> (r: Result<Self, ExtractorError>)
        ensures
            r is Ok <==> descriptor_ok(descriptor),
            r matches Ok(x) ==> x.matcher().spec_descriptor() == descriptor
                && Some(x.matcher().source()) == descriptor_source(descriptor),
            r matches Err(e) ==> e.kind == ExtractorErrorKind::Extraction && e.message@ == descriptor_error(descriptor),
    {
        match SiteMatcher::from_descriptor(descriptor) {
            Ok(site) => Ok(RadioDeExtractor { site }),
            Err(e) => Err(e),
        }
    }

    pub fn descriptor(&self) -> (r: &ExtractorDescriptor)
        ensures
            *r == self.matcher().spec_descriptor(),
    {
        self.site.descriptor()
    }

    pub fn suitable(&self, url: &str) -> (r: bool)
        ensures
            r == regex_matches(self.matcher().source(), url@),
    {
        self.site.suitable(url)
    }

    pub fn is_native(&self) -> (r: bool)
        ensures
            r,
    {
        true
    }

    pub fn native_matcher_count(&self) -> (r: usize)
        ensures
            r == 1,
    {
        1
    }
}

/// The station record of a radio.de page: the `station` member of the object after
/// `stationService`, else the object after `station`.
pub open spec fn radio_de_station(html: Seq<char>) -> Option<Json> {
    match lookup_in(json_after_marker(html, "stationService"@, '{'), "station"@) {
        Some(s) => Some(s),
        None => json_after_marker(html, "station"@, '{'),
    }
}

/// A number as JSON, or null.
pub open spec fn num_or_null(n: Option<Json>) -> Json {
    match n {
        Some(v) => v,
        None => Json::Null,
    }
}

/// One format per stream that has a `streamUrl`, in order.
pub open spec fn radio_de_formats(streams: Seq<Json>) -> Seq<Json>
    decreases streams.len(),
{
    if streams.len() == 0 {
        Seq::empty()
    } else {
        let rest = radio_de_formats(streams.drop_last());
        let s = streams.last();
        match json_str_at(s, "streamUrl"@) {
            Some(u) => {
                let codec = match json_str_at(s, "streamContentFormat"@) { Some(c) => c, None => "mp3"@ };
                rest.push(Json::Object(Seq::empty()
                    .push(("url"@, Json::Str(u)))
                    .push(("ext"@, Json::Str(lowered(codec))))
                    .push(("acodec"@, Json::Str(codec)))
                    .push(("abr"@, num_or_null(json_num_at(s, "bitRate"@))))
                    .push(("asr"@, num_or_null(json_num_at(s, "sampleRate"@))))))
            },
            None => rest,
        }
    }
}

/// The first of three optional strings that is there.
pub open spec fn first_of3(a: Option<Seq<char>>, b: Option<Seq<char>>, c: Option<Seq<char>>) -> Option<Seq<char>> {
    match a {
        Some(x) => Some(x),
        None => match b {
            Some(x) => Some(x),
            None => c,
        },
    }
}

/// The metadata of a radio.de station from its ID, station record and formats.
pub open spec fn radio_de_info(id: Seq<char>, station: Json, formats: Seq<Json>) -> Map<Seq<char>, Json> {
    let first = formats[0];
    let m0 = Map::<Seq<char>, Json>::empty().insert("id"@, Json::Str(id))
        .insert("title"@, Json::Str(match json_str_at(station, "name"@) { Some(n) => n, None => "radio.de station"@ }));
    let m1 = put_opt(m0, "description"@, opt_str(first_of3(json_str_at(station, "description"@), json_str_at(station, "shortDescription"@), None)));
    let m2 = put_opt(m1, "thumbnail"@, opt_str(first_of3(json_str_at(station, "picture4Url"@), json_str_at(station, "picture4TransUrl"@), json_str_at(station, "logo100x100"@))));
    let m3 = m2.insert("is_live"@, Json::Bool(true));
    let m4 = put_opt(m3, "url"@, opt_str(json_str_at(first, "url"@)));
    let m5 = put_opt(m4, "ext"@, opt_str(json_str_at(first, "ext"@)));
    m5.insert("formats"@, Json::Array(formats))
}

fn radio_de_station_exec(html: &str) -> (r: Option<JsonValue>)
    ensures
        match r {
            Some(v) => radio_de_station(html@) == Some(v@),
            None => radio_de_station(html@) is None,
        },
{
    match json_object_after_marker(html, "stationService") {
        Some(service) => match json_get(&service, "station") {
            Some(st) => return Some(json_clone(st)),
            None => {},
        },
        None => {},
    }
    json_object_after_marker(html, "station")
}

fn radio_de_formats_exec(streams: &Vec<JsonValue>) -> (r: Vec<JsonValue>)
    ensures
        items_view(r@) == radio_de_formats(items_view(streams@)),
{
    let mut out = arr_new();
    let mut i: usize = 0;
    while i < streams.len()
        invariant
            i <= streams@.len(),
            items_view(out@) == radio_de_formats(items_view(streams@).subrange(0, i as int)),
        decreases streams@.len() - i,
    {
        assert(items_view(streams@).subrange(0, i + 1).drop_last() =~= items_view(streams@).subrange(0, i as int));
        let s = &streams[i];
        match json_string(s, "streamUrl") {
            Some(u) => {
                let codec = match json_string(s, "streamContentFormat") { Some(c) => owned(c), None => owned("mp3") };
                let mut f = obj_new();
                obj_add(&mut f, "url", jstr(u));
                obj_add(&mut f, "ext", JsonValue::Str(to_ascii_lowercase(codec.as_str())));
                obj_add(&mut f, "acodec", JsonValue::Str(codec));
                obj_add(&mut f, "abr", match json_f64(s, "bitRate") { Some(v) => v, None => JsonValue::Null });
                obj_add(&mut f, "asr", match json_f64(s, "sampleRate") { Some(v) => v, None => JsonValue::Null });
                arr_add(&mut out, obj_done(f));
            },
            None => {},
        }
        i = i + 1;
    }
    assert(items_view(streams@).subrange(0, streams@.len() as int) =~= items_view(streams@));
    out
}

fn str_member(v: &JsonValue, key: &str) -> (r: Option<JsonValue>)
    ensures
        match r {
            Some(x) => json_str_at(v@, key@) matches Some(s) && x@ == Json::Str(s),
            None => json_str_at(v@, key@) is None,
        },
{
    match json_string(v, key) {
        Some(s) => Some(jstr(s)),
        None => None,
    }
}

impl RadioDeExtractor {
    /// One step of a radio.de extraction: the station page is fetched, then the
    /// station record embedded in it gives the streams.
    pub fn extract_step(&self, url: &str, replies: &Vec<Reply>) -> (r: Result<Step, ExtractorError>)
        ensures
            match regex_named_capture(self.matcher().source(), url@, "id"@) {
                Some(id) => if replies@.len() == 0 {
                    fetches(r, url@, Expect::Text)
                } else {
                    match reply_text_at(replies@, 0) {
                        Some(html) => match radio_de_station(html) {
                            Some(station) => match lookup_in(Some(station), "streamUrls"@) {
                                Some(Json::Array(streams)) => if radio_de_formats(streams).len() > 0 {
                                    done_with(r, radio_de_info(id, station, radio_de_formats(streams)))
                                } else {
                                    fails_with(r, ExtractorErrorKind::Extraction)
                                },
                                _ => fails_with(r, ExtractorErrorKind::Extraction),
                            },
                            None => fails_with(r, ExtractorErrorKind::Extraction),
                        },
                        None => fails_with(r, ExtractorErrorKind::Extraction),
                    }
                },
                None => fails_with(r, ExtractorErrorKind::InvalidUrl),
            },
    {
        let radio_id = match self.site.capture(url, "id") {
            Some(v) => v,
            None => return Err(fail(ExtractorErrorKind::InvalidUrl, "radio.de URL has no ID")),
        };
        if replies.len() == 0 {
            return Ok(Step::Fetch(get_text(owned(url))));
        }
        let html = reply_text(replies, 0)?;
        let station = match radio_de_station_exec(html.as_str()) {
            Some(s) => s,
            None => return Err(fail(ExtractorErrorKind::Extraction, "radio.de station has no broadcast data")),
        };
        let streams = match json_get(&station, "streamUrls") {
            Some(JsonValue::Array(a)) => a,
            _ => return Err(fail(ExtractorErrorKind::Extraction, "radio.de station has no streams")),
        };
        proof { lemma_array_view(JsonValue::Array(*streams)); }
        let formats = radio_de_formats_exec(streams);
        if formats.len() == 0 {
            return Err(fail(ExtractorErrorKind::Extraction, "radio.de station has no playable streams"));
        }
        let first = &formats[0];
        let mut info = InfoDict::new();
        info.insert("id", JsonValue::Str(radio_id.clone()));
        info.insert("title", match json_string(&station, "name") { Some(n) => jstr(n), None => jstr("radio.de station") });
        let description = match str_member(&station, "description") { Some(v) => Some(v), None => str_member(&station, "shortDescription") };
        info.insert_if_some("description", description);
        let thumbnail = match str_member(&station, "picture4Url") {
            Some(v) => Some(v),
            None => match str_member(&station, "picture4TransUrl") { Some(v) => Some(v), None => str_member(&station, "logo100x100") },
        };
        info.insert_if_some("thumbnail", thumbnail);
        info.insert("is_live", JsonValue::Bool(true));
        info.insert_if_some("url", str_member(first, "url"));
        info.insert_if_some("ext", str_member(first, "ext"));
        info.insert("formats", arr_done(formats));
        Ok(Step::Done(ExtractorResult::single(info)))
    }
}

} // verus!
