use vstd::prelude::*;

use crate::extract::{determine_ext, ext_of, json_index, json_item_of, jstr, lookup_in, opt_int, opt_str, put_opt, reply_json, reply_json_at, reply_text, reply_text_at, str_in};
use crate::framework::{Expect, ExtractorDescriptor, ExtractorError, ExtractorErrorKind, ExtractorResult, Reply, SiteMatcher, Step, descriptor_ok, descriptor_source, done_with, fail, fails_with, fetches, get_json, get_text, descriptor_error};
use crate::info::{InfoDict};
use crate::json::{Json, JsonValue, arr_add, arr_done, arr_new, json_clone, json_get, json_lookup, json_str_at, json_string, obj_add, obj_done, obj_new};
use crate::pattern::{first_group, regex_first_group, regex_matches, regex_named_capture};
use crate::text::{concat3, owned, trim, trimmed};

verus! {

/// Native RadioZET podcast API extractor.
pub struct RadioZetPodcastExtractor {
    site: SiteMatcher,
}

impl RadioZetPodcastExtractor {
    /// The descriptor and matcher the extractor was built with.
    pub closed spec fn matcher(&self) -> SiteMatcher {
        self.site
    }

    pub fn new(descriptor: ExtractorDescriptor) -> (r: Result<Self, ExtractorError>)
        ensures
            r is Ok <==> descriptor_ok(descriptor),
            r matches Ok(x) ==> x.matcher().spec_descriptor() == descriptor
                && Some(x.matcher().source()) == descriptor_source(descriptor),
            r matches Err(e) ==> e.kind == ExtractorErrorKind::Extraction && e.message@ == descriptor_error(descriptor),
    {
        match SiteMatcher::from_descriptor(descriptor) {
            Ok(site) => Ok(RadioZetPodcastExtractor { site }),
            Err(e) => Err(e),
        }
    }

    pub fn descriptor(&self) -> (r: &ExtractorDescriptor)
        ensures
            *r == self.matcher().spec_descriptor(),
    {
        self.site.descriptor()
    }

    pub fn suitable(&self, url: &str) -> (r: bool)
        ensures
            r == regex_matches(self.matcher().source(), url@),
    {
        self.site.suitable(url)
    }

    pub fn is_native(&self) -> (r: bool)
        ensures
            r,
    {
        true
    }

    pub fn native_matcher_count(&self) -> (r: usize)
        ensures
            r == 1,
    {
        1
    }
}

/// The pattern of a RadioZET page's player ID.
pub open spec fn radio_zet_player_pattern() -> Seq<char> {
    "(?is)<div\\b[^>]*\\bid\\s*=\\s*[\"']player[\"'][^>]*\\bdata-id\\s*=\\s*[\"']([^\"']+)"@
}

/// The podcast API address of a RadioZET podcast.
pub open spec fn radio_zet_api_url(podcast: Seq<char>) -> Seq<char> {
    "https://player.radiozet.pl/api/podcasts/getPodcast/(node)/"@ + podcast + "/(station)/radiozet"@
}

/// A string trimmed, when it is not blank.
pub open spec fn trimmed_nonblank(s: Option<Seq<char>>) -> Option<Seq<char>> {
    match s {
        Some(t) => if trimmed(t).len() > 0 { Some(trimmed(t)) } else { None },
        None => None,
    }
}

/// A publication time given as an integer or as a decimal text.
pub open spec fn int_or_text(v: Option<Json>) -> Option<int> {
    match v {
        Some(Json::Int(i)) => Some(i),
        Some(Json::Str(s)) => crate::number::parsed_int(s),
        _ => None,
    }
}

/// The metadata of a RadioZET podcast from its IDs and its API record.
pub open spec fn radio_zet_info(podcast: Seq<char>, display: Seq<char>, data: Json, stream: Seq<char>) -> Map<Seq<char>, Json> {
    let program = json_lookup(data, "program"@);
    let ext = ext_of(stream, "mp3"@);
    let m0 = Map::<Seq<char>, Json>::empty().insert("id"@, Json::Str(podcast)).insert("display_id"@, Json::Str(display));
    let m1 = put_opt(m0, "title"@, opt_str(trimmed_nonblank(json_str_at(data, "title"@))));
    let m2 = put_opt(m1, "description"@, opt_str(trimmed_nonblank(str_in(program, "desc"@))));
    let m3 = put_opt(m2, "release_timestamp"@, opt_int(int_or_text(json_lookup(data, "published_date"@))));
    let m4 = put_opt(m3, "thumbnail"@, opt_str(str_in(lookup_in(program, "image"@), "original"@)));
    let m5 = put_opt(m4, "duration"@, lookup_in(json_lookup(data, "player"@), "duration"@));
    let m6 = put_opt(m5, "series"@, opt_str(trimmed_nonblank(str_in(program, "title"@))));
    let m7 = put_opt(m6, "creator"@, opt_str(trimmed_nonblank(str_in(json_item_of(json_lookup(data, "presenter"@), 0), "title"@))));
    m7.insert("url"@, Json::Str(stream)).insert("ext"@, Json::Str(ext)).insert("formats"@, Json::Array(seq![Json::Object(Seq::empty()
        .push(("url"@, Json::Str(stream)))
        .push(("format_id"@, Json::Str("source"@)))
        .push(("ext"@, Json::Str(ext))))]))
}

fn trimmed_str(v: Option<&str>) -> (r: Option<JsonValue>)
    ensures
        r == None::<JsonValue> <==> trimmed_nonblank(match v { Some(s) => Some(s@), None => None }) is None,
        r matches Some(x) ==> Some(x@) == opt_str(trimmed_nonblank(match v { Some(s) => Some(s@), None => None })),
{
    match v {
        Some(s) => {
            let t = trim(s);
            if t.unicode_len() > 0 { Some(JsonValue::Str(t)) } else { None }
        },
        None => None,
    }
}

fn opt_member<'a>(v: Option<&'a JsonValue>, key: &str) -> (r: Option<&'a JsonValue>)
    ensures
        match r {
            Some(x) => lookup_in(match v { Some(y) => Some(y@), None => None }, key@) == Some(x@),
            None => lookup_in(match v { Some(y) => Some(y@), None => None }, key@) is None,
        },
{
    match v {
        Some(y) => json_get(y, key),
        None => None,
    }
}

fn opt_string<'a>(v: Option<&'a JsonValue>, key: &str) -> (r: Option<&'a str>)
    ensures
        match r {
            Some(x) => str_in(match v { Some(y) => Some(y@), None => None }, key@) == Some(x@),
            None => str_in(match v { Some(y) => Some(y@), None => None }, key@) is None,
        },
{
    match v {
        Some(y) => json_string(y, key),
        None => None,
    }
}

impl RadioZetPodcastExtractor {
    /// One step of a RadioZET extraction: the podcast page is fetched for its player ID,
    /// then the podcast's API record, then the metadata is built.
    pub fn extract_step(&self, url: &str, replies: &Vec<Reply>) -> (r: Result<Step, ExtractorError>)
        ensures
            match regex_named_capture(self.matcher().source(), url@, "id"@) {
                Some(display) => if replies@.len() == 0 {
                    fetches(r, url@, Expect::Text)
                } else {
                    match reply_text_at(replies@, 0) {
                        Some(html) => match first_group(radio_zet_player_pattern(), html, 1) {
                            Some(podcast) => if replies@.len() == 1 {
                                fetches(r, radio_zet_api_url(podcast), Expect::Json)
                            } else {
                                match reply_json_at(replies@, 1) {
                                    Some(resp) => match json_item_of(json_lookup(resp@, "data"@), 0) {
                                        Some(data) => match str_in(json_lookup(data, "player"@), "stream"@) {
                                            Some(stream) => done_with(r, radio_zet_info(podcast, display, data, stream)),
                                            None => fails_with(r, ExtractorErrorKind::Extraction),
                                        },
                                        None => fails_with(r, ExtractorErrorKind::Extraction),
                                    },
                                    None => fails_with(r, ExtractorErrorKind::Extraction),
                                }
                            },
                            None => fails_with(r, ExtractorErrorKind::Extraction),
                        },
                        None => fails_with(r, ExtractorErrorKind::Extraction),
                    }
                },
                None => fails_with(r, ExtractorErrorKind::InvalidUrl),
            },
    {
        let display_id = match self.site.capture(url, "id") {
            Some(v) => v,
            None => return Err(fail(ExtractorErrorKind::InvalidUrl, "RadioZET URL has no ID")),
        };
        if replies.len() == 0 {
            return Ok(Step::Fetch(get_text(owned(url))));
        }
        let html = reply_text(replies, 0)?;
        let podcast_id = match regex_first_group("(?is)<div\\b[^>]*\\bid\\s*=\\s*[\"']player[\"'][^>]*\\bdata-id\\s*=\\s*[\"']([^\"']+)", html.as_str(), 1) {
            Some(p) => p,
            None => return Err(fail(ExtractorErrorKind::Extraction, "RadioZET podcast has no player ID")),
        };
        if replies.len() == 1 {
            return Ok(Step::Fetch(get_json(concat3("https://player.radiozet.pl/api/podcasts/getPodcast/(node)/", podcast_id.as_str(), "/(station)/radiozet"))));
        }
        let response = reply_json(replies, 1)?;
        let data = match json_get(response, "data") {
            Some(d) => match json_index(d, 0) {
                Some(x) => x,
                None => return Err(fail(ExtractorErrorKind::Extraction, "RadioZET podcast has no API record")),
            },
            None => return Err(fail(ExtractorErrorKind::Extraction, "RadioZET podcast has no API record")),
        };
        let player = json_get(data, "player");
        let stream = match opt_string(player, "stream") {
            Some(s) => owned(s),
            None => return Err(fail(ExtractorErrorKind::Extraction, "RadioZET podcast has no audio stream")),
        };
        let program = json_get(data, "program");
        let mut info = InfoDict::new();
        info.insert("id", JsonValue::Str(podcast_id.clone()));
        info.insert("display_id", JsonValue::Str(display_id.clone()));
        info.insert_if_some("title", trimmed_str(json_string(data, "title")));
        info.insert_if_some("description", trimmed_str(opt_string(program, "desc")));
        let published = match json_get(data, "published_date") {
            Some(JsonValue::Int(i)) => Some(JsonValue::Int(*i)),
            Some(JsonValue::Str(s)) => match crate::number::parse_int(s.as_str()) { Some(i) => Some(JsonValue::Int(i)), None => None },
            _ => None,
        };
        info.insert_if_some("release_timestamp", published);
        info.insert_if_some("thumbnail", match opt_string(opt_member(program, "image"), "original") { Some(s) => Some(jstr(s)), None => None });
        info.insert_if_some("duration", match opt_member(player, "duration") { Some(d) => Some(json_clone(d)), None => None });
        info.insert_if_some("series", trimmed_str(opt_string(program, "title")));
        let presenter = match json_get(data, "presenter") { Some(p) => json_index(p, 0), None => None };
        info.insert_if_some("creator", trimmed_str(opt_string(presenter, "title")));
        let ext = determine_ext(stream.as_str(), "mp3");
        info.insert("url", JsonValue::Str(stream.clone()));
        info.insert("ext", JsonValue::Str(ext.clone()));
        let mut f = obj_new();
        obj_add(&mut f, "url", JsonValue::Str(stream.clone()));
        obj_add(&mut f, "format_id", jstr("source"));
        obj_add(&mut f, "ext", JsonValue::Str(ext));
        let mut items = arr_new();
        arr_add(&mut items, obj_done(f));
        info.insert("formats", arr_done(items));
        Ok(Step::Done(ExtractorResult::single(info)))
    }
}

} // verus!
