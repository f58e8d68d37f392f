use vstd::prelude::*;

use crate::sites::gab::{text_of};
use crate::extract::{jstr, opt_str, opt_str_json, put_opt, reply_json, reply_json_at, str_in, str_opt_view};
use crate::framework::{Expect, ExtractorDescriptor, ExtractorError, ExtractorErrorKind, ExtractorResult, Reply, SiteMatcher, Step, descriptor_ok, descriptor_source, done_with, fail, fails_with, fetches, get_json, descriptor_error};
use crate::info::{InfoDict};
use crate::json::{Json, JsonValue, arr_add, arr_done, arr_new, fields_view, items_view, json_get, json_lookup, json_str_at, json_string, obj_add, obj_done, obj_new};
use crate::jsontext::{json_value_string};
use crate::pattern::{regex_matches, regex_named_capture};
use crate::text::{concat2, concat3};

verus! {

/// Native ReverbNation song API/audio extractor.
pub struct ReverbNationExtractor {
    site: SiteMatcher,
}

impl ReverbNationExtractor {
    /// The descriptor and matcher the extractor was built with.
    pub closed spec fn matcher(&self) -> SiteMatcher {
        self.site
    }

    pub fn new(descriptor: ExtractorDescriptor) -> (r: Result<Self, ExtractorError>)
        ensures
            r is Ok <==> descriptor_ok(descriptor),
            r matches Ok(x) ==> x.matcher().spec_descriptor() == descriptor
                && Some(x.matcher().source()) == descriptor_source(descriptor),
            r matches Err(e) ==> e.kind == ExtractorErrorKind::Extraction && e.message@ == descriptor_error(descriptor),
    {
        match SiteMatcher::from_descriptor(descriptor) {
            Ok(site) => Ok(ReverbNationExtractor { site }),
            Err(e) => Err(e),
        }
    }

    pub fn descriptor(&self) -> (r: &ExtractorDescriptor)
        ensures
            *r == self.matcher().spec_descriptor(),
    {
        self.site.descriptor()
    }

    pub fn suitable(&self, url: &str) -> (r: bool)
        ensures
            r == regex_matches(self.matcher().source(), url@),
    {
        self.site.suitable(url)
    }

    pub fn is_native(&self) -> (r: bool)
        ensures
            r,
    {
        true
    }

    pub fn native_matcher_count(&self) -> (r: usize)
        ensures
            r == 1,
    {
        1
    }
}


/// A non-empty string member of `v`.
pub open spec fn nonempty_str_at(v: Json, key: Seq<char>) -> Option<Seq<char>> {
    match json_str_at(v, key) {
        Some(s) => if s.len() > 0 { Some(s) } else { None },
        None => None,
    }
}

/// The thumbnail of preference `p` stored under `key`, when there is one.
pub open spec fn reverb_thumb(data: Json, key: Seq<char>, p: int) -> Seq<Json> {
    match nonempty_str_at(data, key) {
        Some(t) => seq![Json::Object(seq![("url"@, Json::Str(t)), ("preference"@, Json::Int(p))])],
        None => Seq::empty(),
    }
}

/// The metadata of a ReverbNation song.
pub open spec fn reverb_info(id: Seq<char>, data: Json, media: Seq<char>, title: Seq<char>) -> Map<Seq<char>, Json> {
    let artist = json_lookup(data, "artist"@);
    let thumbs = reverb_thumb(data, "thumbnail"@, 0) + reverb_thumb(data, "image"@, 1);
    let m = put_opt(put_opt(Map::<Seq<char>, Json>::empty()
        .insert("id"@, Json::Str(id))
        .insert("title"@, Json::Str(title))
        .insert("url"@, Json::Str(media))
        .insert("ext"@, Json::Str("mp3"@))
        .insert("vcodec"@, Json::Str("none"@))
        .insert("formats"@, Json::Array(seq![Json::Object(seq![
            ("url"@, Json::Str(media)),
            ("format_id"@, Json::Str("mp3"@)),
            ("ext"@, Json::Str("mp3"@)),
            ("vcodec"@, Json::Str("none"@)),
            ("acodec"@, Json::Str("mp3"@)),
        ])])),
        "uploader"@, opt_str(str_in(artist, "name"@))),
        "uploader_id"@, opt_str(match artist { Some(a) => text_of(json_lookup(a, "id"@)), None => None }));
    if thumbs.len() > 0 { m.insert("thumbnails"@, Json::Array(thumbs)) } else { m }
}

/// A non-empty string member of `v`.
fn nonempty_string<'a>(v: &'a JsonValue, key: &str) -> (r: Option<&'a str>)
    ensures
        str_opt_view(r) == nonempty_str_at(v@, key@),
{
    match json_string(v, key) {
        Some(s) => if s.unicode_len() > 0 { Some(s) } else { None },
        None => None,
    }
}

impl ReverbNationExtractor {
    /// One step of a ReverbNation extraction: the song record is asked of the API, then
    /// the metadata is built from it.
    pub fn extract_step(&self, url: &str, replies: &Vec<Reply>) -> (r: Result<Step, ExtractorError>)
        ensures
            match regex_named_capture(self.matcher().source(), url@, "id"@) {
                Some(id) => if replies@.len() == 0 {
                    fetches(r, "https://api.reverbnation.com/song/"@ + id, Expect::Json)
                } else {
                    match reply_json_at(replies@, 0) {
                        Some(data) => match nonempty_str_at(data@, "url"@) {
                            Some(media) => match json_str_at(data@, "name"@) {
                                Some(title) => done_with(r, reverb_info(id, data@, media, title)),
                                None => fails_with(r, ExtractorErrorKind::Extraction),
                            },
                            None => fails_with(r, ExtractorErrorKind::Extraction),
                        },
                        None => fails_with(r, ExtractorErrorKind::Extraction),
                    }
                },
                None => fails_with(r, ExtractorErrorKind::InvalidUrl),
            },
    {
        let song_id = match self.site.capture(url, "id") {
            Some(v) => v,
            None => return Err(fail(ExtractorErrorKind::InvalidUrl, "ReverbNation URL has no song ID")),
        };
        if replies.len() == 0 {
            return Ok(Step::Fetch(get_json(concat2("https://api.reverbnation.com/song/", song_id.as_str()))));
        }
        let data = reply_json(replies, 0)?;
        let media = match nonempty_string(data, "url") {
            Some(m) => m,
            None => return Err(ExtractorError::new(ExtractorErrorKind::Extraction, concat3("ReverbNation song ", song_id.as_str(), " has no audio URL"))),
        };
        let title = match json_string(data, "name") {
            Some(t) => t,
            None => return Err(ExtractorError::new(ExtractorErrorKind::Extraction, concat3("ReverbNation song ", song_id.as_str(), " has no title"))),
        };
        let mut thumbs = arr_new();
        match nonempty_string(data, "thumbnail") {
            Some(t) => {
                let mut o = obj_new();
                obj_add(&mut o, "url", jstr(t));
                obj_add(&mut o, "preference", JsonValue::Int(0));
                assert(fields_view(o@) =~= seq![("url"@, Json::Str(t@)), ("preference"@, Json::Int(0))]);
                arr_add(&mut thumbs, obj_done(o));
            },
            None => {},
        }
        assert(items_view(thumbs@) =~= reverb_thumb(data@, "thumbnail"@, 0));
        match nonempty_string(data, "image") {
            Some(t) => {
                let mut o = obj_new();
                obj_add(&mut o, "url", jstr(t));
                obj_add(&mut o, "preference", JsonValue::Int(1));
                assert(fields_view(o@) =~= seq![("url"@, Json::Str(t@)), ("preference"@, Json::Int(1))]);
                arr_add(&mut thumbs, obj_done(o));
            },
            None => {},
        }
        assert(items_view(thumbs@) =~= reverb_thumb(data@, "thumbnail"@, 0) + reverb_thumb(data@, "image"@, 1));
        let artist = json_get(data, "artist");
        let mut info = InfoDict::new();
        info.insert("id", JsonValue::Str(song_id.clone()));
        info.insert("title", jstr(title));
        info.insert("url", jstr(media));
        info.insert("ext", jstr("mp3"));
        info.insert("vcodec", jstr("none"));
        let mut f = obj_new();
        obj_add(&mut f, "url", jstr(media));
        obj_add(&mut f, "format_id", jstr("mp3"));
        obj_add(&mut f, "ext", jstr("mp3"));
        obj_add(&mut f, "vcodec", jstr("none"));
        obj_add(&mut f, "acodec", jstr("mp3"));
        assert(fields_view(f@) =~= seq![
            ("url"@, Json::Str(media@)),
            ("format_id"@, Json::Str("mp3"@)),
            ("ext"@, Json::Str("mp3"@)),
            ("vcodec"@, Json::Str("none"@)),
            ("acodec"@, Json::Str("mp3"@)),
        ]);
        let mut a = arr_new();
        arr_add(&mut a, obj_done(f));
        info.insert("formats", arr_done(a));
        info.insert_if_some("uploader", match artist { Some(x) => opt_str_json(json_string(x, "name")), None => None });
        info.insert_if_some("uploader_id", match artist {
            Some(x) => match json_value_string(json_get(x, "id")) { Some(s) => Some(JsonValue::Str(s)), None => None },
            None => None,
        });
        if thumbs.len() > 0 {
            info.insert("thumbnails", arr_done(thumbs));
        }
        Ok(Step::Done(ExtractorResult::single(info)))
    }
}

} // verus!
