use vstd::prelude::*;

use crate::extract::{json_index, json_item_of, jstr, opt_str, put_opt, remove_char, reply_json, reply_json_at, str_in, without_char};
use crate::framework::{Expect, ExtractorDescriptor, ExtractorError, ExtractorErrorKind, ExtractorResult, Reply, SiteMatcher, Step, descriptor_ok, descriptor_source, done_with, fail, fails_with, fetches, get_json, descriptor_error};
use crate::info::{InfoDict};
use crate::json::{Json, JsonValue, arr_add, arr_done, arr_new, fields_view, items_view, json_get, json_lookup, json_str_at, json_string, lemma_object_view, obj_add, obj_done, obj_new};
use crate::pattern::{regex_first_captures, regex_matches, regex_named_capture};
use crate::text::{concat3, owned};

verus! {

/// Native Masters tournament video API extractor.
pub struct MastersExtractor {
    site: SiteMatcher,
}

impl MastersExtractor {
    /// The descriptor and matcher the extractor was built with.
    pub closed spec fn matcher(&self) -> SiteMatcher {
        self.site
    }

    pub fn new(descriptor: ExtractorDescriptor) -> (r: Result<Self, ExtractorError>)
        ensures
            r is Ok <==> descriptor_ok(descriptor),
            r matches Ok(x) ==> x.matcher().spec_descriptor() == descriptor
                && Some(x.matcher().source()) == descriptor_source(descriptor),
            r matches Err(e) ==> e.kind == ExtractorErrorKind::Extraction && e.message@ == descriptor_error(descriptor),
    {
        match SiteMatcher::from_descriptor(descriptor) {
            Ok(site) => Ok(MastersExtractor { site }),
            Err(e) => Err(e),
        }
    }

    pub fn descriptor(&self) -> (r: &ExtractorDescriptor)
        ensures
            *r == self.matcher().spec_descriptor(),
    {
        self.site.descriptor()
    }

    pub fn suitable(&self, url: &str) -> (r: bool)
        ensures
            r == regex_matches(self.matcher().source(), url@),
    {
        self.site.suitable(url)
    }

    pub fn is_native(&self) -> (r: bool)
        ensures
            r,
    {
        true
    }

    pub fn native_matcher_count(&self) -> (r: usize)
        ensures
            r == 1,
    {
        1
    }
}

/// The content API address of a Masters video.
pub open spec fn masters_api_url(id: Seq<char>) -> Seq<char> {
    "https://www.masters.com/relatedcontent/rest/v2/masters_v1/en/content/masters_v1_"@ + id + "_en"@
}

/// One thumbnail per image member whose value is a string, in order.
pub open spec fn masters_thumbnails(images: Seq<(Seq<char>, Json)>) -> Seq<Json>
    decreases images.len(),
{
    if images.len() == 0 {
        Seq::empty()
    } else {
        let rest = masters_thumbnails(images.drop_last());
        match images.last().1 {
            Json::Str(u) => rest.push(Json::Object(Seq::empty().push(("id"@, Json::Str(images.last().0))).push(("url"@, Json::Str(u))))),
            _ => rest,
        }
    }
}

/// The HLS address of a Masters video record.
pub open spec fn masters_media(data: Json) -> Option<Seq<char>> {
    str_in(json_lookup(data, "media"@), "m3u8"@)
}

/// The metadata of a Masters video from its ID, date and content record.
pub open spec fn masters_info(id: Seq<char>, date: Seq<char>, data: Json, media: Seq<char>) -> Map<Seq<char>, Json> {
    let m0 = Map::<Seq<char>, Json>::empty().insert("id"@, Json::Str(id));
    let m1 = put_opt(m0, "title"@, opt_str(json_str_at(data, "title"@)));
    let m2 = m1.insert("upload_date"@, Json::Str(date)).insert("url"@, Json::Str(media)).insert("ext"@, Json::Str("mp4"@)).insert(
        "formats"@,
        Json::Array(seq![Json::Object(Seq::empty()
            .push(("url"@, Json::Str(media)))
            .push(("format_id"@, Json::Str("hls"@)))
            .push(("ext"@, Json::Str("mp4"@)))
            .push(("protocol"@, Json::Str("m3u8_native"@))))]),
    );
    match json_item_of(json_lookup(data, "images"@), 0) {
        Some(Json::Object(images)) => if masters_thumbnails(images).len() > 0 {
            m2.insert("thumbnails"@, Json::Array(masters_thumbnails(images)))
        } else {
            m2
        },
        _ => m2,
    }
}

/// The date part of a Masters URL without its dashes (empty when the URL has none).
pub open spec fn masters_date(source: Seq<char>, url: Seq<char>) -> Seq<char> {
    match regex_named_capture(source, url, "date"@) {
        Some(d) => without_char(d, '-'),
        None => Seq::empty(),
    }
}

fn masters_thumbs(images: &Vec<(String, JsonValue)>) -> (r: Vec<JsonValue>)
    ensures
        items_view(r@) == masters_thumbnails(fields_view(images@)),
{
    let mut out = arr_new();
    let mut i: usize = 0;
    while i < images.len()
        invariant
            i <= images@.len(),
            items_view(out@) == masters_thumbnails(fields_view(images@).subrange(0, i as int)),
        decreases images@.len() - i,
    {
        assert(fields_view(images@).subrange(0, i + 1).drop_last() =~= fields_view(images@).subrange(0, i as int));
        match &images[i].1 {
            JsonValue::Str(u) => {
                let mut f = obj_new();
                obj_add(&mut f, "id", JsonValue::Str(images[i].0.clone()));
                obj_add(&mut f, "url", JsonValue::Str(u.clone()));
                arr_add(&mut out, obj_done(f));
            },
            _ => {},
        }
        i = i + 1;
    }
    assert(fields_view(images@).subrange(0, images@.len() as int) =~= fields_view(images@));
    out
}

impl MastersExtractor {
    /// One step of a Masters extraction: the content record is fetched, then the
    /// video's metadata is built from it.
    pub fn extract_step(&self, url: &str, replies: &Vec<Reply>) -> (r: Result<Step, ExtractorError>)
        ensures
            regex_first_captures(self.matcher().source(), url@) is None ==> fails_with(r, ExtractorErrorKind::InvalidUrl),
            regex_first_captures(self.matcher().source(), url@) is Some ==> match regex_named_capture(self.matcher().source(), url@, "id"@) {
                Some(id) => if replies@.len() == 0 {
                    fetches(r, masters_api_url(id), Expect::Json)
                } else {
                    match reply_json_at(replies@, 0) {
                        Some(data) => match masters_media(data@) {
                            Some(media) => done_with(r, masters_info(id, masters_date(self.matcher().source(), url@), data@, media)),
                            None => fails_with(r, ExtractorErrorKind::Extraction),
                        },
                        None => fails_with(r, ExtractorErrorKind::Extraction),
                    }
                },
                None => fails_with(r, ExtractorErrorKind::InvalidUrl),
            },
    {
        if self.site.captures(url).is_none() {
            return Err(fail(ExtractorErrorKind::InvalidUrl, "Masters URL did not match its native pattern"));
        }
        let video_id = match self.site.capture(url, "id") {
            Some(v) => v,
            None => return Err(fail(ExtractorErrorKind::InvalidUrl, "Masters URL has no ID")),
        };
        proof { reveal_strlit(""); }
        let date = match self.site.capture(url, "date") {
            Some(d) => remove_char(d.as_str(), '-'),
            None => owned(""),
        };
        assert(date@ == masters_date(self.site.source(), url@));
        if replies.len() == 0 {
            return Ok(Step::Fetch(get_json(concat3(
                "https://www.masters.com/relatedcontent/rest/v2/masters_v1/en/content/masters_v1_",
                video_id.as_str(),
                "_en",
            ))));
        }
        let data = reply_json(replies, 0)?;
        let media = match json_get(data, "media") {
            Some(m) => match json_string(m, "m3u8") {
                Some(u) => owned(u),
                None => return Err(fail(ExtractorErrorKind::Extraction, "Masters video has no HLS URL")),
            },
            None => return Err(fail(ExtractorErrorKind::Extraction, "Masters video has no HLS URL")),
        };
        let mut info = InfoDict::new();
        info.insert("id", JsonValue::Str(video_id.clone()));
        info.insert_if_some("title", match json_string(data, "title") { Some(v) => Some(jstr(v)), None => None });
        info.insert("upload_date", JsonValue::Str(date));
        info.insert("url", JsonValue::Str(media.clone()));
        info.insert("ext", jstr("mp4"));
        let mut f = obj_new();
        obj_add(&mut f, "url", JsonValue::Str(media.clone()));
        obj_add(&mut f, "format_id", jstr("hls"));
        obj_add(&mut f, "ext", jstr("mp4"));
        obj_add(&mut f, "protocol", jstr("m3u8_native"));
        let mut items = arr_new();
        arr_add(&mut items, obj_done(f));
        info.insert("formats", arr_done(items));
        match json_get(data, "images") {
            Some(imgs) => match json_index(imgs, 0) {
                Some(first) => match first {
                    JsonValue::Object(images) => {
                        proof { lemma_object_view(*first); }
                        let thumbs = masters_thumbs(images);
                        if thumbs.len() > 0 {
                            info.insert("thumbnails", arr_done(thumbs));
                        }
                    },
                    _ => {},
                },
                None => {},
            },
            None => {},
        }
        assert(info@ =~= masters_info(video_id@, date@, data@, media@));
        Ok(Step::Done(ExtractorResult::single(info)))
    }
}

} // verus!
