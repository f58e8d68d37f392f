use vstd::prelude::*;

use crate::extract::{jstr, opt_str, opt_str_json, proto_relative, proto_relative_url, put_opt, reply_json, reply_json_at, str_in};
use crate::framework::{Expect, ExtractorDescriptor, ExtractorError, ExtractorErrorKind, ExtractorResult, Reply, SiteMatcher, Step, descriptor_ok, descriptor_source, done_with, fail, fails_with, fetches, get_json, descriptor_error};
use crate::info::{InfoDict};
use crate::json::{Json, JsonValue, arr_add, arr_done, arr_new, fields_view, json_get, json_lookup, json_str_at, json_string, obj_add, obj_done, obj_new};
use crate::pattern::{regex_matches, regex_named_capture};
use crate::text::{concat3, owned};

verus! {

/// Native Graspop festival extractor. The festival API returns the HLS asset
/// and poster metadata in one JSON response; the manifest URL is handed on.
pub struct GraspopExtractor {
    site: SiteMatcher,
}

impl GraspopExtractor {
    /// The descriptor and matcher the extractor was built with.
    pub closed spec fn matcher(&self) -> SiteMatcher {
        self.site
    }

    pub fn new(descriptor: ExtractorDescriptor) -> (r: Result<Self, ExtractorError>)
        ensures
            r is Ok <==> descriptor_ok(descriptor),
            r matches Ok(x) ==> x.matcher().spec_descriptor() == descriptor
                && Some(x.matcher().source()) == descriptor_source(descriptor),
            r matches Err(e) ==> e.kind == ExtractorErrorKind::Extraction && e.message@ == descriptor_error(descriptor),
    {
        match SiteMatcher::from_descriptor(descriptor) {
            Ok(site) => Ok(GraspopExtractor { site }),
            Err(e) => Err(e),
        }
    }

    pub fn descriptor(&self) -> (r: &ExtractorDescriptor)
        ensures
            *r == self.matcher().spec_descriptor(),
    {
        self.site.descriptor()
    }

    pub fn suitable(&self, url: &str) -> (r: bool)
        ensures
            r == regex_matches(self.matcher().source(), url@),
    {
        self.site.suitable(url)
    }

    pub fn is_native(&self) -> (r: bool)
        ensures
            r,
    {
        true
    }

    pub fn native_matcher_count(&self) -> (r: usize)
        ensures
            r == 1,
    {
        1
    }
}


/// The stream record address of Graspop video `id`.
pub open spec fn graspop_api(id: Seq<char>) -> Seq<char> {
    "https://tv.proximus.be/MWC/videocenter/festivals/"@ + id + "/stream"@
}

/// The metadata of a Graspop video; `asset` is its HLS asset address as given.
pub open spec fn graspop_info(id: Seq<char>, meta: Json, asset: Seq<char>) -> Map<Seq<char>, Json> {
    let u = proto_relative(asset, "http:"@);
    put_opt(Map::<Seq<char>, Json>::empty()
        .insert("id"@, Json::Str(id))
        .insert("title"@, Json::Str(match json_str_at(meta, "name"@) {
            Some(n) => if n.len() > 0 { n } else { id },
            None => id,
        }))
        .insert("url"@, Json::Str(u))
        .insert("ext"@, Json::Str("mp4"@))
        .insert("formats"@, Json::Array(seq![Json::Object(seq![
            ("url"@, Json::Str(u)),
            ("format_id"@, Json::Str("hls"@)),
            ("ext"@, Json::Str("mp4"@)),
            ("protocol"@, Json::Str("m3u8_native"@)),
        ])])),
        "thumbnail"@, opt_str(str_in(json_lookup(meta, "source"@), "poster"@)))
}

impl GraspopExtractor {
    /// One step of a Graspop extraction: the stream record gives the HLS asset, whose
    /// scheme-relative address is taken as `http:`.
    pub fn extract_step(&self, url: &str, replies: &Vec<Reply>) -> (r: Result<Step, ExtractorError>)
        ensures
            match regex_named_capture(self.matcher().source(), url@, "id"@) {
                Some(id) => if replies@.len() == 0 {
                    fetches(r, graspop_api(id), Expect::Json)
                } else {
                    match reply_json_at(replies@, 0) {
                        Some(meta) => match str_in(json_lookup(meta@, "source"@), "assetUri"@) {
                            Some(a) => if a.len() > 0 {
                                done_with(r, graspop_info(id, meta@, a))
                            } else {
                                fails_with(r, ExtractorErrorKind::Extraction)
                            },
                            None => fails_with(r, ExtractorErrorKind::Extraction),
                        },
                        None => fails_with(r, ExtractorErrorKind::Extraction),
                    }
                },
                None => fails_with(r, ExtractorErrorKind::InvalidUrl),
            },
    {
        let video_id = match self.site.capture(url, "id") {
            Some(v) => v,
            None => return Err(fail(ExtractorErrorKind::InvalidUrl, "Graspop URL has no ID")),
        };
        if replies.len() == 0 {
            return Ok(Step::Fetch(get_json(concat3("https://tv.proximus.be/MWC/videocenter/festivals/", video_id.as_str(), "/stream"))));
        }
        let meta = reply_json(replies, 0)?;
        let source = json_get(meta, "source");
        let asset = match source {
            Some(s) => match json_string(s, "assetUri") {
                Some(a) => if a.unicode_len() > 0 { a } else {
                    return Err(ExtractorError::new(ExtractorErrorKind::Extraction, concat3("Graspop video ", video_id.as_str(), " has no HLS asset")));
                },
                None => return Err(ExtractorError::new(ExtractorErrorKind::Extraction, concat3("Graspop video ", video_id.as_str(), " has no HLS asset"))),
            },
            None => return Err(ExtractorError::new(ExtractorErrorKind::Extraction, concat3("Graspop video ", video_id.as_str(), " has no HLS asset"))),
        };
        let u = proto_relative_url(asset, "http:");
        let title = match json_string(meta, "name") {
            Some(n) => if n.unicode_len() > 0 { owned(n) } else { video_id.clone() },
            None => video_id.clone(),
        };
        let mut info = InfoDict::new();
        info.insert("id", JsonValue::Str(video_id.clone()));
        info.insert("title", JsonValue::Str(title));
        info.insert("url", jstr(u.as_str()));
        info.insert("ext", jstr("mp4"));
        let mut f = obj_new();
        obj_add(&mut f, "url", jstr(u.as_str()));
        obj_add(&mut f, "format_id", jstr("hls"));
        obj_add(&mut f, "ext", jstr("mp4"));
        obj_add(&mut f, "protocol", jstr("m3u8_native"));
        assert(fields_view(f@) =~= seq![
            ("url"@, Json::Str(u@)),
            ("format_id"@, Json::Str("hls"@)),
            ("ext"@, Json::Str("mp4"@)),
            ("protocol"@, Json::Str("m3u8_native"@)),
        ]);
        let mut a = arr_new();
        arr_add(&mut a, obj_done(f));
        info.insert("formats", arr_done(a));
        info.insert_if_some("thumbnail", match source { Some(s) => opt_str_json(json_string(s, "poster")), None => None });
        Ok(Step::Done(ExtractorResult::single(info)))
    }
}

} // verus!
