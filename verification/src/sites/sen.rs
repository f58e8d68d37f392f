use vstd::prelude::*;

use crate::sites::video::{first_item, first_item_at};
use crate::extract::{http_address, is_http, jstr, lookup_in, opt_str, opt_str_json, put_opt, reply_json, reply_json_at, str_in};
use crate::framework::{Expect, ExtractorDescriptor, ExtractorError, ExtractorErrorKind, ExtractorResult, Reply, SiteMatcher, Step, descriptor_ok, descriptor_source, done_with, fail, fails_with, fetches, get_json, descriptor_error};
use crate::info::{InfoDict};
use crate::json::{Json, JsonValue, arr_add, arr_done, arr_new, fields_view, items_view, json_get, json_lookup, json_str_at, json_string, lemma_array_view, obj_add, obj_done, obj_new, str_equal};
use crate::pattern::{regex_matches, regex_named_capture};
use crate::text::{concat2, concat3, owned};

verus! {

/// Native Sen API/HLS video extractor.
pub struct SenExtractor {
    site: SiteMatcher,
}

impl SenExtractor {
    /// The descriptor and matcher the extractor was built with.
    pub closed spec fn matcher(&self) -> SiteMatcher {
        self.site
    }

    pub fn new(descriptor: ExtractorDescriptor) -> (r: Result<Self, ExtractorError>)
        ensures
            r is Ok <==> descriptor_ok(descriptor),
            r matches Ok(x) ==> x.matcher().spec_descriptor() == descriptor
                && Some(x.matcher().source()) == descriptor_source(descriptor),
            r matches Err(e) ==> e.kind == ExtractorErrorKind::Extraction && e.message@ == descriptor_error(descriptor),
    {
        match SiteMatcher::from_descriptor(descriptor) {
            Ok(site) => Ok(SenExtractor { site }),
            Err(e) => Err(e),
        }
    }

    pub fn descriptor(&self) -> (r: &ExtractorDescriptor)
        ensures
            *r == self.matcher().spec_descriptor(),
    {
        self.site.descriptor()
    }

    pub fn suitable(&self, url: &str) -> (r: bool)
        ensures
            r == regex_matches(self.matcher().source(), url@),
    {
        self.site.suitable(url)
    }

    pub fn is_native(&self) -> (r: bool)
        ensures
            r,
    {
        true
    }

    pub fn native_matcher_count(&self) -> (r: usize)
        ensures
            r == 1,
    {
        1
    }
}


/// The first node from `i` on whose `id` is `name`.
pub open spec fn node_named(nodes: Seq<Json>, name: Seq<char>, i: int) -> Option<Json>
    decreases nodes.len() - i,
{
    if i < 0 || i >= nodes.len() {
        None
    } else if json_str_at(nodes[i], "id"@) == Some(name) {
        Some(nodes[i])
    } else {
        node_named(nodes, name, i + 1)
    }
}

/// The `text` strings of the first `n` badges.
pub open spec fn badge_texts(badges: Seq<Json>, n: int) -> Seq<Json>
    decreases n,
{
    if n <= 0 {
        Seq::empty()
    } else {
        match json_str_at(badges[n - 1], "text"@) {
            Some(t) => badge_texts(badges, n - 1).push(Json::Str(t)),
            None => badge_texts(badges, n - 1),
        }
    }
}

/// The metadata of a Sen video from its API node list.
pub open spec fn sen_info(id: Seq<char>, nodes: Seq<Json>) -> Map<Seq<char>, Json> {
    let manifest = match str_in(lookup_in(node_named(nodes, "player"@, 0), "video"@), "url"@) {
        Some(u) => if is_http(u) { u } else { "https://vod.sen.com/videos/"@ + id + "/manifest.m3u8"@ },
        None => "https://vod.sen.com/videos/"@ + id + "/manifest.m3u8"@,
    };
    let details = lookup_in(node_named(nodes, "details"@, 0), "content"@);
    put_opt(put_opt(put_opt(Map::<Seq<char>, Json>::empty()
        .insert("id"@, Json::Str(id)),
        "title"@, opt_str(str_in(lookup_in(details, "title"@), "text"@))),
        "description"@, opt_str(match first_item_at(details, "descriptions"@) { Some(d) => json_str_at(d, "text"@), None => None })),
        "tags"@, match lookup_in(details, "badges"@) {
            Some(Json::Array(bs)) => if badge_texts(bs, bs.len() as int).len() > 0 { Some(Json::Array(badge_texts(bs, bs.len() as int))) } else { None },
            _ => None,
        })
        .insert("url"@, Json::Str(manifest))
        .insert("ext"@, Json::Str("mp4"@))
        .insert("formats"@, Json::Array(seq![Json::Object(seq![
            ("url"@, Json::Str(manifest)),
            ("format_id"@, Json::Str("hls"@)),
            ("protocol"@, Json::Str("m3u8_native"@)),
            ("ext"@, Json::Str("mp4"@)),
        ])]))
}

/// The first node whose `id` is `name`.
fn find_node<'a>(nodes: &'a Vec<JsonValue>, name: &str) -> (r: Option<&'a JsonValue>)
    ensures
        match r {
            Some(n) => node_named(items_view(nodes@), name@, 0) == Some(n@),
            None => node_named(items_view(nodes@), name@, 0) is None,
        },
{
    let ghost nv = items_view(nodes@);
    let mut i: usize = 0;
    while i < nodes.len()
        invariant
            i <= nodes@.len(),
            nv == items_view(nodes@),
            node_named(nv, name@, 0) == node_named(nv, name@, i as int),
        decreases nodes@.len() - i,
    {
        let hit = match json_string(&nodes[i], "id") { Some(x) => str_equal(x, name), None => false };
        if hit {
            return Some(&nodes[i]);
        }
        i = i + 1;
    }
    None
}

impl SenExtractor {
    /// One step of a Sen extraction: the video's API node list gives the player's
    /// manifest, else the usual one, and the details.
    pub fn extract_step(&self, url: &str, replies: &Vec<Reply>) -> (r: Result<Step, ExtractorError>)
        ensures
            match regex_named_capture(self.matcher().source(), url@, "id"@) {
                Some(id) => if replies@.len() == 0 {
                    fetches(r, "https://api.sen.com/content/public/video/"@ + id, Expect::Json)
                } else {
                    match reply_json_at(replies@, 0) {
                        Some(api) => match lookup_in(json_lookup(api@, "data"@), "nodes"@) {
                            Some(Json::Array(nodes)) => done_with(r, sen_info(id, nodes)),
                            _ => fails_with(r, ExtractorErrorKind::Extraction),
                        },
                        None => fails_with(r, ExtractorErrorKind::Extraction),
                    }
                },
                None => fails_with(r, ExtractorErrorKind::InvalidUrl),
            },
    {
        let video_id = match self.site.capture(url, "id") {
            Some(v) => v,
            None => return Err(fail(ExtractorErrorKind::InvalidUrl, "Sen URL has no video ID")),
        };
        if replies.len() == 0 {
            return Ok(Step::Fetch(get_json(concat2("https://api.sen.com/content/public/video/", video_id.as_str()))));
        }
        let api = reply_json(replies, 0)?;
        let nodes = match json_get(api, "data") {
            Some(d) => match json_get(d, "nodes") {
                Some(x) => match x {
                    JsonValue::Array(nodes) => {
                        proof { lemma_array_view(*x); }
                        nodes
                    },
                    _ => return Err(ExtractorError::new(ExtractorErrorKind::Extraction, concat3("Sen video ", video_id.as_str(), " has no API node list"))),
                },
                None => return Err(ExtractorError::new(ExtractorErrorKind::Extraction, concat3("Sen video ", video_id.as_str(), " has no API node list"))),
            },
            None => return Err(ExtractorError::new(ExtractorErrorKind::Extraction, concat3("Sen video ", video_id.as_str(), " has no API node list"))),
        };
        let player = find_node(nodes, "player");
        let manifest = match player {
            Some(p) => match json_get(p, "video") {
                Some(v) => match json_string(v, "url") {
                    Some(u) => if http_address(u) { owned(u) } else { concat3("https://vod.sen.com/videos/", video_id.as_str(), "/manifest.m3u8") },
                    None => concat3("https://vod.sen.com/videos/", video_id.as_str(), "/manifest.m3u8"),
                },
                None => concat3("https://vod.sen.com/videos/", video_id.as_str(), "/manifest.m3u8"),
            },
            None => concat3("https://vod.sen.com/videos/", video_id.as_str(), "/manifest.m3u8"),
        };
        let details = match find_node(nodes, "details") {
            Some(n) => json_get(n, "content"),
            None => None,
        };
        let title = match details {
            Some(c) => match json_get(c, "title") { Some(t) => json_string(t, "text"), None => None },
            None => None,
        };
        let description = match details {
            Some(c) => match first_item(c, "descriptions") { Some(d) => json_string(d, "text"), None => None },
            None => None,
        };
        let tags = match details {
            Some(c) => match json_get(c, "badges") {
                Some(x) => match x {
                    JsonValue::Array(bs) => {
                        proof { lemma_array_view(*x); }
                        let ghost bv = items_view(bs@);
                        let mut out = arr_new();
                        let mut i: usize = 0;
                        while i < bs.len()
                            invariant
                                i <= bs@.len(),
                                bv == items_view(bs@),
                                items_view(out@) == badge_texts(bv, i as int),
                            decreases bs@.len() - i,
                        {
                            match json_string(&bs[i], "text") {
                                Some(t) => arr_add(&mut out, jstr(t)),
                                None => {},
                            }
                            i = i + 1;
                        }
                        if out.len() > 0 { Some(arr_done(out)) } else { None }
                    },
                    _ => None,
                },
                None => None,
            },
            None => None,
        };
        let mut info = InfoDict::new();
        info.insert("id", JsonValue::Str(video_id));
        info.insert_if_some("title", opt_str_json(title));
        info.insert_if_some("description", opt_str_json(description));
        info.insert_if_some("tags", tags);
        info.insert("url", jstr(manifest.as_str()));
        info.insert("ext", jstr("mp4"));
        let mut f = obj_new();
        obj_add(&mut f, "url", jstr(manifest.as_str()));
        obj_add(&mut f, "format_id", jstr("hls"));
        obj_add(&mut f, "protocol", jstr("m3u8_native"));
        obj_add(&mut f, "ext", jstr("mp4"));
        assert(fields_view(f@) =~= seq![
            ("url"@, Json::Str(manifest@)),
            ("format_id"@, Json::Str("hls"@)),
            ("protocol"@, Json::Str("m3u8_native"@)),
            ("ext"@, Json::Str("mp4"@)),
        ]);
        let mut a = arr_new();
        arr_add(&mut a, obj_done(f));
        info.insert("formats", arr_done(a));
        Ok(Step::Done(ExtractorResult::single(info)))
    }
}

} // verus!
