use vstd::prelude::*;

use crate::sites::peertube::{VideoOutcome, peertube_outcome, peertube_video_step};
use crate::extract::{array_at, first_str, jstr, opt_int, opt_int_json, opt_str, opt_str_json, or_null, put_opt, refs_view, reply_json, reply_json_at, str_in, str_opt_view, timestamp_in};
use crate::framework::{Expect, ExtractorDescriptor, ExtractorError, ExtractorErrorKind, ExtractorResult, Method, Reply, SiteMatcher, Step, SubStep, all_wf, descriptor_error, descriptor_ok, descriptor_source, dicts_view, done_playlist, fail, fails_with, fetches, get_json};
use crate::info::{InfoDict};
use crate::json::{Json, JsonValue, json_get, json_lookup, json_str_at, json_string, str_equal};
use crate::jsontext::{json_value_string, value_text};
use crate::number::{nat_text, usize_text};
use crate::pattern::{regex_matches, regex_named_capture, regex_valid};
use crate::text::{concat2, concat3, concat4, owned, push_str};
use crate::timestamp::{parse_timestamp};
use crate::weburl::{joined_url, url_is_valid, url_join, url_parses};

verus! {

/// Native PeerTube account/channel/playlist extractor. The API is paginated
/// with stable offsets; entries are expanded through the video extractor.
pub struct PeerTubePlaylistExtractor {
    site: SiteMatcher,
}

impl PeerTubePlaylistExtractor {
    /// The descriptor and matcher the extractor was built with.
    pub closed spec fn matcher(&self) -> SiteMatcher {
        self.site
    }

    pub fn new(descriptor: ExtractorDescriptor) -> (r: Result<Self, ExtractorError>)
        ensures
            r is Ok <==> descriptor_ok(descriptor),
            r matches Ok(x) ==> x.matcher().spec_descriptor() == descriptor
                && Some(x.matcher().source()) == descriptor_source(descriptor),
            r matches Err(e) ==> e.kind == ExtractorErrorKind::Extraction && e.message@ == descriptor_error(descriptor),
    {
        match SiteMatcher::from_descriptor(descriptor) {
            Ok(site) => Ok(PeerTubePlaylistExtractor { site }),
            Err(e) => Err(e),
        }
    }

    pub fn descriptor(&self) -> (r: &ExtractorDescriptor)
        ensures
            *r == self.matcher().spec_descriptor(),
    {
        self.site.descriptor()
    }

    pub fn suitable(&self, url: &str) -> (r: bool)
        ensures
            r == regex_matches(self.matcher().source(), url@),
    {
        self.site.suitable(url)
    }

    pub fn is_native(&self) -> (r: bool)
        ensures
            r,
    {
        true
    }

    pub fn native_matcher_count(&self) -> (r: usize)
        ensures
            r == 1,
    {
        1
    }
}

/// The API collection of a PeerTube playlist resource type.
pub open spec fn peertube_resource(ty: Seq<char>) -> Option<Seq<char>> {
    if ty == "a"@ {
        Some("accounts"@)
    } else if ty == "c"@ {
        Some("video-channels"@)
    } else if ty == "w/p"@ {
        Some("video-playlists"@)
    } else {
        None
    }
}

/// The URL pattern of a PeerTube video page, as the playlist hands its entries on.
pub open spec fn peertube_entry_pattern() -> Seq<char> {
    "https?://(?P<host>[^/]+)/w/(?P<id>[^/?#]+)"@
}

/// The address of the playlist page starting at video `start`.
pub open spec fn peertube_page_url(base: Seq<char>, start: int) -> Seq<char> {
    base + "/videos?sort=-createdAt&start="@ + nat_text(start as nat) + "&count=30&nsfw=both"@
}

/// The short UUID of a playlist item, its own or its video's.
pub open spec fn peertube_short_uuid(item: Json) -> Option<Seq<char>> {
    first_str(json_str_at(item, "shortUUID"@), str_in(json_lookup(item, "video"@), "shortUUID"@))
}

/// Where the extraction of the playlist entry with short UUID `short` stands, its answers
/// starting at `replies[at]`.
pub open spec fn peertube_entry_outcome(host: Seq<char>, short: Seq<char>, replies: Seq<Reply>, at: int) -> VideoOutcome {
    let eu = "https://"@ + host + "/w/"@ + short;
    let p = peertube_entry_pattern();
    match (first_str(regex_named_capture(p, eu, "host"@), regex_named_capture(p, eu, "host_2"@)), regex_named_capture(p, eu, "id"@)) {
        (Some(h), Some(i)) => peertube_outcome(h, i, replies, at),
        _ => VideoOutcome::Failed(ExtractorErrorKind::InvalidUrl),
    }
}

/// A finished video took at least one answer, and no more than there are.
pub proof fn lemma_peertube_got(host: Seq<char>, id: Seq<char>, replies: Seq<Reply>, at: int)
    requires
        0 <= at,
    ensures
        peertube_outcome(host, id, replies, at) matches VideoOutcome::Got(_, n) ==> n >= 1 && at + n <= replies.len(),
{
}

/// A finished playlist entry took at least one answer, and no more than there are.
pub proof fn lemma_entry_got(host: Seq<char>, short: Seq<char>, replies: Seq<Reply>, at: int)
    requires
        0 <= at,
    ensures
        peertube_entry_outcome(host, short, replies, at) matches VideoOutcome::Got(_, n) ==> n >= 1 && at + n <= replies.len(),
{
    let eu = "https://"@ + host + "/w/"@ + short;
    let p = peertube_entry_pattern();
    match (first_str(regex_named_capture(p, eu, "host"@), regex_named_capture(p, eu, "host_2"@)), regex_named_capture(p, eu, "id"@)) {
        (Some(h), Some(i)) => lemma_peertube_got(h, i, replies, at),
        _ => {},
    }
}

/// Where the extraction of a playlist's videos stands.
pub enum PlaylistRun {
    /// A JSON document is needed from this address; whether its failure is no error.
    Need(Seq<char>, bool),
    Failed(ExtractorErrorKind),
    Entries(Seq<Map<Seq<char>, Json>>),
}

/// Where the extraction of a playlist's videos stands, from page `page`, whose answer is
/// `replies[pos]`, on, with entries `es` done.
pub open spec fn peertube_run(host: Seq<char>, base: Seq<char>, replies: Seq<Reply>, pos: int, page: int, es: Seq<Map<Seq<char>, Json>>) -> PlaylistRun
    decreases (if pos <= replies.len() { replies.len() - pos } else { 0 }), 0int,
{
    if page < 0 || pos < 0 || page * 30 > usize::MAX {
        PlaylistRun::Failed(ExtractorErrorKind::Unsupported)
    } else if pos >= replies.len() {
        PlaylistRun::Need(peertube_page_url(base, page * 30), false)
    } else {
        match reply_json_at(replies, pos) {
            Some(resp) => {
                let data = match json_lookup(resp@, "data"@) {
                    Some(Json::Array(a)) => a,
                    _ => Seq::empty(),
                };
                peertube_items(host, base, replies, pos + 1, page, data, 0, es)
            },
            None => PlaylistRun::Failed(ExtractorErrorKind::Extraction),
        }
    }
}

/// Where the extraction of a playlist's videos stands, at item `j` of page `page`'s items
/// `data`, the next answer being `replies[pos]`, with entries `es` done.
pub open spec fn peertube_items(host: Seq<char>, base: Seq<char>, replies: Seq<Reply>, pos: int, page: int, data: Seq<Json>, j: int, es: Seq<Map<Seq<char>, Json>>) -> PlaylistRun
    decreases (if pos <= replies.len() { replies.len() - pos } else { 0 }), (if j <= data.len() { data.len() - j + 1 } else { 1 }),
{
    if j < 0 || pos < 0 {
        PlaylistRun::Failed(ExtractorErrorKind::Extraction)
    } else if j >= data.len() {
        if data.len() < 30 {
            PlaylistRun::Entries(es)
        } else {
            peertube_run(host, base, replies, pos, page + 1, es)
        }
    } else {
        match peertube_short_uuid(data[j]) {
            Some(s) => match peertube_entry_outcome(host, s, replies, pos) {
                VideoOutcome::Need(u, o) => PlaylistRun::Need(u, o),
                VideoOutcome::Failed(_) => PlaylistRun::Failed(ExtractorErrorKind::Extraction),
                VideoOutcome::Got(m, n) => {
                    proof {
                        lemma_entry_got(host, s, replies, pos);
                    }
                    peertube_items(host, base, replies, pos + n, page, data, j + 1, es.push(m))
                },
            },
            None => peertube_items(host, base, replies, pos, page, data, j + 1, es),
        }
    }
}

/// The metadata of a PeerTube playlist from its API record.
pub open spec fn peertube_playlist_info(host: Seq<char>, id: Seq<char>, pl: Json) -> Map<Seq<char>, Json> {
    let owner = match json_lookup(pl, "ownerAccount"@) {
        Some(o) => o,
        None => or_null(json_lookup(pl, "owner"@)),
    };
    let m0 = Map::<Seq<char>, Json>::empty().insert("id"@, Json::Str(id));
    let m1 = put_opt(m0, "title"@, opt_str(first_str(json_str_at(pl, "displayName"@), json_str_at(pl, "name"@))));
    let m2 = put_opt(m1, "description"@, opt_str(json_str_at(pl, "description"@)));
    let m3 = put_opt(m2, "timestamp"@, opt_int(timestamp_in(json_str_at(pl, "createdAt"@))));
    let m4 = put_opt(m3, "channel"@, opt_str(first_str(json_str_at(owner, "name"@), json_str_at(pl, "displayName"@))));
    let m5 = put_opt(m4, "channel_id"@, opt_str(match json_lookup(owner, "id"@) {
        Some(x) => Some(value_text(x)),
        None => match json_lookup(pl, "id"@) {
            Some(x) => Some(value_text(x)),
            None => None,
        },
    }));
    put_opt(m5, "thumbnail"@, opt_str(match json_str_at(pl, "thumbnailPath"@) {
        Some(path) => if url_parses("https://"@ + host) { joined_url("https://"@ + host, path) } else { None },
        None => None,
    }))
}

fn peertube_short_uuid_of(item: &JsonValue) -> (r: Option<&str>)
    ensures
        str_opt_view(r) == peertube_short_uuid(item@),
{
    match json_string(item, "shortUUID") {
        Some(s) => Some(s),
        None => match json_get(item, "video") {
            Some(v) => json_string(v, "shortUUID"),
            None => None,
        },
    }
}

fn peertube_playlist_info_of(host: &str, id: &str, pl: &JsonValue) -> (r: InfoDict)
    ensures
        r.wf(),
        r@ == peertube_playlist_info(host@, id@, pl@),
{
    let null = JsonValue::Null;
    let owner = match json_get(pl, "ownerAccount") {
        Some(o) => o,
        None => match json_get(pl, "owner") {
            Some(o) => o,
            None => &null,
        },
    };
    let mut info = InfoDict::new();
    info.insert("id", jstr(id));
    info.insert_if_some("title", opt_str_json(match json_string(pl, "displayName") {
        Some(t) => Some(t),
        None => json_string(pl, "name"),
    }));
    info.insert_if_some("description", opt_str_json(json_string(pl, "description")));
    info.insert_if_some("timestamp", opt_int_json(match json_string(pl, "createdAt") {
        Some(t) => parse_timestamp(t),
        None => None,
    }));
    info.insert_if_some("channel", opt_str_json(match json_string(owner, "name") {
        Some(t) => Some(t),
        None => json_string(pl, "displayName"),
    }));
    let cid = match json_get(owner, "id") {
        Some(x) => Some(x),
        None => json_get(pl, "id"),
    };
    info.insert_if_some("channel_id", match json_value_string(cid) {
        Some(s) => Some(JsonValue::Str(s)),
        None => None,
    });
    let root = concat2("https://", host);
    info.insert_if_some("thumbnail", match json_string(pl, "thumbnailPath") {
        Some(path) => if url_is_valid(root.as_str()) {
            match url_join(root.as_str(), path) {
                Some(t) => Some(JsonValue::Str(t)),
                None => None,
            }
        } else {
            None
        },
        None => None,
    });
    info
}

/// Whether a step is the fetch a playlist run calls for.
pub open spec fn run_fetch_is(r: Result<Step, ExtractorError>, u: Seq<char>, optional: bool) -> bool {
    r matches Ok(Step::Fetch(f)) && f.url@ == u && f.expect == Expect::Json && f.method == Method::Get
        && f.headers@.len() == 0 && f.body is None && f.optional == optional
}

impl PeerTubePlaylistExtractor {
    /// One step of a PeerTube playlist extraction: the playlist record is fetched, then its
    /// video pages, thirty videos each, each video being extracted as the PeerTube
    /// extractor does, until a page is not full.
    #[verifier::loop_isolation(false)]
    pub fn extract_step(&self, url: &str, replies: &Vec<Reply>) -> (r: Result<Step, ExtractorError>)
        ensures
            match (first_str(regex_named_capture(self.matcher().source(), url@, "host"@),
                regex_named_capture(self.matcher().source(), url@, "host_2"@)),
                regex_named_capture(self.matcher().source(), url@, "type"@),
                regex_named_capture(self.matcher().source(), url@, "id"@)) {
                (Some(host), Some(ty), Some(pid)) => match peertube_resource(ty) {
                    Some(res) => {
                        let base = "https://"@ + host + "/api/v1/"@ + res + "/"@ + pid;
                        if replies@.len() == 0 {
                            fetches(r, base, Expect::Json)
                        } else {
                            match reply_json_at(replies@, 0) {
                                Some(pl) => if json_str_at(pl@, "error"@) is Some {
                                    fails_with(r, ExtractorErrorKind::Extraction)
                                } else if !regex_valid(peertube_entry_pattern()) {
                                    fails_with(r, ExtractorErrorKind::Extraction)
                                } else {
                                    match peertube_run(host, base, replies@, 1, 0, Seq::empty()) {
                                        PlaylistRun::Need(u, o) => run_fetch_is(r, u, o),
                                        PlaylistRun::Failed(k) => fails_with(r, k),
                                        PlaylistRun::Entries(es) => done_playlist(r, peertube_playlist_info(host, pid, pl@), es),
                                    }
                                },
                                None => fails_with(r, ExtractorErrorKind::Extraction),
                            }
                        }
                    },
                    None => fails_with(r, ExtractorErrorKind::Unsupported),
                },
                _ => fails_with(r, ExtractorErrorKind::InvalidUrl),
            },
    {
        let host = match self.site.capture(url, "host") {
            Some(h) => h,
            None => match self.site.capture(url, "host_2") {
                Some(h) => h,
                None => return Err(fail(ExtractorErrorKind::InvalidUrl, "PeerTube URL has no host")),
            },
        };
        let ty = match self.site.capture(url, "type") {
            Some(t) => t,
            None => return Err(fail(ExtractorErrorKind::InvalidUrl, "PeerTube playlist URL has no resource type")),
        };
        let pid = match self.site.capture(url, "id") {
            Some(i) => i,
            None => return Err(fail(ExtractorErrorKind::InvalidUrl, "PeerTube playlist URL has no resource ID")),
        };
        let res: &str = if str_equal(ty.as_str(), "a") {
            "accounts"
        } else if str_equal(ty.as_str(), "c") {
            "video-channels"
        } else if str_equal(ty.as_str(), "w/p") {
            "video-playlists"
        } else {
            return Err(ExtractorError::new(
                ExtractorErrorKind::Unsupported,
                concat2("unsupported PeerTube resource type ", ty.as_str()),
            ));
        };
        let mut base = concat4("https://", host.as_str(), "/api/v1/", res);
        push_str(&mut base, "/");
        push_str(&mut base, pid.as_str());
        if replies.len() == 0 {
            return Ok(Step::Fetch(get_json(base)));
        }
        let pl = reply_json(replies, 0)?;
        if json_string(pl, "error").is_some() {
            return Err(ExtractorError::new(ExtractorErrorKind::Extraction, concat2("PeerTube API rejected ", pid.as_str())));
        }
        let d = ExtractorDescriptor {
            ie_key: owned("PeerTube"),
            valid_urls: vec![owned("https?://(?P<host>[^/]+)/w/(?P<id>[^/?#]+)")],
        };
        let entry_matcher = SiteMatcher::from_descriptor(d)?;
        let ghost run0 = peertube_run(host@, base@, replies@, 1, 0, Seq::empty());
        let mut entries: Vec<InfoDict> = Vec::new();
        let mut pos: usize = 1;
        let mut page: usize = 0;
        assert(dicts_view(entries@) =~= Seq::<Map<Seq<char>, Json>>::empty());
        loop
            invariant
                1 <= pos,
                all_wf(entries@),
                entry_matcher.source() == peertube_entry_pattern(),
                run0 == peertube_run(host@, base@, replies@, pos as int, page as int, dicts_view(entries@)),
            decreases replies@.len() - pos,
        {
            if page > usize::MAX / 30 {
                assert(page * 30 > usize::MAX) by (nonlinear_arith)
                    requires page > usize::MAX / 30;
                return Err(fail(ExtractorErrorKind::Unsupported, "PeerTube playlist pagination exceeded native bounds"));
            }
            assert(page * 30 <= usize::MAX) by (nonlinear_arith)
                requires page <= usize::MAX / 30;
            let start: usize = page * 30;
            if pos >= replies.len() {
                let mut pu = concat3(base.as_str(), "/videos?sort=-createdAt&start=", usize_text(start).as_str());
                push_str(&mut pu, "&count=30&nsfw=both");
                return Ok(Step::Fetch(get_json(pu)));
            }
            let resp = reply_json(replies, pos)?;
            let data = array_at(resp, "data");
            let ghost dv = refs_view(data@);
            let ghost pos0 = pos;
            pos = pos + 1;
            let mut j: usize = 0;
            while j < data.len()
                invariant
                    1 <= pos <= replies@.len(),
                    pos0 < pos,
                    j <= data@.len(),
                    dv == refs_view(data@),
                    all_wf(entries@),
                    entry_matcher.source() == peertube_entry_pattern(),
                    run0 == peertube_items(host@, base@, replies@, pos as int, page as int, dv, j as int, dicts_view(entries@)),
                decreases data@.len() - j,
            {
                assert(dv[j as int] == data@[j as int]@);
                match peertube_short_uuid_of(data[j]) {
                    Some(s) => {
                        let mut eu = concat3("https://", host.as_str(), "/w/");
                        push_str(&mut eu, s);
                        let h2 = match entry_matcher.capture(eu.as_str(), "host") {
                            Some(h) => h,
                            None => match entry_matcher.capture(eu.as_str(), "host_2") {
                                Some(h) => h,
                                None => return Err(fail(ExtractorErrorKind::Extraction, "PeerTube playlist entry URL has no host")),
                            },
                        };
                        let i2 = match entry_matcher.capture(eu.as_str(), "id") {
                            Some(i) => i,
                            None => return Err(fail(ExtractorErrorKind::Extraction, "PeerTube playlist entry URL has no ID")),
                        };
                        proof { lemma_peertube_got(h2@, i2@, replies@, pos as int); }
                        match peertube_video_step(h2.as_str(), i2.as_str(), replies, pos) {
                            Ok((SubStep::Need(f), _)) => return Ok(Step::Fetch(f)),
                            Ok((SubStep::Got(info), n)) => {
                                let ghost prev = dicts_view(entries@);
                                entries.push(info);
                                assert(dicts_view(entries@) =~= prev.push(info@));
                                pos = pos + n;
                            },
                            Err(e) => return Err(ExtractorError::new(
                                ExtractorErrorKind::Extraction,
                                concat4("PeerTube playlist entry ", s, ": ", e.message.as_str()),
                            )),
                        }
                    },
                    None => {},
                }
                j = j + 1;
            }
            if data.len() < 30 {
                let info = peertube_playlist_info_of(host.as_str(), pid.as_str(), pl);
                return Ok(Step::Done(ExtractorResult::Playlist { info, entries }));
            }
            page = page + 1;
        }
    }
}

} // verus!
