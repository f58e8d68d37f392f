use vstd::prelude::*;

use crate::sites::streams::{rumble_all_formats, rumble_api_url, rumble_embed_result, rumble_info};
use crate::sites::generic::{contains_string};
use crate::extract::{opt_int, opt_int_json, put_opt, reply_json, reply_json_at, reply_text, reply_text_at};
use crate::framework::{Expect, ExtractorDescriptor, ExtractorError, ExtractorErrorKind, ExtractorResult, Reply, SiteMatcher, Step, SubStep, all_wf, descriptor_ok, descriptor_source, dicts_view, done_playlist, done_with, fail, fails_with, fetches, get_json, get_text, get_text_optional, is_optional_text_get, is_plain_get, sources_view, descriptor_error, fails_saying};
use crate::html::{html_text_fragment, text_fragment, unescape_html, unescaped};
use crate::info::{InfoDict};
use crate::json::{Json, JsonValue, json_opt_view};
use crate::number::{compact_count, nat_text, parse_compact_count, parse_int, parsed_int, usize_text};
use crate::page::{element_by_class_pattern, html_element_by_class};
use crate::pattern::{all_groups_view, capture_group, first_group, group_at, groups_view, regex_all_captures, regex_capture_name, regex_captures_iter, regex_compiles, regex_first_group, regex_matches, regex_named_capture, regex_valid};
use crate::text::{concat2, concat3, contains, has_infix, lowered, owned, push_str, to_ascii_lowercase};
use crate::timestamp::{parse_timestamp, timestamp_of};
use crate::weburl::{form_encode, joined_url, url_join};

verus! {

/// Native Rumble page wrapper. Canonical pages embed the same u3 player
/// endpoint used by RumbleEmbedExtractor; page-level counters and description
/// are merged after extracting that media record.
pub struct RumbleExtractor {
    site: SiteMatcher,
}

impl RumbleExtractor {
    /// The descriptor and matcher the extractor was built with.
    pub closed spec fn matcher(&self) -> SiteMatcher {
        self.site
    }

    pub fn new(descriptor: ExtractorDescriptor) -> (r: Result<Self, ExtractorError>)
        ensures
            r is Ok <==> descriptor_ok(descriptor),
            r matches Ok(x) ==> x.matcher().spec_descriptor() == descriptor
                && Some(x.matcher().source()) == descriptor_source(descriptor),
            r matches Err(e) ==> e.kind == ExtractorErrorKind::Extraction && e.message@ == descriptor_error(descriptor),
    {
        match SiteMatcher::from_descriptor(descriptor) {
            Ok(site) => Ok(RumbleExtractor { site }),
            Err(e) => Err(e),
        }
    }

    pub fn descriptor(&self) -> (r: &ExtractorDescriptor)
        ensures
            *r == self.matcher().spec_descriptor(),
    {
        self.site.descriptor()
    }

    pub fn suitable(&self, url: &str) -> (r: bool)
        ensures
            r == regex_matches(self.matcher().source(), url@),
    {
        self.site.suitable(url)
    }

    pub fn is_native(&self) -> (r: bool)
        ensures
            r,
    {
        true
    }

    pub fn native_matcher_count(&self) -> (r: usize)
        ensures
            r == 1,
    {
        1
    }
}

/// Native Rumble channel/user listing extractor. Rumble exposes the same
/// video-card markup on both channel and user pages; pagination ends with an
/// empty page or an HTTP 404.
pub struct RumbleChannelExtractor {
    site: SiteMatcher,
}

impl RumbleChannelExtractor {
    /// The descriptor and matcher the extractor was built with.
    pub closed spec fn matcher(&self) -> SiteMatcher {
        self.site
    }

    pub fn new(descriptor: ExtractorDescriptor) -> (r: Result<Self, ExtractorError>)
        ensures
            r is Ok <==> descriptor_ok(descriptor),
            r matches Ok(x) ==> x.matcher().spec_descriptor() == descriptor
                && Some(x.matcher().source()) == descriptor_source(descriptor),
            r matches Err(e) ==> e.kind == ExtractorErrorKind::Extraction && e.message@ == descriptor_error(descriptor),
    {
        match SiteMatcher::from_descriptor(descriptor) {
            Ok(site) => Ok(RumbleChannelExtractor { site }),
            Err(e) => Err(e),
        }
    }

    pub fn descriptor(&self) -> (r: &ExtractorDescriptor)
        ensures
            *r == self.matcher().spec_descriptor(),
    {
        self.site.descriptor()
    }

    pub fn suitable(&self, url: &str) -> (r: bool)
        ensures
            r == regex_matches(self.matcher().source(), url@),
    {
        self.site.suitable(url)
    }

    pub fn is_native(&self) -> (r: bool)
        ensures
            r,
    {
        true
    }

    pub fn native_matcher_count(&self) -> (r: usize)
        ensures
            r == 1,
    {
        1
    }
}


/// Where a Rumble page names its embedded video.
pub open spec fn rumble_embed_pattern() -> Seq<char> {
    "(?is)(?:rumble\\.com/embed/|[\"']embedUrl[\"']\\s*:\\s*[\"'](?:https?:)?//rumble\\.com/embed/|<iframe[^>]+\\bsrc=[\"'](?:https?:)?//rumble\\.com/embed/|Rumble\\(\\s*[\"']play[\"']\\s*,\\s*\\{[^}]*[\"']?video[\"']?\\s*:\\s*[\"'])([0-9a-z]+)"@
}

/// The address pattern of a Rumble embed.
pub open spec fn rumble_embed_url_pattern() -> Seq<char> {
    "https?://(?:www\\.)?rumble\\.com/embed/(?:[0-9a-z]+\\.)?(?P<id>[0-9a-z]+)"@
}

/// Where a Rumble page gives a live stream's start.
pub open spec fn rumble_release_pattern() -> Seq<char> {
    "(?is)(?:Livestream begins|Streamed on):\\s*<time[^>]*datetime=[\"']([^\"']+)"@
}

/// Where a Rumble page gives its view count.
pub open spec fn rumble_views_pattern() -> Seq<char> {
    "(?is)\"userInteractionCount\"\\s*:\\s*(\\d+)"@
}

/// Where a Rumble page gives its up votes.
pub open spec fn rumble_up_pattern() -> Seq<char> {
    "(?is)<span[^>]*data-js=[\"']rumbles_up_votes[\"'][^>]*>\\s*([^<]+)"@
}

/// Where a Rumble page gives its down votes.
pub open spec fn rumble_down_pattern() -> Seq<char> {
    "(?is)<span[^>]*data-js=[\"']rumbles_down_votes[\"'][^>]*>\\s*([^<]+)"@
}

/// The page facts that a Rumble video page adds to its embed's metadata.
pub open spec fn rumble_page_extras(m: Map<Seq<char>, Json>, html: Seq<char>) -> Map<Seq<char>, Json> {
    let m1 = put_opt(m, "release_timestamp"@, opt_int(match first_group(rumble_release_pattern(), html, 1) {
        Some(s) => timestamp_of(s),
        None => None,
    }));
    let m2 = put_opt(m1, "view_count"@, opt_int(match first_group(rumble_views_pattern(), html, 1) {
        Some(s) => parsed_int(s),
        None => None,
    }));
    let m3 = put_opt(put_opt(m2, "like_count"@, opt_int(match first_group(rumble_up_pattern(), html, 1) {
        Some(s) => compact_count(s),
        None => None,
    })), "dislike_count"@, opt_int(match first_group(rumble_down_pattern(), html, 1) {
        Some(s) => compact_count(s),
        None => None,
    }));
    put_opt(m3, "description"@, match first_group(element_by_class_pattern("media-description"@), html, 2) {
        Some(d) => if text_fragment(d).len() > 0 { Some(Json::Str(text_fragment(d))) } else { None },
        None => None,
    })
}

/// A count captured by `pattern` in `html`, read with `parse_compact_count`.
fn captured_compact(pattern: &str, html: &str) -> (r: Option<JsonValue>)
    ensures
        json_opt_view(r) == opt_int(match first_group(pattern@, html@, 1) {
            Some(s) => compact_count(s),
            None => None,
        }),
{
    match regex_first_group(pattern, html, 1) {
        Some(s) => opt_int_json(parse_compact_count(s.as_str())),
        None => None,
    }
}

/// Where the Rumble video extraction of `url`, matched against `source`, stands when its
/// page is `replies[pos]` and its embed record `replies[pos + 1]`.
pub enum RumbleOutcome {
    NeedText(Seq<char>),
    NeedJson(Seq<char>),
    Failed(ExtractorErrorKind),
    /// The metadata, and the number of answers it took.
    Got(Map<Seq<char>, Json>, int),
}

/// `RumbleExtractor`'s extraction of `url` with answers from `pos` on: the page is fetched
/// and its embedded video found; the embed is extracted as `RumbleEmbedExtractor` does,
/// and the page adds its counts, start and description.
pub open spec fn rumble_outcome(source: Seq<char>, url: Seq<char>, replies: Seq<Reply>, pos: int) -> RumbleOutcome {
    match regex_named_capture(source, url, "id"@) {
        None => RumbleOutcome::Failed(ExtractorErrorKind::InvalidUrl),
        Some(_) => if pos >= replies.len() {
            RumbleOutcome::NeedText(url)
        } else {
            match reply_text_at(replies, pos) {
                Some(html) => match first_group(rumble_embed_pattern(), html, 1) {
                    Some(eid) => if !regex_valid(rumble_embed_url_pattern()) {
                        RumbleOutcome::Failed(ExtractorErrorKind::Extraction)
                    } else {
                        match regex_named_capture(rumble_embed_url_pattern(), "https://rumble.com/embed/"@ + eid, "id"@) {
                            Some(vid) => if pos + 1 >= replies.len() {
                                RumbleOutcome::NeedJson(rumble_api_url(vid))
                            } else {
                                match reply_json_at(replies, pos + 1) {
                                    Some(video) => if rumble_all_formats(video@).len() == 0 {
                                        RumbleOutcome::Failed(ExtractorErrorKind::Extraction)
                                    } else {
                                        RumbleOutcome::Got(rumble_page_extras(rumble_info(vid, video@, rumble_all_formats(video@)), html), 2)
                                    },
                                    None => RumbleOutcome::Failed(ExtractorErrorKind::Extraction),
                                }
                            },
                            None => RumbleOutcome::Failed(ExtractorErrorKind::InvalidUrl),
                        }
                    },
                    None => RumbleOutcome::Failed(ExtractorErrorKind::Unsupported),
                },
                None => RumbleOutcome::Failed(ExtractorErrorKind::Extraction),
            }
        },
    }
}

/// Whether `r` is what a Rumble video extraction step owes for outcome `o`.
pub open spec fn rumble_step_is(r: Result<(SubStep, usize), ExtractorError>, o: RumbleOutcome) -> bool {
    match o {
        RumbleOutcome::NeedText(u) => r matches Ok((SubStep::Need(f), _)) && is_plain_get(Step::Fetch(f), u, Expect::Text),
        RumbleOutcome::NeedJson(u) => r matches Ok((SubStep::Need(f), _)) && is_plain_get(Step::Fetch(f), u, Expect::Json),
        RumbleOutcome::Failed(k) => fails_with(r, k),
        RumbleOutcome::Got(m, n) => r matches Ok((SubStep::Got(info), k)) && info.wf() && info@ == m && k == n,
    }
}

/// One step of the Rumble video extraction of `url`, matched against `source`, reading
/// the answers from `pos` on.
pub fn rumble_step(source: &str, url: &str, replies: &Vec<Reply>, pos: usize) -> (r: Result<(SubStep, usize), ExtractorError>)
    ensures
        rumble_step_is(r, rumble_outcome(source@, url@, replies@, pos as int)),
{
    let page_id = match regex_capture_name(source, url, "id") {
        Some(v) => v,
        None => return Err(fail(ExtractorErrorKind::InvalidUrl, "Rumble page has no ID")),
    };
    if pos >= replies.len() {
        return Ok((SubStep::Need(get_text(owned(url))), 0));
    }
    let html = reply_text(replies, pos)?;
    let embed_id = match regex_first_group("(?is)(?:rumble\\.com/embed/|[\"']embedUrl[\"']\\s*:\\s*[\"'](?:https?:)?//rumble\\.com/embed/|<iframe[^>]+\\bsrc=[\"'](?:https?:)?//rumble\\.com/embed/|Rumble\\(\\s*[\"']play[\"']\\s*,\\s*\\{[^}]*[\"']?video[\"']?\\s*:\\s*[\"'])([0-9a-z]+)", html.as_str(), 1) {
        Some(e) => e,
        None => return Err(ExtractorError::new(ExtractorErrorKind::Unsupported, concat3("Rumble page ", page_id.as_str(), " has no native embed URL"))),
    };
    let embed_pattern = "https?://(?:www\\.)?rumble\\.com/embed/(?:[0-9a-z]+\\.)?(?P<id>[0-9a-z]+)";
    if !regex_compiles(embed_pattern) {
        return Err(fail(ExtractorErrorKind::Extraction, "Rumble embed URL pattern does not compile"));
    }
    let embed_url = concat2("https://rumble.com/embed/", embed_id.as_str());
    let video_id = match regex_capture_name(embed_pattern, embed_url.as_str(), "id") {
        Some(v) => v,
        None => return Err(fail(ExtractorErrorKind::InvalidUrl, "Rumble embed URL has no ID")),
    };
    if replies.len() - pos == 1 {
        let api = concat2("https://rumble.com/embedJS/u3/?request=video&ver=2&v=", form_encode(video_id.as_str()).as_str());
        return Ok((SubStep::Need(get_json(api)), 0));
    }
    let video = reply_json(replies, pos + 1)?;
    let mut info = match rumble_embed_result(video_id.as_str(), video) {
        Ok(Step::Done(ExtractorResult::Single(info))) => info,
        Ok(_) => return Err(fail(ExtractorErrorKind::Extraction, "Rumble embed unexpectedly returned a non-media result")),
        Err(e) => return Err(e),
    };
    info.insert_if_some("release_timestamp", match regex_first_group("(?is)(?:Livestream begins|Streamed on):\\s*<time[^>]*datetime=[\"']([^\"']+)", html.as_str(), 1) {
        Some(s) => opt_int_json(parse_timestamp(s.as_str())),
        None => None,
    });
    info.insert_if_some("view_count", match regex_first_group("(?is)\"userInteractionCount\"\\s*:\\s*(\\d+)", html.as_str(), 1) {
        Some(s) => opt_int_json(parse_int(s.as_str())),
        None => None,
    });
    info.insert_if_some("like_count", captured_compact("(?is)<span[^>]*data-js=[\"']rumbles_up_votes[\"'][^>]*>\\s*([^<]+)", html.as_str()));
    info.insert_if_some("dislike_count", captured_compact("(?is)<span[^>]*data-js=[\"']rumbles_down_votes[\"'][^>]*>\\s*([^<]+)", html.as_str()));
    info.insert_if_some("description", match html_element_by_class(html.as_str(), "media-description") {
        Some(d) => {
            let t = html_text_fragment(d.as_str());
            if t.unicode_len() > 0 { Some(JsonValue::Str(t)) } else { None }
        },
        None => None,
    });
    Ok((SubStep::Got(info), 2))
}

impl RumbleExtractor {
    /// One step of a Rumble video extraction (`rumble_outcome`).
    pub fn extract_step(&self, url: &str, replies: &Vec<Reply>) -> (r: Result<Step, ExtractorError>)
        ensures
            match rumble_outcome(self.matcher().source(), url@, replies@, 0) {
                RumbleOutcome::NeedText(u) => fetches(r, u, Expect::Text),
                RumbleOutcome::NeedJson(u) => fetches(r, u, Expect::Json),
                RumbleOutcome::Failed(k) => fails_with(r, k),
                RumbleOutcome::Got(m, _) => done_with(r, m),
            },
    {
        match rumble_step(self.site.source_text(), url, replies, 0) {
            Ok((SubStep::Need(f), _)) => Ok(Step::Fetch(f)),
            Ok((SubStep::Got(info), _)) => Ok(Step::Done(ExtractorResult::single(info))),
            Err(e) => Err(e),
        }
    }
}


/// The anchors of a Rumble listing page, with their attributes.
pub open spec fn rumble_anchor_pattern() -> Seq<char> {
    "(?is)<a\\b([^>]+)>"@
}

/// The address in an anchor's attributes.
pub open spec fn rumble_href_pattern() -> Seq<char> {
    "(?is)\\bhref\\s*=\\s*[\\\"']([^\\\"']+)"@
}

/// The video page that anchor attributes `attrs` lead to, when they are a video card's.
pub open spec fn rumble_card_link(attrs: Seq<char>) -> Option<Seq<char>> {
    let lower = lowered(attrs);
    if !has_infix(lower, "videostream__link"@) && !has_infix(lower, "video-item--a"@) {
        None
    } else {
        match first_group(rumble_href_pattern(), attrs, 1) {
            Some(h) => joined_url("https://rumble.com/"@, unescaped(h)),
            None => None,
        }
    }
}

/// The video pages of the first `n` anchors, each once, in order.
pub open spec fn rumble_card_links(all: Seq<Seq<Option<Seq<char>>>>, n: int) -> Seq<Seq<char>>
    decreases n,
{
    if n <= 0 {
        Seq::empty()
    } else {
        let prev = rumble_card_links(all, n - 1);
        match group_at(all[n - 1], 1) {
            Some(attrs) => match rumble_card_link(attrs) {
                Some(l) => if prev.contains(l) { prev } else { prev.push(l) },
                None => prev,
            },
            None => prev,
        }
    }
}

/// `rumble_channel_video_links`: the video pages that a listing page's video cards lead
/// to, each once, in order; none when a pattern does not compile.
pub open spec fn rumble_links(html: Seq<char>) -> Seq<Seq<char>> {
    if !regex_valid(rumble_anchor_pattern()) || !regex_valid(rumble_href_pattern()) {
        Seq::empty()
    } else {
        let all = regex_all_captures(rumble_anchor_pattern(), html);
        rumble_card_links(all, all.len() as int)
    }
}

/// `rumble_channel_video_links`: the video pages that a listing page's video cards lead to.
pub fn rumble_channel_video_links(html: &str) -> (r: Vec<String>)
    ensures
        sources_view(r@) == rumble_links(html@),
{
    let anchor = "(?is)<a\\b([^>]+)>";
    let href = "(?is)\\bhref\\s*=\\s*[\\\"']([^\\\"']+)";
    if !regex_compiles(anchor) || !regex_compiles(href) {
        let r: Vec<String> = Vec::new();
        assert(sources_view(r@) =~= Seq::<Seq<char>>::empty());
        return r;
    }
    let all = regex_captures_iter(anchor, html);
    let ghost av = all_groups_view(all@);
    let mut links: Vec<String> = Vec::new();
    let mut i: usize = 0;
    assert(sources_view(links@) =~= Seq::<Seq<char>>::empty());
    while i < all.len()
        invariant
            i <= all@.len(),
            av == all_groups_view(all@),
            href@ == rumble_href_pattern(),
            sources_view(links@) == rumble_card_links(av, i as int),
        decreases all@.len() - i,
    {
        assert(av[i as int] == groups_view(all@[i as int]@));
        match capture_group(&all[i], 1) {
            Some(attrs) => {
                let lower = to_ascii_lowercase(attrs.as_str());
                if contains(lower.as_str(), "videostream__link") || contains(lower.as_str(), "video-item--a") {
                    match regex_first_group(href, attrs.as_str(), 1) {
                        Some(h) => {
                            let u = unescape_html(h.as_str());
                            match url_join("https://rumble.com/", u.as_str()) {
                                Some(l) => {
                                    if !contains_string(&links, l.as_str()) {
                                        let ghost before = sources_view(links@);
                                        let ghost lv = l@;
                                        links.push(l);
                                        assert(sources_view(links@) =~= before.push(lv));
                                    }
                                },
                                None => {},
                            }
                        },
                        None => {},
                    }
                }
            },
            None => {},
        }
        i = i + 1;
    }
    links
}

/// The address of page `page` of a Rumble listing.
pub open spec fn rumble_page_url(base: Seq<char>, page: int) -> Seq<char> {
    base + "?page="@ + nat_text(page as nat)
}

/// The address pattern of a Rumble video page.
pub open spec fn rumble_video_pattern() -> Seq<char> {
    "https?://(?:www\\.)?rumble\\.com/(?P<id>v[\\w.-]+)[^/]*$"@
}

/// The video pages of the listing page answered by `replies[pp]`.
pub open spec fn rumble_page_links(replies: Seq<Reply>, pp: int) -> Seq<Seq<char>> {
    match reply_text_at(replies, pp) {
        Some(h) => rumble_links(h),
        None => Seq::empty(),
    }
}

/// Where a Rumble channel listing stands: on page `page` (at most 10000), whose answer is
/// `replies[pp]` once it is read (`pp < 0` before that), at its link `k`, with the next
/// answer at `pos`, the video pages `seen` visited and entries `es` done.
pub open spec fn rumble_channel_run(base: Seq<char>, replies: Seq<Reply>, page: int, pp: int, k: int, pos: int, seen: Seq<Seq<char>>, es: Seq<Map<Seq<char>, Json>>) -> ChannelRun
    decreases 10001 - page, if pp < 0 { 1int } else { 0int }, rumble_page_links(replies, pp).len() - k,
{
    if page < 1 || page > 10000 || pos < 0 {
        ChannelRun::Entries(es)
    } else if pp < 0 {
        if pos >= replies.len() {
            ChannelRun::NeedPage(rumble_page_url(base, page))
        } else {
            match replies[pos] {
                Reply::NotFound => ChannelRun::Entries(es),
                Reply::Failed(e) => ChannelRun::PageFailed(e.kind, e.message@),
                Reply::Text(h) => if rumble_links(h@).len() == 0 {
                    ChannelRun::Entries(es)
                } else {
                    rumble_channel_run(base, replies, page, pos, 0, pos + 1, seen, es)
                },
                _ => ChannelRun::Failed(ExtractorErrorKind::Extraction),
            }
        }
    } else {
        let links = rumble_page_links(replies, pp);
        if k < 0 || k >= links.len() {
            rumble_channel_run(base, replies, page + 1, -1, 0, pos, seen, es)
        } else if seen.contains(links[k]) {
            rumble_channel_run(base, replies, page, pp, k + 1, pos, seen, es)
        } else {
            match rumble_outcome(rumble_video_pattern(), links[k], replies, pos) {
                RumbleOutcome::NeedText(u) => ChannelRun::NeedText(u),
                RumbleOutcome::NeedJson(u) => ChannelRun::NeedJson(u),
                RumbleOutcome::Failed(_) => ChannelRun::Failed(ExtractorErrorKind::Extraction),
                RumbleOutcome::Got(m, n) => rumble_channel_run(base, replies, page, pp, k + 1, pos + n, seen.push(links[k]), es.push(m)),
            }
        }
    }
}

/// Where a channel listing stands.
pub enum ChannelRun {
    /// A listing page is needed; a 404 ends the listing.
    NeedPage(Seq<char>),
    NeedText(Seq<char>),
    NeedJson(Seq<char>),
    Failed(ExtractorErrorKind),
    /// A listing page failed with this error, which is handed on.
    PageFailed(ExtractorErrorKind, Seq<char>),
    Entries(Seq<Map<Seq<char>, Json>>),
}

/// A Rumble channel playlist with entries `entries`.
fn rumble_channel_done(id: String, entries: Vec<InfoDict>) -> (r: Step)
    requires
        all_wf(entries@),
    ensures
        r matches Step::Done(ExtractorResult::Playlist { info, entries: es }) && info.wf()
            && info@ == Map::<Seq<char>, Json>::empty().insert("id"@, Json::Str(id@))
            && all_wf(es@) && dicts_view(es@) == dicts_view(entries@),
{
    let mut info = InfoDict::new();
    info.insert("id", JsonValue::Str(id));
    Step::Done(ExtractorResult::Playlist { info, entries })
}

impl RumbleChannelExtractor {
    /// One step of a Rumble channel listing: its pages are read in turn until a 404 or an
    /// empty page (at most 10000 of them), and each video page they lead to, once, is
    /// extracted as `RumbleExtractor` does, into a playlist.
    #[verifier::loop_isolation(false)]
    pub fn extract_step(&self, url: &str, replies: &Vec<Reply>) -> (r: Result<Step, ExtractorError>)
        ensures
            match regex_named_capture(self.matcher().source(), url@, "id"@) {
                Some(id) => if !regex_valid(rumble_video_pattern()) {
                    fails_with(r, ExtractorErrorKind::Extraction)
                } else {
                    let base = match regex_named_capture(self.matcher().source(), url@, "url"@) { Some(b) => b, None => url@ };
                    match rumble_channel_run(base, replies@, 1, -1, 0, 0, Seq::empty(), Seq::empty()) {
                        ChannelRun::NeedPage(u) => r matches Ok(Step::Fetch(f)) && is_optional_text_get(f, u),
                        ChannelRun::NeedText(u) => fetches(r, u, Expect::Text),
                        ChannelRun::NeedJson(u) => fetches(r, u, Expect::Json),
                        ChannelRun::Failed(k) => fails_with(r, k),
                        ChannelRun::PageFailed(k, m) => fails_saying(r, k, m),
                        ChannelRun::Entries(es) => done_playlist(r, Map::<Seq<char>, Json>::empty().insert("id"@, Json::Str(id)), es),
                    }
                },
                None => fails_with(r, ExtractorErrorKind::InvalidUrl),
            },
    {
        let base = match self.site.capture(url, "url") {
            Some(b) => b,
            None => owned(url),
        };
        let playlist_id = match self.site.capture(url, "id") {
            Some(v) => v,
            None => return Err(fail(ExtractorErrorKind::InvalidUrl, "Rumble channel has no ID")),
        };
        let video_pattern = "https?://(?:www\\.)?rumble\\.com/(?P<id>v[\\w.-]+)[^/]*$";
        if !regex_compiles(video_pattern) {
            return Err(fail(ExtractorErrorKind::Extraction, "Rumble video URL pattern does not compile"));
        }
        let ghost run0 = rumble_channel_run(base@, replies@, 1, -1, 0, 0, Seq::empty(), Seq::empty());
        let mut seen: Vec<String> = Vec::new();
        let mut entries: Vec<InfoDict> = Vec::new();
        let mut pos: usize = 0;
        let mut page: usize = 1;
        assert(sources_view(seen@) =~= Seq::<Seq<char>>::empty());
        assert(dicts_view(entries@) =~= Seq::<Map<Seq<char>, Json>>::empty());
        while page <= 10000
            invariant
                1 <= page <= 10001,
                pos <= replies@.len(),
                video_pattern@ == rumble_video_pattern(),
                all_wf(entries@),
                run0 == rumble_channel_run(base@, replies@, page as int, -1, 0, pos as int, sources_view(seen@), dicts_view(entries@)),
            decreases 10001 - page,
        {
            if pos >= replies.len() {
                let mut u = owned(base.as_str());
                push_str(&mut u, "?page=");
                push_str(&mut u, usize_text(page).as_str());
                return Ok(Step::Fetch(get_text_optional(u)));
            }
            let html = match &replies[pos] {
                Reply::NotFound => return Ok(rumble_channel_done(playlist_id, entries)),
                Reply::Failed(e) => return Err(ExtractorError::new(e.kind, owned(e.message.as_str()))),
                Reply::Text(h) => h,
                _ => return Err(fail(ExtractorErrorKind::Extraction, "Rumble channel page could not be fetched")),
            };
            let links = rumble_channel_video_links(html.as_str());
            if links.len() == 0 {
                return Ok(rumble_channel_done(playlist_id, entries));
            }
            let pp = pos;
            pos = pos + 1;
            let ghost lv = sources_view(links@);
            assert(lv == rumble_page_links(replies@, pp as int));
            let mut k: usize = 0;
            while k < links.len()
                invariant
                    1 <= page <= 10000,
                    pp < pos <= replies@.len(),
                    k <= links@.len(),
                    lv == sources_view(links@),
                    lv == rumble_page_links(replies@, pp as int),
                    video_pattern@ == rumble_video_pattern(),
                    all_wf(entries@),
                    run0 == rumble_channel_run(base@, replies@, page as int, pp as int, k as int, pos as int, sources_view(seen@), dicts_view(entries@)),
                decreases links@.len() - k,
            {
                if contains_string(&seen, links[k].as_str()) {
                    k = k + 1;
                } else {
                    match rumble_step(video_pattern, links[k].as_str(), replies, pos) {
                        Ok((SubStep::Need(f), _)) => return Ok(Step::Fetch(f)),
                        Ok((SubStep::Got(info), n)) => {
                            let ghost prev_seen = sources_view(seen@);
                            let ghost prev = dicts_view(entries@);
                            seen.push(links[k].clone());
                            entries.push(info);
                            assert(sources_view(seen@) =~= prev_seen.push(lv[k as int]));
                            assert(dicts_view(entries@) =~= prev.push(info@));
                            pos = pos + n;
                            k = k + 1;
                        },
                        Err(_) => return Err(ExtractorError::new(ExtractorErrorKind::Extraction, concat3("Rumble channel entry ", links[k].as_str(), " failed"))),
                    }
                }
            }
            page = page + 1;
        }
        Ok(rumble_channel_done(playlist_id, entries))
    }
}

} // verus!
