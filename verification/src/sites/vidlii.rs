use vstd::prelude::*;

use crate::extract::{jstr, opt_int, opt_int_json, opt_str, proto_relative, proto_relative_url, put_opt, remove_char, reply_text, reply_text_at, without_char};
use crate::framework::{Expect, ExtractorDescriptor, ExtractorError, ExtractorErrorKind, ExtractorResult, Reply, SiteMatcher, Step, descriptor_ok, descriptor_source, done_with, fail, fails_with, fetches, get_text, head_probe, probes, descriptor_error, fails_saying};
use crate::html::{nonempty_fragment, nonempty_fragment_of};
use crate::info::{InfoDict};
use crate::json::{Json, JsonValue, arr_add, arr_done, arr_new, items_view, json_opt_view, obj_add, obj_done, obj_new};
use crate::float::{f64_text, parse_f64_text};
use crate::number::{int_text, int_to_string, parse_int, parsed_int};
use crate::page::{element_by_id_pattern, html_element_by_id, html_json_number, html_meta_value, html_title_value, json_number_pattern, meta_value, title_value};
use crate::pattern::{all_groups_view, capture_group, first_group, group_at, groups_view, regex_all_captures, regex_captures, regex_captures_iter, regex_first_captures, regex_first_group, regex_matches, regex_named_capture};
use crate::text::{concat2, concat3, owned, strip_suffixes, trim, trim_end_matches, trimmed};
use crate::timestamp::{parse_timestamp, timestamp_of};
use crate::weburl::{joined_url, url_is_valid, url_join, url_parses};

verus! {

/// Native VidLii page extractor. Media URLs are embedded in the player
/// configuration and are checked with HEAD requests before they are listed.
pub struct VidLiiExtractor {
    site: SiteMatcher,
}

impl VidLiiExtractor {
    /// The descriptor and matcher the extractor was built with.
    pub closed spec fn matcher(&self) -> SiteMatcher {
        self.site
    }

    pub fn new(descriptor: ExtractorDescriptor) -> (r: Result<Self, ExtractorError>)
        ensures
            r is Ok <==> descriptor_ok(descriptor),
            r matches Ok(x) ==> x.matcher().spec_descriptor() == descriptor
                && Some(x.matcher().source()) == descriptor_source(descriptor),
            r matches Err(e) ==> e.kind == ExtractorErrorKind::Extraction && e.message@ == descriptor_error(descriptor),
    {
        match SiteMatcher::from_descriptor(descriptor) {
            Ok(site) => Ok(VidLiiExtractor { site }),
            Err(e) => Err(e),
        }
    }

    pub fn descriptor(&self) -> (r: &ExtractorDescriptor)
        ensures
            *r == self.matcher().spec_descriptor(),
    {
        self.site.descriptor()
    }

    pub fn suitable(&self, url: &str) -> (r: bool)
        ensures
            r == regex_matches(self.matcher().source(), url@),
    {
        self.site.suitable(url)
    }

    pub fn is_native(&self) -> (r: bool)
        ensures
            r,
    {
        true
    }

    pub fn native_matcher_count(&self) -> (r: usize)
        ensures
            r == 1,
    {
        1
    }
}

/// The watch page of VidLii video `id`.
pub open spec fn vidlii_page_url(id: Seq<char>) -> Seq<char> {
    "https://www.vidlii.com/watch?v="@ + id
}

/// The pattern of a player source address.
pub open spec fn vidlii_source_pattern() -> Seq<char> {
    "(?is)\\bsrc\\s*:\\s*[\"']([^\"']+)[\"']"@
}

/// A source address read on the page, made absolute against the page address.
pub open spec fn vidlii_absolute(page: Seq<char>, raw: Seq<char>) -> Seq<char> {
    match joined_url(page, proto_relative(raw, "https:"@)) {
        Some(u) => u,
        None => raw,
    }
}

/// The source addresses of the first `n` player source matches, in order.
pub open spec fn vidlii_sources(page: Seq<char>, all: Seq<Seq<Option<Seq<char>>>>, n: int) -> Seq<Seq<char>>
    decreases n,
{
    if n <= 0 {
        Seq::empty()
    } else {
        let prev = vidlii_sources(page, all, n - 1);
        match group_at(all[n - 1], 1) {
            Some(raw) => prev.push(vidlii_absolute(page, raw)),
            None => prev,
        }
    }
}

/// The source addresses that a VidLii watch page offers, each to be checked by a HEAD request.
pub open spec fn vidlii_candidates(id: Seq<char>, html: Seq<char>) -> Seq<Seq<char>> {
    let all = regex_all_captures(vidlii_source_pattern(), html);
    vidlii_sources(vidlii_page_url(id), all, all.len() as int)
}

/// The height that a source address names, 360 when it names none.
pub open spec fn vidlii_height(u: Seq<char>) -> int {
    match first_group("(?i)(\\d+)\\.mp4"@, u, 1) {
        Some(g) => match parsed_int(g) {
            Some(h) => h,
            None => 360,
        },
        None => 360,
    }
}

/// The format record of a checked source address.
pub open spec fn vidlii_format(u: Seq<char>) -> Json {
    let h = vidlii_height(u);
    Json::Object(Seq::empty()
        .push(("url"@, Json::Str(u)))
        .push(("format_id"@, Json::Str(int_text(h) + "p"@)))
        .push(("height"@, Json::Int(h)))
        .push(("ext"@, Json::Str("mp4"@))))
}

/// The formats of the first `n` candidates whose HEAD request, answered by `replies[k + 1]`
/// for candidate `k`, did not fail.
pub open spec fn vidlii_formats(cands: Seq<Seq<char>>, replies: Seq<Reply>, n: int) -> Seq<(Seq<char>, Json)>
    decreases n,
{
    if n <= 0 {
        Seq::empty()
    } else {
        let prev = vidlii_formats(cands, replies, n - 1);
        if replies[n] is Failed || replies[n] is NotFound {
            prev
        } else {
            prev.push((cands[n - 1], vidlii_format(cands[n - 1])))
        }
    }
}

/// The format height of a source address, 360 when it names none.
fn vidlii_height_of(u: &str) -> (r: i64)
    ensures
        r as int == vidlii_height(u@),
{
    match regex_first_group("(?i)(\\d+)\\.mp4", u, 1) {
        Some(g) => match parse_int(g.as_str()) {
            Some(h) => h,
            None => 360,
        },
        None => 360,
    }
}

/// The format record of a checked source address.
pub fn vidlii_format_of(u: &str) -> (r: JsonValue)
    ensures
        r@ == vidlii_format(u@),
{
    let h = vidlii_height_of(u);
    let mut f = obj_new();
    obj_add(&mut f, "url", jstr(u));
    obj_add(&mut f, "format_id", JsonValue::Str(concat2(int_to_string(h).as_str(), "p")));
    obj_add(&mut f, "height", JsonValue::Int(h));
    obj_add(&mut f, "ext", jstr("mp4"));
    obj_done(f)
}

/// The source addresses that a VidLii watch page offers.
pub fn vidlii_candidates_of(id: &str, html: &str) -> (r: Vec<String>)
    ensures
        r@.len() == vidlii_candidates(id@, html@).len(),
        forall|k: int| 0 <= k < r@.len() ==> (#[trigger] r@[k])@ == vidlii_candidates(id@, html@)[k],
{
    let page = concat2("https://www.vidlii.com/watch?v=", id);
    let all = regex_captures_iter("(?is)\\bsrc\\s*:\\s*[\"']([^\"']+)[\"']", html);
    let ghost av = all_groups_view(all@);
    let mut out: Vec<String> = Vec::new();
    let mut i: usize = 0;
    while i < all.len()
        invariant
            i <= all@.len(),
            av == all_groups_view(all@),
            out@.len() == vidlii_sources(page@, av, i as int).len(),
            forall|k: int| 0 <= k < out@.len() ==> (#[trigger] out@[k])@ == vidlii_sources(page@, av, i as int)[k],
        decreases all@.len() - i,
    {
        assert(av[i as int] == groups_view(all@[i as int]@));
        match capture_group(&all[i], 1) {
            Some(raw) => {
                let u = match url_join(page.as_str(), proto_relative_url(raw.as_str(), "https:").as_str()) {
                    Some(u) => u,
                    None => raw,
                };
                out.push(u);
            },
            None => {},
        }
        i = i + 1;
    }
    out
}

/// Group 1 of the first match of `pattern` in `text`, else its group 2.
pub open spec fn group_one_or_two(pattern: Seq<char>, text: Seq<char>) -> Option<Seq<char>> {
    match regex_first_captures(pattern, text) {
        Some(g) => match group_at(g, 1) {
            Some(x) => Some(x),
            None => group_at(g, 2),
        },
        None => None,
    }
}

/// Group 1 of the first match of `pattern` in `text`, else its group 2.
fn group_one_or_two_of(pattern: &str, text: &str) -> (r: Option<String>)
    ensures
        match r {
            Some(s) => group_one_or_two(pattern@, text@) == Some(s@),
            None => group_one_or_two(pattern@, text@) is None,
        },
{
    match regex_captures(pattern, text) {
        Some(g) => match capture_group(&g, 1) {
            Some(x) => Some(x),
            None => capture_group(&g, 2),
        },
        None => None,
    }
}


/// The title of a VidLii watch page: its heading, else its `<title>` without the site
/// name, else the video ID.
pub open spec fn vidlii_title(id: Seq<char>, html: Seq<char>) -> Seq<char> {
    match nonempty_fragment(first_group("(?is)<h1\\b[^>]*>(.*?)</h1>"@, html, 1)) {
        Some(t) => t,
        None => match title_value(html) {
            Some(t) => trimmed(strip_suffixes(t, " - VidLii"@)),
            None => id,
        },
    }
}

/// The description of a VidLii watch page.
pub open spec fn vidlii_description(html: Seq<char>) -> Option<Seq<char>> {
    match meta_value(html, "description"@) {
        Some(d) => Some(d),
        None => match meta_value(html, "twitter:description"@) {
            Some(d) => Some(d),
            None => nonempty_fragment(first_group(element_by_id_pattern("des_text"@), html, 2)),
        },
    }
}

/// The thumbnail of a VidLii watch page.
pub open spec fn vidlii_thumbnail(page: Seq<char>, html: Seq<char>) -> Option<Seq<char>> {
    match meta_value(html, "twitter:image"@) {
        Some(t) => Some(t),
        None => match first_group("(?is)\\bimg\\s*:\\s*[\"']([^\"']+)[\"']"@, html, 1) {
            Some(v) => joined_url(page, proto_relative(v, "https:"@)),
            None => None,
        },
    }
}

/// The pattern of the uploader block of a VidLii watch page.
pub open spec fn vidlii_person_pattern() -> Seq<char> {
    "(?is)<div[^>]*class=[\"'][^\"']*\\bwt_person\\b[^\"']*[\"'][^>]*>\\s*<a[^>]*href=[\"']/user/([^\"'/?#]+)[\"'][^>]*>(.*?)</a>"@
}

/// The uploader's ID and name on a VidLii watch page.
pub open spec fn vidlii_uploader(html: Seq<char>) -> (Option<Seq<char>>, Option<Seq<char>>) {
    match regex_first_captures(vidlii_person_pattern(), html) {
        Some(g) => (group_at(g, 1), nonempty_fragment(group_at(g, 2))),
        None => (None, None),
    }
}

/// The publication time of a VidLii watch page.
pub open spec fn vidlii_timestamp(html: Seq<char>) -> Option<int> {
    let text = match meta_value(html, "datePublished"@) {
        Some(d) => Some(d),
        None => match first_group("(?is)<date\\b[^>]*>([^<]+)"@, html, 1) {
            Some(d) => Some(trimmed(d)),
            None => None,
        },
    };
    match text {
        Some(t) => timestamp_of(t),
        None => None,
    }
}

/// A number text read as a float.
pub open spec fn decimal_json(s: Option<Seq<char>>) -> Option<Json> {
    match s {
        Some(t) => f64_text(t),
        None => None,
    }
}

/// The duration of a VidLii watch page.
pub open spec fn vidlii_duration(html: Seq<char>) -> Option<Json> {
    decimal_json(match meta_value(html, "video:duration"@) {
        Some(d) => Some(d),
        None => first_group(json_number_pattern("duration"@), html, 1),
    })
}

/// The view count of a VidLii watch page.
pub open spec fn vidlii_views(html: Seq<char>) -> Option<int> {
    match group_one_or_two("(?is)(?:<strong>\\s*([0-9,]+)\\s*</strong>\\s*views|Views\\s*:\\s*<strong>\\s*([0-9,]+)\\s*</strong>)"@, html) {
        Some(v) => parsed_int(without_char(v, ',')),
        None => None,
    }
}

/// The comment count of a VidLii watch page.
pub open spec fn vidlii_comments(html: Seq<char>) -> Option<int> {
    match group_one_or_two("(?is)(?:<span[^>]*id=[\"']cmt_num[\"'][^>]*>\\s*(\\d+)|Comments\\s*:\\s*<strong>\\s*(\\d+))"@, html) {
        Some(v) => parsed_int(v),
        None => None,
    }
}

/// The tags of the first `n` tag links of a VidLii watch page.
pub open spec fn vidlii_tag_list(all: Seq<Seq<Option<Seq<char>>>>, n: int) -> Seq<Json>
    decreases n,
{
    if n <= 0 {
        Seq::empty()
    } else {
        let prev = vidlii_tag_list(all, n - 1);
        match nonempty_fragment(group_at(all[n - 1], 1)) {
            Some(t) => prev.push(Json::Str(t)),
            None => prev,
        }
    }
}

/// The pattern of a VidLii tag link.
pub open spec fn vidlii_tag_pattern() -> Seq<char> {
    "(?is)<a[^>]*\\bhref=[\"']/results\\?[^\"']*\\bq=[^\"']*[\"'][^>]*>([^<]+)</a>"@
}

/// The tags of a VidLii watch page.
pub open spec fn vidlii_tags(html: Seq<char>) -> Seq<Json> {
    let all = regex_all_captures(vidlii_tag_pattern(), html);
    vidlii_tag_list(all, all.len() as int)
}

/// `m` with the uploader, time, counts, rating, category and tags of a VidLii page set.
pub open spec fn vidlii_details(m: Map<Seq<char>, Json>, html: Seq<char>) -> Map<Seq<char>, Json> {
    let (uid, uname) = vidlii_uploader(html);
    let m1 = put_opt(m, "uploader_url"@, opt_str(match uid {
        Some(u) => Some("https://www.vidlii.com/user/"@ + u),
        None => None,
    }));
    let m2 = put_opt(m1, "uploader_id"@, opt_str(uid));
    let m3 = put_opt(m2, "uploader"@, opt_str(uname));
    let m4 = put_opt(m3, "timestamp"@, opt_int(vidlii_timestamp(html)));
    let m5 = put_opt(m4, "duration"@, vidlii_duration(html));
    let m6 = put_opt(m5, "view_count"@, opt_int(vidlii_views(html)));
    let m7 = put_opt(m6, "comment_count"@, opt_int(vidlii_comments(html)));
    let m8 = put_opt(m7, "average_rating"@, decimal_json(first_group("(?is)\\brating\\s*:\\s*([0-9.]+)"@, html, 1)));
    let m9 = put_opt(m8, "categories"@, match nonempty_fragment(first_group("(?is)<div>\\s*Category\\s*:\\s*</div>\\s*<div>\\s*<a[^>]*>([^<]+)"@, html, 1)) {
        Some(c) => Some(Json::Array(seq![Json::Str(c)])),
        None => None,
    });
    let tags = vidlii_tags(html);
    if tags.len() > 0 { m9.insert("tags"@, Json::Array(tags)) } else { m9 }
}

/// The metadata of VidLii video `id` from its watch page and its checked formats.
pub open spec fn vidlii_info(id: Seq<char>, html: Seq<char>, fs: Seq<(Seq<char>, Json)>) -> Map<Seq<char>, Json> {
    let page = vidlii_page_url(id);
    let m0 = Map::<Seq<char>, Json>::empty()
        .insert("id"@, Json::Str(id))
        .insert("title"@, Json::Str(vidlii_title(id, html)))
        .insert("url"@, Json::Str(fs[0].0))
        .insert("ext"@, Json::Str("mp4"@))
        .insert("formats"@, Json::Array(Seq::new(fs.len(), |i: int| fs[i].1)));
    let m1 = put_opt(m0, "description"@, opt_str(vidlii_description(html)));
    let m2 = put_opt(m1, "thumbnail"@, opt_str(vidlii_thumbnail(page, html)));
    vidlii_details(m2, html)
}

fn decimal_json_of(s: Option<String>) -> (r: Option<JsonValue>)
    ensures
        json_opt_view(r) == decimal_json(match s { Some(x) => Some(x@), None => None }),
{
    match s {
        Some(t) => parse_f64_text(t.as_str()),
        None => None,
    }
}

fn vidlii_title_of(id: &str, html: &str) -> (r: String)
    ensures
        r@ == vidlii_title(id@, html@),
{
    match nonempty_fragment_of(regex_first_group("(?is)<h1\\b[^>]*>(.*?)</h1>", html, 1)) {
        Some(t) => t,
        None => match html_title_value(html) {
            Some(t) => trim(trim_end_matches(t.as_str(), " - VidLii").as_str()),
            None => owned(id),
        },
    }
}

fn vidlii_description_of(html: &str) -> (r: Option<String>)
    ensures
        match r {
            Some(d) => vidlii_description(html@) == Some(d@),
            None => vidlii_description(html@) is None,
        },
{
    match html_meta_value(html, "description") {
        Some(d) => Some(d),
        None => match html_meta_value(html, "twitter:description") {
            Some(d) => Some(d),
            None => nonempty_fragment_of(html_element_by_id(html, "des_text")),
        },
    }
}

fn vidlii_thumbnail_of(page: &str, html: &str) -> (r: Option<String>)
    ensures
        match r {
            Some(t) => vidlii_thumbnail(page@, html@) == Some(t@),
            None => vidlii_thumbnail(page@, html@) is None,
        },
{
    match html_meta_value(html, "twitter:image") {
        Some(t) => Some(t),
        None => match regex_first_group("(?is)\\bimg\\s*:\\s*[\"']([^\"']+)[\"']", html, 1) {
            Some(v) => url_join(page, proto_relative_url(v.as_str(), "https:").as_str()),
            None => None,
        },
    }
}

fn vidlii_timestamp_of(html: &str) -> (r: Option<i64>)
    ensures
        match r {
            Some(t) => vidlii_timestamp(html@) == Some(t as int),
            None => vidlii_timestamp(html@) is None,
        },
{
    let text = match html_meta_value(html, "datePublished") {
        Some(d) => Some(d),
        None => match regex_first_group("(?is)<date\\b[^>]*>([^<]+)", html, 1) {
            Some(d) => Some(trim(d.as_str())),
            None => None,
        },
    };
    match text {
        Some(t) => parse_timestamp(t.as_str()),
        None => None,
    }
}

fn vidlii_tags_of(html: &str) -> (r: Vec<JsonValue>)
    ensures
        items_view(r@) == vidlii_tags(html@),
{
    let all = regex_captures_iter("(?is)<a[^>]*\\bhref=[\"']/results\\?[^\"']*\\bq=[^\"']*[\"'][^>]*>([^<]+)</a>", html);
    let ghost av = all_groups_view(all@);
    let mut out: Vec<JsonValue> = Vec::new();
    let mut i: usize = 0;
    assert(items_view(out@) =~= vidlii_tag_list(av, 0));
    while i < all.len()
        invariant
            i <= all@.len(),
            av == all_groups_view(all@),
            items_view(out@) == vidlii_tag_list(av, i as int),
        decreases all@.len() - i,
    {
        assert(av[i as int] == groups_view(all@[i as int]@));
        let ghost prev = out@;
        match nonempty_fragment_of(capture_group(&all[i], 1)) {
            Some(t) => {
                let ghost tv = t@;
                out.push(JsonValue::Str(t));
                assert(items_view(out@) =~= items_view(prev).push(Json::Str(tv)));
            },
            None => {},
        }
        i = i + 1;
    }
    out
}

#[verifier::rlimit(40)]
fn vidlii_details_of(info: &mut InfoDict, html: &str)
    requires
        old(info).wf(),
    ensures
        final(info).wf(),
        final(info)@ == vidlii_details(old(info)@, html@),
{
    let (uid, uname) = match regex_captures(
        "(?is)<div[^>]*class=[\"'][^\"']*\\bwt_person\\b[^\"']*[\"'][^>]*>\\s*<a[^>]*href=[\"']/user/([^\"'/?#]+)[\"'][^>]*>(.*?)</a>",
        html,
    ) {
        Some(g) => (capture_group(&g, 1), nonempty_fragment_of(capture_group(&g, 2))),
        None => (None, None),
    };
    info.insert_if_some("uploader_url", match &uid {
        Some(u) => Some(JsonValue::Str(concat2("https://www.vidlii.com/user/", u.as_str()))),
        None => None,
    });
    info.insert_if_some("uploader_id", match uid {
        Some(u) => Some(JsonValue::Str(u)),
        None => None,
    });
    info.insert_if_some("uploader", match uname {
        Some(u) => Some(JsonValue::Str(u)),
        None => None,
    });
    info.insert_if_some("timestamp", opt_int_json(vidlii_timestamp_of(html)));
    let dur = match html_meta_value(html, "video:duration") {
        Some(d) => Some(d),
        None => html_json_number(html, "duration"),
    };
    info.insert_if_some("duration", decimal_json_of(dur));
    let views = match group_one_or_two_of("(?is)(?:<strong>\\s*([0-9,]+)\\s*</strong>\\s*views|Views\\s*:\\s*<strong>\\s*([0-9,]+)\\s*</strong>)", html) {
        Some(v) => parse_int(remove_char(v.as_str(), ',').as_str()),
        None => None,
    };
    info.insert_if_some("view_count", opt_int_json(views));
    let comments = match group_one_or_two_of("(?is)(?:<span[^>]*id=[\"']cmt_num[\"'][^>]*>\\s*(\\d+)|Comments\\s*:\\s*<strong>\\s*(\\d+))", html) {
        Some(v) => parse_int(v.as_str()),
        None => None,
    };
    info.insert_if_some("comment_count", opt_int_json(comments));
    info.insert_if_some("average_rating", decimal_json_of(regex_first_group("(?is)\\brating\\s*:\\s*([0-9.]+)", html, 1)));
    match nonempty_fragment_of(regex_first_group("(?is)<div>\\s*Category\\s*:\\s*</div>\\s*<div>\\s*<a[^>]*>([^<]+)", html, 1)) {
        Some(c) => {
            let mut cats = arr_new();
            arr_add(&mut cats, JsonValue::Str(c));
            info.insert("categories", arr_done(cats));
        },
        None => {},
    }
    let tags = vidlii_tags_of(html);
    if tags.len() > 0 {
        info.insert("tags", arr_done(tags));
    }
}

impl VidLiiExtractor {
    /// One step of a VidLii extraction: the watch page is fetched, then each source address
    /// it offers is checked with a HEAD request, then the metadata is built with the
    /// sources that answered.
    pub fn extract_step(&self, url: &str, replies: &Vec<Reply>) -> (r: Result<Step, ExtractorError>)
        ensures
            match regex_named_capture(self.matcher().source(), url@, "id"@) {
                Some(id) => if replies@.len() == 0 {
                    fetches(r, vidlii_page_url(id), Expect::Text)
                } else {
                    match reply_text_at(replies@, 0) {
                        Some(html) => if !url_parses(vidlii_page_url(id)) {
                            fails_saying(r, ExtractorErrorKind::InvalidUrl, "invalid VidLii page URL"@)
                        } else {
                            let c = vidlii_candidates(id, html);
                            if replies@.len() <= c.len() {
                                probes(r, c[replies@.len() - 1])
                            } else {
                                let fs = vidlii_formats(c, replies@, c.len() as int);
                                if fs.len() == 0 {
                                    fails_saying(r, ExtractorErrorKind::Extraction, "VidLii video "@ + id + " has no playable source URLs"@)
                                } else {
                                    done_with(r, vidlii_info(id, html, fs))
                                }
                            }
                        },
                        None => fails_with(r, ExtractorErrorKind::Extraction),
                    }
                },
                None => fails_saying(r, ExtractorErrorKind::InvalidUrl, "VidLii URL has no ID"@),
            },
    {
        let video_id = match self.site.capture(url, "id") {
            Some(v) => v,
            None => return Err(fail(ExtractorErrorKind::InvalidUrl, "VidLii URL has no ID")),
        };
        let page = concat2("https://www.vidlii.com/watch?v=", video_id.as_str());
        if replies.len() == 0 {
            return Ok(Step::Fetch(get_text(page)));
        }
        let html = reply_text(replies, 0)?;
        if !url_is_valid(page.as_str()) {
            return Err(fail(ExtractorErrorKind::InvalidUrl, "invalid VidLii page URL"));
        }
        let cands = vidlii_candidates_of(video_id.as_str(), html.as_str());
        if replies.len() <= cands.len() {
            return Ok(Step::Fetch(head_probe(cands[replies.len() - 1].clone())));
        }
        let ghost c = vidlii_candidates(video_id@, html@);
        let mut formats: Vec<JsonValue> = Vec::new();
        let mut first: Option<String> = None;
        let mut k: usize = 0;
        assert(items_view(formats@) =~= Seq::new(vidlii_formats(c, replies@, 0).len(), |i: int| vidlii_formats(c, replies@, 0)[i].1));
        while k < cands.len()
            invariant
                k <= cands@.len(),
                cands@.len() == c.len(),
                cands@.len() < replies@.len(),
                forall|j: int| 0 <= j < cands@.len() ==> (#[trigger] cands@[j])@ == c[j],
                items_view(formats@) == Seq::new(vidlii_formats(c, replies@, k as int).len(), |i: int| vidlii_formats(c, replies@, k as int)[i].1),
                match first {
                    Some(u) => vidlii_formats(c, replies@, k as int).len() > 0 && vidlii_formats(c, replies@, k as int)[0].0 == u@,
                    None => vidlii_formats(c, replies@, k as int).len() == 0,
                },
            decreases cands@.len() - k,
        {
            let ghost prev = vidlii_formats(c, replies@, k as int);
            let ghost old_formats = formats@;
            match &replies[k + 1] {
                Reply::Failed(_) | Reply::NotFound => {},
                _ => {
                    let f = vidlii_format_of(cands[k].as_str());
                    if first.is_none() {
                        first = Some(cands[k].clone());
                    }
                    formats.push(f);
                    let ghost next = prev.push((c[k as int], vidlii_format(c[k as int])));
                    assert(items_view(formats@) =~= items_view(old_formats).push(f@));
                    assert(items_view(formats@) =~= Seq::new(next.len(), |i: int| next[i].1));
                },
            }
            k = k + 1;
        }
        let first_url = match first {
            Some(u) => u,
            None => return Err(ExtractorError::new(
                ExtractorErrorKind::Extraction,
                concat3("VidLii video ", video_id.as_str(), " has no playable source URLs"),
            )),
        };
        let mut info = InfoDict::new();
        info.insert("id", JsonValue::Str(video_id.clone()));
        info.insert("title", JsonValue::Str(vidlii_title_of(video_id.as_str(), html.as_str())));
        info.insert("url", JsonValue::Str(first_url));
        info.insert("ext", jstr("mp4"));
        info.insert("formats", arr_done(formats));
        info.insert_if_some("description", match vidlii_description_of(html.as_str()) {
            Some(d) => Some(JsonValue::Str(d)),
            None => None,
        });
        info.insert_if_some("thumbnail", match vidlii_thumbnail_of(page.as_str(), html.as_str()) {
            Some(t) => Some(JsonValue::Str(t)),
            None => None,
        });
        vidlii_details_of(&mut info, html.as_str());
        Ok(Step::Done(ExtractorResult::single(info)))
    }
}

} // verus!
