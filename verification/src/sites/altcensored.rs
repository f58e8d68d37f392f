use vstd::prelude::*;

use crate::sites::generic::{contains_string};
use crate::extract::{jstr, native_url_result, opt_int, opt_int_json, opt_str, put_opt, remove_char, reply_text, reply_text_at, resolve_url, resolved, url_result, without_char};
use crate::framework::{Expect, ExtractorDescriptor, ExtractorError, ExtractorErrorKind, ExtractorResult, Reply, SiteMatcher, Step, all_wf, descriptor_ok, descriptor_source, dicts_view, done_playlist, done_with, fail, fails_with, fetches, get_text, sources_view, descriptor_error};
use crate::html::{html_text_fragment, nonempty_fragment, nonempty_fragment_of, text_fragment, unescape_html, unescaped};
use crate::info::{InfoDict};
use crate::json::{Json, JsonValue, arr_add, arr_done, arr_new, str_equal};
use crate::number::{nat_text, parse_int, parse_usize, parsed_int, parsed_usize, usize_text};
use crate::page::{html_meta_value, meta_value};
use crate::pattern::{all_groups_view, capture_group, first_group, group_at, groups_view, regex_all_captures, regex_captures_iter, regex_compiles, regex_first_group, regex_matches, regex_named_capture, regex_valid};
use crate::text::{concat2, concat3, contains, owned, push_str};

verus! {

/// Native AltCensored page extractor: the page's archive.org item is handed on as
/// a URL result.
pub struct AltCensoredExtractor {
    site: SiteMatcher,
}

impl AltCensoredExtractor {
    /// The descriptor and matcher the extractor was built with.
    pub closed spec fn matcher(&self) -> SiteMatcher {
        self.site
    }

    pub fn new(descriptor: ExtractorDescriptor) -> (r: Result<Self, ExtractorError>)
        ensures
            r is Ok <==> descriptor_ok(descriptor),
            r matches Ok(x) ==> x.matcher().spec_descriptor() == descriptor
                && Some(x.matcher().source()) == descriptor_source(descriptor),
            r matches Err(e) ==> e.kind == ExtractorErrorKind::Extraction && e.message@ == descriptor_error(descriptor),
    {
        match SiteMatcher::from_descriptor(descriptor) {
            Ok(site) => Ok(AltCensoredExtractor { site }),
            Err(e) => Err(e),
        }
    }

    pub fn descriptor(&self) -> (r: &ExtractorDescriptor)
        ensures
            *r == self.matcher().spec_descriptor(),
    {
        self.site.descriptor()
    }

    pub fn suitable(&self, url: &str) -> (r: bool)
        ensures
            r == regex_matches(self.matcher().source(), url@),
    {
        self.site.suitable(url)
    }

    pub fn is_native(&self) -> (r: bool)
        ensures
            r,
    {
        true
    }

    pub fn native_matcher_count(&self) -> (r: usize)
        ensures
            r == 1,
    {
        1
    }
}

/// Native AltCensored channel playlist extractor. Every page of the channel is
/// read before the playlist is returned; each entry remains a URL result for the AltCensored extractor.
pub struct AltCensoredChannelExtractor {
    site: SiteMatcher,
}

impl AltCensoredChannelExtractor {
    /// The descriptor and matcher the extractor was built with.
    pub closed spec fn matcher(&self) -> SiteMatcher {
        self.site
    }

    pub fn new(descriptor: ExtractorDescriptor) -> (r: Result<Self, ExtractorError>)
        ensures
            r is Ok <==> descriptor_ok(descriptor),
            r matches Ok(x) ==> x.matcher().spec_descriptor() == descriptor
                && Some(x.matcher().source()) == descriptor_source(descriptor),
            r matches Err(e) ==> e.kind == ExtractorErrorKind::Extraction && e.message@ == descriptor_error(descriptor),
    {
        match SiteMatcher::from_descriptor(descriptor) {
            Ok(site) => Ok(AltCensoredChannelExtractor { site }),
            Err(e) => Err(e),
        }
    }

    pub fn descriptor(&self) -> (r: &ExtractorDescriptor)
        ensures
            *r == self.matcher().spec_descriptor(),
    {
        self.site.descriptor()
    }

    pub fn suitable(&self, url: &str) -> (r: bool)
        ensures
            r == regex_matches(self.matcher().source(), url@),
    {
        self.site.suitable(url)
    }

    pub fn is_native(&self) -> (r: bool)
        ensures
            r,
    {
        true
    }

    pub fn native_matcher_count(&self) -> (r: usize)
        ensures
            r == 1,
    {
        1
    }
}


/// Where an AltCensored page gives its category.
pub open spec fn ac_category_pattern() -> Seq<char> {
    "(?is)<a\\b[^>]*\\bhref\\s*=\\s*[\"']/category/\\d+[\"'][^>]*>(.*?)</a>"@
}

/// Where an AltCensored page gives its YouTube views.
pub open spec fn ac_views_pattern() -> Seq<char> {
    "(?is)YouTube\\s+Views:\\s*(?:&nbsp;|\\s)*([\\d,]+)"@
}

/// The links of a channel's page list, with their labels.
pub open spec fn ac_page_pattern() -> Seq<char> {
    "(?is)<a\\b[^>]*\\bhref\\s*=\\s*[\"']/channel/[\\w-]+/page/(\\d+)[\"'][^>]*>\\s*(\\d+)\\s*</a>"@
}

/// The video links of a channel page.
pub open spec fn ac_video_pattern() -> Seq<char> {
    "(?is)<a\\b[^>]*\\bhref\\s*=\\s*[\"'](/watch\\?v=[^\"']+)[\"']"@
}

/// The metadata of an AltCensored video: it is handed on to its archive.org copy.
pub open spec fn ac_info(id: Seq<char>, html: Seq<char>) -> Map<Seq<char>, Json> {
    put_opt(put_opt(Map::<Seq<char>, Json>::empty()
        .insert("_type"@, Json::Str("url_transparent"@))
        .insert("url"@, Json::Str("https://archive.org/details/youtube-"@ + id))
        .insert("ie_key"@, Json::Str("ArchiveOrg"@)),
        "view_count"@, opt_int(match first_group(ac_views_pattern(), html, 1) {
            Some(v) => parsed_int(without_char(v, ',')),
            None => None,
        })),
        "categories"@, match nonempty_fragment(first_group(ac_category_pattern(), html, 1)) {
            Some(c) => Some(Json::Array(seq![Json::Str(c)])),
            None => None,
        })
}

impl AltCensoredExtractor {
    /// One step of an AltCensored extraction: the page is fetched for its counts, and the
    /// video is handed on to its archive.org copy.
    pub fn extract_step(&self, url: &str, replies: &Vec<Reply>) -> (r: Result<Step, ExtractorError>)
        ensures
            match regex_named_capture(self.matcher().source(), url@, "id"@) {
                Some(id) => if replies@.len() == 0 {
                    fetches(r, url@, Expect::Text)
                } else {
                    match reply_text_at(replies@, 0) {
                        Some(html) => done_with(r, ac_info(id, html)),
                        None => fails_with(r, ExtractorErrorKind::Extraction),
                    }
                },
                None => fails_with(r, ExtractorErrorKind::InvalidUrl),
            },
    {
        let video_id = match self.site.capture(url, "id") {
            Some(v) => v,
            None => return Err(fail(ExtractorErrorKind::InvalidUrl, "AltCensored URL has no video ID")),
        };
        if replies.len() == 0 {
            return Ok(Step::Fetch(get_text(owned(url))));
        }
        let html = reply_text(replies, 0)?;
        let mut info = InfoDict::new();
        info.insert("_type", jstr("url_transparent"));
        info.insert("url", JsonValue::Str(concat2("https://archive.org/details/youtube-", video_id.as_str())));
        info.insert("ie_key", jstr("ArchiveOrg"));
        info.insert_if_some("view_count", match regex_first_group("(?is)YouTube\\s+Views:\\s*(?:&nbsp;|\\s)*([\\d,]+)", html.as_str(), 1) {
            Some(v) => opt_int_json(parse_int(remove_char(v.as_str(), ',').as_str())),
            None => None,
        });
        let category = nonempty_fragment_of(regex_first_group("(?is)<a\\b[^>]*\\bhref\\s*=\\s*[\"']/category/\\d+[\"'][^>]*>(.*?)</a>", html.as_str(), 1));
        info.insert_if_some("categories", match category {
            Some(c) => {
                let mut a = arr_new();
                arr_add(&mut a, JsonValue::Str(c));
                let v = arr_done(a);
                assert(v@ =~= Json::Array(seq![Json::Str(c@)]));
                Some(v)
            },
            None => None,
        });
        Ok(Step::Done(ExtractorResult::single(info)))
    }
}

/// The largest page number among the first `n` page links whose address and label agree.
pub open spec fn ac_max_page(all: Seq<Seq<Option<Seq<char>>>>, n: int) -> Option<int>
    decreases n,
{
    if n <= 0 {
        None
    } else {
        let prev = ac_max_page(all, n - 1);
        match (group_at(all[n - 1], 1), group_at(all[n - 1], 2)) {
            (Some(p), Some(l)) => if p == l {
                match parsed_usize(p) {
                    Some(v) => match prev {
                        Some(m) => Some(if v > m { v } else { m }),
                        None => Some(v),
                    },
                    None => prev,
                }
            } else {
                prev
            },
            _ => prev,
        }
    }
}

/// `altcensored_page_count`: how many pages a channel lists, 1 when it lists none.
pub open spec fn ac_page_count(html: Seq<char>) -> int {
    if !regex_valid(ac_page_pattern()) {
        1
    } else {
        let all = regex_all_captures(ac_page_pattern(), html);
        match ac_max_page(all, all.len() as int) {
            Some(m) => m,
            None => 1,
        }
    }
}

/// `altcensored_page_count`: how many pages a channel lists.
pub fn altcensored_page_count(html: &str) -> (r: usize)
    ensures
        r as int == ac_page_count(html@),
{
    let pattern = "(?is)<a\\b[^>]*\\bhref\\s*=\\s*[\"']/channel/[\\w-]+/page/(\\d+)[\"'][^>]*>\\s*(\\d+)\\s*</a>";
    if !regex_compiles(pattern) {
        return 1;
    }
    let all = regex_captures_iter(pattern, html);
    let ghost av = all_groups_view(all@);
    let mut best: Option<usize> = None;
    let mut i: usize = 0;
    while i < all.len()
        invariant
            i <= all@.len(),
            av == all_groups_view(all@),
            ac_max_page(av, i as int) == match best { Some(b) => Some(b as int), None => None },
        decreases all@.len() - i,
    {
        assert(av[i as int] == groups_view(all@[i as int]@));
        match (capture_group(&all[i], 1), capture_group(&all[i], 2)) {
            (Some(p), Some(l)) => {
                if str_equal(p.as_str(), l.as_str()) {
                    match parse_usize(p.as_str()) {
                        Some(v) => {
                            best = match best {
                                Some(m) => Some(if v > m { v } else { m }),
                                None => Some(v),
                            };
                        },
                        None => {},
                    }
                }
            },
            _ => {},
        }
        i = i + 1;
    }
    match best {
        Some(b) => b,
        None => 1,
    }
}

/// The video addresses of the first `n` video links of a channel page, each once.
pub open spec fn ac_links(all: Seq<Seq<Option<Seq<char>>>>, n: int) -> Seq<Seq<char>>
    decreases n,
{
    if n <= 0 {
        Seq::empty()
    } else {
        let prev = ac_links(all, n - 1);
        match group_at(all[n - 1], 1) {
            Some(p) => {
                let u = resolved("https://www.altcensored.com"@, unescaped(p));
                if prev.contains(u) { prev } else { prev.push(u) }
            },
            None => prev,
        }
    }
}

/// `altcensored_video_urls`: the video addresses of a channel page, each once, in order.
pub open spec fn ac_video_urls(html: Seq<char>) -> Seq<Seq<char>> {
    if !regex_valid(ac_video_pattern()) {
        Seq::empty()
    } else {
        let all = regex_all_captures(ac_video_pattern(), html);
        ac_links(all, all.len() as int)
    }
}

/// `altcensored_video_urls`: the video addresses of a channel page.
pub fn altcensored_video_urls(html: &str) -> (r: Vec<String>)
    ensures
        sources_view(r@) == ac_video_urls(html@),
{
    let pattern = "(?is)<a\\b[^>]*\\bhref\\s*=\\s*[\"'](/watch\\?v=[^\"']+)[\"']";
    if !regex_compiles(pattern) {
        let r: Vec<String> = Vec::new();
        assert(sources_view(r@) =~= Seq::<Seq<char>>::empty());
        return r;
    }
    let all = regex_captures_iter(pattern, html);
    let ghost av = all_groups_view(all@);
    let mut urls: Vec<String> = Vec::new();
    let mut i: usize = 0;
    assert(sources_view(urls@) =~= Seq::<Seq<char>>::empty());
    while i < all.len()
        invariant
            i <= all@.len(),
            av == all_groups_view(all@),
            sources_view(urls@) == ac_links(av, i as int),
        decreases all@.len() - i,
    {
        assert(av[i as int] == groups_view(all@[i as int]@));
        match capture_group(&all[i], 1) {
            Some(p) => {
                let u = resolve_url("https://www.altcensored.com", unescape_html(p.as_str()).as_str());
                if !contains_string(&urls, u.as_str()) {
                    let ghost before = sources_view(urls@);
                    let ghost uv = u@;
                    urls.push(u);
                    assert(sources_view(urls@) =~= before.push(uv));
                }
            },
            None => {},
        }
        i = i + 1;
    }
    urls
}

/// `urls` followed by those of `more` that it does not hold yet, in order.
pub open spec fn merge_new(urls: Seq<Seq<char>>, more: Seq<Seq<char>>, n: int) -> Seq<Seq<char>>
    decreases n,
{
    if n <= 0 {
        urls
    } else {
        let prev = merge_new(urls, more, n - 1);
        if prev.contains(more[n - 1]) { prev } else { prev.push(more[n - 1]) }
    }
}

/// The address of page `k` of AltCensored channel `id`.
pub open spec fn ac_page_url(id: Seq<char>, k: int) -> Seq<char> {
    "https://altcensored.com/channel/"@ + id + "/page/"@ + nat_text(k as nat)
}

/// Where a channel listing stands: page `k` of `count` is next, its answer `replies[k]`,
/// with the video addresses `urls` gathered.
pub open spec fn ac_run(id: Seq<char>, replies: Seq<Reply>, count: int, k: int, urls: Seq<Seq<char>>) -> AcRun
    decreases count + 1 - k,
{
    if k < 1 || k > count {
        AcRun::Urls(urls)
    } else if k >= replies.len() {
        AcRun::NeedPage(ac_page_url(id, k))
    } else {
        match reply_text_at(replies, k) {
            Some(h) => {
                let more = ac_video_urls(h);
                ac_run(id, replies, count, k + 1, merge_new(urls, more, more.len() as int))
            },
            None => AcRun::Failed,
        }
    }
}

/// Where a channel listing stands.
pub enum AcRun {
    NeedPage(Seq<char>),
    Failed,
    Urls(Seq<Seq<char>>),
}

/// The playlist entry of an AltCensored video address.
pub open spec fn ac_entry(u: Seq<char>) -> Map<Seq<char>, Json> {
    url_result(u).insert("ie_key"@, Json::Str("AltCensored"@))
}

/// The metadata of an AltCensored channel.
pub open spec fn ac_channel_info(id: Seq<char>, html: Seq<char>) -> Map<Seq<char>, Json> {
    put_opt(Map::<Seq<char>, Json>::empty().insert("id"@, Json::Str(id)),
        "title"@, opt_str(match meta_value(html, "altcen_title"@) {
            Some(t) => if text_fragment(t).len() > 0 { Some(text_fragment(t)) } else { None },
            None => None,
        }))
}

impl AltCensoredChannelExtractor {
    /// One step of an AltCensored channel extraction: the channel page gives the number of
    /// pages, each page is fetched in turn, and each video it links to, once, becomes an
    /// entry handed on to `AltCensoredExtractor`.
    #[verifier::loop_isolation(false)]
    pub fn extract_step(&self, url: &str, replies: &Vec<Reply>) -> (r: Result<Step, ExtractorError>)
        ensures
            match regex_named_capture(self.matcher().source(), url@, "id"@) {
                Some(id) => if replies@.len() == 0 {
                    fetches(r, url@, Expect::Text)
                } else {
                    match reply_text_at(replies@, 0) {
                        Some(html) => match ac_run(id, replies@, ac_page_count(html), 1, Seq::empty()) {
                            AcRun::NeedPage(u) => fetches(r, u, Expect::Text),
                            AcRun::Failed => fails_with(r, ExtractorErrorKind::Extraction),
                            AcRun::Urls(us) => done_playlist(r, ac_channel_info(id, html),
                                Seq::new(us.len(), |i: int| ac_entry(us[i]))),
                        },
                        None => fails_with(r, ExtractorErrorKind::Extraction),
                    }
                },
                None => fails_with(r, ExtractorErrorKind::InvalidUrl),
            },
    {
        let channel_id = match self.site.capture(url, "id") {
            Some(v) => v,
            None => return Err(fail(ExtractorErrorKind::InvalidUrl, "AltCensored channel URL has no channel ID")),
        };
        if replies.len() == 0 {
            return Ok(Step::Fetch(get_text(owned(url))));
        }
        let html = reply_text(replies, 0)?;
        let count = altcensored_page_count(html.as_str());
        let title = match html_meta_value(html.as_str(), "altcen_title") {
            Some(t) => {
                let f = html_text_fragment(t.as_str());
                if f.unicode_len() > 0 { Some(JsonValue::Str(f)) } else { None }
            },
            None => None,
        };
        let ghost run0 = ac_run(channel_id@, replies@, count as int, 1, Seq::empty());
        let mut urls: Vec<String> = Vec::new();
        let mut k: usize = 1;
        assert(sources_view(urls@) =~= Seq::<Seq<char>>::empty());
        while k <= count
            invariant
                1 <= k,
                k <= count + 1,
                run0 == ac_run(channel_id@, replies@, count as int, k as int, sources_view(urls@)),
            decreases count + 1 - k,
        {
            if k >= replies.len() {
                let mut page = concat3("https://altcensored.com/channel/", channel_id.as_str(), "/page/");
                push_str(&mut page, usize_text(k).as_str());
                return Ok(Step::Fetch(get_text(page)));
            }
            let page = reply_text(replies, k)?;
            let more = altcensored_video_urls(page.as_str());
            let ghost mv = sources_view(more@);
            let ghost start = sources_view(urls@);
            let mut j: usize = 0;
            while j < more.len()
                invariant
                    j <= more@.len(),
                    mv == sources_view(more@),
                    sources_view(urls@) == merge_new(start, mv, j as int),
                decreases more@.len() - j,
            {
                if !contains_string(&urls, more[j].as_str()) {
                    let ghost before = sources_view(urls@);
                    urls.push(more[j].clone());
                    assert(sources_view(urls@) =~= before.push(mv[j as int]));
                }
                j = j + 1;
            }
            if k == usize::MAX {
                break;
            }
            k = k + 1;
        }
        let ghost uv = sources_view(urls@);
        let mut entries: Vec<InfoDict> = Vec::new();
        let mut i: usize = 0;
        while i < urls.len()
            invariant
                i <= urls@.len(),
                uv == sources_view(urls@),
                all_wf(entries@),
                dicts_view(entries@) == Seq::new(i as nat, |m: int| ac_entry(uv[m])),
            decreases urls@.len() - i,
        {
            let mut e = native_url_result(urls[i].as_str());
            e.insert("ie_key", jstr("AltCensored"));
            let ghost prev = dicts_view(entries@);
            entries.push(e);
            assert(dicts_view(entries@) =~= prev.push(e@));
            assert(dicts_view(entries@) =~= Seq::new((i + 1) as nat, |m: int| ac_entry(uv[m])));
            i = i + 1;
        }
        let mut info = InfoDict::new();
        info.insert("id", JsonValue::Str(channel_id));
        info.insert_if_some("title", title);
        Ok(Step::Done(ExtractorResult::Playlist { info, entries }))
    }
}

} // verus!
