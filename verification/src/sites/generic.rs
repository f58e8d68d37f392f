use vstd::prelude::*;

use crate::extract::{determine_ext, ext_of, is_alnum, jstr, opt_str, put_opt, reply_text, reply_text_at};
use crate::framework::{Expect, ExtractorDescriptor, ExtractorError, ExtractorErrorKind, ExtractorResult, Reply, Step, SubStep, done_with, fail, fails_with, fetches, get_text, is_plain_get, sources_view, fails_saying};
use crate::info::{InfoDict};
use crate::json::{Json, JsonValue, arr_add, arr_done, arr_new, items_view, obj_add, obj_done, obj_new, str_equal};
use crate::number::{nat_text, usize_text};
use crate::page::{html_meta_value, meta_value};
use crate::pattern::{all_groups_view, capture_group, group_at, groups_view, regex_all_captures, regex_captures_iter};
use crate::text::{chars_of, concat2, contains, lowered, owned, string_of_range, to_ascii_lowercase, trim, trimmed};
use crate::weburl::{joined_url, url_host, url_host_of, url_is_valid, url_join, url_parses, url_path_segments, url_path_segments_of};

verus! {


/// The generic extractor, which takes any address: a direct media file as it is, any other
/// page by the media its markup names.
pub struct GenericExtractor {
    descriptor: ExtractorDescriptor,
}

impl GenericExtractor {
    /// The descriptor the extractor was built with.
    pub closed spec fn spec_descriptor(&self) -> ExtractorDescriptor {
        self.descriptor
    }

    pub fn new(descriptor: ExtractorDescriptor) -> (r: Self)
        ensures
            r.spec_descriptor() == descriptor,
    {
        GenericExtractor { descriptor }
    }

    pub fn descriptor(&self) -> (r: &ExtractorDescriptor)
        ensures
            *r == self.spec_descriptor(),
    {
        &self.descriptor
    }

    pub fn suitable(&self, url: &str) -> (r: bool)
        ensures
            r,
    {
        true
    }

    pub fn is_native(&self) -> (r: bool)
        ensures
            r,
    {
        true
    }
}

/// The last non-empty text of a list.
pub open spec fn last_nonempty(segs: Seq<Seq<char>>) -> Option<Seq<char>>
    decreases segs.len(),
{
    if segs.len() == 0 {
        None
    } else if segs.last().len() > 0 {
        Some(segs.last())
    } else {
        last_nonempty(segs.drop_last())
    }
}

/// The name a generic address goes by: its last non-empty path segment, else its host,
/// else `download`.
pub open spec fn generic_path_name(url: Seq<char>) -> Seq<char> {
    let fallback = match url_host_of(url) {
        Some(h) => h,
        None => "download"@,
    };
    match url_path_segments_of(url) {
        Some(segs) => match last_nonempty(segs) {
            Some(n) => n,
            None => fallback,
        },
        None => fallback,
    }
}

/// The position of the last `c` in `s`.
pub open spec fn last_index_of(s: Seq<char>, c: char) -> Option<int>
    decreases s.len(),
{
    if s.len() == 0 {
        None
    } else if s.last() == c {
        Some(s.len() - 1)
    } else {
        last_index_of(s.drop_last(), c)
    }
}

/// Whether an extension is a non-empty run of at most ten ASCII letters and digits.
pub open spec fn plain_extension(e: Seq<char>) -> bool {
    e.len() > 0 && e.len() <= 10 && forall|i: int| 0 <= i < e.len() ==> is_alnum(#[trigger] e[i])
}

/// The ID and the file extension that a path name gives: the name split at its last dot,
/// the extension kept, lowered, only when it is plain.
pub open spec fn generic_id_ext(name: Seq<char>) -> (Seq<char>, Option<Seq<char>>) {
    match last_index_of(name, '.') {
        Some(i) => {
            let e = name.subrange(i + 1, name.len() as int);
            (name.subrange(0, i), if plain_extension(e) { Some(lowered(e)) } else { None })
        },
        None => (name, None),
    }
}

/// The metadata that a generic address gives by itself.
pub open spec fn generic_base(url: Seq<char>) -> Map<Seq<char>, Json> {
    let (id, ext) = generic_id_ext(generic_path_name(url));
    let m = Map::<Seq<char>, Json>::empty()
        .insert("id"@, Json::Str(id))
        .insert("title"@, Json::Str(id))
        .insert("url"@, Json::Str(url))
        .insert("direct"@, Json::Bool(ext is Some));
    put_opt(m, "ext"@, opt_str(ext))
}

/// The message with which a generic address that does not parse is refused.
pub open spec fn generic_refusal() -> Seq<char> {
    "invalid generic URL"@
}

/// `GenericExtractor::extract`: the metadata that a generic address gives by itself; an
/// address that does not parse is refused.
pub fn generic_extract(url: &str) -> (r: Result<InfoDict, ExtractorError>)
    ensures
        url_parses(url@) ==> (r matches Ok(d) && d.wf() && d@ == generic_base(url@)),
        !url_parses(url@) ==> fails_saying(r, ExtractorErrorKind::InvalidUrl, generic_refusal()),
{
    if !url_is_valid(url) {
        return Err(fail(ExtractorErrorKind::InvalidUrl, "invalid generic URL"));
    }
    let fallback = match url_host(url) {
        Some(h) => h,
        None => owned("download"),
    };
    let name = match url_path_segments(url) {
        Some(segs) => {
            let ghost sv = Seq::new(segs@.len(), |i: int| segs@[i]@);
            let mut j: usize = segs.len();
            let mut found: Option<String> = None;
            assert(sv.subrange(0, j as int) =~= sv);
            while j > 0
                invariant_except_break
                    found is None,
                invariant
                    j <= segs@.len(),
                    sv == Seq::new(segs@.len(), |i: int| segs@[i]@),
                    last_nonempty(sv) == last_nonempty(sv.subrange(0, j as int)),
                ensures
                    match found {
                        Some(n) => last_nonempty(sv) == Some(n@),
                        None => last_nonempty(sv) is None,
                    },
                decreases j,
            {
                let ghost pre = sv.subrange(0, j as int);
                assert(pre.drop_last() =~= sv.subrange(0, j - 1));
                assert(pre.last() == segs@[j - 1]@);
                if segs[j - 1].unicode_len() > 0 {
                    found = Some(segs[j - 1].clone());
                    break;
                }
                j = j - 1;
                assert(j > 0 || sv.subrange(0, j as int) =~= Seq::<Seq<char>>::empty());
            }
            match found {
                Some(n) => n,
                None => fallback,
            }
        },
        None => fallback,
    };
    let cs = chars_of(name.as_str());
    let mut k: usize = cs.len();
    let mut dot: Option<usize> = None;
    assert(cs@.subrange(0, k as int) =~= cs@);
    while k > 0
        invariant_except_break
            dot is None,
        invariant
            k <= cs@.len(),
            cs@ == name@,
            last_index_of(cs@, '.') == last_index_of(cs@.subrange(0, k as int), '.'),
        ensures
            match dot {
                Some(i) => last_index_of(cs@, '.') == Some(i as int) && i < cs@.len(),
                None => last_index_of(cs@, '.') is None,
            },
        decreases k,
    {
        let ghost pre = cs@.subrange(0, k as int);
        assert(pre.drop_last() =~= cs@.subrange(0, k - 1));
        if cs[k - 1] == '.' {
            dot = Some(k - 1);
            break;
        }
        k = k - 1;
        assert(k > 0 || cs@.subrange(0, k as int) =~= Seq::<char>::empty());
    }
    let (id, ext) = match dot {
        Some(i) => {
            let stem = string_of_range(&cs, 0, i);
            let e = string_of_range(&cs, i + 1, cs.len());
            let ec = chars_of(e.as_str());
            let mut ok = ec.len() > 0 && ec.len() <= 10;
            let mut m: usize = 0;
            while m < ec.len()
                invariant
                    m <= ec@.len(),
                    ec@ == e@,
                    ok == (ec@.len() > 0 && ec@.len() <= 10 && forall|q: int| 0 <= q < m ==> is_alnum(#[trigger] ec@[q])),
                decreases ec@.len() - m,
            {
                let ch = ec[m];
                if !(('0' <= ch && ch <= '9') || ('a' <= ch && ch <= 'z') || ('A' <= ch && ch <= 'Z')) {
                    ok = false;
                }
                m = m + 1;
            }
            (stem, if ok { Some(to_ascii_lowercase(e.as_str())) } else { None })
        },
        None => (name.clone(), None),
    };
    let mut info = InfoDict::new();
    info.insert("id", JsonValue::Str(id.clone()));
    info.insert("title", JsonValue::Str(id));
    info.insert("url", jstr(url));
    info.insert("direct", JsonValue::Bool(ext.is_some()));
    info.insert_if_some("ext", match ext { Some(e) => Some(JsonValue::Str(e)), None => None });
    Ok(info)
}

/// `list` with the address that `value`, trimmed, names against `url`, when there is a value
/// and it resolves.
pub open spec fn push_joined(list: Seq<Seq<char>>, url: Seq<char>, value: Option<Seq<char>>) -> Seq<Seq<char>> {
    match value {
        Some(v) => match joined_url(url, trimmed(v)) {
            Some(u) => list.push(u),
            None => list,
        },
        None => list,
    }
}

/// The media addresses that a page's Open Graph and Twitter fields name.
pub open spec fn generic_meta_media(url: Seq<char>, html: Seq<char>) -> Seq<Seq<char>> {
    let l1 = push_joined(Seq::empty(), url, meta_value(html, "og:video:secure_url"@));
    let l2 = push_joined(l1, url, meta_value(html, "og:video"@));
    let l3 = push_joined(l2, url, meta_value(html, "og:audio"@));
    push_joined(l3, url, meta_value(html, "twitter:player:stream"@))
}

/// The pattern of a media element's source.
pub open spec fn generic_source_pattern() -> Seq<char> {
    "(?is)<(?:source|video|audio)\\b[^>]*\\bsrc\\s*=\\s*[\"']([^\"']+)"@
}

/// `base` followed by the new addresses of the first `n` media element sources.
pub open spec fn generic_sources(url: Seq<char>, all: Seq<Seq<Option<Seq<char>>>>, n: int, base: Seq<Seq<char>>) -> Seq<Seq<char>>
    decreases n,
{
    if n <= 0 {
        base
    } else {
        let prev = generic_sources(url, all, n - 1, base);
        match group_at(all[n - 1], 1) {
            Some(v) => match joined_url(url, trimmed(v)) {
                Some(u) => if prev.contains(u) { prev } else { prev.push(u) },
                None => prev,
            },
            None => prev,
        }
    }
}

/// The media addresses a page names: its Open Graph and Twitter fields', then its media
/// elements' not named before.
pub open spec fn generic_media(url: Seq<char>, html: Seq<char>) -> Seq<Seq<char>> {
    let all = regex_all_captures(generic_source_pattern(), html);
    generic_sources(url, all, all.len() as int, generic_meta_media(url, html))
}

/// The format of media address `u`, number `i`.
pub open spec fn generic_format(u: Seq<char>, i: int) -> Json {
    let e = ext_of(u, "unknown_video"@);
    Json::Object(Seq::empty()
        .push(("format_id"@, Json::Str("generic-"@ + nat_text(i as nat))))
        .push(("url"@, Json::Str(u)))
        .push(("ext"@, Json::Str(e)))
        .push(("protocol"@, Json::Str(if e == "m3u8"@ { "m3u8_native"@ } else { "http"@ }))))
}

/// The metadata of a generic page: what its address gives, with its title, description,
/// thumbnail and media formats.
pub open spec fn generic_page_info(url: Seq<char>, html: Seq<char>) -> Map<Seq<char>, Json> {
    let base = generic_base(url);
    let media = generic_media(url, html);
    let m1 = match meta_value(html, "og:title"@) {
        Some(t) => base.insert("title"@, Json::Str(t)),
        None => base,
    };
    let m2 = put_opt(m1, "description"@, opt_str(meta_value(html, "og:description"@)));
    let m3 = match meta_value(html, "og:image"@) {
        Some(th) => m2.insert("thumbnail"@, Json::Str(match joined_url(url, trimmed(th)) {
            Some(u) => u,
            None => th,
        })),
        None => m2,
    };
    if media.len() > 0 {
        m3.insert("url"@, Json::Str(media[0]))
            .insert("ext"@, Json::Str(ext_of(media[0], "unknown_video"@)))
            .insert("formats"@, Json::Array(Seq::new(media.len(), |i: int| generic_format(media[i], i))))
    } else {
        m3
    }
}

/// Where a generic extraction stands.
pub enum GenericOutcome {
    /// The page is needed, from this address.
    NeedPage(Seq<char>),
    Failed(ExtractorErrorKind),
    /// The metadata, and the number of answers it took.
    Got(Map<Seq<char>, Json>, int),
}

/// Where the generic extraction of `url` stands when its answer is `replies[at]`: a direct
/// media address needs no page.
pub open spec fn generic_outcome(url: Seq<char>, replies: Seq<Reply>, at: int) -> GenericOutcome {
    if !url_parses(url) {
        GenericOutcome::Failed(ExtractorErrorKind::InvalidUrl)
    } else if generic_id_ext(generic_path_name(url)).1 is Some {
        GenericOutcome::Got(generic_base(url), 0)
    } else if replies.len() <= at {
        GenericOutcome::NeedPage(url)
    } else {
        match reply_text_at(replies, at) {
            Some(html) => GenericOutcome::Got(generic_page_info(url, html), 1),
            None => GenericOutcome::Failed(ExtractorErrorKind::Extraction),
        }
    }
}

fn push_joined_of(list: &mut Vec<String>, url: &str, value: Option<String>)
    ensures
        sources_view(final(list)@) == push_joined(sources_view(old(list)@), url@, match value { Some(v) => Some(v@), None => None }),
{
    match value {
        Some(v) => match url_join(url, trim(v.as_str()).as_str()) {
            Some(u) => {
                let ghost before = list@;
                list.push(u);
                assert(sources_view(list@) =~= sources_view(before).push(list@.last()@));
            },
            None => {},
        },
        None => {},
    }
}

pub(crate) fn contains_string(list: &Vec<String>, s: &str) -> (r: bool)
    ensures
        r == sources_view(list@).contains(s@),
{
    let ghost lv = sources_view(list@);
    let mut i: usize = 0;
    while i < list.len()
        invariant
            i <= list@.len(),
            lv == sources_view(list@),
            forall|j: int| 0 <= j < i ==> lv[j] != s@,
        decreases list@.len() - i,
    {
        if str_equal(list[i].as_str(), s) {
            assert(lv[i as int] == s@);
            return true;
        }
        i = i + 1;
    }
    false
}

fn generic_media_of(url: &str, html: &str) -> (r: Vec<String>)
    ensures
        sources_view(r@) == generic_media(url@, html@),
{
    let mut list: Vec<String> = Vec::new();
    assert(sources_view(list@) =~= Seq::<Seq<char>>::empty());
    push_joined_of(&mut list, url, html_meta_value(html, "og:video:secure_url"));
    push_joined_of(&mut list, url, html_meta_value(html, "og:video"));
    push_joined_of(&mut list, url, html_meta_value(html, "og:audio"));
    push_joined_of(&mut list, url, html_meta_value(html, "twitter:player:stream"));
    let ghost base = sources_view(list@);
    let all = regex_captures_iter("(?is)<(?:source|video|audio)\\b[^>]*\\bsrc\\s*=\\s*[\"']([^\"']+)", html);
    let ghost av = all_groups_view(all@);
    let mut i: usize = 0;
    while i < all.len()
        invariant
            i <= all@.len(),
            av == all_groups_view(all@),
            sources_view(list@) == generic_sources(url@, av, i as int, base),
        decreases all@.len() - i,
    {
        assert(av[i as int] == groups_view(all@[i as int]@));
        match capture_group(&all[i], 1) {
            Some(v) => match url_join(url, trim(v.as_str()).as_str()) {
                Some(u) => {
                    if !contains_string(&list, u.as_str()) {
                        let ghost before = list@;
                        let ghost uv = u@;
                        list.push(u);
                        assert(sources_view(list@) =~= sources_view(before).push(uv));
                    }
                },
                None => {},
            },
            None => {},
        }
        i = i + 1;
    }
    list
}

fn generic_page_info_of(url: &str, html: &str, info: &mut InfoDict)
    requires
        old(info).wf(),
        old(info)@ == generic_base(url@),
    ensures
        final(info).wf(),
        final(info)@ == generic_page_info(url@, html@),
{
    let media = generic_media_of(url, html);
    match html_meta_value(html, "og:title") {
        Some(t) => info.insert("title", JsonValue::Str(t)),
        None => {},
    }
    info.insert_if_some("description", match html_meta_value(html, "og:description") { Some(d) => Some(JsonValue::Str(d)), None => None });
    match html_meta_value(html, "og:image") {
        Some(th) => {
            let t = match url_join(url, trim(th.as_str()).as_str()) {
                Some(u) => u,
                None => th,
            };
            info.insert("thumbnail", JsonValue::Str(t));
        },
        None => {},
    }
    if media.len() > 0 {
        let ghost mv = sources_view(media@);
        let mut formats = arr_new();
        let mut i: usize = 0;
        while i < media.len()
            invariant
                i <= media@.len(),
                mv == sources_view(media@),
                items_view(formats@) =~= Seq::new(i as nat, |k: int| generic_format(mv[k], k)),
            decreases media@.len() - i,
        {
            let u = media[i].as_str();
            let e = determine_ext(u, "unknown_video");
            let m3u8 = str_equal(e.as_str(), "m3u8");
            let mut f = obj_new();
            obj_add(&mut f, "format_id", JsonValue::Str(concat2("generic-", usize_text(i).as_str())));
            obj_add(&mut f, "url", jstr(u));
            obj_add(&mut f, "ext", JsonValue::Str(e));
            obj_add(&mut f, "protocol", jstr(if m3u8 { "m3u8_native" } else { "http" }));
            let fj = obj_done(f);
            assert(fj@ == generic_format(mv[i as int], i as int));
            arr_add(&mut formats, fj);
            i = i + 1;
        }
        info.insert("url", JsonValue::Str(media[0].clone()));
        info.insert("ext", JsonValue::Str(determine_ext(media[0].as_str(), "unknown_video")));
        info.insert("formats", arr_done(formats));
    }
}

/// Whether a part's result is the one a generic outcome calls for.
pub open spec fn generic_step_is(r: Result<(SubStep, usize), ExtractorError>, o: GenericOutcome) -> bool {
    match o {
        GenericOutcome::NeedPage(u) => r matches Ok((SubStep::Need(f), _)) && is_plain_get(Step::Fetch(f), u, Expect::Text),
        GenericOutcome::Failed(k) => r matches Err(e) && e.kind == k,
        GenericOutcome::Got(m, n) => r matches Ok((SubStep::Got(info), c)) && info.wf() && info@ == m && c == n,
    }
}

/// One part of an extraction, the generic extraction of `url`, whose answer is `replies[at]`;
/// a finished part tells how many answers it took.
pub fn generic_step(url: &str, replies: &Vec<Reply>, at: usize) -> (r: Result<(SubStep, usize), ExtractorError>)
    ensures
        generic_step_is(r, generic_outcome(url@, replies@, at as int)),
        !url_parses(url@) ==> (r matches Err(e) && e.message@ == generic_refusal()),
{
    let mut info = generic_extract(url)?;
    proof {
        reveal_strlit("direct");
        reveal_strlit("ext");
        assert("direct"@.len() != "ext"@.len());
        assert(info@["direct"@] == Json::Bool(generic_id_ext(generic_path_name(url@)).1 is Some));
    }
    match info.get("direct") {
        Some(JsonValue::Bool(true)) => return Ok((SubStep::Got(info), 0)),
        _ => {},
    }
    if replies.len() <= at {
        return Ok((SubStep::Need(get_text(owned(url))), 0));
    }
    let html = reply_text(replies, at)?;
    generic_page_info_of(url, html.as_str(), &mut info);
    Ok((SubStep::Got(info), 1))
}

impl GenericExtractor {
    /// `extract`: the metadata that a generic address gives by itself.
    pub fn extract(&self, url: &str) -> (r: Result<InfoDict, ExtractorError>)
        ensures
            url_parses(url@) ==> (r matches Ok(d) && d.wf() && d@ == generic_base(url@)),
            !url_parses(url@) ==> fails_saying(r, ExtractorErrorKind::InvalidUrl, generic_refusal()),
    {
        generic_extract(url)
    }

    /// One step of a generic extraction: a direct media address is taken as it is; any
    /// other page is fetched and its media are listed.
    pub fn extract_step(&self, url: &str, replies: &Vec<Reply>) -> (r: Result<Step, ExtractorError>)
        ensures
            match generic_outcome(url@, replies@, 0) {
                GenericOutcome::NeedPage(u) => fetches(r, u, Expect::Text),
                GenericOutcome::Failed(k) => fails_with(r, k),
                GenericOutcome::Got(m, _) => done_with(r, m),
            },
            !url_parses(url@) ==> fails_saying(r, ExtractorErrorKind::InvalidUrl, generic_refusal()),
    {
        match generic_step(url, replies, 0)? {
            (SubStep::Need(f), _) => Ok(Step::Fetch(f)),
            (SubStep::Got(info), _) => Ok(Step::Done(ExtractorResult::single(info))),
        }
    }
}

/// `last_path_segment`: the last non-empty path segment of an address.
pub open spec fn last_segment(url: Seq<char>) -> Option<Seq<char>> {
    match url_path_segments_of(url) {
        Some(segs) => last_nonempty(segs),
        None => None,
    }
}

/// `last_path_segment`: the last non-empty path segment of an address; an address without
/// one is refused.
pub fn last_path_segment(url: &str) -> (r: Result<String, ExtractorError>)
    ensures
        match last_segment(url@) {
            Some(s) => r matches Ok(x) && x@ == s,
            None => fails_with(r, ExtractorErrorKind::InvalidUrl),
        },
{
    let segs = match url_path_segments(url) {
        Some(s) => s,
        None => return Err(fail(ExtractorErrorKind::InvalidUrl, "URL has no path")),
    };
    let ghost sv = Seq::new(segs@.len(), |i: int| segs@[i]@);
    let mut j: usize = segs.len();
    assert(sv.subrange(0, j as int) =~= sv);
    while j > 0
        invariant
            j <= segs@.len(),
            sv == Seq::new(segs@.len(), |i: int| segs@[i]@),
            url_path_segments_of(url@) == Some(sv),
            last_nonempty(sv) == last_nonempty(sv.subrange(0, j as int)),
        decreases j,
    {
        let ghost pre = sv.subrange(0, j as int);
        assert(pre.drop_last() =~= sv.subrange(0, j - 1));
        assert(pre.last() == segs@[j - 1]@);
        if segs[j - 1].unicode_len() > 0 {
            return Ok(segs[j - 1].clone());
        }
        j = j - 1;
    }
    assert(sv.subrange(0, 0) =~= Seq::<Seq<char>>::empty());
    Err(fail(ExtractorErrorKind::InvalidUrl, "URL has no path segment"))
}

/// The non-empty segment that follows the first segment `name`, from segment `from` on.
pub open spec fn segment_after_from(segs: Seq<Seq<char>>, name: Seq<char>, from: int) -> Option<Seq<char>>
    decreases segs.len() - from,
{
    if from < 0 || from + 1 >= segs.len() {
        None
    } else if segs[from] == name {
        if segs[from + 1].len() > 0 { Some(segs[from + 1]) } else { None }
    } else {
        segment_after_from(segs, name, from + 1)
    }
}

/// `path_segment_after`: the path segment that follows the first segment `name` of an address.
pub open spec fn segment_after(url: Seq<char>, name: Seq<char>) -> Option<Seq<char>> {
    match url_path_segments_of(url) {
        Some(segs) => segment_after_from(segs, name, 0),
        None => None,
    }
}

/// `path_segment_after`: the path segment that follows the first segment `name` of an
/// address; an address without one is refused.
pub fn path_segment_after(url: &str, name: &str) -> (r: Result<String, ExtractorError>)
    ensures
        match segment_after(url@, name@) {
            Some(s) => r matches Ok(x) && x@ == s,
            None => fails_with(r, ExtractorErrorKind::InvalidUrl),
        },
{
    let segs = match url_path_segments(url) {
        Some(s) => s,
        None => return Err(fail(ExtractorErrorKind::InvalidUrl, "URL has no path")),
    };
    let ghost sv = Seq::new(segs@.len(), |i: int| segs@[i]@);
    let mut i: usize = 0;
    while i < segs.len() && segs.len() - i > 1
        invariant
            i <= segs@.len(),
            sv == Seq::new(segs@.len(), |k: int| segs@[k]@),
            url_path_segments_of(url@) == Some(sv),
            segment_after_from(sv, name@, 0) == segment_after_from(sv, name@, i as int),
        decreases segs@.len() - i,
    {
        if str_equal(segs[i].as_str(), name) {
            if segs[i + 1].unicode_len() > 0 {
                return Ok(segs[i + 1].clone());
            }
            return Err(fail(ExtractorErrorKind::InvalidUrl, "URL path segment is empty"));
        }
        i = i + 1;
    }
    Err(fail(ExtractorErrorKind::InvalidUrl, "URL has no such path segment"))
}

} // verus!
