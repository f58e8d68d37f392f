use vstd::prelude::*;

use crate::info::InfoDict;
use crate::json::JsonValue;
use crate::pattern::{
    regex_error, regex_error_of, regex_capture_name, regex_captures, regex_compiles, regex_first_captures, regex_is_match,
    regex_matches, regex_named_capture, regex_valid, groups_view,
};

verus! {

/// What an extractor is registered with: its key and the URL patterns it handles.
pub struct ExtractorDescriptor {
    pub ie_key: String,
    pub valid_urls: Vec<String>,
}

/// The classes of extraction failure.
#[derive(Clone, Copy, Debug, PartialEq, Eq, Structural)]
pub enum ExtractorErrorKind {
    InvalidUrl,
    Extraction,
    Unsupported,
}

/// An extraction failure: its class and a message for people.
pub struct ExtractorError {
    pub kind: ExtractorErrorKind,
    pub message: String,
}

impl ExtractorError {
    pub fn new(kind: ExtractorErrorKind, message: String) -> (r: ExtractorError)
        ensures
            r.kind == kind,
            r.message@ == message@,
    {
        ExtractorError { kind, message }
    }
}

/// A failure of class `kind` with a fixed message.
pub fn fail(kind: ExtractorErrorKind, message: &str) -> (r: ExtractorError)
    ensures
        r.kind == kind,
        r.message@ == message@,
{
    ExtractorError { kind, message: crate::text::owned(message) }
}

/// What an extraction yields.
pub enum ExtractorResult {
    Single(InfoDict),
    Playlist { info: InfoDict, entries: Vec<InfoDict> },
    Redirect { url: String, ie_key: Option<String> },
}

impl ExtractorResult {
    pub fn single(info: InfoDict) -> (r: ExtractorResult)
        ensures
            r == ExtractorResult::Single(info),
    {
        ExtractorResult::Single(info)
    }
}

/// How a fetched body is to be handed back.
#[derive(Clone, Copy, Debug, PartialEq, Eq, Structural)]
pub enum Expect {
    Text,
    Json,
    /// The response's headers, not its body.
    Headers,
}

/// The HTTP method of a fetch.
#[derive(Clone, Copy, Debug, PartialEq, Eq, Structural)]
pub enum Method {
    Get,
    Post,
    Head,
}

/// A resource that an extraction needs fetched.
pub struct Fetch {
    pub url: String,
    pub expect: Expect,
    pub method: Method,
    pub headers: Vec<(String, String)>,
    pub body: Option<String>,
    /// Whether a failed fetch is handed back as `Reply::Failed` or `Reply::NotFound` instead of
    /// ending the extraction.
    pub optional: bool,
}

/// A fetched resource, handed back to the extraction.
pub enum Reply {
    Text(String),
    Json(JsonValue),
    /// The response's header names and values, in order.
    Headers(Vec<(String, String)>),
    /// An optional fetch that failed, and the error it failed with.
    Failed(ExtractorError),
    /// An optional fetch that the server answered with HTTP status 404.
    NotFound,
}

/// The next move of an extraction: fetch something, or finish.
pub enum Step {
    Fetch(Fetch),
    Done(ExtractorResult),
}

/// A plain GET of `url` whose body is wanted as text.
pub fn get_text(url: String) -> (r: Fetch)
    ensures
        r.url@ == url@,
        r.expect == Expect::Text,
        r.method == Method::Get,
        r.headers@.len() == 0,
        r.body is None,
        !r.optional,
{
    Fetch { url, expect: Expect::Text, method: Method::Get, headers: Vec::new(), body: None, optional: false }
}

/// A plain GET of `url` whose body is wanted as JSON.
pub fn get_json(url: String) -> (r: Fetch)
    ensures
        r.url@ == url@,
        r.expect == Expect::Json,
        r.method == Method::Get,
        r.headers@.len() == 0,
        r.body is None,
        !r.optional,
{
    Fetch { url, expect: Expect::Json, method: Method::Get, headers: Vec::new(), body: None, optional: false }
}

/// Whether `s` is a plain GET of `url` expecting `expect`.
pub open spec fn is_plain_get(s: Step, url: Seq<char>, expect: Expect) -> bool {
    s matches Step::Fetch(f) && f.url@ == url && f.expect == expect && f.method == Method::Get
        && f.headers@.len() == 0 && f.body is None && !f.optional
}

/// Whether `s` is a plain GET of `url` expecting `expect` whose failure is handed back.
pub open spec fn is_optional_get(s: Step, url: Seq<char>, expect: Expect) -> bool {
    s matches Step::Fetch(f) && f.url@ == url && f.expect == expect && f.method == Method::Get
        && f.headers@.len() == 0 && f.body is None && f.optional
}

/// A GET of `url` whose JSON body is wanted, and whose failure is handed back.
pub fn get_json_optional(url: String) -> (r: Fetch)
    ensures
        r.url@ == url@,
        r.expect == Expect::Json,
        r.method == Method::Get,
        r.headers@.len() == 0,
        r.body is None,
        r.optional,
{
    Fetch { url, expect: Expect::Json, method: Method::Get, headers: Vec::new(), body: None, optional: true }
}

/// Whether `r` asks for an optional GET of `url` expecting `expect`.
pub open spec fn fetches_optional(r: Result<Step, ExtractorError>, url: Seq<char>, expect: Expect) -> bool {
    match r {
        Ok(s) => is_optional_get(s, url, expect),
        Err(_) => false,
    }
}

/// Whether `r` is a failure of class `k`.
pub open spec fn fails_with<T>(r: Result<T, ExtractorError>, k: ExtractorErrorKind) -> bool {
    match r {
        Err(e) => e.kind == k,
        Ok(_) => false,
    }
}

/// Whether `r` is a failure of class `k` with the message `message`.
pub open spec fn fails_saying<T>(r: Result<T, ExtractorError>, k: ExtractorErrorKind, message: Seq<char>) -> bool {
    match r {
        Err(e) => e.kind == k && e.message@ == message,
        Ok(_) => false,
    }
}

/// Whether `r` finishes with one well-formed metadata dictionary whose fields are `m`.
pub open spec fn done_with(r: Result<Step, ExtractorError>, m: Map<Seq<char>, crate::json::Json>) -> bool {
    match r {
        Ok(Step::Done(ExtractorResult::Single(info))) => info.wf() && info@ == m,
        _ => false,
    }
}

/// The fields of each dictionary of a list, in order.
pub open spec fn dicts_view(v: Seq<InfoDict>) -> Seq<Map<Seq<char>, crate::json::Json>> {
    Seq::new(v.len(), |i: int| v[i]@)
}

/// Whether every dictionary of a list is well formed.
pub open spec fn all_wf(v: Seq<InfoDict>) -> bool {
    forall|i: int| 0 <= i < v.len() ==> (#[trigger] v[i]).wf()
}

/// Whether `r` finishes with a playlist whose own fields are `m` and whose entries' fields are `es`.
pub open spec fn done_playlist(r: Result<Step, ExtractorError>, m: Map<Seq<char>, crate::json::Json>, es: Seq<Map<Seq<char>, crate::json::Json>>) -> bool {
    match r {
        Ok(Step::Done(ExtractorResult::Playlist { info, entries })) => info.wf() && info@ == m
            && all_wf(entries@) && dicts_view(entries@) == es,
        _ => false,
    }
}

/// Whether `r` asks for a plain GET of `url` expecting `expect`.
pub open spec fn fetches(r: Result<Step, ExtractorError>, url: Seq<char>, expect: Expect) -> bool {
    match r {
        Ok(s) => is_plain_get(s, url, expect),
        Err(_) => false,
    }
}

/// The URL pattern that `descriptor_matcher` compiles: the descriptor's first one.
pub open spec fn descriptor_source(d: ExtractorDescriptor) -> Option<Seq<char>> {
    if d.valid_urls@.len() > 0 {
        Some(d.valid_urls@[0]@)
    } else {
        None
    }
}

/// The message of the failure to make a matcher from a descriptor: it has no pattern, or
/// the compiler's error for its first one.
pub open spec fn descriptor_error(d: ExtractorDescriptor) -> Seq<char> {
    match descriptor_source(d) {
        Some(p) => "invalid URL pattern: "@ + match regex_error_of(p) {
            Some(m) => m,
            None => Seq::empty(),
        },
        None => "extractor descriptor has no URL pattern"@,
    }
}

/// Whether a descriptor yields a matcher.
pub open spec fn descriptor_ok(d: ExtractorDescriptor) -> bool {
    descriptor_source(d) matches Some(p) && regex_valid(p)
}

/// An extractor's descriptor together with the matcher compiled from it.
pub struct SiteMatcher {
    descriptor: ExtractorDescriptor,
    source: String,
}

impl SiteMatcher {
    #[verifier::type_invariant]
    closed spec fn inv(self) -> bool {
        descriptor_source(self.descriptor) == Some(self.source@) && regex_valid(self.source@)
    }

    /// The pattern the matcher was compiled from.
    pub closed spec fn source(&self) -> Seq<char> {
        self.source@
    }

    /// The descriptor.
    pub closed spec fn spec_descriptor(&self) -> ExtractorDescriptor {
        self.descriptor
    }

    /// `descriptor_matcher`: compiles the descriptor's URL pattern.
    pub fn from_descriptor(descriptor: ExtractorDescriptor) -> (r: Result<SiteMatcher, ExtractorError>)
        ensures
            r is Ok <==> descriptor_ok(descriptor),
            r matches Ok(m) ==> m.spec_descriptor() == descriptor && Some(m.source()) == descriptor_source(descriptor),
            r matches Err(e) ==> e.kind == ExtractorErrorKind::Extraction && e.message@ == descriptor_error(descriptor),
    {
        if descriptor.valid_urls.len() == 0 {
            return Err(fail(ExtractorErrorKind::Extraction, "extractor descriptor has no URL pattern"));
        }
        let source = descriptor.valid_urls[0].clone();
        match regex_error(source.as_str()) {
            Some(m) => {
                return Err(ExtractorError::new(ExtractorErrorKind::Extraction, crate::text::concat2("invalid URL pattern: ", m.as_str())));
            },
            None => {},
        }
        Ok(SiteMatcher { descriptor, source })
    }

    pub fn descriptor(&self) -> (r: &ExtractorDescriptor)
        ensures
            *r == self.spec_descriptor(),
    {
        &self.descriptor
    }

    /// The pattern the matcher was compiled from.
    pub fn source_text(&self) -> (r: &str)
        ensures
            r@ == self.source(),
    {
        self.source.as_str()
    }

    /// Whether the matcher matches `url`.
    pub fn suitable(&self, url: &str) -> (r: bool)
        ensures
            r == regex_matches(self.source(), url@),
    {
        regex_is_match(self.source.as_str(), url)
    }

    /// The groups of the matcher's first match in `url`.
    pub fn captures(&self, url: &str) -> (r: Option<Vec<Option<String>>>)
        ensures
            match r {
                Some(g) => regex_first_captures(self.source(), url@) == Some(groups_view(g@)),
                None => regex_first_captures(self.source(), url@) is None,
            },
    {
        regex_captures(self.source.as_str(), url)
    }

    /// The named group `name` of the matcher's first match in `url`.
    pub fn capture(&self, url: &str, name: &str) -> (r: Option<String>)
        ensures
            match r {
                Some(s) => regex_named_capture(self.source(), url@, name@) == Some(s@),
                None => regex_named_capture(self.source(), url@, name@) is None,
            },
    {
        regex_capture_name(self.source.as_str(), url, name)
    }
}


/// The compiler's error for the first pattern from `i` on that does not compile.
pub open spec fn first_pattern_error(sources: Seq<Seq<char>>, i: int) -> Option<Seq<char>>
    decreases sources.len() - i,
{
    if i < 0 || i >= sources.len() {
        None
    } else if !regex_valid(sources[i]) {
        regex_error_of(sources[i])
    } else {
        first_pattern_error(sources, i + 1)
    }
}

/// Whether every pattern of a descriptor compiles.
pub open spec fn all_sources_ok(d: ExtractorDescriptor) -> bool {
    forall|i: int| 0 <= i < d.valid_urls@.len() ==> regex_valid(#[trigger] d.valid_urls@[i]@)
}

/// The views of a list of patterns.
pub open spec fn sources_view(v: Seq<String>) -> Seq<Seq<char>> {
    Seq::new(v.len(), |i: int| v[i]@)
}

/// Whether some pattern of `sources` matches `url`.
pub open spec fn any_matches(sources: Seq<Seq<char>>, url: Seq<char>) -> bool {
    exists|i: int| 0 <= i < sources.len() && regex_matches(#[trigger] sources[i], url)
}

/// An extractor's descriptor together with one matcher per URL pattern.
pub struct SiteMatchers {
    descriptor: ExtractorDescriptor,
    sources: Vec<String>,
}

impl SiteMatchers {
    #[verifier::type_invariant]
    closed spec fn inv(self) -> bool {
        sources_view(self.sources@) == sources_view(self.descriptor.valid_urls@)
    }

    /// The patterns the matchers were compiled from.
    pub closed spec fn sources(&self) -> Seq<Seq<char>> {
        sources_view(self.sources@)
    }

    /// The descriptor.
    pub closed spec fn spec_descriptor(&self) -> ExtractorDescriptor {
        self.descriptor
    }

    /// Compiles every URL pattern of the descriptor.
    pub fn from_descriptor(descriptor: ExtractorDescriptor) -> (r: Result<SiteMatchers, ExtractorError>)
        ensures
            r is Ok <==> all_sources_ok(descriptor),
            r matches Ok(m) ==> m.spec_descriptor() == descriptor && m.sources() == sources_view(descriptor.valid_urls@),
            r matches Err(e) ==> e.kind == ExtractorErrorKind::Extraction
                && first_pattern_error(sources_view(descriptor.valid_urls@), 0) == Some(e.message@),
    {
        let mut sources: Vec<String> = Vec::new();
        let mut i: usize = 0;
        while i < descriptor.valid_urls.len()
            invariant
                i <= descriptor.valid_urls@.len(),
                sources@.len() == i,
                forall|j: int| 0 <= j < i ==> (#[trigger] sources@[j])@ == descriptor.valid_urls@[j]@,
                forall|j: int| 0 <= j < i ==> regex_valid(#[trigger] descriptor.valid_urls@[j]@),
                first_pattern_error(sources_view(descriptor.valid_urls@), 0)
                    == first_pattern_error(sources_view(descriptor.valid_urls@), i as int),
            decreases descriptor.valid_urls@.len() - i,
        {
            let p = descriptor.valid_urls[i].clone();
            match regex_error(p.as_str()) {
                Some(m) => {
                    return Err(ExtractorError::new(ExtractorErrorKind::Extraction, m));
                },
                None => {},
            }
            sources.push(p);
            i = i + 1;
        }
        assert(sources_view(sources@) =~= sources_view(descriptor.valid_urls@));
        Ok(SiteMatchers { descriptor, sources })
    }

    pub fn descriptor(&self) -> (r: &ExtractorDescriptor)
        ensures
            *r == self.spec_descriptor(),
    {
        &self.descriptor
    }

    /// The number of matchers.
    pub fn count(&self) -> (r: usize)
        ensures
            r == self.sources().len(),
    {
        self.sources.len()
    }

    /// Whether any matcher matches `url`.
    pub fn suitable(&self, url: &str) -> (r: bool)
        ensures
            r == any_matches(self.sources(), url@),
    {
        let mut i: usize = 0;
        while i < self.sources.len()
            invariant
                i <= self.sources@.len(),
                forall|j: int| 0 <= j < i ==> !regex_matches(#[trigger] sources_view(self.sources@)[j], url@),
            decreases self.sources@.len() - i,
        {
            if regex_is_match(self.sources[i].as_str(), url) {
                assert(sources_view(self.sources@)[i as int] == self.sources@[i as int]@);
                return true;
            }
            i = i + 1;
        }
        false
    }

    /// The named group `name` of the first matcher, in order, that matches `url` and has that group.
    pub fn capture(&self, url: &str, name: &str) -> (r: Option<String>)
        ensures
            match r {
                Some(s) => first_named_capture(self.sources(), url@, name@) == Some(s@),
                None => first_named_capture(self.sources(), url@, name@) is None,
            },
    {
        let ghost all = sources_view(self.sources@);
        assert(all.subrange(0, all.len() as int) =~= all);
        let mut i: usize = 0;
        while i < self.sources.len()
            invariant
                i <= self.sources@.len(),
                all == sources_view(self.sources@),
                first_named_capture(all, url@, name@)
                    == first_named_capture(all.subrange(i as int, all.len() as int), url@, name@),
            decreases self.sources@.len() - i,
        {
            let ghost rest = all.subrange(i as int, all.len() as int);
            assert(rest[0] == self.sources@[i as int]@);
            assert(rest.drop_first() =~= all.subrange(i + 1, all.len() as int));
            match regex_capture_name(self.sources[i].as_str(), url, name) {
                Some(s) => {
                    return Some(s);
                },
                None => {},
            }
            i = i + 1;
        }
        None
    }
}

/// The named group `name` of the first pattern, in order, that matches `url` and has that group.
pub open spec fn first_named_capture(sources: Seq<Seq<char>>, url: Seq<char>, name: Seq<char>) -> Option<Seq<char>>
    decreases sources.len(),
{
    if sources.len() == 0 {
        None
    } else {
        match regex_named_capture(sources[0], url, name) {
            Some(s) => Some(s),
            None => first_named_capture(sources.drop_first(), url, name),
        }
    }
}

/// Whether `r` finishes by handing `url` on, to the extractor keyed `ie_key` when there is one.
pub open spec fn redirects(r: Result<Step, ExtractorError>, url: Seq<char>, ie_key: Option<Seq<char>>) -> bool {
    match r {
        Ok(Step::Done(ExtractorResult::Redirect { url: u, ie_key: k })) => u@ == url && match k {
            Some(x) => ie_key == Some(x@),
            None => ie_key is None,
        },
        _ => false,
    }
}

/// The step that hands `url` on to the extractor keyed `ie_key`.
pub fn redirect_to(url: String, ie_key: &str) -> (r: Step)
    ensures
        redirects(Ok(r), url@, Some(ie_key@)),
{
    Step::Done(ExtractorResult::Redirect { url, ie_key: Some(crate::text::owned(ie_key)) })
}

/// A HEAD request for `url`, whose failure is handed back.
pub fn head_probe(url: String) -> (r: Fetch)
    ensures
        r.url@ == url@,
        r.expect == Expect::Text,
        r.method == Method::Head,
        r.headers@.len() == 0,
        r.body is None,
        r.optional,
{
    Fetch { url, expect: Expect::Text, method: Method::Head, headers: Vec::new(), body: None, optional: true }
}

/// Whether `r` asks for a HEAD request of `url` whose failure is handed back.
pub open spec fn probes(r: Result<Step, ExtractorError>, url: Seq<char>) -> bool {
    match r {
        Ok(Step::Fetch(f)) => f.url@ == url && f.expect == Expect::Text && f.method == Method::Head
            && f.headers@.len() == 0 && f.body is None && f.optional,
        _ => false,
    }
}

/// The views of a list of header pairs.
pub open spec fn headers_view(h: Seq<(String, String)>) -> Seq<(Seq<char>, Seq<char>)> {
    Seq::new(h.len(), |i: int| (h[i].0@, h[i].1@))
}

/// A GET of `url` whose JSON body is wanted, sent with one `Accept` header.
pub fn get_json_accepting(url: String, accept: &str) -> (r: Fetch)
    ensures
        r.url@ == url@,
        r.expect == Expect::Json,
        r.method == Method::Get,
        headers_view(r.headers@) == seq![("Accept"@, accept@)],
        r.body is None,
        !r.optional,
{
    let headers = vec![(crate::text::owned("Accept"), crate::text::owned(accept))];
    assert(headers_view(headers@) =~= seq![("Accept"@, accept@)]);
    Fetch { url, expect: Expect::Json, method: Method::Get, headers, body: None, optional: false }
}

/// Whether `f` is a GET of `url` for JSON sent with the one header `Accept: accept`.
pub open spec fn is_accepting_get(f: Fetch, url: Seq<char>, accept: Seq<char>) -> bool {
    f.url@ == url && f.expect == Expect::Json && f.method == Method::Get
        && headers_view(f.headers@) == seq![("Accept"@, accept)] && f.body is None && !f.optional
}

/// Whether `f` is a plain GET of `url` for text whose failure is handed back.
pub open spec fn is_optional_text_get(f: Fetch, url: Seq<char>) -> bool {
    f.url@ == url && f.expect == Expect::Text && f.method == Method::Get
        && f.headers@.len() == 0 && f.body is None && f.optional
}

/// A GET of `url` whose text body is wanted, and whose failure is handed back.
pub fn get_text_optional(url: String) -> (r: Fetch)
    ensures
        is_optional_text_get(r, url@),
{
    Fetch { url, expect: Expect::Text, method: Method::Get, headers: Vec::new(), body: None, optional: true }
}

/// A part of an extraction that either needs a resource fetched or has produced a dictionary.
pub enum SubStep {
    Need(Fetch),
    Got(InfoDict),
}

/// The step that hands `url` on to whichever extractor takes it.
pub fn redirect_any(url: String) -> (r: Step)
    ensures
        redirects(Ok(r), url@, None),
{
    Step::Done(ExtractorResult::Redirect { url, ie_key: None })
}

/// The value of the first header named `name`, names compared without regard to ASCII case.
pub open spec fn header_value(hs: Seq<(Seq<char>, Seq<char>)>, name: Seq<char>) -> Option<Seq<char>>
    decreases hs.len(),
{
    if hs.len() == 0 {
        None
    } else if crate::text::lowered(hs[0].0) == crate::text::lowered(name) {
        Some(hs[0].1)
    } else {
        header_value(hs.drop_first(), name)
    }
}

/// The value of the first header named `name`, names compared without regard to ASCII case.
pub fn header_get(hs: &Vec<(String, String)>, name: &str) -> (r: Option<String>)
    ensures
        match r {
            Some(v) => header_value(headers_view(hs@), name@) == Some(v@),
            None => header_value(headers_view(hs@), name@) is None,
        },
{
    let ghost hv = headers_view(hs@);
    let mut i: usize = 0;
    assert(hv.subrange(0, hv.len() as int) =~= hv);
    while i < hs.len()
        invariant
            i <= hs@.len(),
            hv == headers_view(hs@),
            header_value(hv, name@) == header_value(hv.subrange(i as int, hv.len() as int), name@),
        decreases hs@.len() - i,
    {
        let ghost rest = hv.subrange(i as int, hv.len() as int);
        assert(rest[0] == (hs@[i as int].0@, hs@[i as int].1@));
        assert(rest.drop_first() =~= hv.subrange(i + 1, hv.len() as int));
        if crate::text::eq_ignore_ascii_case(hs[i].0.as_str(), name) {
            return Some(hs[i].1.clone());
        }
        i = i + 1;
    }
    None
}

} // verus!
