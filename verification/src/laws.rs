use vstd::prelude::*;

use crate::extract::{opt_int, put_opt, thousandth};
use crate::json::{fields_lookup, fields_put, lemma_fields_lookup_step, member_pos, Json, json_str_at};
use crate::number::{all_digits, digits_value, int_text, nat_text, parsed_int, parsed_usize};
use crate::page::html5_links;
use crate::sites::altcensored::{ac_links, merge_new};
use crate::sites::golem::{golem_config_of, golem_event, golem_read, close_format, close_thumbnail, ReadModel};
use crate::xml::XmlEventModel;
use crate::sites::stream_cz::{stream_cz_codecs, stream_cz_format, stream_cz_group_list, stream_cz_size};
use crate::extract::{resolved, json_num_at};
use crate::json::{json_lookup, push_opt};
use crate::text::strip_suffixes;
use crate::sites::generic::{generic_base, generic_format, generic_media, generic_outcome, generic_page_info, GenericOutcome};
use crate::framework::{ExtractorErrorKind, Reply};
use crate::extract::reply_text_at;
use crate::weburl::url_parses;
use crate::sites::rumble::rumble_card_links;
use crate::sites::soundgasm::sg_links;
use crate::sites::unistra::unistra_files;
use crate::text::{is_digit, lowered, split_on, strip_leading};

use crate::extract::{ext_of, int_or_null, is_http, proto_relative, without_char};
use crate::media_types::mime_ext;
use crate::number::{clamp_i64, compact_count, decimal_parts, pow10, scaled_value, suffix_power};
use crate::sites::gab::{gab_format_of, gab_formats_of};
use crate::sites::imgur::imgur_media_format;
use crate::sites::jwplatform::{jw_audio_ext, jw_format, jw_height, jw_source_type};
use crate::sites::peertube::{peertube_file_format, resolution_of};
use crate::extract::{opt_str, str_in};
use crate::json::{json_int_at, json_bool_at};
use crate::text::{has_infix, has_prefix, has_suffix, is_space, leading_space, trailing_space, trimmed};

verus! {

/// Reading a field of a metadata dictionary after setting it gives the value set, and
/// leaves every other field as it was (`InfoDict::insert`, then `InfoDict::get`).
pub proof fn law_get_after_insert(m: Map<Seq<char>, Json>, key: Seq<char>, value: Json, other: Seq<char>)
    ensures
        m.insert(key, value).contains_key(key),
        m.insert(key, value)[key] == value,
        other != key ==> (m.insert(key, value).contains_key(other) == m.contains_key(other)),
        other != key && m.contains_key(other) ==> m.insert(key, value)[other] == m[other],
{
}

/// Setting a field only when there is a value (`InfoDict::insert_if_some`) leaves the
/// dictionary unchanged without one, and sets it as `insert` does with one.
pub proof fn law_insert_if_some(m: Map<Seq<char>, Json>, key: Seq<char>, value: Option<Json>)
    ensures
        value is None ==> put_opt(m, key, value) == m,
        value matches Some(v) ==> put_opt(m, key, value) == m.insert(key, v),
{
}

proof fn lemma_nat_text_digits(n: nat)
    ensures
        nat_text(n).len() > 0,
        all_digits(nat_text(n)),
        digits_value(nat_text(n)) == n,
    decreases n,
{
    if n >= 10 {
        lemma_nat_text_digits(n / 10);
        let t = nat_text(n / 10);
        let c = (('0' as int) + n % 10) as char;
        assert(nat_text(n) == t.push(c));
        assert(t.push(c).drop_last() =~= t);
        assert(is_digit(c));
        assert(c as int == '0' as int + n % 10);
        assert(t.push(c).last() == c);
        assert((n / 10) * 10 + n % 10 == n) by (nonlinear_arith);
        assert(digits_value(t.push(c)) == digits_value(t) * 10 + (c as int - '0' as int));
        assert forall|i: int| 0 <= i < t.push(c).len() implies is_digit(#[trigger] t.push(c)[i]) by {
            if i < t.len() {
                assert(t.push(c)[i] == t[i]);
            }
        }
    } else {
        let c = (('0' as int) + n) as char;
        assert(nat_text(n) == seq![c]);
        assert(seq![c].drop_last() =~= Seq::<char>::empty());
        assert(c as int == '0' as int + n);
        assert(digits_value(seq![c]) == digits_value(Seq::<char>::empty()) * 10 + (c as int - '0' as int));
    }
}

/// Reading back the decimal text of an `i64` (`int_to_string`, then `parse_int`) gives
/// the number.
pub proof fn law_int_text_round_trip(i: int)
    requires
        i64::MIN <= i <= i64::MAX,
    ensures
        parsed_int(int_text(i)) == Some(i),
{
    if i < 0 {
        let n = (-i) as nat;
        lemma_nat_text_digits(n);
        let t = seq!['-'] + nat_text(n);
        assert(t.drop_first() =~= nat_text(n));
    } else {
        lemma_nat_text_digits(i as nat);
        let t = nat_text(i as nat);
        assert(is_digit(t[0]));
    }
}

/// Reading back the decimal text of a `usize` (`usize_text`, then `parse_usize`) gives the
/// number.
pub proof fn law_usize_text_round_trip(n: nat)
    requires
        n <= usize::MAX,
    ensures
        parsed_usize(nat_text(n)) == Some(n as int),
{
    lemma_nat_text_digits(n);
    assert(is_digit(nat_text(n)[0]));
}

/// The pieces of a text joined again with the separator.
pub open spec fn join_on(pieces: Seq<Seq<char>>, c: char) -> Seq<char>
    decreases pieces.len(),
{
    if pieces.len() == 0 {
        Seq::empty()
    } else if pieces.len() == 1 {
        pieces[0]
    } else {
        join_on(pieces.drop_last(), c) + seq![c] + pieces.last()
    }
}

proof fn lemma_split_len(s: Seq<char>, c: char)
    ensures
        split_on(s, c).len() >= 1,
    decreases s.len(),
{
    if s.len() > 0 {
        lemma_split_len(s.drop_last(), c);
    }
}

/// Joining the pieces that `split_char` cuts a text into, with the separator, gives the
/// text back.
pub proof fn law_split_join(s: Seq<char>, c: char)
    ensures
        join_on(split_on(s, c), c) == s,
    decreases s.len(),
{
    if s.len() > 0 {
        let t = s.drop_last();
        law_split_join(t, c);
        lemma_split_len(t, c);
        let p = split_on(t, c);
        if s.last() == c {
            assert(p.push(Seq::empty()).drop_last() =~= p);
            assert(s =~= t + seq![c] + Seq::<char>::empty());
        } else {
            let q = p.update(p.len() - 1, p.last().push(s.last()));
            assert(s =~= t.push(s.last()));
            if p.len() == 1 {
                assert(t == p[0]);
                assert(q[0] == p[0].push(s.last()));
            } else {
                assert(q.drop_last() =~= p.drop_last());
                assert(q.last() == p.last().push(s.last()));
                assert(t == join_on(p.drop_last(), c) + seq![c] + p.last());
                assert(s =~= join_on(p.drop_last(), c) + seq![c] + p.last().push(s.last()));
            }
        }
    }
}

/// Lowering the ASCII letters of a text twice is lowering them once.
pub proof fn law_lowered_idempotent(s: Seq<char>)
    ensures
        lowered(lowered(s)) == lowered(s),
{
    assert(lowered(lowered(s)) =~= lowered(s));
}

/// Dropping the leading `c`s twice is dropping them once, and the result does not start
/// with `c` (`trim_start_char`).
pub proof fn law_strip_leading(s: Seq<char>, c: char)
    ensures
        strip_leading(strip_leading(s, c), c) == strip_leading(s, c),
        strip_leading(s, c).len() == 0 || strip_leading(s, c)[0] != c,
    decreases s.len(),
{
    if s.len() > 0 && s[0] == c {
        law_strip_leading(s.drop_first(), c);
    }
}

proof fn lemma_member_pos(fields: Seq<(Seq<char>, Json)>, key: Seq<char>, from: int)
    requires
        0 <= from,
    ensures
        match member_pos(fields, key, from) {
            Some(i) => from <= i < fields.len() && fields[i].0 == key
                && forall|j: int| from <= j < i ==> fields[j].0 != key,
            None => forall|j: int| from <= j < fields.len() ==> fields[j].0 != key,
        },
    decreases fields.len() - from,
{
    if from < fields.len() && fields[from].0 != key {
        lemma_member_pos(fields, key, from + 1);
    }
}

proof fn lemma_lookup_first(fields: Seq<(Seq<char>, Json)>, key: Seq<char>, i: int)
    requires
        0 <= i < fields.len(),
        fields[i].0 == key,
        forall|j: int| 0 <= j < i ==> fields[j].0 != key,
    ensures
        fields_lookup(fields, key) == Some(fields[i].1),
    decreases i,
{
    if i > 0 {
        lemma_lookup_first(fields.drop_first(), key, i - 1);
    }
}

proof fn lemma_lookup_update(fields: Seq<(Seq<char>, Json)>, i: int, key: Seq<char>, value: Json, other: Seq<char>)
    requires
        0 <= i < fields.len(),
        fields[i].0 == key,
        other != key,
    ensures
        fields_lookup(fields.update(i, (key, value)), other) == fields_lookup(fields, other),
    decreases fields.len(),
{
    if i > 0 {
        if fields[0].0 != other {
            lemma_lookup_update(fields.drop_first(), i - 1, key, value, other);
            assert(fields.update(i, (key, value)).drop_first() =~= fields.drop_first().update(i - 1, (key, value)));
        }
    } else {
        assert(fields.update(0, (key, value)).drop_first() =~= fields.drop_first());
    }
}

proof fn lemma_lookup_push(fields: Seq<(Seq<char>, Json)>, key: Seq<char>, value: Json, other: Seq<char>)
    ensures
        other != key ==> fields_lookup(fields.push((key, value)), other) == fields_lookup(fields, other),
        (forall|j: int| 0 <= j < fields.len() ==> fields[j].0 != key) ==> fields_lookup(fields.push((key, value)), key) == Some(value),
    decreases fields.len(),
{
    if fields.len() == 0 {
        assert(fields.push((key, value)).drop_first() =~= Seq::<(Seq<char>, Json)>::empty());
        assert(fields.push((key, value))[0] == (key, value));
        assert(fields_lookup(Seq::<(Seq<char>, Json)>::empty(), other) is None);
    } else {
        lemma_lookup_push(fields.drop_first(), key, value, other);
        assert(fields.push((key, value)).drop_first() =~= fields.drop_first().push((key, value)));
        assert(fields.push((key, value))[0] == fields[0]);
        if forall|j: int| 0 <= j < fields.len() ==> fields[j].0 != key {
            assert forall|j: int| 0 <= j < fields.drop_first().len() implies fields.drop_first()[j].0 != key by {
                assert(fields.drop_first()[j] == fields[j + 1]);
            }
        }
    }
}

/// Reading a member of a JSON object after setting it (`obj_put`) gives the value set,
/// and every other member reads as before.
pub proof fn law_object_put_then_lookup(fields: Seq<(Seq<char>, Json)>, key: Seq<char>, value: Json, other: Seq<char>)
    ensures
        fields_lookup(fields_put(fields, key, value), key) == Some(value),
        other != key ==> fields_lookup(fields_put(fields, key, value), other) == fields_lookup(fields, other),
{
    lemma_member_pos(fields, key, 0);
    lemma_lookup_push(fields, key, value, other);
    match member_pos(fields, key, 0) {
        Some(i) => {
            let u = fields.update(i, (key, value));
            lemma_lookup_first(u, key, i);
            if other != key {
                lemma_lookup_update(fields, i, key, value, other);
            }
        },
        None => {},
    }
}

/// A number of thousandths `m * 10^e` is `m * 10^(e - 3)` units (`json_thousandth`).
pub proof fn law_thousandth(m: int, e: int)
    requires
        i32::MIN + 3 <= e,
    ensures
        thousandth(Some(Json::Decimal(m, e))) == Some(Json::Decimal(m, e - 3)),
{
}

/// Whether no item of `s` occurs twice.
pub open spec fn each_once(s: Seq<Seq<char>>) -> bool {
    forall|i: int, j: int| 0 <= i < j < s.len() ==> s[i] != s[j]
}

proof fn lemma_push_new(prev: Seq<Seq<char>>, l: Seq<char>)
    requires
        each_once(prev),
        !prev.contains(l),
    ensures
        each_once(prev.push(l)),
{
    assert forall|i: int, j: int| 0 <= i < j < prev.push(l).len() implies prev.push(l)[i] != prev.push(l)[j] by {
        if j == prev.len() {
            assert(prev.push(l)[i] == prev[i]);
            if prev[i] == l {
                assert(prev.contains(l));
            }
        } else {
            assert(prev.push(l)[i] == prev[i] && prev.push(l)[j] == prev[j]);
        }
    }
}

/// The media addresses of a page's HTML5 elements (`html5_media_formats`) come each once.
pub proof fn law_html5_links_each_once(url: Seq<char>, all: Seq<Seq<Option<Seq<char>>>>, n: int)
    ensures
        each_once(html5_links(url, all, n)),
    decreases n,
{
    if n > 0 {
        law_html5_links_each_once(url, all, n - 1);
        let prev = html5_links(url, all, n - 1);
        match crate::pattern::group_at(all[n - 1], 1) {
            Some(src) => {
                let l = crate::extract::resolved(url, crate::html::unescaped(src));
                if !prev.contains(l) {
                    lemma_push_new(prev, l);
                }
            },
            None => {},
        }
    }
}

/// The audio pages of a Soundgasm profile (`sg_profile_links`) come each once.
pub proof fn law_soundgasm_links_each_once(all: Seq<Seq<Option<Seq<char>>>>, base: Seq<char>, id: Seq<char>, n: int)
    ensures
        each_once(sg_links(all, base, id, n)),
    decreases n,
{
    if n > 0 {
        law_soundgasm_links_each_once(all, base, id, n - 1);
        let prev = sg_links(all, base, id, n - 1);
        match crate::pattern::group_at(all[n - 1], 1) {
            Some(raw) => match crate::weburl::joined_url(base, raw) {
                Some(l) => if !prev.contains(l) {
                    lemma_push_new(prev, l);
                },
                None => {},
            },
            None => {},
        }
    }
}

/// The video addresses of an AltCensored channel page (`altcensored_video_urls`) come
/// each once.
pub proof fn law_altcensored_links_each_once(all: Seq<Seq<Option<Seq<char>>>>, n: int)
    ensures
        each_once(ac_links(all, n)),
    decreases n,
{
    if n > 0 {
        law_altcensored_links_each_once(all, n - 1);
        let prev = ac_links(all, n - 1);
        match crate::pattern::group_at(all[n - 1], 1) {
            Some(p) => {
                let u = crate::extract::resolved("https://www.altcensored.com"@, crate::html::unescaped(p));
                if !prev.contains(u) {
                    lemma_push_new(prev, u);
                }
            },
            None => {},
        }
    }
}

/// The video pages of a Rumble listing page (`rumble_channel_video_links`) come each once.
pub proof fn law_rumble_links_each_once(all: Seq<Seq<Option<Seq<char>>>>, n: int)
    ensures
        each_once(rumble_card_links(all, n)),
    decreases n,
{
    if n > 0 {
        law_rumble_links_each_once(all, n - 1);
        let prev = rumble_card_links(all, n - 1);
        match crate::pattern::group_at(all[n - 1], 1) {
            Some(attrs) => match crate::sites::rumble::rumble_card_link(attrs) {
                Some(l) => if !prev.contains(l) {
                    lemma_push_new(prev, l);
                },
                None => {},
            },
            None => {},
        }
    }
}

/// The media files of a Unistra page come each once.
pub proof fn law_unistra_files_each_once(all: Seq<Seq<Option<Seq<char>>>>, n: int)
    ensures
        each_once(unistra_files(all, n)),
    decreases n,
{
    if n > 0 {
        law_unistra_files_each_once(all, n - 1);
        let prev = unistra_files(all, n - 1);
        match crate::pattern::group_at(all[n - 1], 1) {
            Some(p) => if !prev.contains(crate::html::unescaped(p)) {
                lemma_push_new(prev, crate::html::unescaped(p));
            },
            None => {},
        }
    }
}

/// Gathering the video addresses of the pages of an AltCensored channel keeps each once,
/// and keeps every address gathered before and every address of the page.
pub proof fn law_channel_merge(urls: Seq<Seq<char>>, more: Seq<Seq<char>>, n: int)
    requires
        each_once(urls),
        n <= more.len(),
    ensures
        each_once(merge_new(urls, more, n)),
        forall|i: int| 0 <= i < urls.len() ==> merge_new(urls, more, n).contains(#[trigger] urls[i]),
        forall|i: int| 0 <= i < n ==> merge_new(urls, more, n).contains(#[trigger] more[i]),
    decreases n,
{
    if n > 0 {
        law_channel_merge(urls, more, n - 1);
        let prev = merge_new(urls, more, n - 1);
        if !prev.contains(more[n - 1]) {
            lemma_push_new(prev, more[n - 1]);
            assert forall|i: int| 0 <= i < urls.len() implies prev.push(more[n - 1]).contains(#[trigger] urls[i]) by {
                let k = choose|k: int| 0 <= k < prev.len() && prev[k] == urls[i];
                assert(prev.push(more[n - 1])[k] == urls[i]);
            }
            assert forall|i: int| 0 <= i < n implies prev.push(more[n - 1]).contains(#[trigger] more[i]) by {
                if i < n - 1 {
                    let k = choose|k: int| 0 <= k < prev.len() && prev[k] == more[i];
                    assert(prev.push(more[n - 1])[k] == more[i]);
                } else {
                    assert(prev.push(more[n - 1])[prev.len() as int] == more[i]);
                }
            }
        }
    }
}

/// Every format a Golem reading holds, kept or open, names its own element.
spec fn golem_formats_sound(m: ReadModel) -> bool {
    forall|i: int| 0 <= i < m.config.formats.len() ==> #[trigger] m.config.formats[i].url.len() > 0
}

proof fn lemma_golem_event_keeps_urls(m: ReadModel, e: XmlEventModel)
    requires
        golem_formats_sound(m),
    ensures
        golem_formats_sound(golem_event(m, e)),
{
    match e {
        XmlEventModel::End(q) => {
            let name = crate::extract::after_last(q, ':');
            if m.elements.len() == 2 {
                let a = close_format(m, name);
                assert(golem_formats_sound(a));
                assert(golem_formats_sound(close_thumbnail(a, name)));
            }
        },
        _ => {},
    }
}

/// A Golem player configuration keeps only formats with a URL: every format that the
/// events of a document describe has a non-empty address.
pub proof fn law_golem_formats_have_urls(events: Seq<XmlEventModel>)
    ensures
        forall|i: int| 0 <= i < golem_config_of(events).formats.len()
            ==> #[trigger] golem_config_of(events).formats[i].url.len() > 0,
    decreases events.len(),
{
    if events.len() > 0 {
        law_golem_formats_have_urls(events.drop_last());
        lemma_golem_event_keeps_urls(golem_read(events.drop_last()), events.last());
    }
    assert(golem_formats_sound(golem_read(events)));
}

/// Whether the first members of `f` are those of `head`.
spec fn begins_with(f: Seq<(Seq<char>, Json)>, head: Seq<(Seq<char>, Json)>) -> bool {
    f.len() >= head.len() && forall|i: int| 0 <= i < head.len() ==> #[trigger] f[i] == head[i]
}

proof fn lemma_codecs_keep_head(f: Seq<(Seq<char>, Json)>, head: Seq<(Seq<char>, Json)>, stream: Json)
    requires
        begins_with(f, head),
    ensures
        begins_with(stream_cz_size(f, stream), head),
        begins_with(stream_cz_codecs(f, stream), head),
{
}

proof fn lemma_push_opt_keeps_head(f: Seq<(Seq<char>, Json)>, head: Seq<(Seq<char>, Json)>, key: Seq<char>, v: Option<Json>)
    requires
        begins_with(f, head),
    ensures
        begins_with(push_opt(f, key, v), head),
{
}

/// Adding the Stream.cz format of one more quality to a group's list: a stream without an
/// address leaves the list as it was; a stream with one adds one format at the end, whose
/// address is the stream's resolved against the playlist, whose format ID is the quality and
/// the extension, and whose source preference is the group's; the formats before stay.
pub proof fn law_stream_cz_format_added(pl_url: Seq<char>, qs: Seq<(Seq<char>, Json)>, ext: Seq<char>, pref: int, n: int)
    requires
        0 < n <= qs.len(),
    ensures
        json_str_at(qs[n - 1].1, "url"@) is None ==> stream_cz_group_list(pl_url, qs, ext, pref, n)
            == stream_cz_group_list(pl_url, qs, ext, pref, n - 1),
        json_str_at(qs[n - 1].1, "url"@) matches Some(raw) ==> {
            let before = stream_cz_group_list(pl_url, qs, ext, pref, n - 1);
            let after = stream_cz_group_list(pl_url, qs, ext, pref, n);
            &&& after.len() == before.len() + 1
            &&& after.subrange(0, before.len() as int) == before
            &&& after.last().0 == resolved(pl_url, raw)
            &&& after.last().1 == ext
            &&& json_lookup(after.last().2, "format_id"@) == Some(Json::Str(qs[n - 1].0 + "-"@ + ext))
            &&& json_lookup(after.last().2, "source_preference"@) == Some(Json::Int(pref))
            &&& json_lookup(after.last().2, "url"@) == Some(Json::Str(resolved(pl_url, raw)))
        },
{
    let fid = qs[n - 1].0;
    let stream = qs[n - 1].1;
    let before = stream_cz_group_list(pl_url, qs, ext, pref, n - 1);
    match json_str_at(stream, "url"@) {
        Some(raw) => {
            let u = resolved(pl_url, raw);
            let head = Seq::<(Seq<char>, Json)>::empty()
                .push(("format_id"@, Json::Str(fid + "-"@ + ext)))
                .push(("ext"@, Json::Str(ext)))
                .push(("source_preference"@, Json::Int(pref)))
                .push(("url"@, Json::Str(u)));
            let f1 = push_opt(head, "tbr"@, thousandth(json_num_at(stream, "bandwidth"@)));
            let f2 = push_opt(f1, "duration"@, thousandth(json_num_at(stream, "duration"@)));
            let f3 = stream_cz_size(f2, stream);
            let f4 = if crate::sites::stream_cz::has_height(f3) {
                f3
            } else {
                push_opt(f3, "height"@, opt_int(parsed_int(strip_suffixes(fid, "p"@))))
            };
            assert(begins_with(head, head));
            lemma_push_opt_keeps_head(head, head, "tbr"@, thousandth(json_num_at(stream, "bandwidth"@)));
            lemma_push_opt_keeps_head(f1, head, "duration"@, thousandth(json_num_at(stream, "duration"@)));
            lemma_codecs_keep_head(f2, head, stream);
            lemma_push_opt_keeps_head(f3, head, "height"@, opt_int(parsed_int(strip_suffixes(fid, "p"@))));
            lemma_codecs_keep_head(f4, head, stream);
            let f = stream_cz_codecs(f4, stream);
            assert(stream_cz_format(pl_url, fid, stream, ext, pref) == Some((u, ext, Json::Object(f))));
            reveal_strlit("format_id");
            reveal_strlit("ext");
            reveal_strlit("source_preference");
            reveal_strlit("url");
            assert(f[0] == head[0] && f[1] == head[1] && f[2] == head[2] && f[3] == head[3]);
            assert(fields_lookup(f, "format_id"@) == Some(Json::Str(fid + "-"@ + ext)));
            assert("format_id"@.len() != "source_preference"@.len());
            assert("ext"@.len() != "source_preference"@.len());
            assert("format_id"@.len() != "url"@.len());
            assert("ext"@[0] != "url"@[0]);
            assert("source_preference"@.len() != "url"@.len());
            lemma_fields_lookup_step(f, "source_preference"@, 2);
            assert(f.subrange(2, f.len() as int)[0] == f[2]);
            lemma_fields_lookup_step(f, "url"@, 3);
            assert(f.subrange(3, f.len() as int)[0] == f[3]);
            let after = stream_cz_group_list(pl_url, qs, ext, pref, n);
            assert(after == before.push((u, ext, Json::Object(f))));
            assert(after.subrange(0, before.len() as int) =~= before);
        },
        None => {},
    }
}

/// A generic extraction starts from what `extract` gives for its address: an address that
/// `extract` refuses is refused before any fetch; an address that `extract` finds direct is
/// answered with exactly what `extract` gives, before any fetch; any other address asks for
/// its page, and with the page is answered with what `extract` gives plus what the page
/// adds, its media formats numbered in order.
pub proof fn law_generic_extract_then_page(url: Seq<char>, replies: Seq<Reply>)
    ensures
        !url_parses(url) ==> generic_outcome(url, replies, 0) == GenericOutcome::Failed(ExtractorErrorKind::InvalidUrl),
        url_parses(url) && generic_base(url)["direct"@] == Json::Bool(true)
            ==> generic_outcome(url, replies, 0) == GenericOutcome::Got(generic_base(url), 0),
        url_parses(url) && generic_base(url)["direct"@] == Json::Bool(false) && replies.len() == 0
            ==> generic_outcome(url, replies, 0) == GenericOutcome::NeedPage(url),
        url_parses(url) && generic_base(url)["direct"@] == Json::Bool(false) && replies.len() > 0
            ==> (reply_text_at(replies, 0) matches Some(html) ==> generic_outcome(url, replies, 0) == GenericOutcome::Got(generic_page_info(url, html), 1)
                && (generic_media(url, html).len() > 0 ==> generic_page_info(url, html)["formats"@]
                    == Json::Array(Seq::new(generic_media(url, html).len(), |i: int| generic_format(generic_media(url, html)[i], i))))),
{
    reveal_strlit("direct");
    reveal_strlit("ext");
    reveal_strlit("formats");
    reveal_strlit("url");
    assert("direct"@.len() != "ext"@.len());
    assert("formats"@.len() != "ext"@.len());
    assert("formats"@.len() != "url"@.len());
}

/// Looking a key up after one more member: the earlier member wins, else the new one.
proof fn lemma_member_push(f: Seq<(Seq<char>, Json)>, p: (Seq<char>, Json), key: Seq<char>)
    ensures
        fields_lookup(f.push(p), key) == match fields_lookup(f, key) {
            Some(v) => Some(v),
            None => if p.0 == key { Some(p.1) } else { None },
        },
    decreases f.len(),
{
    if f.len() > 0 {
        assert(f.push(p).drop_first() =~= f.drop_first().push(p));
        assert(f.push(p)[0] == f[0]);
        lemma_member_push(f.drop_first(), p, key);
    } else {
        assert(f.push(p)[0] == p);
        assert(f.push(p).drop_first() =~= Seq::<(Seq<char>, Json)>::empty());
        assert(fields_lookup(Seq::<(Seq<char>, Json)>::empty(), key) is None);
    }
}

/// Looking a key up after a member that may be added.
proof fn lemma_lookup_push_opt(f: Seq<(Seq<char>, Json)>, k: Seq<char>, v: Option<Json>, key: Seq<char>)
    ensures
        fields_lookup(push_opt(f, k, v), key) == match fields_lookup(f, key) {
            Some(x) => Some(x),
            None => if k == key { v } else { None },
        },
{
    match v {
        Some(x) => lemma_member_push(f, (k, x), key),
        None => {},
    }
}

/// A JW Player source's bitrate is in bit/s, and a format's `tbr` in kbit/s: every format
/// made from a source with an integer bitrate `b` has the `tbr` `b / 1000`, and a source
/// without one gives a format without `tbr`. Its `width` and `filesize` are the source's
/// own integer `width` and `filesize`, where it has them.
pub proof fn law_jw_format_tbr(base: Seq<char>, source: Json, index: int)
    ensures
        jw_format(base, source, index) matches Some((_, _, f)) ==> {
            &&& json_lookup(f, "tbr"@) == match json_int_at(source, "bitrate"@) {
                Some(b) => Some(Json::Decimal(b, -3)),
                None => None,
            }
            &&& json_lookup(f, "width"@) == match json_int_at(source, "width"@) {
                Some(w) => Some(Json::Int(w)),
                None => None,
            }
            &&& json_lookup(f, "filesize"@) == match json_int_at(source, "filesize"@) {
                Some(z) => Some(Json::Int(z)),
                None => None,
            }
        },
{
    if let Some(raw) = json_str_at(source, "file"@) {
        if !(raw.len() == 0 || has_prefix(raw, "rtmp:"@)) {
            let su = resolved(base, proto_relative(raw, "https:"@));
            let ty = jw_source_type(source);
            let sext = match mime_ext(ty) {
                Some(e) => e,
                None => ext_of(su, "mp4"@),
            };
            let uext = ext_of(su, sext);
            let hls = lowered(ty) == "hls"@ || uext == "m3u8"@ || has_infix(su, "format=m3u8-aapl"@);
            let dash = lowered(ty) == "dash"@ || uext == "mpd"@ || has_infix(su, "format=mpd-time-csf"@);
            let fid = match json_str_at(source, "label"@) {
                Some(l) => l,
                None => "http-"@ + nat_text(index as nat),
            };
            let ext = if hls || dash { "mp4"@ } else { uext };
            reveal_strlit("tbr");
            reveal_strlit("url");
            reveal_strlit("format_id");
            reveal_strlit("ext");
            reveal_strlit("protocol");
            reveal_strlit("vcodec");
            reveal_strlit("width");
            reveal_strlit("height");
            reveal_strlit("filesize");
            let e0 = Seq::<(Seq<char>, Json)>::empty();
            let a = e0.push(("url"@, Json::Str(su)));
            let b = a.push(("format_id"@, Json::Str(fid)));
            let f0 = b.push(("ext"@, Json::Str(ext)));
            let f1 = if hls {
                f0.push(("protocol"@, Json::Str("m3u8_native"@)))
            } else if dash {
                f0.push(("protocol"@, Json::Str("http_dash_segments"@)))
            } else if has_prefix(ty, "audio/"@) || has_prefix(sext, "mp3"@) || jw_audio_ext(uext) {
                f0.push(("vcodec"@, Json::Str("none"@)))
            } else {
                f0
            };
            let wv = opt_int(json_int_at(source, "width"@));
            let hv = opt_int(jw_height(source));
            let tv = match json_int_at(source, "bitrate"@) {
                Some(b) => Some(Json::Decimal(b, -3)),
                None => None,
            };
            let zv = opt_int(json_int_at(source, "filesize"@));
            let f2 = push_opt(f1, "width"@, wv);
            let f3 = push_opt(f2, "height"@, hv);
            let f4 = push_opt(f3, "tbr"@, tv);
            let f5 = push_opt(f4, "filesize"@, zv);
            assert("url"@.len() == 3 && "format_id"@.len() == 9 && "ext"@.len() == 3 && "protocol"@.len() == 8
                && "vcodec"@.len() == 6 && "width"@.len() == 5 && "height"@.len() == 6 && "tbr"@.len() == 3
                && "filesize"@.len() == 8);
            assert("url"@[0] != "tbr"@[0] && "ext"@[0] != "tbr"@[0] && "protocol"@[0] != "filesize"@[0]);
            assert forall|k: Seq<char>| k == "tbr"@ || k == "width"@ || k == "filesize"@ implies
                fields_lookup(f5, k) == (if k == "tbr"@ { tv } else if k == "width"@ { wv } else { zv }) by {
                assert(fields_lookup(e0, k) is None);
                lemma_member_push(e0, ("url"@, Json::Str(su)), k);
                lemma_member_push(a, ("format_id"@, Json::Str(fid)), k);
                lemma_member_push(b, ("ext"@, Json::Str(ext)), k);
                lemma_member_push(f0, ("protocol"@, Json::Str("m3u8_native"@)), k);
                lemma_member_push(f0, ("protocol"@, Json::Str("http_dash_segments"@)), k);
                lemma_member_push(f0, ("vcodec"@, Json::Str("none"@)), k);
                lemma_lookup_push_opt(f1, "width"@, wv, k);
                lemma_lookup_push_opt(f2, "height"@, hv, k);
                lemma_lookup_push_opt(f3, "tbr"@, tv, k);
                lemma_lookup_push_opt(f4, "filesize"@, zv, k);
            }
            assert(jw_format(base, source, index) == Some((su, ext, Json::Object(f5))));
        }
    }
}

/// An Imgur original-file format describes the media record it is made from: its address
/// is the media address, its `width` is the record's integer `width` and its `height` the
/// record's `height` (null where the record has none), and its `filesize` the record's `size`.
pub proof fn law_imgur_original_size(media: Json, mu: Seq<char>)
    ensures
        json_lookup(imgur_media_format(media, mu).1, "url"@) == Some(Json::Str(mu)),
        json_lookup(imgur_media_format(media, mu).1, "format_id"@) == Some(Json::Str("original"@)),
        json_lookup(imgur_media_format(media, mu).1, "width"@) == Some(match json_int_at(media, "width"@) {
            Some(w) => Json::Int(w),
            None => Json::Null,
        }),
        json_lookup(imgur_media_format(media, mu).1, "height"@) == Some(match json_int_at(media, "height"@) {
            Some(h) => Json::Int(h),
            None => Json::Null,
        }),
        json_lookup(imgur_media_format(media, mu).1, "filesize"@) == Some(match json_int_at(media, "size"@) {
            Some(z) => Json::Int(z),
            None => Json::Null,
        }),
{
    let metadata = crate::extract::or_null(json_lookup(media, "metadata"@));
    let api_ext = match json_str_at(media, "ext"@) {
        Some(e) => e,
        None => match json_str_at(media, "mime_type"@) {
            Some(m) => match mime_ext(m) {
                Some(e) => e,
                None => ext_of(mu, "mp4"@),
            },
            None => ext_of(mu, "mp4"@),
        },
    };
    let silent = json_bool_at(metadata, "has_sound"@) == Some(false);
    let image = json_str_at(media, "type"@) == Some("image"@);
    let w = int_or_null(json_int_at(media, "width"@));
    let h = int_or_null(json_int_at(media, "height"@));
    let z = int_or_null(json_int_at(media, "size"@));
    let e0 = Seq::<(Seq<char>, Json)>::empty();
    let p1 = ("url"@, Json::Str(mu));
    let p2 = ("format_id"@, Json::Str("original"@));
    let p3 = ("ext"@, Json::Str(api_ext));
    let p4 = ("width"@, w);
    let p5 = ("height"@, h);
    let p6 = ("filesize"@, z);
    let f0 = e0.push(p1).push(p2).push(p3).push(p4).push(p5).push(p6);
    let f1 = if silent || image { f0.push(("acodec"@, Json::Str("none"@))) } else { f0 };
    let f2 = if image { f1.push(("preference"@, Json::Int(-10))) } else { f1 };
    assert(imgur_media_format(media, mu).1 == Json::Object(f2));
    reveal_strlit("url");
    reveal_strlit("format_id");
    reveal_strlit("ext");
    reveal_strlit("width");
    reveal_strlit("height");
    reveal_strlit("filesize");
    reveal_strlit("acodec");
    reveal_strlit("preference");
    let keys = seq!["url"@, "format_id"@, "ext"@, "width"@, "height"@, "filesize"@];
    assert forall|i: int, j: int| 0 <= i < j < 6 implies #[trigger] keys[i] != #[trigger] keys[j] by {
        assert(keys[0].len() == 3 && keys[1].len() == 9 && keys[2].len() == 3 && keys[3].len() == 5
            && keys[4].len() == 6 && keys[5].len() == 8);
        assert(keys[0][0] != keys[2][0]);
    }
    assert forall|k: Seq<char>| keys.contains(k) implies fields_lookup(f2, k) == fields_lookup(f0, k) by {
        lemma_member_push(f0, ("acodec"@, Json::Str("none"@)), k);
        lemma_member_push(f1, ("preference"@, Json::Int(-10)), k);
        let j = choose|j: int| 0 <= j < keys.len() && keys[j] == k;
        assert(keys[j] == k);
        lemma_member_push(e0, p1, k);
        lemma_member_push(e0.push(p1), p2, k);
        lemma_member_push(e0.push(p1).push(p2), p3, k);
        lemma_member_push(e0.push(p1).push(p2).push(p3), p4, k);
        lemma_member_push(e0.push(p1).push(p2).push(p3).push(p4), p5, k);
        lemma_member_push(e0.push(p1).push(p2).push(p3).push(p4).push(p5), p6, k);
        assert(fields_lookup(f0, k) is Some);
    }
    assert forall|j: int| 0 <= j < 6 implies fields_lookup(f0, #[trigger] keys[j]) == Some(seq![p1, p2, p3, p4, p5, p6][j].1) by {
        let k = keys[j];
        assert(fields_lookup(e0, k) is None);
        lemma_member_push(e0, p1, k);
        lemma_member_push(e0.push(p1), p2, k);
        lemma_member_push(e0.push(p1).push(p2), p3, k);
        lemma_member_push(e0.push(p1).push(p2).push(p3), p4, k);
        lemma_member_push(e0.push(p1).push(p2).push(p3).push(p4), p5, k);
        lemma_member_push(e0.push(p1).push(p2).push(p3).push(p4).push(p5), p6, k);
    }
    assert(keys[0] == "url"@ && keys[1] == "format_id"@ && keys[3] == "width"@ && keys[4] == "height"@ && keys[5] == "filesize"@);
    assert(keys.contains("url"@) && keys.contains("format_id"@) && keys.contains("width"@) && keys.contains("height"@) && keys.contains("filesize"@));
}

proof fn lemma_strip_one_p(d: Seq<char>)
    requires
        all_digits(d),
    ensures
        strip_suffixes(d + "p"@, "p"@) == d,
        has_suffix(d + "p"@, "p"@),
{
    reveal_strlit("p");
    let s = d + "p"@;
    assert(s.subrange(s.len() - 1, s.len() as int) =~= "p"@);
    assert(s.subrange(0, s.len() - 1) =~= d);
    assert("p"@.len() == 1 && "p"@[0] == 'p');
    if d.len() > 0 {
        assert(is_digit(d[d.len() - 1]));
        assert(d.subrange(d.len() - 1, d.len() as int)[0] == d[d.len() - 1]);
        assert(d.subrange(d.len() - 1, d.len() as int) != "p"@);
    }
    assert(!has_suffix(d, "p"@));
    reveal_with_fuel(strip_suffixes, 2);
}

/// A PeerTube file whose resolution label is decimal digits followed by `p` (such as
/// `720p`), and which names no `WIDTHxHEIGHT`, is a format of that height and no width,
/// with the label as its format ID, the file's address, and its size.
pub proof fn law_peertube_height_label(file: Json, d: Seq<char>, h: int)
    requires
        str_in(json_lookup(file, "resolution"@), "label"@) == Some(d + "p"@),
        all_digits(d),
        parsed_int(d) == Some(h),
        resolution_of(d + "p"@) is None,
    ensures
        peertube_file_format(file) matches Some((u, _, f)) ==> {
            &&& Some(u) == json_str_at(file, "fileUrl"@)
            &&& json_lookup(f, "url"@) == Some(Json::Str(u))
            &&& json_lookup(f, "format_id"@) == Some(Json::Str(d + "p"@))
            &&& json_lookup(f, "height"@) == Some(Json::Int(h))
            &&& json_lookup(f, "width"@) is None
            &&& json_lookup(f, "filesize"@) == Some(match json_int_at(file, "size"@) {
                Some(z) => Json::Int(z),
                None => Json::Null,
            })
        },
{
    if let Some(fu) = json_str_at(file, "fileUrl"@) {
        let l = d + "p"@;
        lemma_strip_one_p(d);
        reveal_strlit("p");
        reveal_strlit("0p");
        reveal_strlit("url");
        reveal_strlit("format_id");
        reveal_strlit("filesize");
        reveal_strlit("ext");
        reveal_strlit("width");
        reveal_strlit("height");
        reveal_strlit("vcodec");
        reveal_strlit("fps");
        reveal_strlit("protocol");
        reveal_strlit("m3u8");
        let ext0 = ext_of(fu, "mp4"@);
        let p1 = ("url"@, Json::Str(fu));
        let p2 = ("format_id"@, Json::Str(l));
        let p3 = ("filesize"@, int_or_null(json_int_at(file, "size"@)));
        let p4 = ("ext"@, Json::Str(ext0));
        let e0 = Seq::<(Seq<char>, Json)>::empty();
        let f0 = e0.push(p1).push(p2).push(p3).push(p4);
        let ph = ("height"@, Json::Int(h));
        let f1 = f0.push(ph);
        let f2 = if l == "0p"@ {
            f1.push(("vcodec"@, Json::Str("none"@)))
        } else {
            match json_int_at(file, "fps"@) {
                Some(fps) => f1.push(("fps"@, Json::Int(fps))),
                None => f1,
            }
        };
        let keys = seq!["url"@, "format_id"@, "filesize"@, "height"@, "width"@];
        assert(keys[0].len() == 3 && keys[1].len() == 9 && keys[2].len() == 8 && keys[3].len() == 6 && keys[4].len() == 5);
        assert("ext"@.len() == 3 && "ext"@[0] != "url"@[0]);
        assert("vcodec"@.len() == 6 && "vcodec"@[0] != "height"@[0]);
        assert("fps"@.len() == 3 && "fps"@[0] != "url"@[0]);
        assert("protocol"@.len() == 8 && "protocol"@[0] != "filesize"@[0]);
        assert forall|k: Seq<char>| keys.contains(k) implies {
            &&& fields_lookup(f2, k) == fields_lookup(f1, k)
            &&& fields_lookup(f1, k) == (if k == "url"@ { Some(p1.1) } else if k == "format_id"@ { Some(p2.1) }
                else if k == "filesize"@ { Some(p3.1) } else if k == "height"@ { Some(ph.1) } else { None })
            &&& fields_lookup(f2.update(3, ("ext"@, Json::Str("mp4"@))).push(("protocol"@, Json::Str("m3u8_native"@))), k)
                == fields_lookup(f1, k)
        } by {
            let j = choose|j: int| 0 <= j < keys.len() && keys[j] == k;
            assert(fields_lookup(e0, k) is None);
            lemma_member_push(e0, p1, k);
            lemma_member_push(e0.push(p1), p2, k);
            lemma_member_push(e0.push(p1).push(p2), p3, k);
            lemma_member_push(e0.push(p1).push(p2).push(p3), p4, k);
            lemma_member_push(f0, ph, k);
            lemma_member_push(f1, ("vcodec"@, Json::Str("none"@)), k);
            if let Some(fps) = json_int_at(file, "fps"@) {
                lemma_member_push(f1, ("fps"@, Json::Int(fps)), k);
            }
            let g = f2.update(3, ("ext"@, Json::Str("mp4"@)));
            let g0 = e0.push(p1).push(p2).push(p3).push(("ext"@, Json::Str("mp4"@)));
            lemma_member_push(e0.push(p1).push(p2).push(p3), ("ext"@, Json::Str("mp4"@)), k);
            lemma_member_push(g0, ph, k);
            lemma_member_push(g0.push(ph), ("vcodec"@, Json::Str("none"@)), k);
            if let Some(fps) = json_int_at(file, "fps"@) {
                lemma_member_push(g0.push(ph), ("fps"@, Json::Int(fps)), k);
            }
            if l == "0p"@ {
                assert(g =~= g0.push(ph).push(("vcodec"@, Json::Str("none"@))));
            } else if let Some(fps) = json_int_at(file, "fps"@) {
                assert(g =~= g0.push(ph).push(("fps"@, Json::Int(fps))));
            } else {
                assert(g =~= g0.push(ph));
            }
            lemma_member_push(g, ("protocol"@, Json::Str("m3u8_native"@)), k);
        }
        assert(keys.contains("url"@) && keys.contains("format_id"@) && keys.contains("filesize"@) && keys.contains("height"@) && keys.contains("width"@)) by {
            assert(keys[0] == "url"@ && keys[1] == "format_id"@ && keys[2] == "filesize"@ && keys[3] == "height"@ && keys[4] == "width"@);
        }
        assert(has_suffix(l, "p"@));
        if ext0 == "m3u8"@ {
            assert(peertube_file_format(file) == Some((fu, "mp4"@, Json::Object(f2.update(3, ("ext"@, Json::Str("mp4"@))).push(("protocol"@, Json::Str("m3u8_native"@)))))));
        } else {
            assert(peertube_file_format(file) == Some((fu, ext0, Json::Object(f2))));
        }
    }
}

/// A Gab variant's format exists exactly when the variant's address key holds a web address,
/// points at that address, and carries the variant metadata's width and height and its
/// bitrate, given in kbit/s, as a `tbr` in bit/s (`b * 1000`).
pub proof fn law_gab_format_fields(media: Json, meta: Json, key: Seq<char>, url_key: Seq<char>)
    ensures
        gab_format_of(media, meta, key, url_key) is Some
            <==> (json_str_at(media, url_key) matches Some(u) && is_http(u)),
        gab_format_of(media, meta, key, url_key) matches Some(f) ==> (
            json_str_at(media, url_key) matches Some(u)
            && json_lookup(f, "url"@) == Some(Json::Str(u))
            && json_lookup(f, "format_id"@) == Some(Json::Str(key))),
        gab_format_of(media, meta, key, url_key) matches Some(f) ==> {
            let fm = match json_lookup(meta, key) { Some(x) => x, None => Json::Null };
            &&& json_lookup(f, "width"@) == match json_int_at(fm, "width"@) { Some(w) => Some(Json::Int(w)), None => None }
            &&& json_lookup(f, "height"@) == match json_int_at(fm, "height"@) { Some(h) => Some(Json::Int(h)), None => None }
            &&& json_lookup(f, "tbr"@) == match json_int_at(fm, "bitrate"@) {
                Some(b) => Some(if -9223372036854775 <= b <= 9223372036854775 { Json::Int(b * 1000) } else { Json::Decimal(b, 3) }),
                None => None,
            }
        },
{
    if let Some(u) = json_str_at(media, url_key) {
        if is_http(u) {
            let base = seq![
                ("url"@, Json::Str(u)),
                ("format_id"@, Json::Str(key)),
                ("ext"@, Json::Str(ext_of(u, "mp4"@))),
                ("protocol"@, Json::Str("http"@)),
            ];
            reveal_strlit("url");
            reveal_strlit("format_id");
            assert("url"@.len() != "format_id"@.len());
            assert(base[0].0 == "url"@);
            assert(fields_lookup(base, "url"@) == Some(Json::Str(u)));
            let e0 = Seq::<(Seq<char>, Json)>::empty();
            let q1 = ("url"@, Json::Str(u));
            let q2 = ("format_id"@, Json::Str(key));
            let q3 = ("ext"@, Json::Str(ext_of(u, "mp4"@)));
            let q4 = ("protocol"@, Json::Str("http"@));
            assert(base =~= e0.push(q1).push(q2).push(q3).push(q4));
            reveal_strlit("ext");
            reveal_strlit("protocol");
            assert("ext"@.len() != "format_id"@.len() && "protocol"@.len() != "format_id"@.len());
            assert(fields_lookup(e0, "format_id"@) is None);
            lemma_member_push(e0, q1, "format_id"@);
            lemma_member_push(e0.push(q1), q2, "format_id"@);
            lemma_member_push(e0.push(q1).push(q2), q3, "format_id"@);
            lemma_member_push(e0.push(q1).push(q2).push(q3), q4, "format_id"@);
            assert(fields_lookup(base, "format_id"@) == Some(Json::Str(key)));
            let fm = match json_lookup(meta, key) { Some(x) => x, None => Json::Null };
            let kr = match json_int_at(fm, "bitrate"@) { Some(b) => Some(crate::sites::gab::kilo_rate(b)), None => None };
            let f1a = push_opt(base, "width"@, opt_int(json_int_at(fm, "width"@)));
            let f1 = push_opt(f1a, "height"@, opt_int(json_int_at(fm, "height"@)));
            let f2 = push_opt(f1, "tbr"@, kr);
            let f3 = push_opt(f2, "fps"@, json_num_at(fm, "fps"@));
            let f4 = push_opt(f3, "acodec"@, opt_str(json_str_at(fm, "audio_encode"@)));
            reveal_strlit("width");
            reveal_strlit("height");
            reveal_strlit("tbr");
            reveal_strlit("fps");
            reveal_strlit("acodec");
            assert("width"@.len() == 5 && "height"@.len() == 6 && "tbr"@.len() == 3 && "fps"@.len() == 3
                && "acodec"@.len() == 6 && "tbr"@[0] != "fps"@[0] && "height"@[0] != "acodec"@[0]
                && "ext"@[0] != "tbr"@[0] && "url"@[0] != "tbr"@[0]);
            assert forall|k: Seq<char>| k == "width"@ || k == "height"@ || k == "tbr"@ implies
                fields_lookup(f4, k) == (if k == "width"@ { opt_int(json_int_at(fm, "width"@)) }
                    else if k == "height"@ { opt_int(json_int_at(fm, "height"@)) } else { kr }) by {
                assert(fields_lookup(e0, k) is None);
                lemma_member_push(e0, q1, k);
                lemma_member_push(e0.push(q1), q2, k);
                lemma_member_push(e0.push(q1).push(q2), q3, k);
                lemma_member_push(e0.push(q1).push(q2).push(q3), q4, k);
                lemma_lookup_push_opt(base, "width"@, opt_int(json_int_at(fm, "width"@)), k);
                lemma_lookup_push_opt(f1a, "height"@, opt_int(json_int_at(fm, "height"@)), k);
                lemma_lookup_push_opt(f1, "tbr"@, kr, k);
                lemma_lookup_push_opt(f2, "fps"@, json_num_at(fm, "fps"@), k);
                lemma_lookup_push_opt(f3, "acodec"@, opt_str(json_str_at(fm, "audio_encode"@)), k);
            }
            assert forall|k: Seq<char>| k == "url"@ || k == "format_id"@ implies fields_lookup(f4, k) == fields_lookup(base, k) by {
                lemma_lookup_push_opt(base, "width"@, opt_int(json_int_at(fm, "width"@)), k);
                lemma_lookup_push_opt(f1a, "height"@, opt_int(json_int_at(fm, "height"@)), k);
                lemma_lookup_push_opt(f1, "tbr"@, kr, k);
                lemma_lookup_push_opt(f2, "fps"@, json_num_at(fm, "fps"@), k);
                lemma_lookup_push_opt(f3, "acodec"@, opt_str(json_str_at(fm, "audio_encode"@)), k);
            }
            assert(gab_format_of(media, meta, key, url_key) == Some(Json::Object(f4)));
        }
    }
}

/// A Gab attachment's formats: the `original` format is there exactly when the attachment's
/// `url` is a web address, and points at it; the `playable` format is there exactly when its
/// `source_mp4` is a web address, points at that address, and comes last.
pub proof fn law_gab_formats(media: Json, meta: Json)
    ensures ({
        let fs = gab_formats_of(media, meta);
        let original = json_str_at(media, "url"@) matches Some(u) && is_http(u);
        let playable = json_str_at(media, "source_mp4"@) matches Some(u) && is_http(u);
        &&& fs.len() == (if original { 1int } else { 0 }) + (if playable { 1int } else { 0 })
        &&& original ==> json_lookup(fs[0], "url"@) == Some(Json::Str(json_str_at(media, "url"@).unwrap()))
            && json_lookup(fs[0], "format_id"@) == Some(Json::Str("original"@))
        &&& playable ==> json_lookup(fs.last(), "url"@) == Some(Json::Str(json_str_at(media, "source_mp4"@).unwrap()))
            && json_lookup(fs.last(), "format_id"@) == Some(Json::Str("playable"@))
    }),
{
    law_gab_format_fields(media, meta, "original"@, "url"@);
    law_gab_format_fields(media, meta, "playable"@, "source_mp4"@);
}

proof fn lemma_without_absent(s: Seq<char>, c: char)
    requires
        forall|i: int| 0 <= i < s.len() ==> s[i] != c,
    ensures
        without_char(s, c) == s,
    decreases s.len(),
{
    if s.len() > 0 {
        lemma_without_absent(s.drop_last(), c);
        assert(s.drop_last().push(s.last()) =~= s);
    }
}

/// A count text with a suffix, when nothing in it is a comma or whitespace: the suffix
/// letter's multiplier applies to the text before it.
proof fn lemma_compact_suffixed(t: Seq<char>, x: char)
    requires
        forall|i: int| 0 <= i < t.len() ==> t[i] != ',' && !is_space(t[i]),
        !is_space(x),
        x != ',',
    ensures
        compact_count(t.push(x)) == match suffix_power(x) {
            Some(p) => match decimal_parts(t) {
                Some((m, e)) => Some(scaled_value(m, e + p)),
                None => None,
            },
            None => match decimal_parts(t.push(x)) {
                Some((m, e)) => Some(scaled_value(m, e)),
                None => None,
            },
        },
{
    let s = t.push(x);
    assert(s.len() > 0);
    if t.len() > 0 {
        assert(s[0] == t[0]);
    }
    assert(!is_space(s[0]));
    assert(leading_space(s) == 0);
    assert(s.last() == x);
    assert(trailing_space(s) == 0);
    assert(trimmed(s) =~= s);
    assert forall|i: int| 0 <= i < s.len() implies s[i] != ',' by {
        if i < t.len() { assert(s[i] == t[i]); }
    }
    lemma_without_absent(s, ',');
    assert(s.drop_last() =~= t);
}

/// A compact count ending in `k` is read as one ending in `K`, and the same for `m`/`M`
/// and `b`/`B`; a suffix multiplies the number before it by its power of ten
/// (`K` 3, `M` 6, `B` 9), toward zero. For a whole number `n` before `K`, the count is
/// `n * 1000`, and before `M`, `n * 1000000`.
pub proof fn law_compact_suffixes(t: Seq<char>, n: int)
    requires
        forall|i: int| 0 <= i < t.len() ==> t[i] != ',' && !is_space(t[i]),
    ensures
        compact_count(t.push('k')) == compact_count(t.push('K')),
        compact_count(t.push('m')) == compact_count(t.push('M')),
        compact_count(t.push('b')) == compact_count(t.push('B')),
        decimal_parts(t) matches Some((m, e)) ==> {
            &&& compact_count(t.push('K')) == Some(scaled_value(m, e + 3))
            &&& compact_count(t.push('M')) == Some(scaled_value(m, e + 6))
            &&& compact_count(t.push('B')) == Some(scaled_value(m, e + 9))
        },
        decimal_parts(t) is None ==> compact_count(t.push('K')) is None,
        decimal_parts(t) == Some((n, 0int)) && -9223372036854 <= n <= 9223372036854 ==> {
            &&& compact_count(t.push('k')) == Some(n * 1000)
            &&& compact_count(t.push('M')) == Some(n * 1000000)
        },
{
    lemma_compact_suffixed(t, 'k');
    lemma_compact_suffixed(t, 'K');
    lemma_compact_suffixed(t, 'm');
    lemma_compact_suffixed(t, 'M');
    lemma_compact_suffixed(t, 'b');
    lemma_compact_suffixed(t, 'B');
    reveal_with_fuel(pow10, 7);
    assert(pow10(3) == 1000);
    assert(pow10(6) == 1000000);
}

/// A PeerTube file whose resolution label names `WIDTHxHEIGHT` is a format of that width
/// and height, with the label as its format ID.
pub proof fn law_peertube_size_label(file: Json, l: Seq<char>, w: int, h: int)
    requires
        str_in(json_lookup(file, "resolution"@), "label"@) == Some(l),
        resolution_of(l) == Some((w, h)),
    ensures
        peertube_file_format(file) matches Some((_, _, f)) ==> {
            &&& json_lookup(f, "format_id"@) == Some(Json::Str(l))
            &&& json_lookup(f, "width"@) == Some(Json::Int(w))
            &&& json_lookup(f, "height"@) == Some(Json::Int(h))
        },
{
    if let Some(fu) = json_str_at(file, "fileUrl"@) {
        reveal_strlit("url");
        reveal_strlit("format_id");
        reveal_strlit("filesize");
        reveal_strlit("ext");
        reveal_strlit("width");
        reveal_strlit("height");
        reveal_strlit("vcodec");
        reveal_strlit("fps");
        reveal_strlit("protocol");
        let ext0 = ext_of(fu, "mp4"@);
        let p1 = ("url"@, Json::Str(fu));
        let p2 = ("format_id"@, Json::Str(l));
        let p3 = ("filesize"@, int_or_null(json_int_at(file, "size"@)));
        let p4 = ("ext"@, Json::Str(ext0));
        let e0 = Seq::<(Seq<char>, Json)>::empty();
        let f0 = e0.push(p1).push(p2).push(p3).push(p4);
        let pw = ("width"@, Json::Int(w));
        let ph = ("height"@, Json::Int(h));
        let f1 = f0.push(pw).push(ph);
        let f2 = if l == "0p"@ {
            f1.push(("vcodec"@, Json::Str("none"@)))
        } else {
            match json_int_at(file, "fps"@) {
                Some(fps) => f1.push(("fps"@, Json::Int(fps))),
                None => f1,
            }
        };
        assert("url"@.len() == 3 && "format_id"@.len() == 9 && "filesize"@.len() == 8 && "ext"@.len() == 3
            && "width"@.len() == 5 && "height"@.len() == 6 && "vcodec"@.len() == 6 && "fps"@.len() == 3
            && "protocol"@.len() == 8 && "vcodec"@[0] != "height"@[0]);
        assert forall|k: Seq<char>| k == "format_id"@ || k == "width"@ || k == "height"@ implies {
            &&& fields_lookup(f2, k) == (if k == "format_id"@ { Some(p2.1) } else if k == "width"@ { Some(pw.1) } else { Some(ph.1) })
            &&& fields_lookup(f2.update(3, ("ext"@, Json::Str("mp4"@))).push(("protocol"@, Json::Str("m3u8_native"@))), k)
                == fields_lookup(f2, k)
        } by {
            assert(fields_lookup(e0, k) is None);
            lemma_member_push(e0, p1, k);
            lemma_member_push(e0.push(p1), p2, k);
            lemma_member_push(e0.push(p1).push(p2), p3, k);
            lemma_member_push(e0.push(p1).push(p2).push(p3), p4, k);
            lemma_member_push(f0, pw, k);
            lemma_member_push(f0.push(pw), ph, k);
            lemma_member_push(f1, ("vcodec"@, Json::Str("none"@)), k);
            if let Some(fps) = json_int_at(file, "fps"@) {
                lemma_member_push(f1, ("fps"@, Json::Int(fps)), k);
            }
            let g = f2.update(3, ("ext"@, Json::Str("mp4"@)));
            let g0 = e0.push(p1).push(p2).push(p3).push(("ext"@, Json::Str("mp4"@)));
            lemma_member_push(e0.push(p1).push(p2).push(p3), ("ext"@, Json::Str("mp4"@)), k);
            lemma_member_push(g0, pw, k);
            lemma_member_push(g0.push(pw), ph, k);
            lemma_member_push(g0.push(pw).push(ph), ("vcodec"@, Json::Str("none"@)), k);
            if let Some(fps) = json_int_at(file, "fps"@) {
                lemma_member_push(g0.push(pw).push(ph), ("fps"@, Json::Int(fps)), k);
            }
            if l == "0p"@ {
                assert(g =~= g0.push(pw).push(ph).push(("vcodec"@, Json::Str("none"@))));
            } else if let Some(fps) = json_int_at(file, "fps"@) {
                assert(g =~= g0.push(pw).push(ph).push(("fps"@, Json::Int(fps))));
            } else {
                assert(g =~= g0.push(pw).push(ph));
            }
            lemma_member_push(g, ("protocol"@, Json::Str("m3u8_native"@)), k);
        }
        assert(fields_lookup(f2, "width"@) == Some(Json::Int(w)));
        assert(fields_lookup(f2, "height"@) == Some(Json::Int(h)));
        assert(fields_lookup(f2, "format_id"@) == Some(Json::Str(l)));
        if ext0 == "m3u8"@ {
            assert(peertube_file_format(file) == Some((fu, "mp4"@, Json::Object(f2.update(3, ("ext"@, Json::Str("mp4"@))).push(("protocol"@, Json::Str("m3u8_native"@)))))));
        } else {
            assert(peertube_file_format(file) == Some((fu, ext0, Json::Object(f2))));
        }
    }
}

} // verus!
