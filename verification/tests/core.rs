use ytdlp_extractor::extract::{determine_ext, proto_relative_url, resolve_url};
use ytdlp_extractor::html::{html_text_fragment, unescape_html};
use ytdlp_extractor::info::InfoDict;
use ytdlp_extractor::json::JsonValue;
use ytdlp_extractor::media_types::{mimetype_extension, parse_duration};
use ytdlp_extractor::number::{parse_compact_count, parse_float, parse_int, parse_usize, usize_text};
use ytdlp_extractor::page::{html_meta_value, xml_element_text};
use ytdlp_extractor::text::{char_boundary, replace_str, split_char, trim, trim_start_char};
use ytdlp_extractor::timestamp::parse_timestamp;
use ytdlp_extractor::xml::{xml_events, XmlEvent};

fn render(v: &JsonValue) -> String {
    match v {
        JsonValue::Null => "null".to_string(),
        JsonValue::Bool(b) => b.to_string(),
        JsonValue::Int(i) => i.to_string(),
        JsonValue::Decimal(m, e) => format!("{}e{}", m, e),
        JsonValue::Str(s) => format!("{:?}", s),
        JsonValue::Array(items) => {
            format!("[{}]", items.iter().map(render).collect::<Vec<_>>().join(","))
        }
        JsonValue::Object(fields) => format!(
            "{{{}}}",
            fields
                .iter()
                .map(|(k, v)| format!("{:?}:{}", k, render(v)))
                .collect::<Vec<_>>()
                .join(",")
        ),
    }
}

#[test]
fn parse_int_reads_signed_decimals() {
    assert_eq!(parse_int("42"), Some(42));
    assert_eq!(parse_int("-7"), Some(-7));
    assert_eq!(parse_int("+15"), Some(15));
    assert_eq!(parse_int("4x"), None);
    assert_eq!(parse_int(""), None);
    assert_eq!(parse_int("-"), None);
    assert_eq!(parse_int("9223372036854775807"), Some(i64::MAX));
    assert_eq!(parse_int("9223372036854775808"), None);
    assert_eq!(parse_int("-9223372036854775808"), Some(i64::MIN));
}

#[test]
fn usize_text_round_trips() {
    for n in [0usize, 7, 10, 12345, usize::MAX] {
        assert_eq!(parse_usize(&usize_text(n)), Some(n));
    }
    assert_eq!(usize_text(2024), "2024");
    assert_eq!(parse_usize("-1"), None);
}

#[test]
fn compact_counts_scale_by_their_suffix() {
    assert_eq!(parse_compact_count("1,234"), Some(1234));
    assert_eq!(parse_compact_count("1.2K"), Some(1200));
    assert_eq!(parse_compact_count("3M"), Some(3_000_000));
    assert_eq!(parse_compact_count(" 2.5b "), Some(2_500_000_000));
    assert_eq!(parse_compact_count("1.25K"), Some(1250));
    assert_eq!(parse_compact_count("1.2345K"), Some(1234));
    assert_eq!(parse_compact_count("K"), None);
    assert_eq!(parse_compact_count(""), None);
    assert_eq!(parse_compact_count("abc"), None);
}

#[test]
fn floats_keep_their_decimal_value() {
    assert_eq!(parse_float("300.5").map(|v| render(&v)), Some("3005e-1".to_string()));
    assert_eq!(parse_float("12").map(|v| render(&v)), Some("12e0".to_string()));
    assert_eq!(parse_float("1.5e3").map(|v| render(&v)), Some("15e2".to_string()));
    assert_eq!(parse_float("1.").map(|v| render(&v)), Some("1e0".to_string()));
    assert_eq!(parse_float("-.5").map(|v| render(&v)), Some("-5e-1".to_string()));
    assert_eq!(parse_float("12345678901234567890123").map(|v| render(&v)), Some("123456789012345678e5".to_string()));
    assert_eq!(parse_float("-Infinity").map(|v| render(&v)), Some("null".to_string()));
    assert_eq!(parse_float("NaN").map(|v| render(&v)), Some("null".to_string()));
    assert_eq!(parse_float("0.000120").map(|v| render(&v)), Some("120e-6".to_string()));
    assert!(parse_float("1e").is_none());
    assert!(parse_float(".").is_none());
    assert!(parse_float("twelve").is_none());
}

#[test]
fn durations_read_seconds_and_clock_times() {
    assert_eq!(parse_duration("1:02:03").map(|v| render(&v)), Some("3723e0".to_string()));
    assert_eq!(parse_duration("02:03").map(|v| render(&v)), Some("123e0".to_string()));
    assert_eq!(parse_duration("90.5").map(|v| render(&v)), Some("905e-1".to_string()));
    assert!(parse_duration("soon").is_none());
}

#[test]
fn timestamps_read_iso_dates() {
    assert_eq!(parse_timestamp("1970-01-01T00:00:00Z"), Some(0));
    assert_eq!(parse_timestamp("2021-03-04T05:06:07Z"), Some(1614834367));
    assert_eq!(parse_timestamp("not a date"), None);
}

#[test]
fn text_helpers_split_and_trim() {
    assert_eq!(split_char("a,b,,c", ','), vec!["a", "b", "", "c"]);
    assert_eq!(split_char("", ','), vec![""]);
    assert_eq!(trim_start_char("///x/y", '/'), "x/y");
    assert_eq!(trim("  a b \n"), "a b");
    assert_eq!(replace_str("a-b-c", "-", "+"), "a+b+c");
    assert_eq!(char_boundary("héllo", 1), Some(1));
    assert_eq!(char_boundary("héllo", 2), None);
    assert_eq!(char_boundary("héllo", 3), Some(2));
    assert_eq!(char_boundary("ab", 5), None);
}

#[test]
fn extensions_come_from_the_path() {
    assert_eq!(determine_ext("http://x.com/a/b.mp4?x=1.y", "unknown"), "mp4");
    assert_eq!(determine_ext("http://x.com/a/b", "unknown"), "unknown");
    assert_eq!(determine_ext("clip.m3u8", "mp4"), "m3u8");
    assert_eq!(mimetype_extension("video/mp4").as_deref(), Some("mp4"));
    assert_eq!(mimetype_extension("audio/mpeg").as_deref(), Some("mp3"));
}

#[test]
fn urls_resolve_against_a_base() {
    assert_eq!(resolve_url("http://video.golem.de", "/low.mp4"), "http://video.golem.de/low.mp4");
    assert_eq!(resolve_url("https://a.com/x/y", "z.jpg"), "https://a.com/x/z.jpg");
    assert_eq!(resolve_url("https://a.com/x/y", "https://b.org/c"), "https://b.org/c");
    assert_eq!(proto_relative_url("//cdn.example.com/a.mp4", "https:"), "https://cdn.example.com/a.mp4");
    assert_eq!(proto_relative_url("http://cdn.example.com/a.mp4", "https:"), "http://cdn.example.com/a.mp4");
}

#[test]
fn html_text_is_unescaped_and_untagged() {
    assert_eq!(unescape_html("Tom &amp; Jerry &#39;s &lt;show&gt;"), "Tom & Jerry 's <show>");
    assert_eq!(html_text_fragment("  <b>Hi</b> &amp; <i>bye</i> "), "Hi & bye");
    let page = r#"<html><head><meta property="og:title" content="A &amp; B"></head></html>"#;
    assert_eq!(html_meta_value(page, "og:title").as_deref(), Some("A & B"));
    assert_eq!(html_meta_value(page, "og:image"), None);
    assert_eq!(xml_element_text("<r><title>Hello</title></r>", "title").as_deref(), Some("Hello"));
}

#[test]
fn info_dict_insert_get_and_insert_if_some() {
    let mut info = InfoDict::new();
    info.insert("id", JsonValue::Str("x".to_string()));
    info.insert("id", JsonValue::Str("y".to_string()));
    info.insert_if_some("title", None);
    info.insert_if_some("duration", Some(JsonValue::Int(5)));
    assert_eq!(info.len(), 2);
    assert_eq!(info.get("id").map(|v| render(&v)), Some("\"y\"".to_string()));
    assert!(info.get("title").is_none());
    assert_eq!(info.get("duration").map(|v| render(&v)), Some("5".to_string()));
}

#[test]
fn xml_events_follow_the_document() {
    let events = xml_events(r#"<?xml version="1.0"?><a x="1"><b>t&amp;u</b><c/></a>"#).ok().unwrap();
    let names: Vec<String> = events
        .iter()
        .map(|e| match e {
            XmlEvent::Start(n, a) => format!("start {} [{}]", n, a.trim()),
            XmlEvent::Empty(n, _) => format!("empty {}", n),
            XmlEvent::End(n) => format!("end {}", n),
            XmlEvent::Text(t) => format!("text {}", t),
            XmlEvent::Reference(r) => format!("ref {}", r),
            XmlEvent::Other => "other".to_string(),
            XmlEvent::Eof => "eof".to_string(),
        })
        .collect();
    assert_eq!(
        names,
        vec!["other", "start a [x=\"1\"]", "start b []", "text t", "ref amp", "text u", "end b", "empty c", "end a"]
    );
    assert!(xml_events("<a></b>").is_err());
}

