use ytdlp_extractor::framework::ExtractorErrorKind;
use ytdlp_extractor::json::JsonValue;
use ytdlp_extractor::jsontext::json_value_string;
use ytdlp_extractor::page::{html_meta_value, json_object_after_marker};
use ytdlp_extractor::sites::generic::{generic_extract, last_path_segment, path_segment_after};
use ytdlp_extractor::weburl::url_query_value;

fn text(v: Option<JsonValue>) -> String {
    match v {
        Some(JsonValue::Str(s)) => s,
        Some(JsonValue::Bool(b)) => b.to_string(),
        _ => panic!("expected a string"),
    }
}

#[test]
fn generic_names_come_from_the_path() {
    let info = generic_extract("https://example.com/videos/Clip.MP4?x=1").ok().unwrap();
    assert_eq!(text(info.get("id")), "Clip");
    assert_eq!(text(info.get("title")), "Clip");
    assert_eq!(text(info.get("ext")), "mp4");
    assert_eq!(text(info.get("direct")), "true");
    assert_eq!(text(info.get("url")), "https://example.com/videos/Clip.MP4?x=1");
    let dir = generic_extract("https://example.com/a/b/").ok().unwrap();
    assert_eq!(text(dir.get("id")), "b");
    assert_eq!(text(dir.get("direct")), "false");
    assert!(dir.get("ext").is_none());
    let host = generic_extract("https://media.example/").ok().unwrap();
    assert_eq!(text(host.get("id")), "media");
    assert_eq!(text(host.get("ext")), "example");
    assert_eq!(generic_extract("not a url").err().unwrap().kind, ExtractorErrorKind::InvalidUrl);
}

#[test]
fn path_segments_are_decoded_by_the_url_parser() {
    assert_eq!(last_path_segment("https://a.com/x/y/").ok().unwrap(), "y");
    assert_eq!(path_segment_after("https://a.com/v/123/title", "v").ok().unwrap(), "123");
    assert!(path_segment_after("https://a.com/w/123", "v").is_err());
}

#[test]
fn query_values_are_decoded() {
    assert_eq!(url_query_value("https://a.com/x?b=2&a=%20z&a=3", "a").as_deref(), Some(" z"));
    assert_eq!(url_query_value("https://a.com/x?b=2", "a"), None);
    assert_eq!(url_query_value("https://a.com/x?q=a+b", "q").as_deref(), Some("a b"));
}

#[test]
fn meta_keys_are_matched_literally() {
    let page = r#"<meta name="ogXtitle" content="no"><meta name="og.title" content="yes">"#;
    assert_eq!(html_meta_value(page, "og.title").as_deref(), Some("yes"));
    let only_x = r#"<meta name="ogXtitle" content="no">"#;
    assert_eq!(html_meta_value(only_x, "og.title"), None);
}

#[test]
fn json_values_print_as_json() {
    let v = JsonValue::Array(vec![JsonValue::Int(1), JsonValue::Str("a\"b".to_string()), JsonValue::Null]);
    assert_eq!(json_value_string(Some(&v)).as_deref(), Some(r#"[1,"a\"b",null]"#));
    assert_eq!(json_value_string(Some(&JsonValue::Str("plain".to_string()))).as_deref(), Some("plain"));
    assert_eq!(json_value_string(None), None);
}

#[test]
fn json_after_a_marker_is_parsed() {
    let page = r#"<script>window.data = {"a": [1, 2], "b": {"c": "}"}}; more</script>"#;
    let v = json_object_after_marker(page, "window.data = ").unwrap();
    match v {
        JsonValue::Object(fields) => {
            assert_eq!(fields.len(), 2);
            assert_eq!(fields[0].0, "a");
            assert_eq!(fields[1].0, "b");
        }
        _ => panic!("expected an object"),
    }
    assert!(json_object_after_marker(page, "absent").is_none());
}
