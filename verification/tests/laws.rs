use ytdlp_extractor::extract::json_thousandth;
use ytdlp_extractor::framework::{ExtractorDescriptor, ExtractorErrorKind, ExtractorResult, Reply, Step};
use ytdlp_extractor::json::{obj_put, JsonValue};
use ytdlp_extractor::jsontext::json_value_string;
use ytdlp_extractor::page::html5_media_formats;
use ytdlp_extractor::sites::golem::{golem_config};
use ytdlp_extractor::sites::slideshare::SlideshareExtractor;
use ytdlp_extractor::text::{split_char, to_ascii_lowercase, trim_start_char};
use ytdlp_extractor::xml::xml_events;

fn render(v: &JsonValue) -> String {
    match v {
        JsonValue::Null => "null".to_string(),
        JsonValue::Bool(b) => b.to_string(),
        JsonValue::Int(i) => i.to_string(),
        JsonValue::Decimal(m, e) => format!("{}e{}", m, e),
        JsonValue::Str(s) => format!("{:?}", s),
        JsonValue::Array(items) => {
            format!("[{}]", items.iter().map(render).collect::<Vec<_>>().join(","))
        }
        JsonValue::Object(fields) => format!(
            "{{{}}}",
            fields
                .iter()
                .map(|(k, v)| format!("{:?}:{}", k, render(v)))
                .collect::<Vec<_>>()
                .join(",")
        ),
    }
}

#[test]
fn integers_print_as_they_parse() {
    for i in [0i64, 7, -42, 1000, i64::MAX, i64::MIN] {
        let text = json_value_string(Some(&JsonValue::Int(i))).unwrap();
        assert_eq!(text, i.to_string());
        assert_eq!(ytdlp_extractor::number::parse_int(&text), Some(i));
    }
}

#[test]
fn splitting_then_joining_gives_the_text_back() {
    for s in ["a,b,,c", "", ",", "no commas", ",x,"] {
        assert_eq!(split_char(s, ',').join(","), s);
    }
}

#[test]
fn lowering_twice_is_lowering_once() {
    let once = to_ascii_lowercase("MiXeD Case ÄÖ 123");
    assert_eq!(once, "mixed case ÄÖ 123");
    assert_eq!(to_ascii_lowercase(&once), once);
}

#[test]
fn stripping_leading_chars_is_idempotent() {
    let once = trim_start_char("00012030", '0');
    assert_eq!(once, "12030");
    assert_eq!(trim_start_char(&once, '0'), once);
    assert_eq!(trim_start_char("0000", '0'), "");
}

#[test]
fn putting_a_member_then_reading_it() {
    let mut fields = vec![
        ("a".to_string(), JsonValue::Int(1)),
        ("b".to_string(), JsonValue::Int(2)),
    ];
    obj_put(&mut fields, "a", JsonValue::Int(9));
    obj_put(&mut fields, "c", JsonValue::Int(3));
    assert_eq!(render(&JsonValue::Object(fields)), r#"{"a":9,"b":2,"c":3}"#);
}

#[test]
fn thousandths_shift_the_exponent() {
    assert_eq!(json_thousandth(Some(JsonValue::Decimal(12345, 0))).map(|v| render(&v)), Some("12345e-3".to_string()));
    assert_eq!(json_thousandth(Some(JsonValue::Decimal(5, -1))).map(|v| render(&v)), Some("5e-4".to_string()));
    assert!(json_thousandth(None).is_none());
}

#[test]
fn html5_sources_are_listed_once() {
    let page = r#"<video src="/a.mp4"></video><source src="/b.webm"><audio src='/a.mp4'></audio>"#;
    let formats = html5_media_formats("https://example.com/page", page);
    let urls: Vec<String> = formats.iter().map(render).collect();
    assert_eq!(
        urls,
        vec![
            r#"{"url":"https://example.com/a.mp4","ext":"mp4"}"#.to_string(),
            r#"{"url":"https://example.com/b.webm","ext":"webm"}"#.to_string()
        ]
    );
}

#[test]
fn golem_formats_always_have_urls() {
    let events = xml_events("<golem><a><url> </url></a><b><url>/b.mp4</url></b><c/></golem>").ok().unwrap();
    let config = golem_config(&events);
    assert_eq!(config.formats.len(), 1);
    assert!(config.formats.iter().all(|f| !f.url.is_empty()));
    assert_eq!(config.formats[0].url, "/b.mp4");
}

#[test]
fn slideshare_refuses_slideshows_that_are_not_videos() {
    let ex = SlideshareExtractor::new(ExtractorDescriptor {
        ie_key: "Slideshare".to_string(),
        valid_urls: vec![r"https?://(?:www\.)?slideshare\.net/[^/]+?/(?P<title>.+?)($|\?)".to_string()],
    })
    .ok()
    .unwrap();
    let url = "https://www.slideshare.net/Dataversity/keynote-presentation";
    let deck = r#"<script>slideshare_object,{"slideshow":{"type":"presentation"}}</script>"#;
    let err = ex.extract_step(url, &vec![Reply::Text(deck.to_string())]).err().unwrap();
    assert_eq!(err.kind, ExtractorErrorKind::Unsupported);
    let video = r#"<script>slideshare_object,{"slideshow":{"type":"video","id":123,"title":"Talk"},"jsplayer":{"video_bucket":"//cdn.ss.com/b/"},"doc":"d1"}</script>"#;
    match ex.extract_step(url, &vec![Reply::Text(video.to_string())]).ok().unwrap() {
        Step::Done(ExtractorResult::Single(info)) => {
            assert_eq!(info.get("id").map(|v| render(&v)).as_deref(), Some("\"123\""));
            assert_eq!(info.get("title").map(|v| render(&v)).as_deref(), Some("\"Talk\""));
            assert_eq!(info.get("url").map(|v| render(&v)).as_deref(), Some("\"https://cdn.ss.com/b/d1-SD.mp4\""));
        }
        _ => panic!("expected the video"),
    }
    let bare = r#"<p>nothing here</p>"#;
    assert_eq!(ex.extract_step(url, &vec![Reply::Text(bare.to_string())]).err().unwrap().kind, ExtractorErrorKind::Extraction);
}
