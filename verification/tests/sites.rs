use ytdlp_extractor::framework::{
    Expect, ExtractorDescriptor, ExtractorErrorKind, ExtractorResult, Method, Reply, Step,
};
use ytdlp_extractor::info::InfoDict;
use ytdlp_extractor::json::JsonValue;
use ytdlp_extractor::sites::bongacams::bongacams_room_data;
use ytdlp_extractor::sites::cineteca::cineteca_authorization;
use ytdlp_extractor::sites::filmarchiv::FilmArchivExtractor;
use ytdlp_extractor::sites::golem::{after_last_char, golem_config, golem_result, GolemExtractor};
use ytdlp_extractor::xml::xml_events;
use ytdlp_extractor::sites::matchtv::MatchTvExtractor;
use ytdlp_extractor::sites::video::Cam4Extractor;
use ytdlp_extractor::sites::ku6::Ku6Extractor;
use ytdlp_extractor::sites::short_form::CoubExtractor;
use ytdlp_extractor::sites::jwplatform::JwPlatformExtractor;
use ytdlp_extractor::sites::short_form::VocarooExtractor;
use ytdlp_extractor::sites::rumble::RumbleChannelExtractor;
use ytdlp_extractor::sites::generic::GenericExtractor;
use ytdlp_extractor::framework::ExtractorError;

fn render(v: &JsonValue) -> String {
    match v {
        JsonValue::Null => "null".to_string(),
        JsonValue::Bool(b) => b.to_string(),
        JsonValue::Int(i) => i.to_string(),
        JsonValue::Decimal(m, e) => format!("{}e{}", m, e),
        JsonValue::Str(s) => format!("{:?}", s),
        JsonValue::Array(items) => {
            format!("[{}]", items.iter().map(render).collect::<Vec<_>>().join(","))
        }
        JsonValue::Object(fields) => format!(
            "{{{}}}",
            fields
                .iter()
                .map(|(k, v)| format!("{:?}:{}", k, render(v)))
                .collect::<Vec<_>>()
                .join(",")
        ),
    }
}

fn descriptor(key: &str, pattern: &str) -> ExtractorDescriptor {
    ExtractorDescriptor { ie_key: key.to_string(), valid_urls: vec![pattern.to_string()] }
}

fn field(info: &InfoDict, key: &str) -> Option<String> {
    info.get(key).map(|v| render(&v))
}

fn single(step: Step) -> InfoDict {
    match step {
        Step::Done(ExtractorResult::Single(info)) => info,
        _ => panic!("expected a single result"),
    }
}

const GOLEM_PATTERN: &str = r"https?://video\.golem\.de/.+?/(?P<id>.+?)/";
const GOLEM_URL: &str = "https://video.golem.de/handy/14095/iphone-5-und-iphone-5c-test.html";
const GOLEM_XML: &str = r#"<?xml version="1.0" encoding="utf-8"?><golem><title>iPhone &amp; test</title><playtime> 300.5 </playtime><teaser url="/t.jpg" width="640" height="360"/><low width="320" height="180"><url> /low.mp4 </url><filename>low.mp4</filename><filesize>1234</filesize></low><high><url> </url></high><medium><url>https://cdn.golem.de/m.webm</url></medium></golem>"#;

#[test]
fn golem_asks_for_the_player_document() {
    let ex = GolemExtractor::new(descriptor("Golem", GOLEM_PATTERN)).ok().unwrap();
    assert!(ex.suitable(GOLEM_URL));
    assert!(!ex.suitable("https://www.golem.de/news/"));
    match ex.extract_step(GOLEM_URL, &vec![]).ok().unwrap() {
        Step::Fetch(f) => {
            assert_eq!(f.url, "https://video.golem.de/xml/14095.xml");
            assert_eq!(f.expect, Expect::Text);
            assert_eq!(f.method, Method::Get);
            assert!(!f.optional);
        }
        _ => panic!("expected a fetch"),
    }
}

#[test]
fn golem_reads_formats_and_thumbnails() {
    let ex = GolemExtractor::new(descriptor("Golem", GOLEM_PATTERN)).ok().unwrap();
    let replies = vec![Reply::Text(GOLEM_XML.to_string())];
    let info = single(ex.extract_step(GOLEM_URL, &replies).ok().unwrap());
    assert_eq!(field(&info, "id").as_deref(), Some("\"14095\""));
    assert_eq!(field(&info, "title").as_deref(), Some("\"iPhone & test\""));
    assert_eq!(field(&info, "duration").as_deref(), Some("3005e-1"));
    assert_eq!(field(&info, "url").as_deref(), Some("\"http://video.golem.de/low.mp4\""));
    assert_eq!(field(&info, "ext").as_deref(), Some("\"mp4\""));
    assert_eq!(
        field(&info, "formats").as_deref(),
        Some(r#"[{"format_id":"low","url":"http://video.golem.de/low.mp4","ext":"mp4","width":320,"height":180,"filesize":1234},{"format_id":"medium","url":"https://cdn.golem.de/m.webm","ext":"unknown"}]"#)
    );
    assert_eq!(
        field(&info, "thumbnails").as_deref(),
        Some(r#"[{"url":"http://video.golem.de/t.jpg","width":640,"height":360}]"#)
    );
}

#[test]
fn golem_without_formats_is_an_extraction_error() {
    let ex = GolemExtractor::new(descriptor("Golem", GOLEM_PATTERN)).ok().unwrap();
    let replies = vec![Reply::Text("<golem><title>x</title></golem>".to_string())];
    let err = ex.extract_step(GOLEM_URL, &replies).err().unwrap();
    assert_eq!(err.kind, ExtractorErrorKind::Extraction);
    let bad = vec![Reply::Text("<golem><low></golem>".to_string())];
    assert_eq!(ex.extract_step(GOLEM_URL, &bad).err().unwrap().kind, ExtractorErrorKind::Extraction);
    let wrong = vec![Reply::Json(JsonValue::Null)];
    assert_eq!(ex.extract_step(GOLEM_URL, &wrong).err().unwrap().kind, ExtractorErrorKind::Extraction);
}

#[test]
fn golem_url_without_id_is_invalid() {
    let ex = GolemExtractor::new(descriptor("Golem", GOLEM_PATTERN)).ok().unwrap();
    let err = ex.extract_step("https://example.com/", &vec![]).err().unwrap();
    assert_eq!(err.kind, ExtractorErrorKind::InvalidUrl);
}

#[test]
fn golem_title_defaults_and_untitled_config() {
    let events = xml_events("<golem><hd><url>/a.mp4</url></hd></golem>").ok().unwrap();
    let config = golem_config(&events);
    assert!(config.title.is_none());
    assert_eq!(config.formats.len(), 1);
    assert_eq!(config.formats[0].format_id, "hd");
    let info = single(golem_result("7", &events).ok().unwrap());
    assert_eq!(field(&info, "title").as_deref(), Some("\"golem\""));
    assert!(info.get("thumbnails").is_none());
    assert!(info.get("duration").is_none());
}

#[test]
fn local_names_drop_their_prefix() {
    assert_eq!(after_last_char("media:title", ':'), "title");
    assert_eq!(after_last_char("a:b:c", ':'), "c");
    assert_eq!(after_last_char("plain", ':'), "plain");
    assert_eq!(after_last_char("end:", ':'), "");
}

#[test]
fn cineteca_bearer_comes_from_the_token_cookie() {
    assert_eq!(cineteca_authorization(Some("a=b; cnt-token=XYZ; c=d")), "Bearer XYZ");
    assert_eq!(cineteca_authorization(Some("a=b")), "");
    assert_eq!(cineteca_authorization(Some("cnt-token=")), "");
    assert_eq!(cineteca_authorization(None), "");
}

#[test]
fn bongacams_room_request_is_a_form_post() {
    let f = bongacams_room_data("bongacams.com", "alice");
    assert_eq!(f.url, "https://bongacams.com/tools/amf.php");
    assert_eq!(f.method, Method::Post);
    assert_eq!(f.expect, Expect::Json);
    assert_eq!(f.body.as_deref(), Some("method=getRoomData&args%5B%5D=alice&args%5B%5D=false"));
    assert_eq!(
        f.headers,
        vec![
            ("X-Requested-With".to_string(), "XMLHttpRequest".to_string()),
            ("Accept".to_string(), "application/json".to_string())
        ]
    );
}

#[test]
fn filmarchiv_refuses_ids_it_cannot_cut() {
    let ex = FilmArchivExtractor::new(descriptor(
        "FilmArchiv",
        r"https?://(?:www\.)?filmarchiv\.at/(?:\w{2}/)?movie/(?P<id>[^/?#&]+)",
    ))
    .ok()
    .unwrap();
    assert!(ex.checked_extract_step("https://www.filmarchiv.at/de/movie/f_0305p7xKrXUPBwoNE9x6mh", &vec![]).is_some());
    assert!(ex.checked_extract_step("https://www.filmarchiv.at/de/movie/abc", &vec![]).is_none());
    assert!(ex.checked_extract_step("https://www.filmarchiv.at/de/movie/abcdeéfgh", &vec![]).is_none());
}

#[test]
fn matchtv_reads_the_live_stream_from_the_player() {
    let ex = MatchTvExtractor::new(descriptor("MatchTV", r"https?://matchtv\.ru(?:/on-air|/?#live-player)")).ok().unwrap();
    assert!(ex.suitable("https://matchtv.ru/on-air"));
    match ex.extract_step("https://matchtv.ru/on-air", &vec![]).ok().unwrap() {
        Step::Fetch(f) => assert_eq!(f.url, "https://video.matchtv.ru/iframe/channel/106"),
        _ => panic!("expected a fetch"),
    }
    let page = r#"<div data-config="config=https://video.matchtv.ru/iframe/feed/106?x=1"></div>"#;
    let info = single(ex.extract_step("https://matchtv.ru/on-air", &vec![Reply::Text(page.to_string())]).ok().unwrap());
    assert_eq!(field(&info, "url").as_deref(), Some("\"https://video.matchtv.ru/iframe/media/106.m3u8\""));
    assert_eq!(field(&info, "is_live").as_deref(), Some("true"));
    assert_eq!(field(&info, "id").as_deref(), Some("\"matchtv-live\""));
    let none = ex.extract_step("https://matchtv.ru/on-air", &vec![Reply::Text("<p>off air</p>".to_string())]);
    assert_eq!(none.err().unwrap().kind, ExtractorErrorKind::Extraction);
}

#[test]
fn cam4_asks_for_the_stream_record() {
    let ex = Cam4Extractor::new(descriptor("CAM4", r"https?://(?:[^/]+\.)?cam4\.com/(?P<id>[a-z0-9_]+)")).ok().unwrap();
    let url = "https://www.cam4.com/foxynesss";
    match ex.extract_step(url, &vec![]).ok().unwrap() {
        Step::Fetch(f) => {
            assert_eq!(f.url, "https://www.cam4.com/rest/v1.0/profile/foxynesss/streamInfo");
            assert_eq!(f.expect, Expect::Json);
            assert_eq!(f.headers, vec![("Accept".to_string(), "application/json".to_string())]);
        }
        _ => panic!("expected a fetch"),
    }
    let record = JsonValue::Object(vec![("cdnURL".to_string(), JsonValue::Str("https://cdn.example/x.m3u8".to_string()))]);
    let info = single(ex.extract_step(url, &vec![Reply::Json(record)]).ok().unwrap());
    assert_eq!(field(&info, "title").as_deref(), Some("\"foxynesss\""));
    assert_eq!(field(&info, "age_limit").as_deref(), Some("18"));
    assert_eq!(field(&info, "thumbnail").as_deref(), Some("\"https://snapshots.xcdnpro.com/thumbnails/foxynesss\""));
    assert_eq!(
        field(&info, "formats").as_deref(),
        Some(r#"[{"url":"https://cdn.example/x.m3u8","format_id":"hls","ext":"mp4","protocol":"m3u8_native"}]"#)
    );
    let empty = JsonValue::Object(vec![]);
    assert_eq!(ex.extract_step(url, &vec![Reply::Json(empty)]).err().unwrap().kind, ExtractorErrorKind::Extraction);
}

#[test]
fn ku6_combines_page_title_and_player_record() {
    let ex = Ku6Extractor::new(descriptor("Ku6", r"https?://v\.ku6\.com/show/(?P<id>[a-zA-Z0-9_-]+)(?:\.)*html")).ok().unwrap();
    let url = "http://v.ku6.com/show/JG-8yS14xzBr4bCn1pu0xw...html";
    let page = r#"<html><title>Fallback</title><h1 title="x">  Ku6 &amp; friends </h1></html>"#.to_string();
    match ex.extract_step(url, &vec![Reply::Text(page.clone())]).ok().unwrap() {
        Step::Fetch(f) => assert_eq!(f.url, "http://v.ku6.com/fetchVideo4Player/JG-8yS14xzBr4bCn1pu0xw.html"),
        _ => panic!("expected a fetch"),
    }
    let record = JsonValue::Object(vec![(
        "data".to_string(),
        JsonValue::Object(vec![("f".to_string(), JsonValue::Str("http://v.ku6.com/a/b.f4v".to_string()))]),
    )]);
    let info = single(ex.extract_step(url, &vec![Reply::Text(page), Reply::Json(record)]).ok().unwrap());
    assert_eq!(field(&info, "title").as_deref(), Some("\"Ku6 & friends\""));
    assert_eq!(field(&info, "ext").as_deref(), Some("\"f4v\""));
    assert_eq!(field(&info, "id").as_deref(), Some("\"JG-8yS14xzBr4bCn1pu0xw\""));
}

#[test]
fn coub_api_errors_carry_the_api_message() {
    let ex = CoubExtractor::new(descriptor("Coub", r"https?://(?:www\.)?coub\.com/(?:view|embed|coubs)/(?P<id>[\da-z]+)")).ok().unwrap();
    let url = "http://coub.com/view/5u5n1";
    match ex.extract_step(url, &vec![]).ok().unwrap() {
        Step::Fetch(f) => assert_eq!(f.url, "http://coub.com/api/v2/coubs/5u5n1.json"),
        _ => panic!("expected a fetch"),
    }
    let answer = JsonValue::Object(vec![("error".to_string(), JsonValue::Str("Not found".to_string()))]);
    let err = ex.extract_step(url, &vec![Reply::Json(answer)]).err().unwrap();
    assert_eq!(err.kind, ExtractorErrorKind::Unsupported);
    assert_eq!(err.message, "Coub API error: Not found");
    let empty = JsonValue::Object(vec![]);
    let err = ex.extract_step(url, &vec![Reply::Json(empty)]).err().unwrap();
    assert_eq!(err.kind, ExtractorErrorKind::Extraction);
    assert_eq!(err.message, "Coub API returned no playable formats for 5u5n1");
    let bad = ex.extract_step("http://example.com/", &vec![]).err().unwrap();
    assert_eq!(bad.message, "Coub URL has no ID");
}

#[test]
fn constructors_report_the_pattern_error() {
    let err = JwPlatformExtractor::new(descriptor("JWPlatform", "(")).err().unwrap();
    assert_eq!(err.kind, ExtractorErrorKind::Extraction);
    assert!(err.message.starts_with("invalid JWPlatform URL pattern: "));
    assert!(err.message.len() > "invalid JWPlatform URL pattern: ".len());
    let err = GolemExtractor::new(descriptor("Golem", "(")).err().unwrap();
    assert!(err.message.starts_with("invalid URL pattern: "));
    let none = ExtractorDescriptor { ie_key: "Golem".to_string(), valid_urls: vec![] };
    assert_eq!(GolemExtractor::new(none).err().unwrap().message, "extractor descriptor has no URL pattern");
}

#[test]
fn vocaroo_keeps_every_float_timestamp() {
    let ex = VocarooExtractor::new(descriptor("Vocaroo", r"https?://(?:www\.)?(?:vocaroo\.com|voca\.ro)/(?:embed/)?(?P<id>\w+)")).ok().unwrap();
    let url = "https://voca.ro/1nUcjG0FZgxT";
    match ex.extract_step(url, &vec![]).ok().unwrap() {
        Step::Fetch(f) => {
            assert_eq!(f.url, "https://media1.vocaroo.com/mp3/1nUcjG0FZgxT");
            assert_eq!(f.method, Method::Head);
        }
        _ => panic!("expected a probe"),
    }
    let headers = |v: &str| vec![Reply::Headers(vec![("x-bz-upload-timestamp".to_string(), v.to_string())])];
    let info = single(ex.extract_step(url, &headers("1684958285000")).ok().unwrap());
    assert_eq!(field(&info, "timestamp").as_deref(), Some("1684958285000e-3"));
    let info = single(ex.extract_step(url, &headers("12345678901234567890123")).ok().unwrap());
    assert_eq!(field(&info, "timestamp").as_deref(), Some("123456789012345678e2"));
    let info = single(ex.extract_step(url, &headers("inf")).ok().unwrap());
    assert_eq!(field(&info, "timestamp").as_deref(), Some("null"));
    let info = single(ex.extract_step(url, &headers("soon")).ok().unwrap());
    assert!(info.get("timestamp").is_none());
}

#[test]
fn rumble_channel_hands_page_errors_on() {
    let ex = RumbleChannelExtractor::new(descriptor(
        "RumbleChannel",
        r"(?P<url>(?:https?://)?(?:www\.)?rumble\.com/(?:c|user)/(?P<id>[^&?#$/]+))",
    ))
    .ok()
    .unwrap();
    let url = "https://rumble.com/c/Styxhexenhammer666";
    match ex.extract_step(url, &vec![]).ok().unwrap() {
        Step::Fetch(f) => {
            assert_eq!(f.url, "https://rumble.com/c/Styxhexenhammer666?page=1");
            assert!(f.optional);
        }
        _ => panic!("expected a page fetch"),
    }
    let failed = ExtractorError { kind: ExtractorErrorKind::Extraction, message: "HTTP 500 for the page".to_string() };
    let err = ex.extract_step(url, &vec![Reply::Failed(failed)]).err().unwrap();
    assert_eq!(err.kind, ExtractorErrorKind::Extraction);
    assert_eq!(err.message, "HTTP 500 for the page");
    match ex.extract_step(url, &vec![Reply::NotFound]).ok().unwrap() {
        Step::Done(ExtractorResult::Playlist { entries, .. }) => assert!(entries.is_empty()),
        _ => panic!("expected an empty playlist"),
    }
}

#[test]
fn generic_step_refuses_as_extract_does() {
    let ex = GenericExtractor::new(descriptor("Generic", r".*"));
    let a = ex.extract("not a url").err().unwrap();
    let b = ex.extract_step("not a url", &vec![]).err().unwrap();
    assert_eq!(a.kind, b.kind);
    assert_eq!(a.message, b.message);
    assert_eq!(b.message, "invalid generic URL");
}
