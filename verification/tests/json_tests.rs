use dt_wry::json::options_from_json;
use dt_wry::options::TitlebarMode;

#[test]
fn json_url_only() {
    let o = options_from_json("{\"url\":\"http://x\"}").unwrap();
    assert_eq!(o.url.as_deref(), Some("http://x"));
    assert_eq!(o.titlebar, None);
    assert_eq!(o.window_number, None);
    assert_eq!(o.window_title, None);
    assert_eq!(o.width, None);
    assert_eq!(o.height, None);
    assert_eq!(o.position, None);
}

#[test]
fn json_full_record() {
    let o = options_from_json(
        "{\"url\":\"http://x\",\"titlebar\":\"system\",\"windowNumber\":3,\
         \"windowTitle\":\"term\",\"width\":640,\"height\":480,\"position\":\"+5-6\"}",
    )
    .unwrap();
    assert_eq!(o.url.as_deref(), Some("http://x"));
    assert_eq!(o.titlebar, Some(TitlebarMode::System));
    assert_eq!(o.window_number, Some(3));
    assert_eq!(o.window_title.as_deref(), Some("term"));
    assert_eq!(o.width, Some(640));
    assert_eq!(o.height, Some(480));
    assert_eq!(o.position, Some((5, -6)));
}

#[test]
fn json_not_an_object() {
    assert!(options_from_json("[1,2]").is_none());
    assert!(options_from_json("\"url\"").is_none());
    assert!(options_from_json("").is_none());
    assert!(options_from_json("{\"url\":").is_none());
}

#[test]
fn json_wrong_shapes_count_as_absent() {
    let o = options_from_json(
        "{\"url\":7,\"windowNumber\":\"3\",\"width\":\"640\",\"height\":12.5,\"position\":\"oops\"}",
    )
    .unwrap();
    assert_eq!(o.url, None);
    assert_eq!(o.window_number, None);
    assert_eq!(o.width, None);
    assert_eq!(o.height, None);
    assert_eq!(o.position, None);
}

#[test]
fn json_non_text_titlebar_is_custom() {
    let o = options_from_json("{\"url\":\"u\",\"titlebar\":5}").unwrap();
    assert_eq!(o.titlebar, Some(TitlebarMode::Custom));
}

#[test]
fn json_titlebar_other_text_is_custom() {
    let o = options_from_json("{\"url\":\"u\",\"titlebar\":\"fancy\"}").unwrap();
    assert_eq!(o.titlebar, Some(TitlebarMode::Custom));
}

#[test]
fn json_non_text_title_falls_back_to_app_name() {
    let o = options_from_json("{\"url\":\"u\",\"windowTitle\":1}").unwrap();
    assert_eq!(o.window_title.as_deref(), Some("DomTerm"));
}

#[test]
fn json_oversized_number_is_absent() {
    let o = options_from_json("{\"url\":\"u\",\"width\":4294967296}").unwrap();
    assert_eq!(o.width, None);
    let o = options_from_json("{\"url\":\"u\",\"width\":-1}").unwrap();
    assert_eq!(o.width, None);
}
