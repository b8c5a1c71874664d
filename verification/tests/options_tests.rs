use dt_wry::options::{parse_args, TitlebarMode};
use dt_wry::text::{i64_to_text, parse_i64};

fn args(list: &[&str]) -> Vec<String> {
    list.iter().map(|s| s.to_string()).collect()
}

#[test]
fn args_url_only() {
    let o = parse_args(&args(&["http://localhost:7033/"]));
    assert_eq!(o.url.as_deref(), Some("http://localhost:7033/"));
    assert_eq!(o.titlebar, None);
    assert_eq!(o.window_number, None);
    assert_eq!(o.window_title, None);
    assert_eq!(o.width, None);
    assert_eq!(o.height, None);
    assert_eq!(o.position, None);
}

#[test]
fn args_all_flags() {
    let o = parse_args(&args(&[
        "--titlebar",
        "system",
        "--window-number",
        "7",
        "--window-title",
        "console",
        "--geometry",
        "800x600+10+20",
        "http://x/",
    ]));
    assert_eq!(o.titlebar, Some(TitlebarMode::System));
    assert_eq!(o.window_number, Some(7));
    assert_eq!(o.window_title.as_deref(), Some("console"));
    assert_eq!(o.width, Some(800));
    assert_eq!(o.height, Some(600));
    assert_eq!(o.position, Some((10, 20)));
    assert_eq!(o.url.as_deref(), Some("http://x/"));
}

#[test]
fn args_titlebar_other_value_is_custom() {
    let o = parse_args(&args(&["--titlebar", "none", "u"]));
    assert_eq!(o.titlebar, Some(TitlebarMode::Custom));
}

#[test]
fn args_last_url_wins() {
    let o = parse_args(&args(&["http://a/", "http://b/"]));
    assert_eq!(o.url.as_deref(), Some("http://b/"));
}

#[test]
fn args_bad_window_number_is_absent() {
    let o = parse_args(&args(&["--window-number", "seven", "u"]));
    assert_eq!(o.window_number, None);
}

#[test]
fn args_bad_geometry_is_absent() {
    let o = parse_args(&args(&["--geometry", "garbage", "u"]));
    assert_eq!(o.width, None);
    assert_eq!(o.height, None);
    assert_eq!(o.position, None);
}

#[test]
fn args_trailing_flag_becomes_url() {
    let o = parse_args(&args(&["--titlebar"]));
    assert_eq!(o.url.as_deref(), Some("--titlebar"));
    assert_eq!(o.titlebar, None);
}

#[test]
fn args_later_geometry_keeps_earlier_fields() {
    let o = parse_args(&args(&["--geometry", "800x600", "--geometry", "+1+2", "u"]));
    assert_eq!(o.width, Some(800));
    assert_eq!(o.height, Some(600));
    assert_eq!(o.position, Some((1, 2)));
}

#[test]
fn parse_i64_values() {
    assert_eq!(parse_i64("0"), Some(0));
    assert_eq!(parse_i64("42"), Some(42));
    assert_eq!(parse_i64("+42"), Some(42));
    assert_eq!(parse_i64("-42"), Some(-42));
    assert_eq!(parse_i64("9223372036854775807"), Some(i64::MAX));
    assert_eq!(parse_i64("-9223372036854775808"), Some(i64::MIN));
}

#[test]
fn parse_i64_rejects() {
    assert_eq!(parse_i64(""), None);
    assert_eq!(parse_i64("+"), None);
    assert_eq!(parse_i64("-"), None);
    assert_eq!(parse_i64("4x"), None);
    assert_eq!(parse_i64(" 4"), None);
    assert_eq!(parse_i64("9223372036854775808"), None);
    assert_eq!(parse_i64("-9223372036854775809"), None);
}

#[test]
fn i64_text_round() {
    assert_eq!(i64_to_text(0), "0");
    assert_eq!(i64_to_text(7), "7");
    assert_eq!(i64_to_text(-1), "-1");
    assert_eq!(i64_to_text(120), "120");
    assert_eq!(i64_to_text(i64::MAX), "9223372036854775807");
    assert_eq!(i64_to_text(i64::MIN), "-9223372036854775808");
}
