use dt_wry::factory::{build_init_script, default_title, plan_window};
use dt_wry::options::{TitlebarMode, WindowOptions};

fn options_with_url(url: &str) -> WindowOptions {
    let mut o = WindowOptions::new();
    o.url = Some(url.to_string());
    o
}

#[test]
fn default_title_without_number() {
    assert_eq!(default_title(-1, "http://x"), "DomTerm: (http://x)");
    assert_eq!(default_title(0, "http://x"), "DomTerm: (http://x)");
}

#[test]
fn default_title_with_number() {
    assert_eq!(default_title(4, "http://x"), "DomTerm#4: (http://x)");
    assert_eq!(default_title(120, "u"), "DomTerm#120: (u)");
}

#[test]
fn plan_requires_url() {
    let o = WindowOptions::new();
    assert!(plan_window(&o, &None, "0.1").is_none());
}

#[test]
fn plan_defaults() {
    let o = options_with_url("http://x");
    let p = plan_window(&o, &None, "0.1").unwrap();
    assert_eq!(p.url, "http://x");
    assert_eq!(p.title, "DomTerm: (http://x)");
    assert!(p.decorations);
    assert!(!p.transparent);
    assert_eq!(p.size, None);
    assert_eq!(p.position, None);
    assert_eq!(p.window_number, -1);
}

#[test]
fn plan_custom_titlebar_is_undecorated_and_transparent() {
    let mut o = options_with_url("u");
    o.titlebar = Some(TitlebarMode::Custom);
    let p = plan_window(&o, &None, "0.1").unwrap();
    assert!(!p.decorations);
    assert!(p.transparent);
}

#[test]
fn plan_explicit_title_wins() {
    let mut o = options_with_url("u");
    o.window_title = Some("mine".to_string());
    o.window_number = Some(9);
    let p = plan_window(&o, &None, "0.1").unwrap();
    assert_eq!(p.title, "mine");
    assert_eq!(p.window_number, 9);
}

#[test]
fn plan_size_needs_both_lengths() {
    let mut o = options_with_url("u");
    o.width = Some(800);
    let p = plan_window(&o, &None, "0.1").unwrap();
    assert_eq!(p.size, None);
    o.height = Some(600);
    let p = plan_window(&o, &None, "0.1").unwrap();
    assert_eq!(p.size, Some((800, 600)));
}

#[test]
fn init_script_with_webview_version() {
    let s = build_init_script(&Some("2.44".to_string()), "0.35");
    let expected = "\n    window.webview_version = \"2.44\";\nwindow.setWindowTitle = (str)=>{ipc.postMessage('set-title '+str);}\n    window.wry_version = \"0.35\";\n  (function () {\n    window._dt_toggleDeveloperTools = () => {ipc.postMessage(\"devtools toggle\");};\n    window.closeMainWindow = ()=>{ipc.postMessage('close');};\n})();\n   ";
    assert_eq!(s, expected);
}

#[test]
fn init_script_without_webview_version() {
    let s = build_init_script(&None, "0.35");
    assert!(!s.contains("webview_version"));
    assert!(s.contains("    window.wry_version = \"0.35\";\n"));
    assert!(s.contains("window.setWindowTitle"));
    assert!(s.contains("window.closeMainWindow"));
    assert!(s.contains("window._dt_toggleDeveloperTools"));
}

#[test]
fn plan_carries_init_script() {
    let o = options_with_url("u");
    let p = plan_window(&o, &Some("1.0".to_string()), "0.35").unwrap();
    assert_eq!(p.init_script, build_init_script(&Some("1.0".to_string()), "0.35"));
}
