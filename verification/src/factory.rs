//! The window factory: from a configuration record to a construction plan.
//!
//! The plan carries everything the native side needs to build one window
//! and its embedded webview: the URL, the title (explicit or derived), the
//! chrome mode, the optional size and position, and the script injected
//! before any page content runs.  A request without a URL yields no plan.

use vstd::prelude::*;
use vstd::string::*;
use crate::options::{OptionsView, TitlebarMode, WindowOptions};
use crate::text::{i64_to_text, spec_i64_text};

verus! {

/// Everything needed to construct one native window with its webview.
pub struct WindowPlan {
    pub url: String,
    pub title: String,
    /// Whether the OS draws the window chrome.
    pub decorations: bool,
    /// Undecorated windows are transparent so the page can paint its own
    /// chrome.
    pub transparent: bool,
    pub size: Option<(u32, u32)>,
    pub position: Option<(i32, i32)>,
    /// Tag echoed on the final status line; -1 when the caller gave none.
    pub window_number: i64,
    /// Script injected before any page content runs.
    pub init_script: String,
}

/// Mathematical image of a `WindowPlan`.
pub struct PlanView {
    pub url: Seq<char>,
    pub title: Seq<char>,
    pub decorations: bool,
    pub transparent: bool,
    pub size: Option<(u32, u32)>,
    pub position: Option<(i32, i32)>,
    pub window_number: i64,
    pub init_script: Seq<char>,
}

impl View for WindowPlan {
    type V = PlanView;

    open spec fn view(&self) -> PlanView {
        PlanView {
            url: self.url@,
            title: self.title@,
            decorations: self.decorations,
            transparent: self.transparent,
            size: self.size,
            position: self.position,
            window_number: self.window_number,
            init_script: self.init_script@,
        }
    }
}

impl WindowPlan {
    /// An exact copy of the plan.
    pub fn duplicate(&self) -> (r: WindowPlan)
        ensures
            r@ == self@,
    {
        WindowPlan {
            url: self.url.clone(),
            title: self.title.clone(),
            decorations: self.decorations,
            transparent: self.transparent,
            size: self.size,
            position: self.position,
            window_number: self.window_number,
            init_script: self.init_script.clone(),
        }
    }
}

/// The title used when the request names none: the application name, the
/// window number when positive, and the URL in parentheses.
pub open spec fn spec_default_title(window_number: i64, url: Seq<char>) -> Seq<char> {
    "DomTerm"@ + (if window_number > 0 {
        "#"@ + spec_i64_text(window_number as int)
    } else {
        Seq::<char>::empty()
    }) + ": ("@ + url + ")"@
}

/// Derives the default window title.
pub fn default_title(window_number: i64, url: &str) -> (r: String)
    ensures
        r@ == spec_default_title(window_number, url@),
{
    let mut t: String = String::from_str("DomTerm");
    if window_number > 0 {
        t.append("#");
        let num: String = i64_to_text(window_number);
        t.append(num.as_str());
    }
    t.append(": (");
    t.append(url);
    t.append(")");
    proof {
        assert(t@ =~= spec_default_title(window_number, url@));
    }
    t
}

/// The line of the injected script that publishes the webview's version,
/// when one is known.
pub open spec fn spec_webview_version_line(webview_version: Option<Seq<char>>) -> Seq<char> {
    match webview_version {
        Some(v) => "    window.webview_version = \""@ + v + "\";\n"@,
        None => Seq::<char>::empty(),
    }
}

/// The script injected before any page content runs: it publishes the
/// toolkit versions and the entry points the page calls to set the title,
/// toggle the developer tools, and close its window.
pub open spec fn spec_init_script(
    webview_version: Option<Seq<char>>,
    wry_version: Seq<char>,
) -> Seq<char> {
    "\n"@ + spec_webview_version_line(webview_version)
        + "window.setWindowTitle = (str)=>{ipc.postMessage('set-title '+str);}\n"@
        + "    window.wry_version = \""@ + wry_version
        + "\";\n  (function () {\n    window._dt_toggleDeveloperTools = () => {ipc.postMessage(\"devtools toggle\");};\n    window.closeMainWindow = ()=>{ipc.postMessage('close');};\n})();\n   "@
}

/// Builds the injected script.
pub fn build_init_script(webview_version: &Option<String>, wry_version: &str) -> (r: String)
    ensures
        r@ == spec_init_script(
            match webview_version {
                Some(v) => Some(v@),
                None => None,
            },
            wry_version@,
        ),
{
    let mut s: String = String::from_str("\n");
    match webview_version {
        Some(v) => {
            s.append("    window.webview_version = \"");
            s.append(v.as_str());
            s.append("\";\n");
        },
        None => {},
    }
    s.append("window.setWindowTitle = (str)=>{ipc.postMessage('set-title '+str);}\n");
    s.append("    window.wry_version = \"");
    s.append(wry_version);
    s.append(
        "\";\n  (function () {\n    window._dt_toggleDeveloperTools = () => {ipc.postMessage(\"devtools toggle\");};\n    window.closeMainWindow = ()=>{ipc.postMessage('close');};\n})();\n   ",
    );
    proof {
        assert(s@ =~= spec_init_script(
            match webview_version {
                Some(v) => Some(v@),
                None => None,
            },
            wry_version@,
        ));
    }
    s
}

/// The plan a configuration record yields: none without a URL; otherwise
/// native decorations unless custom chrome was asked for, the explicit
/// title or the derived one, the size only when both lengths were given,
/// and the injected script for the toolkit versions at hand.
pub open spec fn spec_plan_window(
    o: OptionsView,
    webview_version: Option<Seq<char>>,
    wry_version: Seq<char>,
) -> Option<PlanView> {
    match o.url {
        None => None,
        Some(url) => {
            let decorations = match o.titlebar {
                None => true,
                Some(TitlebarMode::System) => true,
                Some(TitlebarMode::Custom) => false,
            };
            let wn = match o.window_number {
                Some(n) => n,
                None => -1i64,
            };
            let title = match o.window_title {
                Some(t) => t,
                None => spec_default_title(wn, url),
            };
            let size = match (o.width, o.height) {
                (Some(w), Some(h)) => Some((w, h)),
                _ => None,
            };
            Some(
                PlanView {
                    url,
                    title,
                    decorations,
                    transparent: !decorations,
                    size,
                    position: o.position,
                    window_number: wn,
                    init_script: spec_init_script(webview_version, wry_version),
                },
            )
        },
    }
}

/// Turns a window-creation request into a construction plan; `None` exactly
/// when the request has no URL.
pub fn plan_window(
    opts: &WindowOptions,
    webview_version: &Option<String>,
    wry_version: &str,
) -> (r: Option<WindowPlan>)
    ensures
        match r {
            Some(p) => spec_plan_window(
                opts@,
                match webview_version {
                    Some(v) => Some(v@),
                    None => None,
                },
                wry_version@,
            ) == Some(p@),
            None => opts@.url is None,
        },
{
    let url: String = match &opts.url {
        Some(u) => u.clone(),
        None => {
            return None;
        },
    };
    let decorations: bool = match opts.titlebar {
        None => true,
        Some(TitlebarMode::System) => true,
        Some(TitlebarMode::Custom) => false,
    };
    let wn: i64 = match opts.window_number {
        Some(n) => n,
        None => -1,
    };
    let title: String = match &opts.window_title {
        Some(t) => t.clone(),
        None => default_title(wn, url.as_str()),
    };
    let size: Option<(u32, u32)> = match (opts.width, opts.height) {
        (Some(w), Some(h)) => Some((w, h)),
        _ => None,
    };
    let init_script: String = build_init_script(webview_version, wry_version);
    Some(
        WindowPlan {
            url,
            title,
            decorations,
            transparent: !decorations,
            size,
            position: opts.position,
            window_number: wn,
            init_script,
        },
    )
}

} // verus!
