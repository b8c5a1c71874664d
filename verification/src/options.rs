//! Per-window configuration and the command-line option parser.
//!
//! A configuration record is built once per window-creation request, either
//! from the process arguments or from the payload of a `new-window` message,
//! and is consumed by the window factory.

use vstd::prelude::*;
use vstd::string::*;
use crate::geometry::{spec_parse_geometry, parse_geometry, Geometry};
use crate::text::{spec_parse_i64, parse_i64, str_eq};

verus! {

/// Whether the OS draws the window chrome, or the hosted content paints its
/// own.
#[derive(PartialEq, Eq, Clone, Copy, Debug)]
pub enum TitlebarMode {
    /// Native decorations.
    System,
    /// Undecorated, transparent window.
    Custom,
}

/// One window-creation request.  Every field is optional; the factory
/// supplies the defaults, and a missing URL makes the request void.
pub struct WindowOptions {
    pub url: Option<String>,
    pub titlebar: Option<TitlebarMode>,
    pub window_number: Option<i64>,
    pub window_title: Option<String>,
    pub width: Option<u32>,
    pub height: Option<u32>,
    pub position: Option<(i32, i32)>,
}

/// Mathematical image of a `WindowOptions`.
pub struct OptionsView {
    pub url: Option<Seq<char>>,
    pub titlebar: Option<TitlebarMode>,
    pub window_number: Option<i64>,
    pub window_title: Option<Seq<char>>,
    pub width: Option<u32>,
    pub height: Option<u32>,
    pub position: Option<(i32, i32)>,
}

impl View for WindowOptions {
    type V = OptionsView;

    open spec fn view(&self) -> OptionsView {
        OptionsView {
            url: match self.url {
                Some(s) => Some(s@),
                None => None,
            },
            titlebar: self.titlebar,
            window_number: self.window_number,
            window_title: match self.window_title {
                Some(s) => Some(s@),
                None => None,
            },
            width: self.width,
            height: self.height,
            position: self.position,
        }
    }
}

impl OptionsView {
    /// The record with every field absent.
    pub open spec fn all_absent() -> OptionsView {
        OptionsView {
            url: None,
            titlebar: None,
            window_number: None,
            window_title: None,
            width: None,
            height: None,
            position: None,
        }
    }
}

impl WindowOptions {
    /// A request with every field absent.
    pub fn new() -> (r: WindowOptions)
        ensures
            r@ == OptionsView::all_absent(),
    {
        WindowOptions {
            url: None,
            titlebar: None,
            window_number: None,
            window_title: None,
            width: None,
            height: None,
            position: None,
        }
    }

    /// An exact copy of the request.
    pub fn duplicate(&self) -> (r: WindowOptions)
        ensures
            r@ == self@,
    {
        WindowOptions {
            url: match &self.url {
                Some(s) => Some(s.clone()),
                None => None,
            },
            titlebar: self.titlebar,
            window_number: self.window_number,
            window_title: match &self.window_title {
                Some(s) => Some(s.clone()),
                None => None,
            },
            width: self.width,
            height: self.height,
            position: self.position,
        }
    }
}

/// The titlebar mode named by a flag or message value: only the word
/// `system` asks for native decorations.
pub open spec fn spec_titlebar_mode(s: Seq<char>) -> TitlebarMode {
    if s == "system"@ {
        TitlebarMode::System
    } else {
        TitlebarMode::Custom
    }
}

/// Merges one parsed geometry string into a record: a matched size or
/// offset part overwrites its fields, an absent or unusable part leaves
/// them as they were.
pub open spec fn spec_apply_geometry(acc: OptionsView, g: Geometry) -> OptionsView {
    let with_size = match g.size {
        Some(wh) => OptionsView { width: Some(wh.0), height: Some(wh.1), ..acc },
        None => acc,
    };
    match g.position {
        Some(p) => OptionsView { position: Some(p), ..with_size },
        None => with_size,
    }
}

/// What the ordered process arguments (program name excluded) leave in the
/// configuration record, starting from `acc` at argument `i`.  A flag takes
/// the following argument as its value when one exists; any other argument
/// is taken as the URL, the last one winning.
pub open spec fn spec_parse_args_from(acc: OptionsView, args: Seq<Seq<char>>, i: int) -> OptionsView
    decreases args.len() - i,
{
    if i < 0 || i >= args.len() {
        acc
    } else if args[i] == "--titlebar"@ && i + 1 < args.len() {
        spec_parse_args_from(
            OptionsView { titlebar: Some(spec_titlebar_mode(args[i + 1])), ..acc },
            args,
            i + 2,
        )
    } else if args[i] == "--window-number"@ && i + 1 < args.len() {
        let acc2 = match spec_parse_i64(args[i + 1]) {
            Some(n) => OptionsView { window_number: Some(n), ..acc },
            None => acc,
        };
        spec_parse_args_from(acc2, args, i + 2)
    } else if args[i] == "--window-title"@ && i + 1 < args.len() {
        spec_parse_args_from(OptionsView { window_title: Some(args[i + 1]), ..acc }, args, i + 2)
    } else if args[i] == "--geometry"@ && i + 1 < args.len() {
        spec_parse_args_from(spec_apply_geometry(acc, spec_parse_geometry(args[i + 1])), args, i + 2)
    } else {
        spec_parse_args_from(OptionsView { url: Some(args[i]), ..acc }, args, i + 1)
    }
}

/// What a whole argument list yields.
pub open spec fn spec_parse_args(args: Seq<Seq<char>>) -> OptionsView {
    spec_parse_args_from(OptionsView::all_absent(), args, 0)
}

/// Parses the ordered process arguments, program name excluded.
pub fn parse_args(args: &Vec<String>) -> (r: WindowOptions)
    ensures
        r@ == spec_parse_args(args.deep_view()),
{
    let ghost argsv: Seq<Seq<char>> = args.deep_view();
    let mut opts: WindowOptions = WindowOptions::new();
    let mut i: usize = 0;
    while i < args.len()
        invariant
            0 <= i <= args.len(),
            argsv == args.deep_view(),
            argsv.len() == args@.len(),
            spec_parse_args_from(opts@, argsv, i as int) == spec_parse_args(argsv),
        decreases args.len() - i,
    {
        proof {
            assert(argsv[i as int] == args@[i as int]@);
            if i + 1 < args.len() {
                assert(argsv[i as int + 1] == args@[i as int + 1]@);
            }
        }
        let arg: &String = &args[i];
        if str_eq(arg.as_str(), "--titlebar") && i + 1 < args.len() {
            let v: &String = &args[i + 1];
            let mode: TitlebarMode = if str_eq(v.as_str(), "system") {
                TitlebarMode::System
            } else {
                TitlebarMode::Custom
            };
            opts.titlebar = Some(mode);
            i = i + 2;
        } else if str_eq(arg.as_str(), "--window-number") && i + 1 < args.len() {
            let v: &String = &args[i + 1];
            match parse_i64(v.as_str()) {
                Some(n) => {
                    opts.window_number = Some(n);
                },
                None => {},
            }
            i = i + 2;
        } else if str_eq(arg.as_str(), "--window-title") && i + 1 < args.len() {
            let v: &String = &args[i + 1];
            opts.window_title = Some(v.clone());
            i = i + 2;
        } else if str_eq(arg.as_str(), "--geometry") && i + 1 < args.len() {
            let v: &String = &args[i + 1];
            let g: Geometry = parse_geometry(v.as_str());
            match g.size {
                Some(wh) => {
                    opts.width = Some(wh.0);
                    opts.height = Some(wh.1);
                },
                None => {},
            }
            match g.position {
                Some(p) => {
                    opts.position = Some(p);
                },
                None => {},
            }
            i = i + 2;
        } else {
            opts.url = Some(arg.clone());
            i = i + 1;
        }
    }
    opts
}

} // verus!
