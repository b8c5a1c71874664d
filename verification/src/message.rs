//! The inbound message protocol: one text line per message.
//!
//! A line is `<command> <rest-of-line>`, split on the first space only.
//! Recognized commands become typed user events; anything else is silently
//! ignored, since the lines come from untrusted web content.  The four
//! visibility operations carry no payload: their op name must be the whole
//! line.

use vstd::prelude::*;
use vstd::string::*;
use crate::coordinator::{UserEvent, UserEventView, WindowOp};
use crate::json::{options_from_json, spec_options_from_json};
use crate::text::str_eq;

verus! {

/// Position of the first space at or after `i`, or the end of the line.
pub open spec fn first_space(s: Seq<char>, i: int) -> int
    decreases s.len() - i,
{
    if i < 0 || i >= s.len() {
        s.len() as int
    } else if s[i] == ' ' {
        i
    } else {
        first_space(s, i + 1)
    }
}

/// The command: everything before the first space, or the whole line.
pub open spec fn spec_cmd(s: Seq<char>) -> Seq<char> {
    s.subrange(0, first_space(s, 0))
}

/// The payload: everything after the first space, or empty.
pub open spec fn spec_rest(s: Seq<char>) -> Seq<char> {
    if first_space(s, 0) == s.len() {
        Seq::<char>::empty()
    } else {
        s.subrange(first_space(s, 0) + 1, s.len() as int)
    }
}

/// When no space precedes `j` and `j` sits at the end or on a space, `j`
/// is exactly the first space position.
proof fn lemma_first_space_found(s: Seq<char>, i: int, j: int)
    requires
        0 <= i <= j <= s.len(),
        forall|k: int| i <= k < j ==> s[k] != ' ',
        j == s.len() || s[j] == ' ',
    ensures
        first_space(s, i) == j,
    decreases j - i,
{
    if i < j {
        lemma_first_space_found(s, i + 1, j);
    }
}

/// Finds the first space of the line, or its length.
fn find_first_space(s: &str) -> (r: usize)
    ensures
        r == first_space(s@, 0),
        r <= s@.len(),
        r < s@.len() ==> s@[r as int] == ' ',
{
    let len: usize = s.unicode_len();
    let mut i: usize = 0;
    while i < len
        invariant
            0 <= i <= len,
            len == s@.len(),
            forall|k: int| 0 <= k < i ==> s@[k] != ' ',
        decreases len - i,
    {
        if s.get_char(i) == ' ' {
            proof {
                lemma_first_space_found(s@, 0, i as int);
            }
            return i;
        }
        i = i + 1;
    }
    proof {
        lemma_first_space_found(s@, 0, len as int);
    }
    len
}

/// The event one message line from window `id` posts, if any.  A
/// `new-window` line posts nothing when its payload is not a JSON object;
/// an unrecognized command, or a visibility op with a payload, posts
/// nothing.
pub open spec fn spec_parse_message(id: u64, line: Seq<char>) -> Option<UserEventView> {
    let cmd = spec_cmd(line);
    let rest = spec_rest(line);
    if cmd == "set-title"@ {
        Some(UserEventView::NewTitle(id, rest))
    } else if cmd == "new-window"@ {
        match spec_options_from_json(rest) {
            Some(o) => Some(UserEventView::NewWindow(o)),
            None => None,
        }
    } else if cmd == "move-window"@ {
        Some(UserEventView::MoveWindow(id, rest))
    } else if line == "hide"@ {
        Some(UserEventView::WindowOp(id, WindowOp::Hide))
    } else if line == "show"@ {
        Some(UserEventView::WindowOp(id, WindowOp::Show))
    } else if line == "minimize"@ {
        Some(UserEventView::WindowOp(id, WindowOp::Minimize))
    } else if line == "maximize"@ {
        Some(UserEventView::WindowOp(id, WindowOp::Maximize))
    } else if cmd == "devtools"@ {
        Some(UserEventView::Devtools(id, rest))
    } else if cmd == "close"@ {
        Some(UserEventView::CloseWindow(id))
    } else {
        None
    }
}

/// Parses one line sent by the webview of window `id`.
pub fn parse_ipc_message(id: u64, line: &str) -> (r: Option<UserEvent>)
    ensures
        match r {
            Some(ev) => spec_parse_message(id, line@) == Some(ev@),
            None => spec_parse_message(id, line@) is None,
        },
{
    let len: usize = line.unicode_len();
    let sp: usize = find_first_space(line);
    let cmd: &str = line.substring_char(0, sp);
    let rest: &str = if sp == len {
        ""
    } else {
        line.substring_char(sp + 1, len)
    };
    proof {
        reveal_strlit("");
        assert(cmd@ == spec_cmd(line@));
        if sp == len {
            assert(rest@ =~= spec_rest(line@));
        } else {
            assert(rest@ == spec_rest(line@));
        }
    }
    if str_eq(cmd, "set-title") {
        Some(UserEvent::NewTitle(id, rest.to_owned()))
    } else if str_eq(cmd, "new-window") {
        match options_from_json(rest) {
            Some(o) => Some(UserEvent::NewWindow(o)),
            None => None,
        }
    } else if str_eq(cmd, "move-window") {
        Some(UserEvent::MoveWindow(id, rest.to_owned()))
    } else if str_eq(line, "hide") {
        Some(UserEvent::WindowOp(id, WindowOp::Hide))
    } else if str_eq(line, "show") {
        Some(UserEvent::WindowOp(id, WindowOp::Show))
    } else if str_eq(line, "minimize") {
        Some(UserEvent::WindowOp(id, WindowOp::Minimize))
    } else if str_eq(line, "maximize") {
        Some(UserEvent::WindowOp(id, WindowOp::Maximize))
    } else if str_eq(cmd, "devtools") {
        Some(UserEvent::Devtools(id, rest.to_owned()))
    } else if str_eq(cmd, "close") {
        Some(UserEvent::CloseWindow(id))
    } else {
        None
    }
}

} // verus!
