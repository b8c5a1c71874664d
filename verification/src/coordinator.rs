//! The window-lifecycle coordinator.
//!
//! The coordinator owns the table of open windows and is the only thing
//! that mutates it.  Each incoming event — an OS close, or one user event
//! posted by a webview's message handler — is handled to completion and
//! yields the list of native actions the surrounding binary must perform,
//! in order.  The table is empty exactly while no native window is live;
//! when a close empties it, the coordinator emits the final status line and
//! asks the event loop to exit.
//!
//! An event that names a window no longer in the table is a no-op: a close
//! may race with events already queued for the closed window.

use vstd::prelude::*;
use vstd::string::*;
use vstd::pervasive::VecAdditionalExecFns;
use crate::factory::{spec_plan_window, plan_window, PlanView, WindowPlan};
use crate::geometry::spec_parse_position;
use crate::geometry::parse_position;
use crate::options::WindowOptions;
use crate::text::{i64_to_text, spec_i64_text};

verus! {

/// A visibility operation asked for by the hosted page.
#[derive(PartialEq, Eq, Clone, Copy, Debug)]
pub enum WindowOp {
    Hide,
    Show,
    Minimize,
    Maximize,
}

/// One event posted from a webview's message handler into the coordinator.
pub enum UserEvent {
    CloseWindow(u64),
    NewTitle(u64, String),
    WindowOp(u64, WindowOp),
    MoveWindow(u64, String),
    Devtools(u64, String),
    NewWindow(WindowOptions),
}

/// Mathematical image of a `UserEvent`.
pub enum UserEventView {
    CloseWindow(u64),
    NewTitle(u64, Seq<char>),
    WindowOp(u64, WindowOp),
    MoveWindow(u64, Seq<char>),
    Devtools(u64, Seq<char>),
    NewWindow(crate::options::OptionsView),
}

impl View for UserEvent {
    type V = UserEventView;

    open spec fn view(&self) -> UserEventView {
        match self {
            UserEvent::CloseWindow(id) => UserEventView::CloseWindow(*id),
            UserEvent::NewTitle(id, t) => UserEventView::NewTitle(*id, t@),
            UserEvent::WindowOp(id, op) => UserEventView::WindowOp(*id, *op),
            UserEvent::MoveWindow(id, t) => UserEventView::MoveWindow(*id, t@),
            UserEvent::Devtools(id, t) => UserEventView::Devtools(*id, t@),
            UserEvent::NewWindow(o) => UserEventView::NewWindow(o@),
        }
    }
}

/// One native action the surrounding binary must perform.
pub enum Action {
    /// Build a native window and webview from the plan, then register the
    /// new window's identity.
    CreateWindow(WindowPlan),
    SetTitle(u64, String),
    SetVisible(u64, bool),
    SetMinimized(u64, bool),
    Focus(u64),
    SetPosition(u64, i32, i32),
    ToggleDevtools(u64),
    /// Write this line to standard output.
    StatusLine(String),
    /// Leave the event loop.
    Exit,
}

/// Mathematical image of an `Action`.
pub enum ActionView {
    CreateWindow(PlanView),
    SetTitle(u64, Seq<char>),
    SetVisible(u64, bool),
    SetMinimized(u64, bool),
    Focus(u64),
    SetPosition(u64, i32, i32),
    ToggleDevtools(u64),
    StatusLine(Seq<char>),
    Exit,
}

impl View for Action {
    type V = ActionView;

    open spec fn view(&self) -> ActionView {
        match self {
            Action::CreateWindow(p) => ActionView::CreateWindow(p@),
            Action::SetTitle(id, t) => ActionView::SetTitle(*id, t@),
            Action::SetVisible(id, b) => ActionView::SetVisible(*id, *b),
            Action::SetMinimized(id, b) => ActionView::SetMinimized(*id, *b),
            Action::Focus(id) => ActionView::Focus(*id),
            Action::SetPosition(id, x, y) => ActionView::SetPosition(*id, *x, *y),
            Action::ToggleDevtools(id) => ActionView::ToggleDevtools(*id),
            Action::StatusLine(s) => ActionView::StatusLine(s@),
            Action::Exit => ActionView::Exit,
        }
    }
}

/// The views of a list of actions, in order.
pub open spec fn actions_view(s: Seq<Action>) -> Seq<ActionView> {
    s.map_values(|a: Action| a@)
}

/// One open window as the coordinator tracks it.
pub struct WindowState {
    pub id: u64,
    pub window_number: i64,
    pub title: String,
    pub visible: bool,
    pub minimized: bool,
    pub focused: bool,
    pub size: Option<(u32, u32)>,
    pub position: Option<(i32, i32)>,
}

/// Mathematical image of a `WindowState`.
pub struct WindowView {
    pub id: u64,
    pub window_number: i64,
    pub title: Seq<char>,
    pub visible: bool,
    pub minimized: bool,
    pub focused: bool,
    pub size: Option<(u32, u32)>,
    pub position: Option<(i32, i32)>,
}

impl View for WindowState {
    type V = WindowView;

    open spec fn view(&self) -> WindowView {
        WindowView {
            id: self.id,
            window_number: self.window_number,
            title: self.title@,
            visible: self.visible,
            minimized: self.minimized,
            focused: self.focused,
            size: self.size,
            position: self.position,
        }
    }
}

impl DeepView for WindowState {
    type V = WindowView;

    open spec fn deep_view(&self) -> WindowView {
        self.view()
    }
}

/// No two entries of the table name the same window.
pub open spec fn ids_unique(ws: Seq<WindowView>) -> bool {
    forall|i: int, j: int| 0 <= i < j < ws.len() ==> ws[i].id != ws[j].id
}

/// Whether some entry of the table names `id`.
pub open spec fn has_id(ws: Seq<WindowView>, id: u64) -> bool {
    exists|i: int| 0 <= i < ws.len() && ws[i].id == id
}

/// The position of the entry that names `id`.
pub open spec fn idx_of(ws: Seq<WindowView>, id: u64) -> int {
    choose|i: int| 0 <= i < ws.len() && ws[i].id == id
}

/// With unique identities, `idx_of` is the one position naming `id`.
pub proof fn lemma_idx_of(ws: Seq<WindowView>, id: u64)
    requires
        ids_unique(ws),
        has_id(ws, id),
    ensures
        0 <= idx_of(ws, id) < ws.len(),
        ws[idx_of(ws, id)].id == id,
        forall|i: int| 0 <= i < ws.len() && ws[i].id == id ==> i == idx_of(ws, id),
{
    let k = idx_of(ws, id);
    assert(0 <= k < ws.len() && ws[k].id == id);
    assert forall|i: int| 0 <= i < ws.len() && ws[i].id == id implies i == k by {
        if i < k {
            assert(ws[i].id != ws[k].id);
        } else if k < i {
            assert(ws[k].id != ws[i].id);
        }
    }
}

/// Mathematical image of the coordinator.
pub struct CoordView {
    pub windows: Seq<WindowView>,
    pub wayland: bool,
    pub primary_number: i64,
    pub webview_version: Option<Seq<char>>,
    pub wry_version: Seq<char>,
    pub terminated: bool,
}

impl CoordView {
    /// The table never holds two entries for one window.
    pub open spec fn wf(self) -> bool {
        ids_unique(self.windows)
    }
}

/// The entry a freshly built window starts from: visible, not minimized,
/// focused, with the geometry its plan asked for.
pub open spec fn window_of_plan(id: u64, p: PlanView) -> WindowView {
    WindowView {
        id,
        window_number: p.window_number,
        title: p.title,
        visible: true,
        minimized: false,
        focused: true,
        size: p.size,
        position: p.position,
    }
}

/// Registering a built window: a fresh identity is appended, a duplicate
/// one changes nothing.
pub open spec fn spec_register(v: CoordView, id: u64, p: PlanView) -> (CoordView, bool) {
    if has_id(v.windows, id) {
        (v, false)
    } else {
        (CoordView { windows: v.windows.push(window_of_plan(id, p)), ..v }, true)
    }
}

/// The final status line: the first window's number, echoed for a host
/// process to observe.
pub open spec fn spec_status_line(n: i64) -> Seq<char> {
    "CLOSE-WINDOW "@ + spec_i64_text(n as int)
}

/// Closing a window: a present identity leaves the table, and the close
/// that empties the table emits the status line and ends the loop; an
/// absent identity changes nothing.
pub open spec fn spec_close(v: CoordView, id: u64) -> (CoordView, Seq<ActionView>) {
    if !has_id(v.windows, id) {
        (v, Seq::<ActionView>::empty())
    } else {
        let ws2 = v.windows.remove(idx_of(v.windows, id));
        if ws2.len() == 0 {
            (
                CoordView { windows: ws2, terminated: true, ..v },
                seq![
                    ActionView::StatusLine(spec_status_line(v.primary_number)),
                    ActionView::Exit,
                ],
            )
        } else {
            (CoordView { windows: ws2, ..v }, Seq::<ActionView>::empty())
        }
    }
}

/// Retitling a window changes that entry alone.
pub open spec fn spec_set_title(v: CoordView, id: u64, t: Seq<char>) -> (
    CoordView,
    Seq<ActionView>,
) {
    if !has_id(v.windows, id) {
        (v, Seq::<ActionView>::empty())
    } else {
        let k = idx_of(v.windows, id);
        let w2 = WindowView { title: t, ..v.windows[k] };
        (
            CoordView { windows: v.windows.update(k, w2), ..v },
            seq![ActionView::SetTitle(id, t)],
        )
    }
}

/// Moving a window: the payload must be a well-formed offset pair, else
/// nothing happens.
pub open spec fn spec_move_window(v: CoordView, id: u64, t: Seq<char>) -> (
    CoordView,
    Seq<ActionView>,
) {
    if !has_id(v.windows, id) {
        (v, Seq::<ActionView>::empty())
    } else {
        match spec_parse_position(t) {
            Some(p) => {
                let k = idx_of(v.windows, id);
                let w2 = WindowView { position: Some(p), ..v.windows[k] };
                (
                    CoordView { windows: v.windows.update(k, w2), ..v },
                    seq![ActionView::SetPosition(id, p.0, p.1)],
                )
            },
            None => (v, Seq::<ActionView>::empty()),
        }
    }
}

/// A visibility operation, with the forced extra transitions that keep the
/// platform's visibility and minimized flags coherent.  Afterwards: hidden
/// windows are invisible and not minimized; shown windows are visible, not
/// minimized and focused; minimized windows are visible but iconified.
pub open spec fn spec_window_op(v: CoordView, id: u64, op: WindowOp) -> (
    CoordView,
    Seq<ActionView>,
) {
    if !has_id(v.windows, id) {
        (v, Seq::<ActionView>::empty())
    } else {
        let k = idx_of(v.windows, id);
        let w = v.windows[k];
        match op {
            WindowOp::Hide => {
                let acts = if w.minimized {
                    seq![ActionView::SetVisible(id, false), ActionView::SetMinimized(id, false)]
                } else {
                    seq![ActionView::SetVisible(id, false)]
                };
                let w2 = WindowView { visible: false, minimized: false, ..w };
                (CoordView { windows: v.windows.update(k, w2), ..v }, acts)
            },
            WindowOp::Show => {
                let pre = if v.wayland || w.minimized {
                    seq![ActionView::SetVisible(id, false), ActionView::SetMinimized(id, false)]
                } else {
                    Seq::<ActionView>::empty()
                };
                let acts = pre + seq![ActionView::SetVisible(id, true), ActionView::Focus(id)];
                let w2 = WindowView { visible: true, minimized: false, focused: true, ..w };
                (CoordView { windows: v.windows.update(k, w2), ..v }, acts)
            },
            WindowOp::Minimize => {
                let pre = if !w.visible {
                    (if w.minimized {
                        seq![
                            ActionView::SetVisible(id, false),
                            ActionView::SetMinimized(id, false),
                        ]
                    } else {
                        Seq::<ActionView>::empty()
                    }) + seq![ActionView::SetVisible(id, true)]
                } else {
                    Seq::<ActionView>::empty()
                };
                let acts = pre + seq![ActionView::SetMinimized(id, true)];
                let w2 = WindowView { visible: true, minimized: true, ..w };
                (CoordView { windows: v.windows.update(k, w2), ..v }, acts)
            },
            WindowOp::Maximize => (v, Seq::<ActionView>::empty()),
        }
    }
}

/// Toggling the developer tools of a present window; the panel's state
/// lives in the webview itself.
pub open spec fn spec_devtools(v: CoordView, id: u64) -> (CoordView, Seq<ActionView>) {
    if has_id(v.windows, id) {
        (v, seq![ActionView::ToggleDevtools(id)])
    } else {
        (v, Seq::<ActionView>::empty())
    }
}

/// A `new-window` request: a plan is emitted when the request names a URL;
/// the table grows only once the built window is registered.
pub open spec fn spec_new_window(v: CoordView, o: crate::options::OptionsView) -> (
    CoordView,
    Seq<ActionView>,
) {
    match spec_plan_window(o, v.webview_version, v.wry_version) {
        Some(p) => (v, seq![ActionView::CreateWindow(p)]),
        None => (v, Seq::<ActionView>::empty()),
    }
}

/// What one user event does to the coordinator.
pub open spec fn spec_user_event(v: CoordView, ev: UserEventView) -> (CoordView, Seq<ActionView>) {
    match ev {
        UserEventView::CloseWindow(id) => spec_close(v, id),
        UserEventView::NewTitle(id, t) => spec_set_title(v, id, t),
        UserEventView::WindowOp(id, op) => spec_window_op(v, id, op),
        UserEventView::MoveWindow(id, t) => spec_move_window(v, id, t),
        UserEventView::Devtools(id, _) => spec_devtools(v, id),
        UserEventView::NewWindow(o) => spec_new_window(v, o),
    }
}

/// The window-lifecycle coordinator: the table of open windows and the
/// process-wide facts every plan needs.
pub struct Coordinator {
    windows: Vec<WindowState>,
    wayland: bool,
    primary_number: i64,
    webview_version: Option<String>,
    wry_version: String,
    terminated: bool,
}

impl View for Coordinator {
    type V = CoordView;

    closed spec fn view(&self) -> CoordView {
        CoordView {
            windows: self.windows.deep_view(),
            wayland: self.wayland,
            primary_number: self.primary_number,
            webview_version: match self.webview_version {
                Some(v) => Some(v@),
                None => None,
            },
            wry_version: self.wry_version@,
            terminated: self.terminated,
        }
    }
}

impl Coordinator {
    /// A coordinator with an empty table.  `wayland` says whether the
    /// display backend needs the forced show transition; `primary_number`
    /// is the first window's number, echoed on the final status line.
    pub fn new(
        wayland: bool,
        primary_number: i64,
        webview_version: Option<String>,
        wry_version: String,
    ) -> (r: Coordinator)
        ensures
            r@ == (CoordView {
                windows: Seq::<WindowView>::empty(),
                wayland,
                primary_number,
                webview_version: match webview_version {
                    Some(v) => Some(v@),
                    None => None,
                },
                wry_version: wry_version@,
                terminated: false,
            }),
            r@.wf(),
    {
        let r = Coordinator {
            windows: Vec::new(),
            wayland,
            primary_number,
            webview_version,
            wry_version,
            terminated: false,
        };
        proof {
            assert(r@.windows =~= Seq::<WindowView>::empty());
        }
        r
    }

    /// The position of `id` in the table, when present.
    fn find_window(&self, id: u64) -> (r: Option<usize>)
        ensures
            match r {
                Some(i) => i < self@.windows.len() && self@.windows[i as int].id == id && has_id(
                    self@.windows,
                    id,
                ),
                None => !has_id(self@.windows, id),
            },
    {
        let ghost ws = self@.windows;
        let mut i: usize = 0;
        while i < self.windows.len()
            invariant
                0 <= i <= self.windows.len(),
                ws == self@.windows,
                ws.len() == self.windows@.len(),
                forall|k: int| 0 <= k < i ==> ws[k].id != id,
            decreases self.windows.len() - i,
        {
            if self.windows[i].id == id {
                return Some(i);
            }
            i = i + 1;
        }
        None
    }

    /// How many windows are open.
    pub fn window_count(&self) -> (r: usize)
        ensures
            r == self@.windows.len(),
    {
        self.windows.len()
    }

    /// Whether the table still holds `id`.
    pub fn has_window(&self, id: u64) -> (r: bool)
        ensures
            r == has_id(self@.windows, id),
    {
        match self.find_window(id) {
            Some(_) => true,
            None => false,
        }
    }

    /// A copy of the table's entry for `id`, when one is present.
    pub fn get_window(&self, id: u64) -> (r: Option<WindowState>)
        requires
            self@.wf(),
        ensures
            match r {
                Some(w) => has_id(self@.windows, id) && w@ == self@.windows[idx_of(
                    self@.windows,
                    id,
                )],
                None => !has_id(self@.windows, id),
            },
    {
        match self.find_window(id) {
            Some(i) => {
                proof {
                    lemma_idx_of(self@.windows, id);
                }
                let w = &self.windows[i];
                Some(
                    WindowState {
                        id: w.id,
                        window_number: w.window_number,
                        title: w.title.clone(),
                        visible: w.visible,
                        minimized: w.minimized,
                        focused: w.focused,
                        size: w.size,
                        position: w.position,
                    },
                )
            },
            None => None,
        }
    }

    /// Whether the coordinator has asked the event loop to exit.
    pub fn is_terminated(&self) -> (r: bool)
        ensures
            r == self@.terminated,
    {
        self.terminated
    }

    /// Registers a window just built from a plan under its native identity.
    pub fn register_window(&mut self, id: u64, plan: &WindowPlan) -> (r: bool)
        requires
            old(self)@.wf(),
        ensures
            final(self)@.wf(),
            (final(self)@, r) == spec_register(old(self)@, id, plan@),
    {
        match self.find_window(id) {
            Some(_) => false,
            None => {
                let w = WindowState {
                    id,
                    window_number: plan.window_number,
                    title: plan.title.clone(),
                    visible: true,
                    minimized: false,
                    focused: true,
                    size: plan.size,
                    position: plan.position,
                };
                self.windows.push(w);
                proof {
                    assert(self@.windows =~= old(self)@.windows.push(window_of_plan(id, plan@)));
                }
                true
            },
        }
    }

    /// Removes a window from the table; the close that empties the table
    /// emits the final status line and the exit request.
    pub fn handle_close(&mut self, id: u64) -> (r: Vec<Action>)
        requires
            old(self)@.wf(),
        ensures
            final(self)@.wf(),
            (final(self)@, actions_view(r@)) == spec_close(old(self)@, id),
    {
        let mut acts: Vec<Action> = Vec::new();
        match self.find_window(id) {
            None => {
                proof {
                    assert(actions_view(acts@) =~= Seq::<ActionView>::empty());
                }
                acts
            },
            Some(i) => {
                proof {
                    lemma_idx_of(self@.windows, id);
                }
                self.windows.remove(i);
                proof {
                    assert(self@.windows =~= old(self)@.windows.remove(
                        idx_of(old(self)@.windows, id),
                    ));
                }
                if self.windows.len() == 0 {
                    self.terminated = true;
                    let mut line: String = String::from_str("CLOSE-WINDOW ");
                    let num: String = i64_to_text(self.primary_number);
                    line.append(num.as_str());
                    proof {
                        assert(line@ =~= spec_status_line(old(self)@.primary_number as i64));
                    }
                    acts.push(Action::StatusLine(line));
                    acts.push(Action::Exit);
                    proof {
                        assert(actions_view(acts@) =~= seq![
                            ActionView::StatusLine(spec_status_line(old(self)@.primary_number)),
                            ActionView::Exit,
                        ]);
                    }
                } else {
                    proof {
                        assert(actions_view(acts@) =~= Seq::<ActionView>::empty());
                    }
                }
                acts
            },
        }
    }

    /// Sets the title of a present window, touching no other entry.
    pub fn set_title(&mut self, id: u64, title: String) -> (r: Vec<Action>)
        requires
            old(self)@.wf(),
        ensures
            final(self)@.wf(),
            (final(self)@, actions_view(r@)) == spec_set_title(old(self)@, id, title@),
    {
        let mut acts: Vec<Action> = Vec::new();
        match self.find_window(id) {
            None => {
                proof {
                    assert(actions_view(acts@) =~= Seq::<ActionView>::empty());
                }
            },
            Some(i) => {
                proof {
                    lemma_idx_of(self@.windows, id);
                }
                let w = &mut self.windows[i];
                w.title = title.clone();
                acts.push(Action::SetTitle(id, title));
                proof {
                    let k = idx_of(old(self)@.windows, id);
                    let w2 = WindowView { title: title@, ..old(self)@.windows[k] };
                    assert(self@.windows =~= old(self)@.windows.update(k, w2));
                    assert(actions_view(acts@) =~= seq![ActionView::SetTitle(id, title@)]);
                }
            },
        }
        acts
    }

    /// Repositions a present window when the payload is a well-formed
    /// offset pair.
    pub fn move_window(&mut self, id: u64, payload: &str) -> (r: Vec<Action>)
        requires
            old(self)@.wf(),
        ensures
            final(self)@.wf(),
            (final(self)@, actions_view(r@)) == spec_move_window(old(self)@, id, payload@),
    {
        let mut acts: Vec<Action> = Vec::new();
        match self.find_window(id) {
            None => {
                proof {
                    assert(actions_view(acts@) =~= Seq::<ActionView>::empty());
                }
            },
            Some(i) => {
                proof {
                    lemma_idx_of(self@.windows, id);
                }
                match parse_position(payload) {
                    Some(p) => {
                        let w = &mut self.windows[i];
                        w.position = Some(p);
                        acts.push(Action::SetPosition(id, p.0, p.1));
                        proof {
                            let k = idx_of(old(self)@.windows, id);
                            let w2 = WindowView {
                                position: Some(p),
                                ..old(self)@.windows[k]
                            };
                            assert(self@.windows =~= old(self)@.windows.update(k, w2));
                            assert(actions_view(acts@) =~= seq![
                                ActionView::SetPosition(id, p.0, p.1),
                            ]);
                        }
                    },
                    None => {
                        proof {
                            assert(actions_view(acts@) =~= Seq::<ActionView>::empty());
                        }
                    },
                }
            },
        }
        acts
    }

    /// Performs a visibility operation on a present window.
    pub fn window_op(&mut self, id: u64, op: WindowOp) -> (r: Vec<Action>)
        requires
            old(self)@.wf(),
        ensures
            final(self)@.wf(),
            (final(self)@, actions_view(r@)) == spec_window_op(old(self)@, id, op),
    {
        let mut acts: Vec<Action> = Vec::new();
        match self.find_window(id) {
            None => {
                proof {
                    assert(actions_view(acts@) =~= Seq::<ActionView>::empty());
                }
                return acts;
            },
            Some(i) => {
                proof {
                    lemma_idx_of(self@.windows, id);
                }
                let ghost k = idx_of(old(self)@.windows, id);
                let ghost w0 = old(self)@.windows[k];
                match op {
                    WindowOp::Hide => {
                        let was_minimized: bool = self.windows[i].minimized;
                        acts.push(Action::SetVisible(id, false));
                        if was_minimized {
                            acts.push(Action::SetMinimized(id, false));
                        }
                        let w = &mut self.windows[i];
                        w.visible = false;
                        w.minimized = false;
                        proof {
                            let w2 = WindowView { visible: false, minimized: false, ..w0 };
                            assert(self@.windows =~= old(self)@.windows.update(k, w2));
                            if w0.minimized {
                                assert(actions_view(acts@) =~= seq![
                                    ActionView::SetVisible(id, false),
                                    ActionView::SetMinimized(id, false),
                                ]);
                            } else {
                                assert(actions_view(acts@) =~= seq![
                                    ActionView::SetVisible(id, false),
                                ]);
                            }
                        }
                    },
                    WindowOp::Show => {
                        let was_minimized: bool = self.windows[i].minimized;
                        if self.wayland || was_minimized {
                            acts.push(Action::SetVisible(id, false));
                            acts.push(Action::SetMinimized(id, false));
                        }
                        acts.push(Action::SetVisible(id, true));
                        acts.push(Action::Focus(id));
                        let w = &mut self.windows[i];
                        w.visible = true;
                        w.minimized = false;
                        w.focused = true;
                        proof {
                            let w2 = WindowView {
                                visible: true,
                                minimized: false,
                                focused: true,
                                ..w0
                            };
                            assert(self@.windows =~= old(self)@.windows.update(k, w2));
                            let pre = if old(self)@.wayland || w0.minimized {
                                seq![
                                    ActionView::SetVisible(id, false),
                                    ActionView::SetMinimized(id, false),
                                ]
                            } else {
                                Seq::<ActionView>::empty()
                            };
                            assert(actions_view(acts@) =~= pre + seq![
                                ActionView::SetVisible(id, true),
                                ActionView::Focus(id),
                            ]);
                        }
                    },
                    WindowOp::Minimize => {
                        let was_visible: bool = self.windows[i].visible;
                        let was_minimized: bool = self.windows[i].minimized;
                        if !was_visible {
                            if was_minimized {
                                acts.push(Action::SetVisible(id, false));
                                acts.push(Action::SetMinimized(id, false));
                            }
                            acts.push(Action::SetVisible(id, true));
                        }
                        acts.push(Action::SetMinimized(id, true));
                        let w = &mut self.windows[i];
                        w.visible = true;
                        w.minimized = true;
                        proof {
                            let w2 = WindowView { visible: true, minimized: true, ..w0 };
                            assert(self@.windows =~= old(self)@.windows.update(k, w2));
                            let pre = if !w0.visible {
                                (if w0.minimized {
                                    seq![
                                        ActionView::SetVisible(id, false),
                                        ActionView::SetMinimized(id, false),
                                    ]
                                } else {
                                    Seq::<ActionView>::empty()
                                }) + seq![ActionView::SetVisible(id, true)]
                            } else {
                                Seq::<ActionView>::empty()
                            };
                            assert(actions_view(acts@) =~= pre + seq![
                                ActionView::SetMinimized(id, true),
                            ]);
                        }
                    },
                    WindowOp::Maximize => {
                        proof {
                            assert(actions_view(acts@) =~= Seq::<ActionView>::empty());
                        }
                    },
                }
                acts
            },
        }
    }

    /// Asks a present window's webview to toggle its developer tools.
    pub fn devtools(&mut self, id: u64) -> (r: Vec<Action>)
        requires
            old(self)@.wf(),
        ensures
            final(self)@.wf(),
            (final(self)@, actions_view(r@)) == spec_devtools(old(self)@, id),
    {
        let mut acts: Vec<Action> = Vec::new();
        match self.find_window(id) {
            Some(_) => {
                acts.push(Action::ToggleDevtools(id));
                proof {
                    assert(actions_view(acts@) =~= seq![ActionView::ToggleDevtools(id)]);
                }
            },
            None => {
                proof {
                    assert(actions_view(acts@) =~= Seq::<ActionView>::empty());
                }
            },
        }
        acts
    }

    /// Plans one more window for a `new-window` request that names a URL.
    pub fn new_window(&mut self, opts: &WindowOptions) -> (r: Vec<Action>)
        requires
            old(self)@.wf(),
        ensures
            final(self)@.wf(),
            (final(self)@, actions_view(r@)) == spec_new_window(old(self)@, opts@),
    {
        let mut acts: Vec<Action> = Vec::new();
        match plan_window(opts, &self.webview_version, self.wry_version.as_str()) {
            Some(p) => {
                let ghost pv = p@;
                acts.push(Action::CreateWindow(p));
                proof {
                    assert(actions_view(acts@) =~= seq![ActionView::CreateWindow(pv)]);
                }
            },
            None => {
                proof {
                    assert(actions_view(acts@) =~= Seq::<ActionView>::empty());
                }
            },
        }
        acts
    }

    /// Handles one posted user event to completion.
    pub fn handle_user_event(&mut self, ev: UserEvent) -> (r: Vec<Action>)
        requires
            old(self)@.wf(),
        ensures
            final(self)@.wf(),
            (final(self)@, actions_view(r@)) == spec_user_event(old(self)@, ev@),
    {
        match ev {
            UserEvent::CloseWindow(id) => self.handle_close(id),
            UserEvent::NewTitle(id, t) => self.set_title(id, t),
            UserEvent::WindowOp(id, op) => self.window_op(id, op),
            UserEvent::MoveWindow(id, t) => self.move_window(id, t.as_str()),
            UserEvent::Devtools(id, _t) => self.devtools(id),
            UserEvent::NewWindow(o) => self.new_window(&o),
        }
    }
}

} // verus!
