//! Laws of the window lifecycle.
//!
//! The proofs here state, once and for all sequences of events, what the
//! coordinator's transitions add up to: the table's size is exactly the
//! successful registrations less the closes of present identities; the
//! loop terminates exactly when a close takes the last window; a retitle
//! touches one entry; a minimize followed by a show always leaves the
//! window visible, not minimized, and focused; and a `new-window` request
//! with a URL and no explicit title yields exactly one new window, titled
//! by the default rule.

use vstd::prelude::*;
use crate::coordinator::{
    has_id, idx_of, ids_unique, lemma_idx_of, spec_close, spec_new_window, spec_register,
    spec_set_title, spec_status_line, spec_window_op, window_of_plan, ActionView, CoordView,
    WindowOp, WindowView,
};
use crate::factory::{spec_default_title, PlanView};
use crate::options::OptionsView;

verus! {

/// One lifecycle event of the table: the registration of a built window,
/// or a close.
pub enum LifeEvent {
    Opened(u64, PlanView),
    Closed(u64),
}

/// What one lifecycle event leaves of the coordinator.
pub open spec fn life_step(v: CoordView, ev: LifeEvent) -> CoordView {
    match ev {
        LifeEvent::Opened(id, p) => spec_register(v, id, p).0,
        LifeEvent::Closed(id) => spec_close(v, id).0,
    }
}

/// The coordinator after a whole sequence of lifecycle events.
pub open spec fn life_run(v: CoordView, evs: Seq<LifeEvent>) -> CoordView
    decreases evs.len(),
{
    if evs.len() == 0 {
        v
    } else {
        life_run(life_step(v, evs[0]), evs.drop_first())
    }
}

/// How many registrations along the run carried a fresh identity and so
/// succeeded.
pub open spec fn count_opened(v: CoordView, evs: Seq<LifeEvent>) -> int
    decreases evs.len(),
{
    if evs.len() == 0 {
        0
    } else {
        (match evs[0] {
            LifeEvent::Opened(id, _) => if !has_id(v.windows, id) {
                1int
            } else {
                0int
            },
            LifeEvent::Closed(_) => 0int,
        }) + count_opened(life_step(v, evs[0]), evs.drop_first())
    }
}

/// How many closes along the run named a still-present identity.
pub open spec fn count_closed(v: CoordView, evs: Seq<LifeEvent>) -> int
    decreases evs.len(),
{
    if evs.len() == 0 {
        0
    } else {
        (match evs[0] {
            LifeEvent::Opened(_, _) => 0int,
            LifeEvent::Closed(id) => if has_id(v.windows, id) {
                1int
            } else {
                0int
            },
        }) + count_closed(life_step(v, evs[0]), evs.drop_first())
    }
}

/// For every sequence of lifecycle events, the table's size equals its
/// starting size plus the successful registrations, less the closes of
/// still-present identities.
pub proof fn lemma_window_accounting(v: CoordView, evs: Seq<LifeEvent>)
    ensures
        life_run(v, evs).windows.len() == v.windows.len() + count_opened(v, evs) - count_closed(
            v,
            evs,
        ),
    decreases evs.len(),
{
    if evs.len() > 0 {
        let v1 = life_step(v, evs[0]);
        match evs[0] {
            LifeEvent::Opened(id, p) => {
                if !has_id(v.windows, id) {
                    assert(v1.windows.len() == v.windows.len() + 1);
                }
            },
            LifeEvent::Closed(id) => {
                if has_id(v.windows, id) {
                    let k = idx_of(v.windows, id);
                    assert(0 <= k < v.windows.len() && v.windows[k].id == id);
                    assert(v1.windows.len() == v.windows.len() - 1);
                }
            },
        }
        lemma_window_accounting(v1, evs.drop_first());
    }
}

/// Whether this event closes the last present window.
pub open spec fn closes_last(v: CoordView, ev: LifeEvent) -> bool {
    match ev {
        LifeEvent::Closed(id) => has_id(v.windows, id) && v.windows.len() == 1,
        LifeEvent::Opened(_, _) => false,
    }
}

/// Once the coordinator has asked for exit, no later event takes that
/// back.
pub proof fn lemma_terminated_sticky(v: CoordView, evs: Seq<LifeEvent>)
    requires
        v.terminated,
    ensures
        life_run(v, evs).terminated,
    decreases evs.len(),
{
    if evs.len() > 0 {
        let v1 = life_step(v, evs[0]);
        match evs[0] {
            LifeEvent::Opened(id, p) => {
                assert(v1.terminated);
            },
            LifeEvent::Closed(id) => {
                assert(v1.terminated);
            },
        }
        lemma_terminated_sticky(v1, evs.drop_first());
    }
}

/// The loop terminates exactly when some event of the run closes the last
/// window then present: the table's size reaching zero and the exit
/// request are one and the same thing.
pub proof fn lemma_termination(v: CoordView, evs: Seq<LifeEvent>)
    requires
        !v.terminated,
    ensures
        life_run(v, evs).terminated <==> exists|i: int|
            0 <= i < evs.len() && #[trigger] closes_last(life_run(v, evs.take(i)), evs[i]),
    decreases evs.len(),
{
    if evs.len() > 0 {
        let v1 = life_step(v, evs[0]);
        let rest = evs.drop_first();
        assert(evs.take(0) =~= Seq::<LifeEvent>::empty());
        assert forall|i: int| 0 <= i <= rest.len() implies life_run(v, evs.take(i + 1)) == life_run(
            v1,
            rest.take(i),
        ) by {
            assert(evs.take(i + 1).drop_first() =~= rest.take(i));
            assert(evs.take(i + 1)[0] == evs[0]);
        }
        let step_closes = closes_last(v, evs[0]);
        match evs[0] {
            LifeEvent::Opened(id, p) => {
                assert(v1.terminated == v.terminated);
            },
            LifeEvent::Closed(id) => {
                if has_id(v.windows, id) {
                    let k = idx_of(v.windows, id);
                    assert(0 <= k < v.windows.len() && v.windows[k].id == id);
                }
                assert(v1.terminated <==> step_closes);
            },
        }
        if step_closes {
            lemma_terminated_sticky(v1, rest);
            assert(life_run(v, evs) == life_run(v1, rest));
            assert(closes_last(life_run(v, evs.take(0)), evs[0]));
        } else {
            lemma_termination(v1, rest);
            assert(life_run(v, evs) == life_run(v1, rest));
            if life_run(v1, rest).terminated {
                let j = choose|j: int|
                    0 <= j < rest.len() && #[trigger] closes_last(
                        life_run(v1, rest.take(j)),
                        rest[j],
                    );
                assert(rest[j] == evs[j + 1]);
                assert(life_run(v, evs.take(j + 1)) == life_run(v1, rest.take(j)));
                assert(closes_last(life_run(v, evs.take(j + 1)), evs[j + 1]));
            } else {
                assert forall|i: int| 0 <= i < evs.len() implies !closes_last(
                    life_run(v, evs.take(i)),
                    evs[i],
                ) by {
                    if i == 0 {
                        assert(life_run(v, evs.take(0)) == v);
                    } else {
                        assert(life_run(v, evs.take(i)) == life_run(v1, rest.take(i - 1)));
                        assert(evs[i] == rest[i - 1]);
                        assert(!closes_last(life_run(v1, rest.take(i - 1)), rest[i - 1]));
                    }
                }
            }
        }
    }
}

/// A retitle changes the named window's title and nothing else: every
/// other entry is left exactly as it was.
pub proof fn lemma_set_title_isolates(v: CoordView, id: u64, t: Seq<char>)
    requires
        v.wf(),
        has_id(v.windows, id),
    ensures
        ({
            let k = idx_of(v.windows, id);
            let v2 = spec_set_title(v, id, t).0;
            &&& v2.windows.len() == v.windows.len()
            &&& v2.windows[k] == (WindowView { title: t, ..v.windows[k] })
            &&& forall|j: int|
                0 <= j < v.windows.len() && j != k ==> v2.windows[j] == v.windows[j]
        }),
{
    lemma_idx_of(v.windows, id);
}

/// The visible contract of the visibility operations: after a hide the
/// window is invisible and not minimized; after a show it is visible, not
/// minimized, and focused; after a minimize it is visible but iconified;
/// a maximize changes nothing.
pub proof fn lemma_visibility_contract(v: CoordView, id: u64, op: WindowOp)
    requires
        v.wf(),
        has_id(v.windows, id),
    ensures
        ({
            let v1 = spec_window_op(v, id, op).0;
            let w = v1.windows[idx_of(v1.windows, id)];
            &&& has_id(v1.windows, id)
            &&& (op == WindowOp::Hide ==> !w.visible && !w.minimized)
            &&& (op == WindowOp::Show ==> w.visible && !w.minimized && w.focused)
            &&& (op == WindowOp::Minimize ==> w.visible && w.minimized)
            &&& (op == WindowOp::Maximize ==> v1 == v)
        }),
{
    lemma_idx_of(v.windows, id);
    let k = idx_of(v.windows, id);
    let v1 = spec_window_op(v, id, op).0;
    if op != WindowOp::Maximize {
        assert(v1.windows.len() == v.windows.len());
        assert(forall|i: int| 0 <= i < v1.windows.len() ==> v1.windows[i].id == v.windows[i].id);
        assert(ids_unique(v1.windows));
        assert(has_id(v1.windows, id));
        lemma_idx_of(v1.windows, id);
        assert(idx_of(v1.windows, id) == k);
    }
}

/// A minimize followed by a show leaves the window visible, not minimized,
/// and focused, whatever its visibility was before.
pub proof fn lemma_minimize_then_show(v: CoordView, id: u64)
    requires
        v.wf(),
        has_id(v.windows, id),
    ensures
        ({
            let v1 = spec_window_op(v, id, WindowOp::Minimize).0;
            let v2 = spec_window_op(v1, id, WindowOp::Show).0;
            &&& has_id(v2.windows, id)
            &&& v2.windows[idx_of(v2.windows, id)].visible
            &&& !v2.windows[idx_of(v2.windows, id)].minimized
            &&& v2.windows[idx_of(v2.windows, id)].focused
        }),
{
    lemma_idx_of(v.windows, id);
    let k = idx_of(v.windows, id);
    let v1 = spec_window_op(v, id, WindowOp::Minimize).0;
    assert(v1.windows.len() == v.windows.len());
    assert(forall|i: int| 0 <= i < v1.windows.len() ==> v1.windows[i].id == v.windows[i].id);
    assert(ids_unique(v1.windows));
    assert(has_id(v1.windows, id));
    lemma_idx_of(v1.windows, id);
    assert(idx_of(v1.windows, id) == k);
    let v2 = spec_window_op(v1, id, WindowOp::Show).0;
    assert(v2.windows.len() == v1.windows.len());
    assert(forall|i: int| 0 <= i < v2.windows.len() ==> v2.windows[i].id == v1.windows[i].id);
    assert(ids_unique(v2.windows));
    assert(has_id(v2.windows, id));
    lemma_idx_of(v2.windows, id);
    assert(idx_of(v2.windows, id) == k);
}

/// Closing a present window shrinks the table by one; the close that takes
/// the last window emits exactly the status line and the exit request, and
/// any other close emits nothing and does not terminate.
pub proof fn lemma_close_status(v: CoordView, id: u64)
    requires
        v.wf(),
        has_id(v.windows, id),
    ensures
        ({
            let (v2, acts) = spec_close(v, id);
            &&& v2.windows.len() == v.windows.len() - 1
            &&& (v.windows.len() == 1 ==> acts =~= seq![
                ActionView::StatusLine(spec_status_line(v.primary_number)),
                ActionView::Exit,
            ] && v2.terminated)
            &&& (v.windows.len() > 1 ==> acts =~= Seq::<ActionView>::empty() && v2.terminated
                == v.terminated)
        }),
{
    lemma_idx_of(v.windows, id);
}

/// A `new-window` request that names a URL and no explicit title changes
/// no state by itself, asks for exactly one window, titles it by the
/// default rule, and registering the built window under a fresh identity
/// grows the table by exactly one entry.
pub proof fn lemma_new_window_adds_one(v: CoordView, o: OptionsView, id: u64)
    requires
        v.wf(),
        o.url is Some,
        o.window_title is None,
        !has_id(v.windows, id),
    ensures
        ({
            let (v1, acts) = spec_new_window(v, o);
            let wn = match o.window_number {
                Some(n) => n,
                None => -1i64,
            };
            &&& v1 == v
            &&& acts.len() == 1
            &&& o.url matches Some(url) && acts[0] matches ActionView::CreateWindow(p)
                && p.title == spec_default_title(wn, url) && spec_register(v, id, p) == (
                CoordView { windows: v.windows.push(window_of_plan(id, p)), ..v },
                true,
            ) && spec_register(v, id, p).0.windows.len() == v.windows.len() + 1
        }),
{
}

} // verus!
