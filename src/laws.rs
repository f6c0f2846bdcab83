//! Properties of the transition table that hold of every session state.

use vstd::prelude::*;

use crate::session::{
    cancel_event, step, Answer, EventView, SessionView, SignalView, URI_LIST_FORMAT,
};
use crate::uri::paths_of;

verus! {

/// A notification that ends a drag: a drop, or a leave that is a real cancel.
pub open spec fn is_consuming(sig: SignalView) -> bool {
    match sig {
        SignalView::Drop { .. } => true,
        SignalView::Leave { time } => time == 0,
        _ => false,
    }
}

/// Every transition keeps the session well formed.
pub proof fn lemma_step_preserves_wf(s: SessionView, sig: SignalView)
    requires
        s.wf(),
    ensures
        step(s, sig).state.wf(),
{
}

/// `Drop` and `Over` events are only ever emitted while a drag is inside.
pub proof fn lemma_drop_and_over_only_inside(s: SessionView, sig: SignalView)
    requires
        s.wf(),
    ensures
        step(s, sig).event matches Some(EventView::Drop { .. }) ==> s.inside,
        step(s, sig).event matches Some(EventView::Over { .. }) ==> s.inside,
{
}

/// A payload in any format other than the URI list changes nothing and
/// emits nothing.
pub proof fn lemma_other_format_ignored(s: SessionView, format: u32, uris: Seq<Seq<char>>)
    requires
        s.wf(),
        format != URI_LIST_FORMAT,
    ensures
        step(s, SignalView::Payload { format, uris }).state == s,
        step(s, SignalView::Payload { format, uris }).state.inside == s.inside,
        step(s, SignalView::Payload { format, uris }).event is None,
{
}

/// A URI-list payload followed by a drop hands the decoded paths, in order,
/// to one `Drop` event at the drop's position; a second drop right after
/// emits nothing and reports the drag as not handled.
pub proof fn lemma_payload_then_drop(
    s: SessionView,
    uris: Seq<Seq<char>>,
    x: i32,
    y: i32,
    x2: i32,
    y2: i32,
)
    requires
        s.wf(),
    ensures
        ({
            let t1 = step(s, SignalView::Payload { format: URI_LIST_FORMAT, uris });
            let t2 = step(t1.state, SignalView::Drop { x, y });
            let t3 = step(t2.state, SignalView::Drop { x: x2, y: y2 });
            &&& t2.event == Some(EventView::Drop { paths: paths_of(uris), position: (x, y) })
            &&& t2.answer == Answer::Forward
            &&& t3.event is None
            &&& t3.answer == Answer::Refuse
        }),
{
}

/// A leave with a zero timing token always emits the shape's cancel event
/// and ends the drag, whatever the state before.
pub proof fn lemma_cancel_always_reported(s: SessionView)
    requires
        s.wf(),
    ensures
        step(s, SignalView::Leave { time: 0 }).event == Some(cancel_event(s.shape)),
        !step(s, SignalView::Leave { time: 0 }).state.inside,
        step(s, SignalView::Leave { time: 0 }).state.paths is None,
{
}

/// During a drag, the leave that comes just before a drop (non-zero timing
/// token) emits nothing and changes nothing, so the drop that follows emits
/// exactly one `Drop` event and no cancel.
pub proof fn lemma_leave_before_drop(s: SessionView, time: u32, x: i32, y: i32)
    requires
        s.wf(),
        s.inside,
        time != 0,
    ensures
        step(s, SignalView::Leave { time }).event is None,
        step(s, SignalView::Leave { time }).state == s,
        step(step(s, SignalView::Leave { time }).state, SignalView::Drop { x, y }).event == Some(
            EventView::Drop { paths: s.paths->0, position: (x, y) },
        ),
{
}

/// Captured paths are taken at most once: after a drop or a real cancel no
/// paths are held, so a second consuming notification finds none and emits
/// no `Drop`.
pub proof fn lemma_paths_taken_once(s: SessionView, first: SignalView, second: SignalView)
    requires
        s.wf(),
        is_consuming(first),
        is_consuming(second),
    ensures
        step(s, first).state.paths is None,
        !(step(step(s, first).state, second).event matches Some(EventView::Drop { .. })),
{
}

} // verus!
