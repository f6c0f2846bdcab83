use webview_dnd::session::{
    Answer, DragSession, Event, EventShape, Propagation, Reply, Signal, Step,
};

fn payload(format: u32, uris: &[&str]) -> Signal {
    Signal::Payload { format, uris: uris.iter().map(|u| u.to_string()).collect() }
}

fn paths(p: &[&str]) -> Vec<String> {
    p.iter().map(|s| s.to_string()).collect()
}

fn quiet(step: &Step) -> bool {
    step.event.is_none()
}

#[test]
fn new_session_is_outside() {
    let s = DragSession::new(EventShape::DragDrop, false);
    assert!(!s.has_entered());
    assert!(!s.holds_paths());
    assert_eq!(s.position(), (0, 0));
}

#[test]
fn other_payload_formats_are_ignored() {
    let mut s = DragSession::new(EventShape::DragDrop, false);
    let r = s.dispatch(payload(0, &["file:///a"]));
    assert!(quiet(&r));
    assert!(!s.has_entered());
    s.dispatch(payload(2, &["file:///a"]));
    let r = s.dispatch(payload(7, &["file:///b"]));
    assert!(quiet(&r));
    assert_eq!(r.answer, Answer::Nothing);
    assert!(s.has_entered());
}

#[test]
fn payload_then_drop_hands_over_decoded_paths_once() {
    let mut s = DragSession::new(EventShape::DragDrop, false);
    s.dispatch(payload(2, &["file:///one%201", "file:///two"]));
    let r = s.dispatch(Signal::Drop { x: 3, y: 4 });
    assert_eq!(r.event, Some(Event::Drop { paths: paths(&["/one 1", "/two"]), position: (3, 4) }));
    assert_eq!(r.answer, Answer::Forward);
    assert!(!s.has_entered());
    let r = s.dispatch(Signal::Drop { x: 3, y: 4 });
    assert!(quiet(&r));
    assert_eq!(r.answer, Answer::Refuse);
    assert_eq!(s.complete(r.answer, false), Reply::Handled(false));
}

#[test]
fn real_cancel_is_always_reported() {
    let mut s = DragSession::new(EventShape::DragDrop, false);
    let r = s.dispatch(Signal::Leave { time: 0 });
    assert_eq!(r.event, Some(Event::Leave));
    s.dispatch(payload(2, &["file:///a"]));
    let r = s.dispatch(Signal::Leave { time: 0 });
    assert_eq!(r.event, Some(Event::Leave));
    assert!(!s.has_entered());
    assert!(!s.holds_paths());
    let mut f = DragSession::new(EventShape::FileDrop, false);
    f.dispatch(payload(2, &["file:///a"]));
    assert_eq!(f.dispatch(Signal::Leave { time: 0 }).event, Some(Event::Cancelled));
    assert!(!f.has_entered());
}

#[test]
fn leave_before_drop_is_not_a_cancel() {
    let mut s = DragSession::new(EventShape::DragDrop, false);
    s.dispatch(payload(2, &["file:///a"]));
    let r = s.dispatch(Signal::Leave { time: 12345 });
    assert!(quiet(&r));
    assert!(s.has_entered());
    let r = s.dispatch(Signal::Drop { x: 1, y: 2 });
    assert_eq!(r.event, Some(Event::Drop { paths: paths(&["/a"]), position: (1, 2) }));
}

#[test]
fn enter_drop_and_second_drop_scenario() {
    let mut s = DragSession::new(EventShape::DragDrop, false);
    assert!(quiet(&s.dispatch(Signal::Motion { x: 10, y: 20 })));
    let r = s.dispatch(payload(2, &["file:///home/a.txt"]));
    assert_eq!(r.event, Some(Event::Enter { paths: paths(&["/home/a.txt"]), position: (10, 20) }));
    let r = s.dispatch(Signal::Drop { x: 15, y: 25 });
    assert_eq!(r.event, Some(Event::Drop { paths: paths(&["/home/a.txt"]), position: (15, 25) }));
    assert!(quiet(&s.dispatch(Signal::Drop { x: 15, y: 25 })));
}

#[test]
fn consuming_twice_takes_nothing_the_second_time() {
    let mut s = DragSession::new(EventShape::DragDrop, false);
    s.dispatch(payload(2, &["file:///a"]));
    s.dispatch(Signal::Leave { time: 0 });
    assert!(!s.holds_paths());
    assert!(quiet(&s.dispatch(Signal::Drop { x: 0, y: 0 })));
    assert!(!s.holds_paths());
}

#[test]
fn empty_uri_list_still_drops() {
    let mut s = DragSession::new(EventShape::DragDrop, false);
    s.dispatch(payload(2, &[]));
    let r = s.dispatch(Signal::Drop { x: 5, y: 6 });
    assert_eq!(r.event, Some(Event::Drop { paths: Vec::new(), position: (5, 6) }));
}

#[test]
fn motion_reports_hover_only_when_enabled() {
    let mut s = DragSession::new(EventShape::DragDrop, true);
    s.dispatch(payload(2, &["file:///a"]));
    let r = s.dispatch(Signal::Motion { x: 7, y: 8 });
    assert_eq!(r.event, Some(Event::Over { position: (7, 8) }));
    let mut q = DragSession::new(EventShape::DragDrop, false);
    q.dispatch(payload(2, &["file:///a"]));
    assert!(quiet(&q.dispatch(Signal::Motion { x: 7, y: 8 })));
    assert_eq!(q.position(), (0, 0));
}

#[test]
fn motion_outside_only_moves_position() {
    let mut s = DragSession::new(EventShape::DragDrop, true);
    assert!(quiet(&s.dispatch(Signal::Motion { x: -4, y: 9 })));
    assert_eq!(s.position(), (-4, 9));
    assert!(!s.has_entered());
}

#[test]
fn begin_and_end_change_nothing() {
    let mut s = DragSession::new(EventShape::FileDrop, false);
    s.dispatch(payload(2, &["file:///a"]));
    assert!(quiet(&s.dispatch(Signal::Begin)));
    assert!(quiet(&s.dispatch(Signal::End)));
    assert!(s.has_entered());
    assert!(s.holds_paths());
}

#[test]
fn failed_drag_in_each_shape() {
    let mut d = DragSession::new(EventShape::DragDrop, false);
    let r = d.dispatch(Signal::Failed);
    assert!(quiet(&r));
    assert_eq!(d.complete(r.answer, false), Reply::Propagate(Propagation::Proceed));

    let mut f = DragSession::new(EventShape::FileDrop, false);
    f.dispatch(payload(2, &["file:///a"]));
    let r = f.dispatch(Signal::Failed);
    assert_eq!(r.event, Some(Event::Cancelled));
    assert_eq!(r.answer, Answer::StopIfHandled);
    assert_eq!(f.complete(Answer::StopIfHandled, false), Reply::Propagate(Propagation::Proceed));
    assert!(f.has_entered());
    assert_eq!(f.complete(Answer::StopIfHandled, true), Reply::Propagate(Propagation::Stop));
    assert!(!f.has_entered());
    assert!(!f.holds_paths());
}

#[test]
fn replies_follow_the_answer() {
    let mut s = DragSession::new(EventShape::DragDrop, false);
    assert_eq!(s.complete(Answer::Nothing, true), Reply::Nothing);
    assert_eq!(s.complete(Answer::Refuse, true), Reply::Handled(false));
    assert_eq!(s.complete(Answer::Forward, true), Reply::Handled(true));
    assert_eq!(s.complete(Answer::Forward, false), Reply::Handled(false));
    assert_eq!(s.complete(Answer::Proceed, true), Reply::Propagate(Propagation::Proceed));
}
