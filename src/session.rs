//! The drag session: the state kept between notifications, and the
//! translation of each notification into at most one application event.

use vstd::prelude::*;

use crate::uri::{paths_from_uris, paths_of};

verus! {

/// The payload format tag that marks a list of `file://` URIs.
pub const URI_LIST_FORMAT: u32 = 2;

/// The event vocabulary that the application receives.
#[derive(Clone, Copy, Debug, PartialEq, Eq, Structural)]
pub enum EventShape {
    /// A genuine cancel is reported as `Leave`; a failed drag is not reported.
    DragDrop,
    /// A genuine cancel is reported as `Cancelled`, and so is a failed drag.
    FileDrop,
}

/// A raw notification from the web view.
#[derive(Debug)]
pub enum Signal {
    /// Data was delivered for the drag, tagged with its format.
    Payload { format: u32, uris: Vec<String> },
    /// The pointer moved over the surface.
    Motion { x: i32, y: i32 },
    /// The pointer was released over the surface.
    Drop { x: i32, y: i32 },
    /// The pointer left the surface; a zero timing token marks a real cancel.
    Leave { time: u32 },
    Begin,
    End,
    Failed,
}

/// An application-facing drag-and-drop event.
#[derive(Debug, PartialEq, Eq)]
pub enum Event {
    Enter { paths: Vec<String>, position: (i32, i32) },
    Over { position: (i32, i32) },
    Drop { paths: Vec<String>, position: (i32, i32) },
    Leave,
    Cancelled,
}

/// What the notification's own return value is to be made of.
#[derive(Clone, Copy, Debug, PartialEq, Eq, Structural)]
pub enum Answer {
    /// The notification has no return value.
    Nothing,
    /// Report the drag as not handled.
    Refuse,
    /// Report whatever the sink answered.
    Forward,
    /// Stop the toolkit's own handling where the sink handled the event,
    /// and let it proceed otherwise.
    StopIfHandled,
    /// Let the toolkit proceed with its own handling.
    Proceed,
}

/// Whether the toolkit goes on with its own handling of a notification.
#[derive(Clone, Copy, Debug, PartialEq, Eq, Structural)]
pub enum Propagation {
    Stop,
    Proceed,
}

/// The value handed back to the toolkit for a notification.
#[derive(Clone, Copy, Debug, PartialEq, Eq, Structural)]
pub enum Reply {
    Nothing,
    Handled(bool),
    Propagate(Propagation),
}

/// The outcome of one notification: the event to hand to the sink, if any,
/// and how to answer the toolkit.
#[derive(Debug)]
pub struct Step {
    pub event: Option<Event>,
    pub answer: Answer,
}

pub enum SignalView {
    Payload { format: u32, uris: Seq<Seq<char>> },
    Motion { x: i32, y: i32 },
    Drop { x: i32, y: i32 },
    Leave { time: u32 },
    Begin,
    End,
    Failed,
}

pub enum EventView {
    Enter { paths: Seq<Seq<char>>, position: (i32, i32) },
    Over { position: (i32, i32) },
    Drop { paths: Seq<Seq<char>>, position: (i32, i32) },
    Leave,
    Cancelled,
}

impl View for Signal {
    type V = SignalView;

    open spec fn view(&self) -> SignalView {
        match *self {
            Signal::Payload { format, uris } => SignalView::Payload {
                format,
                uris: uris.deep_view(),
            },
            Signal::Motion { x, y } => SignalView::Motion { x, y },
            Signal::Drop { x, y } => SignalView::Drop { x, y },
            Signal::Leave { time } => SignalView::Leave { time },
            Signal::Begin => SignalView::Begin,
            Signal::End => SignalView::End,
            Signal::Failed => SignalView::Failed,
        }
    }
}

impl View for Event {
    type V = EventView;

    open spec fn view(&self) -> EventView {
        match *self {
            Event::Enter { paths, position } => EventView::Enter {
                paths: paths.deep_view(),
                position,
            },
            Event::Over { position } => EventView::Over { position },
            Event::Drop { paths, position } => EventView::Drop {
                paths: paths.deep_view(),
                position,
            },
            Event::Leave => EventView::Leave,
            Event::Cancelled => EventView::Cancelled,
        }
    }
}

pub open spec fn event_view(e: Option<Event>) -> Option<EventView> {
    match e {
        Some(e) => Some(e@),
        None => None,
    }
}

/// The abstract state of a drag session.
pub struct SessionView {
    /// The paths of the payload that no drop or cancel has consumed yet.
    pub paths: Option<Seq<Seq<char>>>,
    /// Whether a drag carrying paths is over the surface.
    pub inside: bool,
    /// The last pointer position seen outside a drag.
    pub position: (i32, i32),
    pub shape: EventShape,
    /// Whether pointer motion during a drag is reported.
    pub hover: bool,
}

impl SessionView {
    /// Paths are held exactly while a drag is inside.
    pub open spec fn wf(self) -> bool {
        self.inside == self.paths is Some
    }

    /// This state with no drag in progress.
    pub open spec fn outside(self) -> SessionView {
        SessionView { paths: None, inside: false, ..self }
    }
}

/// The event that reports a genuine cancel in the given shape.
pub open spec fn cancel_event(shape: EventShape) -> EventView {
    match shape {
        EventShape::DragDrop => EventView::Leave,
        EventShape::FileDrop => EventView::Cancelled,
    }
}

/// A state, the event emitted on the way to it, and the answer owed.
pub struct Transition {
    pub state: SessionView,
    pub event: Option<EventView>,
    pub answer: Answer,
}

pub open spec fn quiet(s: SessionView, answer: Answer) -> Transition {
    Transition { state: s, event: None, answer }
}

/// The transition table of a drag session.
pub open spec fn step(s: SessionView, sig: SignalView) -> Transition {
    match sig {
        SignalView::Payload { format, uris } => if format == URI_LIST_FORMAT {
            Transition {
                state: SessionView { paths: Some(paths_of(uris)), inside: true, ..s },
                event: Some(EventView::Enter { paths: paths_of(uris), position: s.position }),
                answer: Answer::Nothing,
            }
        } else {
            quiet(s, Answer::Nothing)
        },
        SignalView::Motion { x, y } => if !s.inside {
            quiet(SessionView { position: (x, y), ..s }, Answer::Nothing)
        } else if s.hover {
            Transition {
                state: s,
                event: Some(EventView::Over { position: (x, y) }),
                answer: Answer::Nothing,
            }
        } else {
            quiet(s, Answer::Nothing)
        },
        SignalView::Drop { x, y } => if s.inside && s.paths is Some {
            Transition {
                state: s.outside(),
                event: Some(EventView::Drop { paths: s.paths->0, position: (x, y) }),
                answer: Answer::Forward,
            }
        } else {
            quiet(s, Answer::Refuse)
        },
        SignalView::Leave { time } => if time == 0 {
            Transition {
                state: s.outside(),
                event: Some(cancel_event(s.shape)),
                answer: Answer::Nothing,
            }
        } else {
            quiet(s, Answer::Nothing)
        },
        SignalView::Begin => quiet(s, Answer::Nothing),
        SignalView::End => quiet(s, Answer::Nothing),
        SignalView::Failed => match s.shape {
            EventShape::DragDrop => quiet(s, Answer::Proceed),
            EventShape::FileDrop => Transition {
                state: s,
                event: Some(EventView::Cancelled),
                answer: Answer::StopIfHandled,
            },
        },
    }
}

/// The reply owed for an answer, given what the sink returned (false where
/// no event was handed to it).
pub open spec fn reply_for(answer: Answer, handled: bool) -> Reply {
    match answer {
        Answer::Nothing => Reply::Nothing,
        Answer::Refuse => Reply::Handled(false),
        Answer::Forward => Reply::Handled(handled),
        Answer::StopIfHandled => if handled {
            Reply::Propagate(Propagation::Stop)
        } else {
            Reply::Propagate(Propagation::Proceed)
        },
        Answer::Proceed => Reply::Propagate(Propagation::Proceed),
    }
}

/// The state after the sink's result came back: a failure that the sink
/// handled as a cancel ends the drag.
pub open spec fn settle(s: SessionView, answer: Answer, handled: bool) -> SessionView {
    if answer == Answer::StopIfHandled && handled {
        s.outside()
    } else {
        s
    }
}

/// The state that one web view keeps between drag notifications.
pub struct DragSession {
    paths: Option<Vec<String>>,
    inside: bool,
    position: (i32, i32),
    shape: EventShape,
    hover: bool,
}

impl View for DragSession {
    type V = SessionView;

    closed spec fn view(&self) -> SessionView {
        SessionView {
            paths: match self.paths {
                Some(v) => Some(v.deep_view()),
                None => None,
            },
            inside: self.inside,
            position: self.position,
            shape: self.shape,
            hover: self.hover,
        }
    }
}

impl DragSession {
    /// A session with no drag in progress, at position (0, 0).
    pub fn new(shape: EventShape, hover: bool) -> (r: DragSession)
        ensures
            r@ == (SessionView { paths: None, inside: false, position: (0, 0), shape, hover }),
    {
        DragSession { paths: None, inside: false, position: (0, 0), shape, hover }
    }

    /// Whether a drag carrying paths is over the surface.
    pub fn has_entered(&self) -> (r: bool)
        ensures
            r == self@.inside,
    {
        self.inside
    }

    /// The last pointer position seen outside a drag.
    pub fn position(&self) -> (r: (i32, i32))
        ensures
            r == self@.position,
    {
        self.position
    }

    /// Whether paths of a payload are waiting for a drop.
    pub fn holds_paths(&self) -> (r: bool)
        ensures
            r == self@.paths is Some,
    {
        self.paths.is_some()
    }

    /// Handles one notification: updates the session and says which event,
    /// if any, goes to the sink and how the notification is answered.
    pub fn dispatch(&mut self, signal: Signal) -> (r: Step)
        requires
            old(self)@.wf(),
        ensures
            final(self)@.wf(),
            final(self)@ == step(old(self)@, signal@).state,
            event_view(r.event) == step(old(self)@, signal@).event,
            r.answer == step(old(self)@, signal@).answer,
    {
        match signal {
            Signal::Payload { format, uris } => {
                if format == URI_LIST_FORMAT {
                    let paths = paths_from_uris(&uris);
                    let copy = paths.clone();
                    proof {
                        assert(copy.deep_view() =~= paths.deep_view());
                    }
                    self.paths = Some(copy);
                    self.inside = true;
                    Step {
                        event: Some(Event::Enter { paths, position: self.position }),
                        answer: Answer::Nothing,
                    }
                } else {
                    Step { event: None, answer: Answer::Nothing }
                }
            },
            Signal::Motion { x, y } => {
                if !self.inside {
                    self.position = (x, y);
                    Step { event: None, answer: Answer::Nothing }
                } else if self.hover {
                    Step { event: Some(Event::Over { position: (x, y) }), answer: Answer::Nothing }
                } else {
                    Step { event: None, answer: Answer::Nothing }
                }
            },
            Signal::Drop { x, y } => {
                if self.inside {
                    match self.paths.take() {
                        Some(paths) => {
                            self.inside = false;
                            Step {
                                event: Some(Event::Drop { paths, position: (x, y) }),
                                answer: Answer::Forward,
                            }
                        },
                        None => Step { event: None, answer: Answer::Refuse },
                    }
                } else {
                    Step { event: None, answer: Answer::Refuse }
                }
            },
            Signal::Leave { time } => {
                if time == 0 {
                    self.paths = None;
                    self.inside = false;
                    let event = match self.shape {
                        EventShape::DragDrop => Event::Leave,
                        EventShape::FileDrop => Event::Cancelled,
                    };
                    Step { event: Some(event), answer: Answer::Nothing }
                } else {
                    Step { event: None, answer: Answer::Nothing }
                }
            },
            Signal::Begin | Signal::End => Step { event: None, answer: Answer::Nothing },
            Signal::Failed => match self.shape {
                EventShape::DragDrop => Step { event: None, answer: Answer::Proceed },
                EventShape::FileDrop => Step {
                    event: Some(Event::Cancelled),
                    answer: Answer::StopIfHandled,
                },
            },
        }
    }

    /// Turns an answer into the reply for the toolkit, given what the sink
    /// returned for the step's event (false where there was none).
    pub fn complete(&mut self, answer: Answer, handled: bool) -> (r: Reply)
        requires
            old(self)@.wf(),
        ensures
            final(self)@.wf(),
            final(self)@ == settle(old(self)@, answer, handled),
            r == reply_for(answer, handled),
    {
        match answer {
            Answer::Nothing => Reply::Nothing,
            Answer::Refuse => Reply::Handled(false),
            Answer::Forward => Reply::Handled(handled),
            Answer::StopIfHandled => {
                if handled {
                    self.paths = None;
                    self.inside = false;
                    Reply::Propagate(Propagation::Stop)
                } else {
                    Reply::Propagate(Propagation::Proceed)
                }
            },
            Answer::Proceed => Reply::Propagate(Propagation::Proceed),
        }
    }
}

} // verus!
