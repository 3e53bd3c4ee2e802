//! The life of one server-sent-event stream, as a step machine: each
//! arriving occurrence — a bus notification, a heartbeat tick, a lag
//! notice, the shutdown signal — either produces a frame for the wire
//! or none, and the shutdown signal closes the stream on the very step
//! it arrives. The asynchronous runtime merely feeds occurrences in
//! and writes frames out.

use vstd::prelude::*;

use crate::bus::spec_should_deliver;
use crate::claims::UserId;

verus! {

/// What can reach an open stream.
pub enum SseEvent {
    /// A notification from the bus, with its target filter.
    Message { target: Option<UserId>, text: String },
    /// The periodic keep-alive tick.
    Heartbeat,
    /// The process-wide termination signal.
    Shutdown,
    /// The subscriber fell behind and the bus dropped entries for it.
    Lagged,
}

pub enum SseEventView {
    Message { target: Option<UserId>, text: Seq<char> },
    Heartbeat,
    Shutdown,
    Lagged,
}

impl View for SseEvent {
    type V = SseEventView;

    open spec fn view(&self) -> SseEventView {
        match self {
            SseEvent::Message { target, text } => SseEventView::Message {
                target: *target,
                text: text@,
            },
            SseEvent::Heartbeat => SseEventView::Heartbeat,
            SseEvent::Shutdown => SseEventView::Shutdown,
            SseEvent::Lagged => SseEventView::Lagged,
        }
    }
}

/// A frame on the wire: a data frame carrying a notification's text,
/// or a named heartbeat frame with no data.
pub enum SseFrame {
    Data(String),
    Heartbeat,
}

pub enum SseFrameView {
    Data(Seq<char>),
    Heartbeat,
}

impl View for SseFrame {
    type V = SseFrameView;

    open spec fn view(&self) -> SseFrameView {
        match self {
            SseFrame::Data(text) => SseFrameView::Data(text@),
            SseFrame::Heartbeat => SseFrameView::Heartbeat,
        }
    }
}

/// One stream's state: whose connection it is, and whether it is
/// still open.
#[derive(Clone, Copy, PartialEq, Eq, Structural)]
pub struct SseConnection {
    pub subscriber: Option<UserId>,
    pub open: bool,
}

/// One step of a stream: a closed stream emits nothing ever; shutdown
/// closes an open stream at once and silently; a notification becomes
/// a data frame exactly when its target matches the connection; a
/// heartbeat becomes a heartbeat frame; a lag notice is swallowed —
/// the stream goes on, minus what the bus dropped.
pub open spec fn spec_sse_step(st: SseConnection, ev: SseEventView) -> (
    SseConnection,
    Option<SseFrameView>,
) {
    if !st.open {
        (st, None)
    } else {
        match ev {
            SseEventView::Shutdown => (SseConnection { open: false, ..st }, None),
            SseEventView::Message { target, text } => (
                st,
                if spec_should_deliver(target, st.subscriber) {
                    Some(SseFrameView::Data(text))
                } else {
                    None
                },
            ),
            SseEventView::Heartbeat => (st, Some(SseFrameView::Heartbeat)),
            SseEventView::Lagged => (st, None),
        }
    }
}

impl SseConnection {
    /// A stream just accepted for this identity.
    pub fn new(subscriber: Option<UserId>) -> (r: SseConnection)
        ensures
            r == (SseConnection { subscriber, open: true }),
    {
        SseConnection { subscriber, open: true }
    }

    /// Feeds one occurrence in and takes the frame out, if one is due.
    pub fn step(&mut self, event: SseEvent) -> (out: Option<SseFrame>)
        ensures
            ({
                let (st, frame) = spec_sse_step(*old(self), event@);
                &&& *final(self) == st
                &&& frame == match out {
                    Some(f) => Some(f@),
                    None => None,
                }
            }),
    {
        if !self.open {
            return None;
        }
        match event {
            SseEvent::Shutdown => {
                self.open = false;
                None
            },
            SseEvent::Message { target, text } => {
                if crate::bus::should_deliver(target, self.subscriber) {
                    Some(SseFrame::Data(text))
                } else {
                    None
                }
            },
            SseEvent::Heartbeat => Some(SseFrame::Heartbeat),
            SseEvent::Lagged => None,
        }
    }
}

/// Shutdown is immediate and final: the signal closes an open stream
/// on the very step it arrives, with no further frame, and a closed
/// stream never emits anything again, whatever else reaches it.
pub proof fn lemma_shutdown_terminates(st: SseConnection, ev: SseEventView)
    ensures
        spec_sse_step(st, SseEventView::Shutdown).0.open == false,
        spec_sse_step(st, SseEventView::Shutdown).1 is None,
        !st.open ==> spec_sse_step(st, ev) == (st, None::<SseFrameView>),
{
}

/// A targeted notification reaches exactly the streams of its target:
/// of two open streams with distinct signed-in users, only the
/// addressed one yields the data frame; an untargeted notification
/// yields it on both.
pub proof fn lemma_sse_fanout(
    a: SseConnection,
    b: SseConnection,
    ua: UserId,
    ub: UserId,
    text: Seq<char>,
)
    requires
        a.open,
        b.open,
        a.subscriber == Some(ua),
        b.subscriber == Some(ub),
        ua != ub,
    ensures
        spec_sse_step(a, SseEventView::Message { target: Some(ua), text }).1 == Some(
            SseFrameView::Data(text),
        ),
        spec_sse_step(b, SseEventView::Message { target: Some(ua), text }).1 is None,
        spec_sse_step(a, SseEventView::Message { target: None, text }).1 == Some(
            SseFrameView::Data(text),
        ),
        spec_sse_step(b, SseEventView::Message { target: None, text }).1 == Some(
            SseFrameView::Data(text),
        ),
{
}

} // verus!
