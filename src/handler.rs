//! The decisions of one connection handler.
//!
//! A handler waits on whichever of two sources is ready first: the next
//! inbound frame of its transport stream, and the next message of its bus
//! subscription. Each ready source becomes one [`HandlerEvent`]; the handler
//! answers with one [`HandlerAction`] for the caller to perform.
use vstd::prelude::*;
use crate::annotate::{annotate, annotation};
use crate::bus::Received;
use crate::frame::{Frame, FrameView};

verus! {

/// Running, then Closing once either side has ended, then Terminated once the
/// stream and the subscription are released.
#[derive(Clone, Copy, Debug, PartialEq, Eq, Structural)]
pub enum HandlerPhase {
    Running,
    Closing,
    Terminated,
}

/// What became ready for a handler.
pub enum HandlerEvent {
    /// A frame arrived on the transport stream.
    Inbound(Frame),
    /// Reading the transport stream failed.
    InboundError,
    /// The transport stream has no more frames.
    InboundEnd,
    /// The bus delivered a message.
    Delivered(String),
    /// The subscription fell behind and this many messages were lost to it.
    Lagged(u64),
    /// The bus has no publishers left.
    BusClosed,
    /// Writing an outbound frame failed.
    WriteFailed,
}

pub enum HandlerEventView {
    Inbound(FrameView),
    InboundError,
    InboundEnd,
    Delivered(Seq<char>),
    Lagged(u64),
    BusClosed,
    WriteFailed,
}

impl View for HandlerEvent {
    type V = HandlerEventView;

    open spec fn view(&self) -> HandlerEventView {
        match self {
            HandlerEvent::Inbound(f) => HandlerEventView::Inbound(f@),
            HandlerEvent::InboundError => HandlerEventView::InboundError,
            HandlerEvent::InboundEnd => HandlerEventView::InboundEnd,
            HandlerEvent::Delivered(m) => HandlerEventView::Delivered(m@),
            HandlerEvent::Lagged(n) => HandlerEventView::Lagged(*n),
            HandlerEvent::BusClosed => HandlerEventView::BusClosed,
            HandlerEvent::WriteFailed => HandlerEventView::WriteFailed,
        }
    }
}

/// What the caller does next for a handler.
pub enum HandlerAction {
    /// Publish this line on the bus, ignoring whether anyone received it.
    Publish(String),
    /// Write this line to the transport stream as a text frame.
    Send(String),
    /// Nothing; wait again.
    Ignore,
    /// Leave the loop and release the stream and the subscription.
    Close,
}

pub enum HandlerActionView {
    Publish(Seq<char>),
    Send(Seq<char>),
    Ignore,
    Close,
}

impl View for HandlerAction {
    type V = HandlerActionView;

    open spec fn view(&self) -> HandlerActionView {
        match self {
            HandlerAction::Publish(m) => HandlerActionView::Publish(m@),
            HandlerAction::Send(m) => HandlerActionView::Send(m@),
            HandlerAction::Ignore => HandlerActionView::Ignore,
            HandlerAction::Close => HandlerActionView::Close,
        }
    }
}

/// How a handler ended, when it did not end cleanly.
#[derive(Clone, Copy, Debug, PartialEq, Eq, Structural)]
pub enum HandlerError {
    /// Writing an outbound frame failed.
    WriteFailed,
}

/// The state of a handler: the address of its connection, its phase, and
/// whether it is closing because a write failed.
pub struct HandlerView {
    pub addr: Seq<char>,
    pub phase: HandlerPhase,
    pub write_failed: bool,
}

/// A running handler has not recorded a failed write.
pub open spec fn handler_wf(h: HandlerView) -> bool {
    h.phase is Running ==> !h.write_failed
}

/// Releasing a handler: it becomes Terminated, and its result is an error
/// exactly when a write failed.
pub open spec fn handler_finish(h: HandlerView) -> (HandlerView, Result<(), HandlerError>) {
    (
        HandlerView { phase: HandlerPhase::Terminated, ..h },
        if h.write_failed {
            Err(HandlerError::WriteFailed)
        } else {
            Ok(())
        },
    )
}

/// True for the events that end a handler's transport side.
pub open spec fn ends_transport(ev: HandlerEventView) -> bool {
    ||| ev == HandlerEventView::Inbound(FrameView::Close)
    ||| ev is InboundError
    ||| ev is InboundEnd
}

/// One step of a handler. A handler that is no longer running ignores every
/// event. A running one publishes the annotated text of each text frame,
/// writes out each delivered message, skips a lag and other frames, and
/// moves to Closing when either side ends or a write fails.
pub open spec fn handler_step(
    h: HandlerView,
    ev: HandlerEventView,
) -> (HandlerView, HandlerActionView) {
    if !(h.phase is Running) {
        (h, HandlerActionView::Ignore)
    } else {
        match ev {
            HandlerEventView::Inbound(FrameView::Text(t)) => (
                h,
                HandlerActionView::Publish(annotation(h.addr, t)),
            ),
            HandlerEventView::Inbound(FrameView::Close) | HandlerEventView::InboundError
            | HandlerEventView::InboundEnd | HandlerEventView::BusClosed => (
                HandlerView { phase: HandlerPhase::Closing, ..h },
                HandlerActionView::Close,
            ),
            HandlerEventView::Inbound(_) => (h, HandlerActionView::Ignore),
            HandlerEventView::Delivered(m) => (h, HandlerActionView::Send(m)),
            HandlerEventView::Lagged(_) => (h, HandlerActionView::Ignore),
            HandlerEventView::WriteFailed => (
                HandlerView { phase: HandlerPhase::Closing, write_failed: true, ..h },
                HandlerActionView::Close,
            ),
        }
    }
}

/// The decisions of the handler of one connection.
pub struct Handler {
    addr: String,
    phase: HandlerPhase,
    write_failed: bool,
}

impl Handler {
    #[verifier::type_invariant]
    spec fn inv(&self) -> bool {
        self.phase is Running ==> !self.write_failed
    }
}

impl View for Handler {
    type V = HandlerView;

    closed spec fn view(&self) -> HandlerView {
        HandlerView { addr: self.addr@, phase: self.phase, write_failed: self.write_failed }
    }
}

impl Handler {
    /// A running handler for the connection at `addr`.
    pub fn new(addr: String) -> (h: Handler)
        ensures
            h@ == (HandlerView { addr: addr@, phase: HandlerPhase::Running, write_failed: false }),
            handler_wf(h@),
    {
        Handler { addr, phase: HandlerPhase::Running, write_failed: false }
    }

    /// The address of the connection, as it appears in broadcast lines.
    pub fn addr(&self) -> (r: &str)
        ensures
            r@ == self@.addr,
    {
        self.addr.as_str()
    }

    pub fn phase(&self) -> (r: HandlerPhase)
        ensures
            r == self@.phase,
            handler_wf(self@),
    {
        proof {
            use_type_invariant(self);
        }
        self.phase
    }

    pub fn is_running(&self) -> (r: bool)
        ensures
            r == (self@.phase is Running),
    {
        matches!(self.phase, HandlerPhase::Running)
    }

    /// Decides what to do with one event.
    pub fn on_event(&mut self, ev: HandlerEvent) -> (r: HandlerAction)
        ensures
            (final(self)@, r@) == handler_step(old(self)@, ev@),
            handler_wf(old(self)@),
            handler_wf(final(self)@),
    {
        proof {
            use_type_invariant(&*self);
        }
        if !self.is_running() {
            return HandlerAction::Ignore;
        }
        match ev {
            HandlerEvent::Inbound(Frame::Text(t)) => HandlerAction::Publish(
                annotate(self.addr.as_str(), t.as_str()),
            ),
            HandlerEvent::Inbound(Frame::Close) | HandlerEvent::InboundError
            | HandlerEvent::InboundEnd | HandlerEvent::BusClosed => {
                self.phase = HandlerPhase::Closing;
                HandlerAction::Close
            },
            HandlerEvent::Inbound(_) => HandlerAction::Ignore,
            HandlerEvent::Delivered(m) => HandlerAction::Send(m),
            HandlerEvent::Lagged(_) => HandlerAction::Ignore,
            HandlerEvent::WriteFailed => {
                self.phase = HandlerPhase::Closing;
                self.write_failed = true;
                HandlerAction::Close
            },
        }
    }

    /// Releases the handler: it becomes Terminated, and reports a failed
    /// write as its result.
    pub fn finish(&mut self) -> (r: Result<(), HandlerError>)
        ensures
            (final(self)@, r) == handler_finish(old(self)@),
            handler_wf(old(self)@),
            handler_wf(final(self)@),
    {
        proof {
            use_type_invariant(&*self);
        }
        self.phase = HandlerPhase::Terminated;
        if self.write_failed {
            Err(HandlerError::WriteFailed)
        } else {
            Ok(())
        }
    }
}

/// The handler event for what a subscription found, if it found anything.
pub fn bus_event(r: Received) -> (e: Option<HandlerEvent>)
    ensures
        match r {
            Received::Message(m) => e == Some(HandlerEvent::Delivered(m)),
            Received::Empty => e is None,
            Received::Lagged(n) => e == Some(HandlerEvent::Lagged(n)),
            Received::Closed => e == Some(HandlerEvent::BusClosed),
        },
{
    match r {
        Received::Message(m) => Some(HandlerEvent::Delivered(m)),
        Received::Empty => None,
        Received::Lagged(n) => Some(HandlerEvent::Lagged(n)),
        Received::Closed => Some(HandlerEvent::BusClosed),
    }
}

/// A lag never ends a running handler: it stays as it was, and the message
/// that the bus delivers next is written out.
pub proof fn lag_keeps_handler_running(h: HandlerView, n: u64, m: Seq<char>)
    requires
        h.phase is Running,
    ensures
        handler_step(h, HandlerEventView::Lagged(n)) == (h, HandlerActionView::Ignore),
        handler_step(handler_step(h, HandlerEventView::Lagged(n)).0, HandlerEventView::Delivered(m))
            == (h, HandlerActionView::Send(m)),
{
}

/// Every step keeps a handler well formed.
pub proof fn step_keeps_handler_wf(h: HandlerView, ev: HandlerEventView)
    requires
        handler_wf(h),
    ensures
        handler_wf(handler_step(h, ev).0),
{
}

/// When the transport of one handler ends, that handler alone moves to
/// Closing, publishes nothing for the event, and then ends with success;
/// any other running handler still writes out what the bus delivers and
/// still publishes what its own connection sends.
pub proof fn transport_end_is_isolated(
    a: HandlerView,
    ev: HandlerEventView,
    b: HandlerView,
    m: Seq<char>,
    t: Seq<char>,
)
    requires
        a.phase is Running,
        handler_wf(a),
        b.phase is Running,
        ends_transport(ev),
    ensures
        handler_step(a, ev) == (HandlerView { phase: HandlerPhase::Closing, ..a }, HandlerActionView::Close),
        handler_finish(handler_step(a, ev).0) == (
            HandlerView { phase: HandlerPhase::Terminated, ..a },
            Ok::<(), HandlerError>(()),
        ),
        forall|e: HandlerEventView| #[trigger] handler_step(handler_step(a, ev).0, e)
            == (handler_step(a, ev).0, HandlerActionView::Ignore),
        handler_step(b, HandlerEventView::Delivered(m)) == (b, HandlerActionView::Send(m)),
        handler_step(b, HandlerEventView::Inbound(FrameView::Text(t)))
            == (b, HandlerActionView::Publish(annotation(b.addr, t))),
{
}

/// Every handler, its own sender included, is handed each delivered message
/// to write out, and a text frame is published exactly as its annotation.
pub proof fn no_self_filtering(h: HandlerView, t: Seq<char>)
    requires
        h.phase is Running,
    ensures
        ({
            let (h1, a1) = handler_step(h, HandlerEventView::Inbound(FrameView::Text(t)));
            &&& a1 == HandlerActionView::Publish(annotation(h.addr, t))
            &&& handler_step(h1, HandlerEventView::Delivered(annotation(h.addr, t)))
                == (h, HandlerActionView::Send(annotation(h.addr, t)))
        }),
{
}

} // verus!
