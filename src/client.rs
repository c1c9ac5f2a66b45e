//! The decisions of the client loop, which bridges lines typed locally and
//! one remote transport stream.
use vstd::prelude::*;
use crate::frame::{Frame, FrameView};

verus! {

#[derive(Clone, Copy, Debug, PartialEq, Eq, Structural)]
pub enum ClientPhase {
    Running,
    Terminated,
}

/// What became ready for the client.
pub enum ClientEvent {
    /// A local line was read.
    Line(String),
    /// Local input has no more lines.
    InputEnd,
    /// Reading local input failed.
    InputError,
    /// A frame arrived from the remote stream.
    Remote(Frame),
    /// Reading the remote stream failed.
    RemoteError,
    /// The remote stream has no more frames.
    RemoteEnd,
    /// Sending a frame to the remote stream failed.
    SendFailed,
}

pub enum ClientEventView {
    Line(Seq<char>),
    InputEnd,
    InputError,
    Remote(FrameView),
    RemoteError,
    RemoteEnd,
    SendFailed,
}

impl View for ClientEvent {
    type V = ClientEventView;

    open spec fn view(&self) -> ClientEventView {
        match self {
            ClientEvent::Line(l) => ClientEventView::Line(l@),
            ClientEvent::InputEnd => ClientEventView::InputEnd,
            ClientEvent::InputError => ClientEventView::InputError,
            ClientEvent::Remote(f) => ClientEventView::Remote(f@),
            ClientEvent::RemoteError => ClientEventView::RemoteError,
            ClientEvent::RemoteEnd => ClientEventView::RemoteEnd,
            ClientEvent::SendFailed => ClientEventView::SendFailed,
        }
    }
}

/// What the caller does next for the client.
pub enum ClientAction {
    /// Send this line to the remote stream as a text frame.
    SendText(String),
    /// Print this line locally.
    Print(String),
    /// Nothing; wait again.
    Ignore,
    /// End the session.
    Stop,
}

pub enum ClientActionView {
    SendText(Seq<char>),
    Print(Seq<char>),
    Ignore,
    Stop,
}

impl View for ClientAction {
    type V = ClientActionView;

    open spec fn view(&self) -> ClientActionView {
        match self {
            ClientAction::SendText(l) => ClientActionView::SendText(l@),
            ClientAction::Print(l) => ClientActionView::Print(l@),
            ClientAction::Ignore => ClientActionView::Ignore,
            ClientAction::Stop => ClientActionView::Stop,
        }
    }
}

/// How a session ended, when it did not end cleanly.
#[derive(Clone, Copy, Debug, PartialEq, Eq, Structural)]
pub enum ClientError {
    /// Sending a frame to the remote stream failed.
    SendFailed,
}

/// The state of the client: its phase, and whether it stopped because a
/// send failed.
pub struct ClientView {
    pub phase: ClientPhase,
    pub send_failed: bool,
}

/// One step of the client. A terminated client ignores every event. A
/// running one sends each local line, prints each remote text frame, skips
/// other frames, and terminates when either source ends or fails.
pub open spec fn client_step(c: ClientView, ev: ClientEventView) -> (ClientView, ClientActionView) {
    if c.phase is Terminated {
        (c, ClientActionView::Ignore)
    } else {
        match ev {
            ClientEventView::Line(l) => (c, ClientActionView::SendText(l)),
            ClientEventView::Remote(FrameView::Text(t)) => (c, ClientActionView::Print(t)),
            ClientEventView::Remote(FrameView::Close) | ClientEventView::InputEnd
            | ClientEventView::InputError | ClientEventView::RemoteError
            | ClientEventView::RemoteEnd => (
                ClientView { phase: ClientPhase::Terminated, ..c },
                ClientActionView::Stop,
            ),
            ClientEventView::Remote(_) => (c, ClientActionView::Ignore),
            ClientEventView::SendFailed => (
                ClientView { phase: ClientPhase::Terminated, send_failed: true },
                ClientActionView::Stop,
            ),
        }
    }
}

/// The decisions of one client session.
pub struct ClientLoop {
    phase: ClientPhase,
    send_failed: bool,
}

impl View for ClientLoop {
    type V = ClientView;

    closed spec fn view(&self) -> ClientView {
        ClientView { phase: self.phase, send_failed: self.send_failed }
    }
}

impl ClientLoop {
    pub fn new() -> (c: ClientLoop)
        ensures
            c@ == (ClientView { phase: ClientPhase::Running, send_failed: false }),
    {
        ClientLoop { phase: ClientPhase::Running, send_failed: false }
    }

    pub fn phase(&self) -> (r: ClientPhase)
        ensures
            r == self@.phase,
    {
        self.phase
    }

    /// Decides what to do with one event.
    pub fn on_event(&mut self, ev: ClientEvent) -> (r: ClientAction)
        ensures
            (final(self)@, r@) == client_step(old(self)@, ev@),
    {
        if matches!(self.phase, ClientPhase::Terminated) {
            return ClientAction::Ignore;
        }
        match ev {
            ClientEvent::Line(l) => ClientAction::SendText(l),
            ClientEvent::Remote(Frame::Text(t)) => ClientAction::Print(t),
            ClientEvent::Remote(Frame::Close) | ClientEvent::InputEnd | ClientEvent::InputError
            | ClientEvent::RemoteError | ClientEvent::RemoteEnd => {
                self.phase = ClientPhase::Terminated;
                ClientAction::Stop
            },
            ClientEvent::Remote(_) => ClientAction::Ignore,
            ClientEvent::SendFailed => {
                self.phase = ClientPhase::Terminated;
                self.send_failed = true;
                ClientAction::Stop
            },
        }
    }

    /// The result of the session: an error only when a send failed.
    pub fn outcome(&self) -> (r: Result<(), ClientError>)
        ensures
            r == (if self@.send_failed {
                Err::<(), ClientError>(ClientError::SendFailed)
            } else {
                Ok(())
            }),
    {
        if self.send_failed {
            Err(ClientError::SendFailed)
        } else {
            Ok(())
        }
    }
}

} // verus!
