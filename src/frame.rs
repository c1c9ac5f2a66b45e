//! One frame read from a transport stream, as the hub's logic sees it.
use vstd::prelude::*;

verus! {

/// A frame of a duplex transport stream. Only text and close frames matter
/// to the hub; the other kinds are told apart but carry nothing.
pub enum Frame {
    Text(String),
    Binary,
    Ping,
    Pong,
    Close,
}

/// The mathematical value of a [`Frame`]: its text as a sequence of characters.
pub enum FrameView {
    Text(Seq<char>),
    Binary,
    Ping,
    Pong,
    Close,
}

impl View for Frame {
    type V = FrameView;

    open spec fn view(&self) -> FrameView {
        match self {
            Frame::Text(t) => FrameView::Text(t@),
            Frame::Binary => FrameView::Binary,
            Frame::Ping => FrameView::Ping,
            Frame::Pong => FrameView::Pong,
            Frame::Close => FrameView::Close,
        }
    }
}

} // verus!
