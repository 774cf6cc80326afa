//! Frames that the server sends over the upload channel.

use vstd::prelude::*;
use vstd::string::*;

verus! {

/// A message received from the server while an upload is in progress.
#[derive(Debug, PartialEq, Eq)]
pub enum ServerFrame {
    /// A text frame with its payload.
    Text(String),
    /// A binary frame with its payload.
    Binary(Vec<u8>),
    /// A ping control frame.
    Ping,
    /// A pong control frame.
    Pong,
    /// A close control frame.
    Close,
}

/// The mathematical value of a [`ServerFrame`].
pub enum FrameView {
    Text(Seq<char>),
    Binary(Seq<u8>),
    Ping,
    Pong,
    Close,
}

impl View for ServerFrame {
    type V = FrameView;

    open spec fn view(&self) -> FrameView {
        match *self {
            ServerFrame::Text(t) => FrameView::Text(t@),
            ServerFrame::Binary(b) => FrameView::Binary(b@),
            ServerFrame::Ping => FrameView::Ping,
            ServerFrame::Pong => FrameView::Pong,
            ServerFrame::Close => FrameView::Close,
        }
    }
}

/// The payload by which the server acknowledges a chunk.
pub open spec fn ack_text() -> Seq<char> {
    "ACK"@
}

/// Whether a frame is the acknowledgement of a chunk: a text frame whose
/// payload is exactly `ACK`.
pub open spec fn is_ack_frame(frame: FrameView) -> bool {
    frame == FrameView::Text(ack_text())
}

impl ServerFrame {
    /// Tells whether this frame acknowledges a chunk.
    pub fn is_ack(&self) -> (r: bool)
        ensures
            r == is_ack_frame(self@),
    {
        match self {
            ServerFrame::Text(t) => {
                let expected = String::from_str("ACK");
                *t == expected
            },
            _ => false,
        }
    }

    /// A copy of this frame.
    pub fn duplicate(&self) -> (r: ServerFrame)
        ensures
            r@ == self@,
    {
        match self {
            ServerFrame::Text(t) => ServerFrame::Text(t.clone()),
            ServerFrame::Binary(b) => ServerFrame::Binary(b.clone()),
            ServerFrame::Ping => ServerFrame::Ping,
            ServerFrame::Pong => ServerFrame::Pong,
            ServerFrame::Close => ServerFrame::Close,
        }
    }
}

} // verus!
