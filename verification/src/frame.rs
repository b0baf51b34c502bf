//! The frames that a read on an upgraded connection hands over.

use vstd::prelude::*;
use vstd::utf8::{decode_utf8, valid_utf8};

verus! {

/// One frame, as the protocol layer delivers it. A close frame stands for the
/// peer's wish to end the connection; what it carries is not kept.
#[derive(Clone, Debug, PartialEq, Eq)]
pub enum Frame {
    Text(String),
    Binary(Vec<u8>),
    Ping(Vec<u8>),
    Pong(Vec<u8>),
    Close,
}

/// What a frame holds, as plain values.
pub enum FrameView {
    Text(Seq<char>),
    Binary(Seq<u8>),
    Ping(Seq<u8>),
    Pong(Seq<u8>),
    Close,
}

impl View for Frame {
    type V = FrameView;

    open spec fn view(&self) -> FrameView {
        match self {
            Frame::Text(text) => FrameView::Text(text@),
            Frame::Binary(data) => FrameView::Binary(data@),
            Frame::Ping(data) => FrameView::Ping(data@),
            Frame::Pong(data) => FrameView::Pong(data@),
            Frame::Close => FrameView::Close,
        }
    }
}

impl FrameView {
    /// The bytes that a binary, ping or pong frame carries.
    pub open spec fn data(self) -> Option<Seq<u8>> {
        match self {
            FrameView::Binary(data) => Some(data),
            FrameView::Ping(data) => Some(data),
            FrameView::Pong(data) => Some(data),
            _ => None,
        }
    }
}

/// The text that `tungstenite::Message` displays for the message that `frame`
/// stands for.
pub uninterp spec fn shown(frame: FrameView) -> Seq<char>;

/// Builds the `tungstenite::Message` that the frame stands for (a close frame
/// as one that carries nothing) and calls its `Display`, through `to_string`.
/// The contract claims that the text is a function of the frame; that a text
/// frame displays as the text it holds; and that a binary, ping or pong frame
/// whose bytes are valid UTF-8 displays as the text that they encode. What is
/// displayed for bytes that are not valid UTF-8 is left to the name.
#[verifier::external_body]
pub(crate) fn show(frame: &Frame) -> (text: String)
    ensures
        text@ == shown(frame@),
        frame@ matches FrameView::Text(held) ==> text@ == held,
        frame@.data() matches Some(data) ==> (valid_utf8(data) ==> text@ == decode_utf8(data)),
{
    let message = match frame {
        Frame::Text(text) => tungstenite::Message::Text(text.clone()),
        Frame::Binary(data) => tungstenite::Message::Binary(data.clone()),
        Frame::Ping(data) => tungstenite::Message::Ping(data.clone()),
        Frame::Pong(data) => tungstenite::Message::Pong(data.clone()),
        Frame::Close => tungstenite::Message::Close(None),
    };
    message.to_string()
}

/// The text that carried bytes give to decode: the text that they encode
/// where they are valid UTF-8, else what the protocol layer displays for the
/// frame.
pub open spec fn data_text(frame: FrameView, data: Seq<u8>) -> Seq<char> {
    if valid_utf8(data) {
        decode_utf8(data)
    } else {
        shown(frame)
    }
}

/// The text that a frame gives to decode: none for a close frame, the text
/// held for a text frame, and for a binary, ping or pong frame the text of
/// the bytes it carries.
pub open spec fn payload_text(frame: FrameView) -> Option<Seq<char>> {
    match frame {
        FrameView::Close => None,
        FrameView::Text(held) => Some(held),
        FrameView::Binary(data) => Some(data_text(frame, data)),
        FrameView::Ping(data) => Some(data_text(frame, data)),
        FrameView::Pong(data) => Some(data_text(frame, data)),
    }
}

impl Frame {
    /// The text that the frame gives to decode, if any.
    pub fn payload(&self) -> (text: Option<String>)
        ensures
            match text {
                Some(text) => payload_text(self@) == Some(text@),
                None => payload_text(self@) is None,
            },
    {
        match self {
            Frame::Close => None,
            _ => Some(show(self)),
        }
    }
}

} // verus!
