//! Frames as the transport hands them over, and what the session makes of them.

use vstd::prelude::*;

verus! {

/// A payload that the module host handles or produces.
#[derive(Clone, Debug, PartialEq, Eq)]
pub enum DataMessage {
    /// Text, valid UTF-8 by construction.
    Text(String),
    Binary(Vec<u8>),
}

pub enum DataMessageView {
    Text(Seq<char>),
    Binary(Seq<u8>),
}

impl View for DataMessage {
    type V = DataMessageView;

    open spec fn view(&self) -> DataMessageView {
        match self {
            DataMessage::Text(text) => DataMessageView::Text(text@),
            DataMessage::Binary(bytes) => DataMessageView::Binary(bytes@),
        }
    }
}

/// The size of a payload on the wire in bytes: text counts as its UTF-8 encoding.
pub open spec fn wire_size(message: DataMessageView) -> nat {
    match message {
        DataMessageView::Text(text) => vstd::utf8::encode_utf8(text).len(),
        DataMessageView::Binary(bytes) => bytes.len(),
    }
}

impl DataMessage {
    /// The size of the payload on the wire in bytes.
    pub fn len(&self) -> (len: usize)
        ensures
            len == wire_size(self@) as usize,
    {
        match self {
            DataMessage::Text(text) => text.as_str().len(),
            DataMessage::Binary(bytes) => bytes.len(),
        }
    }
}

/// The body of a close frame: a status code and a reason in words.
#[derive(Clone, Debug, PartialEq, Eq)]
pub struct CloseFrame {
    pub code: u16,
    pub reason: String,
}

pub struct CloseFrameView {
    pub code: u16,
    pub reason: Seq<char>,
}

impl View for CloseFrame {
    type V = CloseFrameView;

    open spec fn view(&self) -> CloseFrameView {
        CloseFrameView { code: self.code, reason: self.reason@ }
    }
}

/// The view of a close frame that may be absent.
pub open spec fn close_view(frame: Option<CloseFrame>) -> Option<CloseFrameView> {
    match frame {
        Some(frame) => Some(frame@),
        None => None,
    }
}

/// A message of the framing layer, variant for variant.
#[derive(Clone, Debug, PartialEq, Eq)]
pub enum WsMessage {
    Text(String),
    Binary(Vec<u8>),
    Ping(Vec<u8>),
    Pong(Vec<u8>),
    Close(Option<CloseFrame>),
    /// A raw frame. The framing layer never hands one over when reading.
    Frame,
}

pub enum WsMessageView {
    Text(Seq<char>),
    Binary(Seq<u8>),
    Ping(Seq<u8>),
    Pong(Seq<u8>),
    Close(Option<CloseFrameView>),
    Frame,
}

impl View for WsMessage {
    type V = WsMessageView;

    open spec fn view(&self) -> WsMessageView {
        match self {
            WsMessage::Text(text) => WsMessageView::Text(text@),
            WsMessage::Binary(bytes) => WsMessageView::Binary(bytes@),
            WsMessage::Ping(bytes) => WsMessageView::Ping(bytes@),
            WsMessage::Pong(bytes) => WsMessageView::Pong(bytes@),
            WsMessage::Close(frame) => WsMessageView::Close(close_view(*frame)),
            WsMessage::Frame => WsMessageView::Frame,
        }
    }
}

/// What an inbound frame means to the session.
#[derive(Clone, Debug, PartialEq, Eq)]
pub enum ClientMessage {
    /// A payload for the module host.
    Message(DataMessage),
    Ping(Vec<u8>),
    Pong(Vec<u8>),
    Close(Option<CloseFrame>),
}

pub enum ClientMessageView {
    Message(DataMessageView),
    Ping(Seq<u8>),
    Pong(Seq<u8>),
    Close(Option<CloseFrameView>),
}

impl View for ClientMessage {
    type V = ClientMessageView;

    open spec fn view(&self) -> ClientMessageView {
        match self {
            ClientMessage::Message(message) => ClientMessageView::Message(message@),
            ClientMessage::Ping(bytes) => ClientMessageView::Ping(bytes@),
            ClientMessage::Pong(bytes) => ClientMessageView::Pong(bytes@),
            ClientMessage::Close(frame) => ClientMessageView::Close(close_view(*frame)),
        }
    }
}

/// The meaning of each kind of frame: text and binary frames carry a payload,
/// the control frames stand for themselves. A raw frame has none; it is given
/// the meaning of an empty ping only so that the function is total.
pub open spec fn classify(frame: WsMessageView) -> ClientMessageView {
    match frame {
        WsMessageView::Text(text) => ClientMessageView::Message(DataMessageView::Text(text)),
        WsMessageView::Binary(bytes) => ClientMessageView::Message(DataMessageView::Binary(bytes)),
        WsMessageView::Ping(bytes) => ClientMessageView::Ping(bytes),
        WsMessageView::Pong(bytes) => ClientMessageView::Pong(bytes),
        WsMessageView::Close(frame) => ClientMessageView::Close(frame),
        WsMessageView::Frame => ClientMessageView::Ping(Seq::empty()),
    }
}

/// The frame that carries a payload: text in a text frame, bytes in a binary one.
pub open spec fn frame_of(message: DataMessageView) -> WsMessageView {
    match message {
        DataMessageView::Text(text) => WsMessageView::Text(text),
        DataMessageView::Binary(bytes) => WsMessageView::Binary(bytes),
    }
}

impl ClientMessage {
    /// Classifies a frame that was read from the socket. Payloads move over
    /// as they are: text is not checked again.
    pub fn from_message(msg: WsMessage) -> (classified: ClientMessage)
        requires
            !(msg is Frame),
        ensures
            classified@ == classify(msg@),
    {
        match msg {
            WsMessage::Text(text) => ClientMessage::Message(DataMessage::Text(text)),
            WsMessage::Binary(bytes) => ClientMessage::Message(DataMessage::Binary(bytes)),
            WsMessage::Ping(bytes) => ClientMessage::Ping(bytes),
            WsMessage::Pong(bytes) => ClientMessage::Pong(bytes),
            WsMessage::Close(frame) => ClientMessage::Close(frame),
            WsMessage::Frame => vstd::pervasive::unreached(),
        }
    }
}

/// Wraps an outbound payload in the frame that carries it.
pub fn datamsg_to_wsmsg(msg: DataMessage) -> (frame: WsMessage)
    ensures
        frame@ == frame_of(msg@),
{
    match msg {
        DataMessage::Text(text) => WsMessage::Text(text),
        DataMessage::Binary(bytes) => WsMessage::Binary(bytes),
    }
}

/// A payload that is framed and read back is the same payload.
pub proof fn lemma_payload_round_trip(message: DataMessageView)
    ensures
        classify(frame_of(message)) == ClientMessageView::Message(message),
{
}

/// Classification keeps every frame apart: two frames that the transport can
/// hand over and that mean the same are the same frame.
pub proof fn lemma_classify_injective(a: WsMessageView, b: WsMessageView)
    requires
        !(a is Frame),
        !(b is Frame),
        classify(a) == classify(b),
    ensures
        a == b,
{
}

} // verus!
