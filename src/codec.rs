//! The frame codec: transport frames in, events out, and back.
use vstd::prelude::*;

verus! {

/// Largest payload of a control frame (ping, pong, close), in bytes.
pub const MAX_CONTROL_PAYLOAD: usize = 125;

/// Status code of a close frame sent because the peer broke the protocol.
pub const PROTOCOL_ERROR_CODE: u16 = 1002;

/// Why a connection is being closed: a status code and an optional text.
#[derive(Clone, Debug, PartialEq, Eq)]
pub struct CloseReason {
    pub code: u16,
    pub description: Option<String>,
}

/// One frame as the transport hands it over: unmasked, reassembled, and
/// with text already checked to be UTF-8.
#[derive(Clone, Debug, PartialEq, Eq)]
pub enum Frame {
    Text(String),
    Binary(Vec<u8>),
    Ping(Vec<u8>),
    Pong(Vec<u8>),
    Close(Option<CloseReason>),
    /// A continuation that the transport did not merge into a message.
    Continuation(Vec<u8>),
    /// A frame with no content.
    Nop,
    /// A frame that the transport could not parse.
    Invalid,
}

/// The closed set of events a connection session reacts to.
#[derive(Clone, Debug, PartialEq, Eq)]
pub enum Event {
    Ping(Vec<u8>),
    Pong(Vec<u8>),
    Text(String),
    Binary(Vec<u8>),
    Close(Option<CloseReason>),
    ProtocolError,
}

/// The event a frame stands for; a malformed frame is a protocol error.
pub open spec fn decode_spec(frame: Frame) -> Event {
    match frame {
        Frame::Text(s) => Event::Text(s),
        Frame::Binary(b) => Event::Binary(b),
        Frame::Ping(p) => if p@.len() <= MAX_CONTROL_PAYLOAD {
            Event::Ping(p)
        } else {
            Event::ProtocolError
        },
        Frame::Pong(p) => if p@.len() <= MAX_CONTROL_PAYLOAD {
            Event::Pong(p)
        } else {
            Event::ProtocolError
        },
        Frame::Close(reason) => Event::Close(reason),
        Frame::Continuation(_) => Event::ProtocolError,
        Frame::Nop => Event::ProtocolError,
        Frame::Invalid => Event::ProtocolError,
    }
}

/// The frame that carries an event; a protocol error goes out as a close
/// frame with the protocol-error status.
pub open spec fn encode_spec(event: Event) -> Frame {
    match event {
        Event::Ping(p) => Frame::Ping(p),
        Event::Pong(p) => Frame::Pong(p),
        Event::Text(s) => Frame::Text(s),
        Event::Binary(b) => Frame::Binary(b),
        Event::Close(reason) => Frame::Close(reason),
        Event::ProtocolError => Frame::Close(
            Some(CloseReason { code: PROTOCOL_ERROR_CODE, description: None }),
        ),
    }
}

/// Interprets one inbound frame. Never fails: what cannot be interpreted
/// becomes `Event::ProtocolError`, and the caller decides what to do.
pub fn decode(frame: Frame) -> (r: Event)
    ensures
        r == decode_spec(frame),
{
    match frame {
        Frame::Text(s) => Event::Text(s),
        Frame::Binary(b) => Event::Binary(b),
        Frame::Ping(p) => {
            if p.len() <= MAX_CONTROL_PAYLOAD {
                Event::Ping(p)
            } else {
                Event::ProtocolError
            }
        },
        Frame::Pong(p) => {
            if p.len() <= MAX_CONTROL_PAYLOAD {
                Event::Pong(p)
            } else {
                Event::ProtocolError
            }
        },
        Frame::Close(reason) => Event::Close(reason),
        Frame::Continuation(_) => Event::ProtocolError,
        Frame::Nop => Event::ProtocolError,
        Frame::Invalid => Event::ProtocolError,
    }
}

/// Serialises one outbound event into a frame.
pub fn encode(event: Event) -> (r: Frame)
    ensures
        r == encode_spec(event),
{
    match event {
        Event::Ping(p) => Frame::Ping(p),
        Event::Pong(p) => Frame::Pong(p),
        Event::Text(s) => Frame::Text(s),
        Event::Binary(b) => Frame::Binary(b),
        Event::Close(reason) => Frame::Close(reason),
        Event::ProtocolError => Frame::Close(
            Some(CloseReason { code: PROTOCOL_ERROR_CODE, description: None }),
        ),
    }
}

/// Encoding a text event and decoding the frame gives back a text event
/// with exactly the same payload.
pub proof fn lemma_text_round_trip(p: String)
    ensures
        decode_spec(encode_spec(Event::Text(p))) == Event::Text(p),
{
}

/// Encoding a binary event and decoding the frame gives back a binary event
/// with exactly the same payload.
pub proof fn lemma_binary_round_trip(p: Vec<u8>)
    ensures
        decode_spec(encode_spec(Event::Binary(p))) == Event::Binary(p),
{
}

} // verus!
