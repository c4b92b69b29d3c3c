//! Inbound frames and their classification.
use vstd::prelude::*;

verus! {

/// A frame read from the event stream.
#[derive(Debug)]
pub enum Frame {
    Text(String),
    Binary(Vec<u8>),
    Ping(Vec<u8>),
    Pong(Vec<u8>),
    Close,
    Other,
}

/// The text a frame carries: only a text frame carries one.
pub open spec fn text_of(frame: Frame) -> Option<Seq<char>> {
    match frame {
        Frame::Text(s) => Some(s@),
        _ => None,
    }
}

/// Extracts the payload of a text frame; every other frame yields nothing.
pub fn get_message_text(msg: Frame) -> (r: Option<String>)
    ensures
        match text_of(msg) {
            Some(t) => r is Some && r.unwrap()@ == t,
            None => r is None,
        },
{
    match msg {
        Frame::Text(s) => Some(s),
        _ => None,
    }
}

} // verus!
