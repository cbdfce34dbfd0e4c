//! The length-delimited dialect: a four-byte header in front of each payload.
//!
//! Wire layout of one frame, offsets in bytes:
//!
//! | field    | offset | width    | meaning                                  |
//! |----------|--------|----------|------------------------------------------|
//! | msg_type | 0      | 1        | the message's kind, not interpreted here |
//! | length   | 1      | 3, LE    | payload length, excluding the header     |
//! | payload  | 4      | `length` | parsed by the message parser             |
//!
//! A frame's total size on the wire is `HEADER_SIZE + length`. The codec
//! delimits frames by this rule alone; what a frame means is the message
//! parser's business, and the payload stays opaque bytes.

use vstd::prelude::*;

use crate::bytebuf::{bytes_at, bytes_extend, bytes_len, bytes_split_to, bytes_to_vec};
use crate::framing::{Codec, Framing};

verus! {

/// Width of the frame header in bytes.
pub const HEADER_SIZE: usize = 4;

/// How many message kinds the dialect currently defines; kinds are numbered
/// consecutively from zero, and a frame with any other `msg_type` fails
/// parsing.
pub const MSG_TYPE_COUNT: u8 = 15;

/// An already-serialized outbound frame (header and payload), produced by
/// protocol logic outside this crate and transmitted verbatim.
pub type TxFrame = Vec<u8>;

/// One inbound message: its kind and its opaque payload, the header's length
/// field already stripped.
#[derive(Debug)]
pub struct Message {
    /// The header's message-kind byte.
    pub msg_type: u8,
    /// The frame's payload, uninterpreted.
    pub payload: Vec<u8>,
}

/// The mathematical value of a [`Message`].
pub struct MessageView {
    /// The header's message-kind byte.
    pub msg_type: u8,
    /// The frame's payload bytes.
    pub payload: Seq<u8>,
}

impl View for Message {
    type V = MessageView;

    open spec fn view(&self) -> MessageView {
        MessageView { msg_type: self.msg_type, payload: self.payload@ }
    }
}

/// The dialect's error: either a frame whose kind the dialect does not
/// define, or a transport-level failure the caller hands in.
#[derive(Debug)]
pub enum Error {
    /// A fully-buffered frame carried this unknown message-kind byte.
    UnknownMessageType(u8),
    /// A transport-level failure, with its description.
    Io(String),
}

/// The mathematical value of an [`Error`].
pub enum ErrorView {
    /// A fully-buffered frame carried this unknown message-kind byte.
    UnknownMessageType(u8),
    /// A transport-level failure, with its description.
    Io(Seq<char>),
}

impl View for Error {
    type V = ErrorView;

    open spec fn view(&self) -> ErrorView {
        match self {
            Error::UnknownMessageType(t) => ErrorView::UnknownMessageType(*t),
            Error::Io(s) => ErrorView::Io(s@),
        }
    }
}

/// The value of the header's three-byte little-endian length field, given its
/// bytes in offset order.
pub open spec fn le24(b0: u8, b1: u8, b2: u8) -> int {
    b0 + 0x100 * b1 + 0x10000 * b2
}

/// The dialect's framing rule: with fewer than `HEADER_SIZE` bytes buffered
/// there is no frame yet; otherwise the header's length field fixes the
/// frame's total size, and the frame is complete once that many bytes are
/// buffered.
pub open spec fn v2_frame_size(buf: Seq<u8>) -> Option<int> {
    if buf.len() < HEADER_SIZE {
        None
    } else {
        let total = HEADER_SIZE + le24(buf[1], buf[2], buf[3]);
        if buf.len() < total {
            None
        } else {
            Some(total)
        }
    }
}

/// Whether a complete frame parses: its message kind must be one the dialect
/// defines.
pub open spec fn v2_parse_ok(frame: Seq<u8>) -> bool {
    frame.len() >= HEADER_SIZE && frame[0] < MSG_TYPE_COUNT
}

/// The message a complete frame parses to: its kind byte and its payload,
/// the header stripped.
pub open spec fn v2_parsed(frame: Seq<u8>) -> MessageView {
    MessageView { msg_type: frame[0], payload: frame.skip(HEADER_SIZE as int) }
}

/// The error a complete frame fails with: its unknown kind byte.
pub open spec fn v2_parse_err(frame: Seq<u8>) -> ErrorView {
    ErrorView::UnknownMessageType(if frame.len() >= 1 { frame[0] } else { 0 })
}

/// The message parser: turns one complete frame (header and payload) into a
/// typed message, or rejects it.
pub fn parse_frame(frame: &Vec<u8>) -> (r: Result<Message, Error>)
    requires
        frame@.len() >= HEADER_SIZE,
    ensures
        v2_parse_ok(frame@) ==> (r matches Ok(m) && m@ == v2_parsed(frame@)),
        !v2_parse_ok(frame@) ==> (r matches Err(e) && e@ == v2_parse_err(frame@)),
{
    let t = frame[0];
    if t < MSG_TYPE_COUNT {
        let mut payload: Vec<u8> = Vec::new();
        let mut i: usize = HEADER_SIZE;
        while i < frame.len()
            invariant
                HEADER_SIZE <= i <= frame@.len(),
                payload@ == frame@.subrange(HEADER_SIZE as int, i as int),
            decreases frame@.len() - i,
        {
            payload.push(frame[i]);
            i = i + 1;
        }
        proof {
            assert(payload@ =~= frame@.skip(HEADER_SIZE as int));
        }
        Ok(Message { msg_type: t, payload })
    } else {
        Err(Error::UnknownMessageType(t))
    }
}

/// The codec for this dialect. It keeps no state of its own: each `decode`
/// re-examines the buffer from its front.
#[derive(Debug)]
pub struct V2Codec;

impl Default for V2Codec {
    /// A fresh codec, created once per connection.
    fn default() -> (r: Self)
        ensures
            r.inv(),
    {
        V2Codec
    }
}

impl Codec<TxFrame, Message, Error> for V2Codec {
    open spec fn inv(&self) -> bool {
        true
    }

    open spec fn frame_size(buf: Seq<u8>) -> Option<int> {
        v2_frame_size(buf)
    }

    open spec fn parse_ok(frame: Seq<u8>) -> bool {
        v2_parse_ok(frame)
    }

    open spec fn parsed(frame: Seq<u8>) -> MessageView {
        v2_parsed(frame)
    }

    open spec fn parse_err(frame: Seq<u8>) -> ErrorView {
        v2_parse_err(frame)
    }

    open spec fn encoded(item: TxFrame) -> Seq<u8> {
        item@
    }

    open spec fn encode_ok(item: TxFrame) -> bool {
        true
    }

    fn decode(&mut self, src: &mut bytes::BytesMut) -> (r: Result<Option<Message>, Error>) {
        let n = bytes_len(src);
        if n < HEADER_SIZE {
            return Ok(None);
        }
        let b0 = bytes_at(src, 1);
        let b1 = bytes_at(src, 2);
        let b2 = bytes_at(src, 3);
        let length: usize = (b0 as usize) + 0x100 * (b1 as usize) + 0x10000 * (b2 as usize);
        let total: usize = HEADER_SIZE + length;
        if n < total {
            return Ok(None);
        }
        let head = bytes_split_to(src, total);
        let frame = bytes_to_vec(&head);
        match parse_frame(&frame) {
            Ok(m) => Ok(Some(m)),
            Err(e) => Err(e),
        }
    }

    fn encode(&mut self, item: TxFrame, dst: &mut bytes::BytesMut) -> (r: Result<(), Error>) {
        bytes_extend(dst, item.as_slice());
        Ok(())
    }
}

/// The dialect's framing bundle: outbound frames are pre-built bytes, inbound
/// messages are kind plus opaque payload, and [`V2Codec`] is the codec.
#[derive(Debug)]
pub struct V2Framing;

impl Framing for V2Framing {
    type Send = TxFrame;

    type Receive = Message;

    type Error = Error;

    type Codec = V2Codec;
}

} // verus!
