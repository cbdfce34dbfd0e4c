//! One logical connection: the buffered bytes of one transport stream, bound
//! to one codec.
//!
//! The connection owns two buffers. Bytes that arrived from the stream go
//! into the inbound buffer, and [`Connection::receive`] decodes at most one
//! message from its front per call; a decode error is fatal to the
//! connection, which must then be torn down and a new one established.
//! [`Connection::send`] appends an already-serialized outbound frame to the
//! outbound buffer verbatim, and [`Connection::take_outgoing`] drains that
//! buffer for transmission. The caller moves bytes between the buffers and
//! the actual stream.

use vstd::prelude::*;

use crate::bytebuf::{bytes_extend, bytes_len, bytes_new, bytes_split_to, bytes_to_vec, bytes_view};
use crate::framing::{decode_post_of, encode_ok_of, encoded_of, Codec, Framing};

verus! {

/// The buffers of one live connection, bound to one codec for the
/// connection's whole lifetime.
pub struct Connection<F: Framing> {
    codec: F::Codec,
    rx: bytes::BytesMut,
    tx: bytes::BytesMut,
}

impl<F: Framing> Connection<F> {
    /// Well-formedness: the codec's own invariant.
    pub closed spec fn inv(&self) -> bool {
        self.codec.inv()
    }

    /// The bytes that arrived from the stream and are not yet consumed.
    pub closed spec fn rx_bytes(&self) -> Seq<u8> {
        bytes_view(self.rx)
    }

    /// The bytes encoded for transmission and not yet taken.
    pub closed spec fn tx_bytes(&self) -> Seq<u8> {
        bytes_view(self.tx)
    }

    /// Bind a fresh codec to a new, empty pair of buffers.
    pub fn new(codec: F::Codec) -> (r: Self)
        requires
            codec.inv(),
        ensures
            r.inv(),
            r.rx_bytes() == Seq::<u8>::empty(),
            r.tx_bytes() == Seq::<u8>::empty(),
    {
        Connection { codec, rx: bytes_new(), tx: bytes_new() }
    }

    /// Append newly arrived bytes to the inbound buffer and decode at most
    /// one message from its front. `Ok(None)` means more bytes must arrive
    /// first; an `Err` is fatal to this connection.
    pub fn receive(&mut self, arrived: &Vec<u8>) -> (r: Result<Option<F::Receive>, F::Error>)
        requires
            old(self).inv(),
            old(self).rx_bytes().len() + arrived@.len() <= usize::MAX,
        ensures
            final(self).inv(),
            final(self).tx_bytes() == old(self).tx_bytes(),
            decode_post_of::<F>(old(self).rx_bytes() + arrived@, final(self).rx_bytes(), r),
    {
        bytes_extend(&mut self.rx, arrived.as_slice());
        self.codec.decode(&mut self.rx)
    }

    /// Append an already-serialized outbound frame to the outbound buffer,
    /// verbatim: the connection does not reserialize or validate it.
    pub fn send(&mut self, frame: F::Send) -> (r: Result<(), F::Error>)
        requires
            old(self).inv(),
            old(self).tx_bytes().len() + encoded_of::<F>(frame).len() <= usize::MAX,
        ensures
            final(self).inv(),
            final(self).rx_bytes() == old(self).rx_bytes(),
            encode_ok_of::<F>(frame) ==> r is Ok
                && final(self).tx_bytes() == old(self).tx_bytes() + encoded_of::<F>(frame),
            !encode_ok_of::<F>(frame) ==> r is Err
                && final(self).tx_bytes() == old(self).tx_bytes(),
    {
        self.codec.encode(frame, &mut self.tx)
    }

    /// Drain the outbound buffer: the bytes to write to the stream, in the
    /// order the frames were sent.
    pub fn take_outgoing(&mut self) -> (r: Vec<u8>)
        requires
            old(self).inv(),
        ensures
            final(self).inv(),
            r@ == old(self).tx_bytes(),
            final(self).tx_bytes() == Seq::<u8>::empty(),
            final(self).rx_bytes() == old(self).rx_bytes(),
    {
        let n = bytes_len(&self.tx);
        let head = bytes_split_to(&mut self.tx, n);
        proof {
            assert(bytes_view(self.tx) =~= Seq::<u8>::empty());
            assert(bytes_view(head) =~= old(self).tx_bytes());
        }
        bytes_to_vec(&head)
    }
}

} // verus!
