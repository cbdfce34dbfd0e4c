//! The per-dialect framing contract.
//!
//! A [`Framing`] names, once per protocol dialect, the outbound frame type,
//! the inbound message type, the error type, and the codec that maps buffered
//! bytes to messages and outbound frames to bytes. It carries no behaviour of
//! its own: it is the contract the generic connection and client are written
//! against.

use vstd::prelude::*;

use crate::bytebuf::bytes_view;

verus! {

/// A protocol dialect: the fixed bundle of outbound frame type, inbound
/// message type, error type and codec type.
pub trait Framing: Sized {
    /// An already-serialized outbound frame, sent verbatim.
    type Send;

    /// One inbound protocol message.
    type Receive: View;

    /// The dialect's error type, covering transport and decode failures.
    type Error: View;

    /// The dialect's encode/decode pair.
    type Codec: Codec<Self::Send, Self::Receive, Self::Error>;
}

/// What a codec's `decode` must do to the buffer and return, stated over the
/// codec's framing rule: where the buffered bytes `pre` hold no complete
/// frame yet, nothing is consumed and no message is returned; where their
/// first `t` bytes form one complete frame, exactly those `t` bytes are
/// consumed and the frame's parse — a message, or the dialect's error — is
/// the result.
pub open spec fn decode_post<S, R: View, E: View, C: Codec<S, R, E>>(
    pre: Seq<u8>,
    post: Seq<u8>,
    r: Result<Option<R>, E>,
) -> bool {
    match C::frame_size(pre) {
        None => post == pre && (r matches Ok(m) && m is None),
        Some(t) => {
            &&& post == pre.skip(t)
            &&& C::parse_ok(pre.take(t)) ==> (r matches Ok(m) && m matches Some(msg)
                && msg@ == C::parsed(pre.take(t)))
            &&& !C::parse_ok(pre.take(t)) ==> (r matches Err(e) && e@ == C::parse_err(pre.take(t)))
        },
    }
}

/// The bytes an outbound frame of the dialect `F` encodes to.
pub open spec fn encoded_of<F: Framing>(item: F::Send) -> Seq<u8> {
    <F::Codec as Codec<F::Send, F::Receive, F::Error>>::encoded(item)
}

/// Whether encoding an outbound frame of the dialect `F` succeeds.
pub open spec fn encode_ok_of<F: Framing>(item: F::Send) -> bool {
    <F::Codec as Codec<F::Send, F::Receive, F::Error>>::encode_ok(item)
}

/// [`decode_post`], named through the dialect's [`Framing`] bundle.
pub open spec fn decode_post_of<F: Framing>(
    pre: Seq<u8>,
    post: Seq<u8>,
    r: Result<Option<F::Receive>, F::Error>,
) -> bool {
    decode_post::<F::Send, F::Receive, F::Error, F::Codec>(pre, post, r)
}

/// The encode/decode pair of one dialect, over its outbound frame type `S`,
/// inbound message type `R` and error type `E`.
///
/// `decode` is incremental over one growing buffer: it either consumes
/// exactly one frame from the front or, lacking one, consumes nothing.
/// `encode` appends an already-serialized outbound frame to the output
/// buffer; it performs no framing logic of its own.
pub trait Codec<S, R: View, E: View>: Sized {
    /// Well-formedness of the codec's state.
    spec fn inv(&self) -> bool;

    /// `Some(t)` when the first `t` buffered bytes form one complete frame
    /// under the dialect's framing rule; `None` when more bytes are needed.
    spec fn frame_size(buf: Seq<u8>) -> Option<int>;

    /// Whether a complete frame parses as a message of the dialect.
    spec fn parse_ok(frame: Seq<u8>) -> bool;

    /// The message a complete frame parses to, when `parse_ok` holds of it.
    spec fn parsed(frame: Seq<u8>) -> R::V;

    /// The error a complete frame fails with, when `parse_ok` does not hold.
    spec fn parse_err(frame: Seq<u8>) -> E::V;

    /// The bytes an outbound frame encodes to.
    spec fn encoded(item: S) -> Seq<u8>;

    /// Whether encoding the item succeeds.
    spec fn encode_ok(item: S) -> bool;

    /// Decode at most one message from the front of `src`. The postcondition
    /// states the same rule as [`decode_post`], written out here because the
    /// trait cannot name a helper that is bounded by the trait itself.
    fn decode(&mut self, src: &mut bytes::BytesMut) -> (r: Result<Option<R>, E>)
        requires
            old(self).inv(),
        ensures
            final(self).inv(),
            match Self::frame_size(bytes_view(*old(src))) {
                None => bytes_view(*final(src)) == bytes_view(*old(src))
                    && (r matches Ok(m) && m is None),
                Some(t) => {
                    &&& bytes_view(*final(src)) == bytes_view(*old(src)).skip(t)
                    &&& Self::parse_ok(bytes_view(*old(src)).take(t)) ==> (r matches Ok(m)
                        && m matches Some(msg) && msg@ == Self::parsed(bytes_view(*old(src)).take(t)))
                    &&& !Self::parse_ok(bytes_view(*old(src)).take(t)) ==> (r matches Err(e)
                        && e@ == Self::parse_err(bytes_view(*old(src)).take(t)))
                },
            },
    ;

    /// Append the outbound frame's bytes to `dst`.
    fn encode(&mut self, item: S, dst: &mut bytes::BytesMut) -> (r: Result<(), E>)
        requires
            old(self).inv(),
            bytes_view(*old(dst)).len() + Self::encoded(item).len() <= usize::MAX,
        ensures
            final(self).inv(),
            Self::encode_ok(item) ==> r is Ok
                && bytes_view(*final(dst)) == bytes_view(*old(dst)) + Self::encoded(item),
            !Self::encode_ok(item) ==> r is Err
                && bytes_view(*final(dst)) == bytes_view(*old(dst)),
    ;
}

} // verus!
