//! What a framing of DFU messages has to offer: a way to put a message on a
//! byte stream, and a way to take the next one off it.

use vstd::prelude::*;

use crate::updater::Error;

verus! {

/// What the front of a byte stream decodes to.
pub enum Decoded {
    /// The stream ends before the frame does.
    Incomplete,
    /// A whole frame, and the number of bytes of the stream that held it.
    Frame { data: Seq<u8>, used: nat },
    /// The stream does not start like a frame.
    Malformed,
}

/// A framing of messages on a byte stream. The stream is held in memory: a
/// writer is the bytes written so far, a reader the bytes that have arrived.
pub trait DfuCodec {
    /// The bytes that carry `buf` on the stream.
    spec fn framed(buf: Seq<u8>) -> Seq<u8>;

    /// What a reader takes from the front of `wire`.
    spec fn decoded(wire: Seq<u8>) -> Decoded;

    /// Takes the next frame off the front of `reader`: `Ok(None)` where the
    /// frame is not all there yet, else the frame with the number of bytes
    /// that held it, or a framing error.
    fn decoded_read(reader: &[u8]) -> (r: Result<Option<(Vec<u8>, usize)>, Error>)
        ensures
            match Self::decoded(reader@) {
                Decoded::Incomplete => r matches Ok(None),
                Decoded::Frame { data, used } => r matches Ok(Some(frame)) && frame.0@ == data
                    && frame.1 == used,
                Decoded::Malformed => r matches Err(Error::FramingError),
            },
    ;

    /// Appends the frame that carries `buf` to `writer`, and returns the
    /// number of bytes appended.
    fn encoded_write(writer: &mut Vec<u8>, buf: &[u8]) -> (n: usize)
        ensures
            final(writer)@ == old(writer)@ + Self::framed(buf@),
            n == Self::framed(buf@).len(),
    ;
}

} // verus!
