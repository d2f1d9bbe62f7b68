//! SLIP framing. A frame ends with END; inside it END and ESC are written as
//! two bytes each. A frame that comes in starts with a start byte, a frame
//! that goes out does not.

use vstd::prelude::*;

use crate::codec::{Decoded, DfuCodec};
use crate::updater::Error;

verus! {

/// Ends a frame.
pub const SLIP_END: u8 = 0xC0;

/// Starts a two-byte escape.
pub const SLIP_ESC: u8 = 0xDB;

/// After ESC: stands for END.
pub const SLIP_ESC_END: u8 = 0xDC;

/// After ESC: stands for ESC.
pub const SLIP_ESC_ESC: u8 = 0xDD;

/// Starts a frame that comes in.
pub const SLIP_START: u8 = 0x60;

/// How one byte of a message is written inside a frame.
pub open spec fn escaped(byte: u8) -> Seq<u8> {
    if byte == SLIP_END {
        seq![SLIP_ESC, SLIP_ESC_END]
    } else if byte == SLIP_ESC {
        seq![SLIP_ESC, SLIP_ESC_ESC]
    } else {
        seq![byte]
    }
}

/// How a message is written inside a frame: each byte escaped, in order.
pub open spec fn stuffed(buf: Seq<u8>) -> Seq<u8>
    decreases buf.len(),
{
    if buf.len() == 0 {
        Seq::empty()
    } else {
        stuffed(buf.drop_last()) + escaped(buf.last())
    }
}

/// The frame that goes out for a message.
pub open spec fn slip_frame(buf: Seq<u8>) -> Seq<u8> {
    stuffed(buf).push(SLIP_END)
}

/// Where a reader stands inside a frame that comes in.
pub enum Reader {
    /// Nothing read yet.
    Start,
    /// Inside the frame, with the message so far.
    Body(Seq<u8>),
    /// Inside the frame, after an ESC.
    Escape(Seq<u8>),
    /// The frame has ended.
    Done(Seq<u8>),
    /// The first byte was not the start byte.
    Refused,
}

/// Where a reader stands after one more byte. After ESC, ESC_END gives END,
/// ESC_ESC gives ESC, and any other byte is dropped with the ESC.
pub open spec fn take_byte(reader: Reader, byte: u8) -> Reader {
    match reader {
        Reader::Start => if byte == SLIP_START {
            Reader::Body(Seq::empty())
        } else {
            Reader::Refused
        },
        Reader::Body(data) => if byte == SLIP_ESC {
            Reader::Escape(data)
        } else if byte == SLIP_END {
            Reader::Done(data)
        } else {
            Reader::Body(data.push(byte))
        },
        Reader::Escape(data) => if byte == SLIP_ESC_END {
            Reader::Body(data.push(SLIP_END))
        } else if byte == SLIP_ESC_ESC {
            Reader::Body(data.push(SLIP_ESC))
        } else {
            Reader::Body(data)
        },
        Reader::Done(data) => Reader::Done(data),
        Reader::Refused => Reader::Refused,
    }
}

/// What a reader that stands at `reader` before byte `at` of `wire` ends
/// with: it takes byte after byte until the frame has ended, the stream is
/// refused, or the bytes run out.
pub open spec fn read_from(wire: Seq<u8>, at: int, reader: Reader) -> Decoded
    decreases wire.len() - at,
{
    match reader {
        Reader::Done(data) => Decoded::Frame { data, used: at as nat },
        Reader::Refused => Decoded::Malformed,
        _ => if at >= wire.len() {
            Decoded::Incomplete
        } else {
            read_from(wire, at + 1, take_byte(reader, wire[at]))
        },
    }
}

/// What a reader takes from the front of `wire`.
pub open spec fn slip_decoded(wire: Seq<u8>) -> Decoded {
    read_from(wire, 0, Reader::Start)
}

/// The bytes of a frame as a device sends it: the start byte, then the
/// frame.
pub open spec fn incoming(buf: Seq<u8>) -> Seq<u8> {
    seq![SLIP_START] + slip_frame(buf)
}

/// A reader inside a frame that meets the escaped form of `byte` goes on
/// with `byte` added to its message.
proof fn lemma_read_escaped(wire: Seq<u8>, at: int, data: Seq<u8>, byte: u8)
    requires
        0 <= at,
        at + escaped(byte).len() <= wire.len(),
        wire.subrange(at, at + escaped(byte).len()) == escaped(byte),
    ensures
        read_from(wire, at, Reader::Body(data)) == read_from(
            wire,
            at + escaped(byte).len(),
            Reader::Body(data.push(byte)),
        ),
{
    let e = escaped(byte);
    let part = wire.subrange(at, at + e.len());
    assert(wire[at] == part[0]);
    if byte == SLIP_END || byte == SLIP_ESC {
        assert(read_from(wire, at, Reader::Body(data)) == read_from(
            wire,
            at + 1,
            Reader::Escape(data),
        ));
    }
}

/// A reader inside a frame that meets the stuffed form of `buf` goes on
/// with `buf` added to its message.
proof fn lemma_read_stuffed(wire: Seq<u8>, at: int, data: Seq<u8>, buf: Seq<u8>)
    requires
        0 <= at,
        at + stuffed(buf).len() <= wire.len(),
        wire.subrange(at, at + stuffed(buf).len()) == stuffed(buf),
    ensures
        read_from(wire, at, Reader::Body(data)) == read_from(
            wire,
            at + stuffed(buf).len(),
            Reader::Body(data + buf),
        ),
    decreases buf.len(),
{
    if buf.len() > 0 {
        let head = buf.drop_last();
        let last = buf.last();
        let s = stuffed(buf);
        let mid = at + stuffed(head).len();
        assert(wire.subrange(at, mid) =~= stuffed(head));
        lemma_read_stuffed(wire, at, data, head);
        assert(wire.subrange(mid, mid + escaped(last).len()) =~= escaped(last)) by {
            assert(wire.subrange(mid, mid + escaped(last).len()) =~= s.subrange(
                stuffed(head).len() as int,
                s.len() as int,
            ));
        }
        lemma_read_escaped(wire, mid, data + head, last);
        assert((data + head).push(last) =~= data + buf);
    }
}

/// Round trip: a reader that is given the start byte and then the frame
/// written for a message ends with that message, and has used every byte.
pub proof fn lemma_decode_encoded(buf: Seq<u8>)
    ensures
        slip_decoded(incoming(buf)) == (Decoded::Frame {
            data: buf,
            used: incoming(buf).len(),
        }),
{
    let wire = incoming(buf);
    let s = stuffed(buf);
    assert(wire.subrange(1, s.len() as int + 1) =~= s);
    lemma_read_stuffed(wire, 1, Seq::empty(), buf);
    let end: int = s.len() as int + 1;
    assert(read_from(wire, end, Reader::Body(buf)) == read_from(
        wire,
        end + 1,
        take_byte(Reader::Body(buf), wire[end]),
    ));
}

/// Whether the byte at `i` of `bytes`, where it is ESC, is followed by
/// ESC_END or ESC_ESC.
pub open spec fn escape_complete(bytes: Seq<u8>, i: int) -> bool {
    bytes[i] == SLIP_ESC ==> i + 1 < bytes.len() && (bytes[i + 1] == SLIP_ESC_END || bytes[i + 1]
        == SLIP_ESC_ESC)
}

/// Inside a frame no byte is END, and every ESC is followed by ESC_END or
/// ESC_ESC.
pub proof fn lemma_stuffed_covers(buf: Seq<u8>)
    ensures
        forall|i: int| 0 <= i < stuffed(buf).len() ==> stuffed(buf)[i] != SLIP_END,
        forall|i: int| 0 <= i < stuffed(buf).len() ==> #[trigger] escape_complete(stuffed(buf), i),
    decreases buf.len(),
{
    if buf.len() > 0 {
        lemma_stuffed_covers(buf.drop_last());
        let head = stuffed(buf.drop_last());
        let tail = escaped(buf.last());
        let whole = stuffed(buf);
        assert(whole == head + tail);
        assert forall|i: int| 0 <= i < whole.len() implies #[trigger] escape_complete(
            whole,
            i,
        ) by {
            if i < head.len() {
                assert(escape_complete(head, i));
            }
        }
    }
}

/// Stuffing coverage: the frame written for a message holds END as its
/// last byte and nowhere else, and every ESC in it is followed by ESC_END or
/// ESC_ESC.
pub proof fn lemma_frame_covers(buf: Seq<u8>)
    ensures
        slip_frame(buf).len() >= 1,
        slip_frame(buf).last() == SLIP_END,
        forall|i: int| 0 <= i < slip_frame(buf).len() - 1 ==> slip_frame(buf)[i] != SLIP_END,
        forall|i: int|
            0 <= i < slip_frame(buf).len() ==> #[trigger] escape_complete(slip_frame(buf), i),
{
    lemma_stuffed_covers(buf);
    let s = stuffed(buf);
    let frame = slip_frame(buf);
    assert forall|i: int| 0 <= i < frame.len() implies #[trigger] escape_complete(frame, i) by {
        if i < s.len() {
            assert(escape_complete(s, i));
        }
    }
}

/// The SLIP framing of DFU messages.
pub struct SlipCodec;

impl DfuCodec for SlipCodec {
    open spec fn framed(buf: Seq<u8>) -> Seq<u8> {
        slip_frame(buf)
    }

    open spec fn decoded(wire: Seq<u8>) -> Decoded {
        slip_decoded(wire)
    }

    fn decoded_read(reader: &[u8]) -> (r: Result<Option<(Vec<u8>, usize)>, Error>) {
        let mut data: Vec<u8> = Vec::new();
        if reader.len() == 0 {
            return Ok(None);
        }
        if reader[0] != SLIP_START {
            assert(read_from(reader@, 1, Reader::Refused) == Decoded::Malformed);
            return Err(Error::FramingError);
        }
        let mut at: usize = 1;
        while at < reader.len()
            invariant
                1 <= at <= reader.len(),
                read_from(reader@, at as int, Reader::Body(data@)) == slip_decoded(reader@),
            decreases reader.len() - at,
        {
            let byte = reader[at];
            if byte == SLIP_ESC {
                if at + 1 >= reader.len() {
                    assert(read_from(reader@, at + 1, Reader::Escape(data@))
                        == Decoded::Incomplete);
                    return Ok(None);
                }
                let escape = reader[at + 1];
                if escape == SLIP_ESC_END {
                    data.push(SLIP_END);
                } else if escape == SLIP_ESC_ESC {
                    data.push(SLIP_ESC);
                }
                at = at + 2;
            } else if byte == SLIP_END {
                assert(read_from(reader@, at + 1, Reader::Done(data@)) == (
                Decoded::Frame { data: data@, used: (at + 1) as nat }));
                return Ok(Some((data, at + 1)));
            } else {
                data.push(byte);
                at = at + 1;
            }
        }
        Ok(None)
    }

    /// What is appended holds END as its last byte and nowhere else, and
    /// every ESC in it is followed by ESC_END or ESC_ESC.
    fn encoded_write(writer: &mut Vec<u8>, buf: &[u8]) -> (n: usize)
        ensures
            n >= 1,
            final(writer)@.last() == SLIP_END,
            forall|i: int|
                old(writer)@.len() <= i < final(writer)@.len() - 1 ==> final(writer)@[i]
                    != SLIP_END,
            forall|i: int|
                0 <= i < n ==> #[trigger] escape_complete(
                    final(writer)@.skip(old(writer)@.len() as int),
                    i,
                ),
    {
        let before = writer.len();
        let mut at: usize = 0;
        while at < buf.len()
            invariant
                at <= buf.len(),
                writer@ == old(writer)@ + stuffed(buf@.take(at as int)),
                before == old(writer)@.len(),
            decreases buf.len() - at,
        {
            let byte = buf[at];
            if byte == SLIP_END {
                writer.push(SLIP_ESC);
                writer.push(SLIP_ESC_END);
            } else if byte == SLIP_ESC {
                writer.push(SLIP_ESC);
                writer.push(SLIP_ESC_ESC);
            } else {
                writer.push(byte);
            }
            proof {
                let next = buf@.take(at + 1);
                assert(next.drop_last() =~= buf@.take(at as int));
            }
            at = at + 1;
        }
        writer.push(SLIP_END);
        proof {
            assert(buf@.take(buf.len() as int) =~= buf@);
            lemma_frame_covers(buf@);
            assert(writer@.skip(before as int) =~= slip_frame(buf@));
            assert forall|i: int| before <= i < writer@.len() - 1 implies writer@[i]
                != SLIP_END by {
                assert(writer@[i] == slip_frame(buf@)[i - before]);
            }
        }
        writer.len() - before
    }
}

} // verus!
