//! Where the transfer of one object stands, and what follows from it: when
//! to execute, where the current window ends, when to open a fresh one, and
//! how a window is cut into writes.

use vstd::prelude::*;

use crate::checksum::{crc32, crc32_checksum};
use crate::protocol::{GetCrcResponse, ObjectSelectResponse};
use crate::updater::Error;

verus! {

/// The chunk size that is used where the device does not tell its MTU.
pub const DEFAULT_CHUNK_SIZE: usize = 223;

/// Whether an execute request is due: the offset stands at the end of a
/// window, or the whole object has been written and its checksum is the
/// expected one.
pub open spec fn execute_due(
    offset: nat,
    crc: u32,
    expected_crc: u32,
    max_size: nat,
    len: nat,
) -> bool {
    (offset > 0 && offset % max_size == 0) || (offset == len && crc == expected_crc)
}

/// Where the window that holds `offset` ends: at the next multiple of
/// `max_size` or at the end of the object, whichever comes first.
pub open spec fn window_end(offset: nat, max_size: nat, len: nat) -> nat {
    let top = offset - offset % max_size + max_size;
    if top > len {
        len
    } else {
        top as nat
    }
}

/// Whether the window is opened afresh: the offset stands at its start, or
/// the checksum is not that of the object up to the offset.
pub open spec fn create_due(offset: nat, crc: u32, max_size: nat, data: Seq<u8>) -> bool {
    offset % max_size == 0 || crc != crc32(0, data.take(offset as int))
}

/// Where the write that starts at `position` ends: a chunk further, or at
/// the end of the window.
pub open spec fn chunk_end(position: nat, end: nat, chunk_size: nat) -> nat {
    if position + chunk_size > end {
        end
    } else {
        position + chunk_size
    }
}

/// Whether the next write is answered with a receipt: receipts are on, and
/// the writes since the last one are one short of the interval.
pub open spec fn receipt_due(prn: u16, prn_count: nat) -> bool {
    prn > 0 && prn_count + 1 >= prn
}

/// The chunk size for an MTU: half of it, less one.
pub open spec fn chunk_size_for(mtu: u16) -> nat
    recommends
        mtu >= 2,
{
    (mtu / 2 - 1) as nat
}

/// Where the transfer of one object stands.
#[derive(Debug, Clone, Copy, PartialEq, Eq, Structural)]
pub struct TransferCursor {
    /// How many bytes of the object the device has taken.
    pub object_offset: usize,
    /// The checksum of what the device has taken, as far as the host knows.
    pub object_crc: u32,
    /// The checksum of the whole object.
    pub expected_crc: u32,
}

impl TransferCursor {
    /// The cursor at the start of a transfer: where the device says it
    /// stands, or at zero where the transfer is forced to start over.
    pub fn resume(window: &ObjectSelectResponse, force: bool, data: &[u8]) -> (cursor: Self)
        ensures
            cursor.expected_crc == crc32(0, data@),
            force ==> cursor.object_offset == 0 && cursor.object_crc == 0,
            !force ==> cursor.object_offset == window.offset && cursor.object_crc == window.crc,
    {
        let expected_crc = crc32_checksum(data);
        if force {
            TransferCursor { object_offset: 0, object_crc: 0, expected_crc }
        } else {
            TransferCursor {
                object_offset: window.offset as usize,
                object_crc: window.crc,
                expected_crc,
            }
        }
    }

    /// Whether an execute request is due.
    pub fn execute_due(&self, max_size: u32, len: usize) -> (r: bool)
        requires
            max_size > 0,
        ensures
            r == execute_due(
                self.object_offset as nat,
                self.object_crc,
                self.expected_crc,
                max_size as nat,
                len as nat,
            ),
    {
        let at_boundary = self.object_offset > 0 && self.object_offset % (max_size as usize) == 0;
        let whole = self.object_offset == len && self.object_crc == self.expected_crc;
        at_boundary || whole
    }

    /// Where the current window ends. It holds at most `max_size` bytes.
    pub fn window_end(&self, max_size: u32, len: usize) -> (end: usize)
        requires
            max_size > 0,
            self.object_offset <= len,
        ensures
            end == window_end(self.object_offset as nat, max_size as nat, len as nat),
            self.object_offset <= end <= len,
            end - self.object_offset <= max_size,
            self.object_offset < len ==> self.object_offset < end,
    {
        let max = max_size as usize;
        let used = self.object_offset % max;
        let room = max - used;
        if len - self.object_offset < room {
            len
        } else {
            self.object_offset + room
        }
    }

    /// Whether the window is opened afresh before it is written.
    pub fn create_due(&self, max_size: u32, data: &[u8]) -> (r: bool)
        requires
            max_size > 0,
            self.object_offset <= data.len(),
        ensures
            r == create_due(self.object_offset as nat, self.object_crc, max_size as nat, data@),
    {
        if self.object_offset % (max_size as usize) == 0 {
            true
        } else {
            let written = &data[0..self.object_offset];
            self.object_crc != crc32_checksum(written)
        }
    }

    /// Takes over what the device reports after a window: the offset is the
    /// device's, and a checksum other than the host's is a mismatch.
    pub fn reconcile(&mut self, report: &GetCrcResponse) -> (r: Result<(), Error>)
        ensures
            final(self).object_offset == report.offset,
            final(self).object_crc == old(self).object_crc,
            final(self).expected_crc == old(self).expected_crc,
            report.crc == old(self).object_crc ==> r is Ok,
            report.crc != old(self).object_crc ==> r matches Err(Error::CrcMismatch),
    {
        self.object_offset = report.offset as usize;
        if report.crc != self.object_crc {
            Err(Error::CrcMismatch)
        } else {
            Ok(())
        }
    }
}

/// Where the write that starts at `position` ends.
pub fn next_chunk_end(position: usize, end: usize, chunk_size: usize) -> (r: usize)
    requires
        position <= end,
    ensures
        r == chunk_end(position as nat, end as nat, chunk_size as nat),
        position <= r <= end,
        chunk_size > 0 && position < end ==> position < r,
{
    if end - position < chunk_size {
        end
    } else {
        position + chunk_size
    }
}

/// The chunk size for the MTU that a device reports.
pub fn chunk_size_of(mtu: u16) -> (r: usize)
    requires
        mtu >= 2,
    ensures
        r == chunk_size_for(mtu),
{
    (mtu / 2 - 1) as usize
}

} // verus!
