//! A device that does what the protocol says, and what a transfer that is
//! restarted against it costs.

use vstd::arithmetic::div_mod::{lemma_fundamental_div_mod, lemma_fundamental_div_mod_converse};
use vstd::prelude::*;

use crate::checksum::{crc32, lemma_crc32_concat};
use crate::dfu::{
    lemma_bare_responses, DfuRequest, DfuResponse, NoResponse, ObjectType, STATUS_SUCCESS,
};
use crate::protocol::{
    lemma_opcodes, GetCrcRequest, GetCrcResponse, ObjectCreateRequest, ObjectExecuteRequest,
    ObjectSelectRequest, ObjectSelectResponse, ObjectWriteRequest, ObjectWriteResponse,
};
use crate::session::{asks, write_bytes, writes, ActionView, EventView, Phase, State};
use crate::transfer::{chunk_end, create_due, execute_due, window_end};

verus! {

/// What a device holds of one object.
pub struct Device {
    /// The most bytes that the device takes into one window.
    pub max_size: nat,
    /// The bytes that it has taken.
    pub received: Seq<u8>,
    /// How many of them are executed.
    pub executed: nat,
}

/// Whether a frame reports success under an opcode.
pub open spec fn succeeds(frame: Seq<u8>, opcode: u8) -> bool {
    frame.len() >= 2 && frame[0] == opcode && frame[1] == STATUS_SUCCESS
}

impl Device {
    /// The device after a request: a create request drops what is not
    /// executed, a write request adds its bytes, an execute request executes
    /// what is there. Other requests change nothing.
    pub open spec fn after(self, request: Seq<u8>) -> Device {
        if request.len() == 0 {
            self
        } else if request[0] == ObjectCreateRequest::REQUEST_OPCODE {
            self.forgets()
        } else if request[0] == ObjectWriteRequest::<NoResponse>::REQUEST_OPCODE {
            Device { received: self.received + request.skip(1), ..self }
        } else if request[0] == ObjectExecuteRequest::REQUEST_OPCODE {
            Device { executed: self.received.len(), ..self }
        } else {
            self
        }
    }

    /// The device without what is not executed.
    pub open spec fn forgets(self) -> Device {
        Device { received: self.received.take(self.executed as int), ..self }
    }

    /// Whether `event` is what the device, having taken a request, answers
    /// to it: nothing where no answer is called for, else success, with the
    /// number of bytes it holds and their checksum where the request asks
    /// for them.
    pub open spec fn answers(self, request: Seq<u8>, reply: bool, event: EventView) -> bool {
        if !reply {
            event is Ready
        } else {
            &&& request.len() > 0
            &&& event matches EventView::Response(frame)
            &&& if request[0] == ObjectSelectRequest::REQUEST_OPCODE {
                &&& succeeds(frame, ObjectSelectRequest::RESPONSE_OPCODE)
                &&& frame.len() >= 2 + ObjectSelectResponse::PAYLOAD_LEN
                &&& ObjectSelectResponse::parse(frame.skip(2)) == (ObjectSelectResponse {
                    max_size: self.max_size as u32,
                    offset: self.received.len() as u32,
                    crc: crc32(0, self.received),
                })
            } else if request[0] == ObjectWriteRequest::<NoResponse>::REQUEST_OPCODE {
                &&& succeeds(frame, GetCrcRequest::RESPONSE_OPCODE)
                &&& frame.len() >= 2 + ObjectWriteResponse::PAYLOAD_LEN
                &&& ObjectWriteResponse::parse(frame.skip(2)) == (ObjectWriteResponse {
                    offset: self.received.len() as u32,
                    crc: crc32(0, self.received),
                })
            } else if request[0] == GetCrcRequest::REQUEST_OPCODE {
                &&& succeeds(frame, GetCrcRequest::RESPONSE_OPCODE)
                &&& frame.len() >= 2 + GetCrcResponse::PAYLOAD_LEN
                &&& GetCrcResponse::parse(frame.skip(2)) == (GetCrcResponse {
                    offset: self.received.len() as u32,
                    crc: crc32(0, self.received),
                })
            } else {
                succeeds(frame, request[0])
            }
        }
    }

    /// Whether what the device holds is the start of `data`, cut into
    /// windows as the protocol cuts it: what is executed ends at a window
    /// boundary or with the object, and what is not executed lies within one
    /// window.
    pub open spec fn holds(self, data: Seq<u8>) -> bool {
        &&& 0 < self.max_size <= u32::MAX
        &&& data.len() <= u32::MAX
        &&& self.executed <= self.received.len() <= data.len()
        &&& self.received == data.take(self.received.len() as int)
        &&& (self.executed % self.max_size == 0 || self.executed == data.len())
        &&& self.received.len() <= window_end(self.executed, self.max_size, data.len())
    }
}

/// The number of object bytes that an action writes.
pub open spec fn write_len(action: ActionView) -> nat {
    match action {
        ActionView::Request { payload, .. } => if payload.len() > 0 && payload[0]
            == ObjectWriteRequest::<NoResponse>::REQUEST_OPCODE {
            (payload.len() - 1) as nat
        } else {
            0
        },
        _ => 0,
    }
}

/// The transfer of one object to a device.
pub struct Transfer {
    /// The object that is transferred.
    pub object: ObjectType,
    /// The session.
    pub host: State,
    /// The device.
    pub device: Device,
    /// What the session has asked for last, and the device has not seen yet.
    pub pending: ActionView,
    /// The number of object bytes that the session has written.
    pub written: nat,
    /// How often the transfer has been started again.
    pub restarts: nat,
}

/// What happens next in a transfer.
pub enum Move {
    /// The device takes the request and answers.
    Answer(EventView),
    /// The transfer is cut and started again. The request on its way may or
    /// may not have reached the device, and the device may or may not have
    /// lost what it had not executed.
    Restart { delivered: bool, lost: bool },
}

impl Transfer {
    /// The bytes of the object.
    pub open spec fn data(self) -> Seq<u8> {
        State { object: self.object, ..self.host }.data()
    }

    /// Whether the session is at work on the object.
    pub open spec fn in_transfer(self) -> bool {
        &&& self.host.object == self.object
        &&& match self.host.phase {
            Phase::Select
            | Phase::Execute
            | Phase::Create
            | Phase::Write
            | Phase::Receipt
            | Phase::Crc => true,
            _ => false,
        }
    }

    /// The device once it has taken the request that is on its way.
    pub open spec fn delivered(self) -> Device {
        match self.pending {
            ActionView::Request { payload, .. } => self.device.after(payload),
            _ => self.device,
        }
    }

    /// Whether a move can be made: an answer is what the device answers to
    /// the request on its way, while the session is at work on the object.
    pub open spec fn admits(self, step: Move) -> bool {
        match step {
            Move::Answer(event) => {
                &&& self.in_transfer()
                &&& self.pending matches ActionView::Request { payload, reply }
                &&& self.delivered().answers(payload, reply, event)
            },
            Move::Restart { .. } => true,
        }
    }

    /// The transfer after a move.
    pub open spec fn apply(self, step: Move) -> Transfer {
        match step {
            Move::Answer(event) => Transfer {
                host: self.host.step(event).0,
                device: self.delivered(),
                pending: self.host.step(event).1,
                written: self.written + write_len(self.host.step(event).1),
                ..self
            },
            Move::Restart { delivered, lost } => {
                let reached = if delivered && self.in_transfer() {
                    self.delivered()
                } else {
                    self.device
                };
                Transfer {
                    host: self.host.transfer_object(self.object).0,
                    device: if lost {
                        reached.forgets()
                    } else {
                        reached
                    },
                    pending: self.host.transfer_object(self.object).1,
                    restarts: self.restarts + 1,
                    ..self
                }
            },
        }
    }

    /// Whether this is the start of a transfer that is not forced: the
    /// object has just been selected, the device holds a start of it, and
    /// the chunk size is not zero.
    pub open spec fn begins(self) -> bool {
        &&& self.host.image() is Some
        &&& !self.host.force
        &&& self.host.chunk_size > 0
        &&& self.host.phase == Phase::Select
        &&& self.host.object == self.object
        &&& self.pending == asks(ObjectSelectRequest { object_type: self.object })
        &&& self.device.holds(self.data())
        &&& self.written == 0
        &&& self.restarts == 0
    }

    /// The number of bytes on their way to the device.
    pub open spec fn in_flight(self) -> nat {
        if self.in_transfer() && (self.host.phase == Phase::Write || self.host.phase
            == Phase::Receipt) {
            (self.host.position - self.device.received.len()) as nat
        } else {
            0
        }
    }

    /// Whether session and device agree on the window that is written.
    pub open spec fn same_window(self) -> bool {
        &&& self.host.max_size == self.device.max_size
        &&& self.device.executed <= self.host.offset
        &&& self.host.window_end <= window_end(
            self.device.executed,
            self.device.max_size,
            self.data().len(),
        )
    }

    /// What holds of a transfer all along.
    pub open spec fn coherent(self) -> bool {
        let host = self.host;
        let device = self.device;
        let data = self.data();
        &&& device.holds(data)
        &&& host.image() is Some
        &&& !host.force
        &&& host.chunk_size > 0
        &&& host.phase != Phase::Abort
        &&& self.written <= device.received.len() + self.in_flight() + self.restarts
            * device.max_size
        &&& (self.in_transfer() ==> host.wf() && match host.phase {
            Phase::Select => self.pending == asks(
                ObjectSelectRequest { object_type: self.object },
            ),
            Phase::Execute => {
                &&& self.pending == asks(ObjectExecuteRequest)
                &&& host.max_size == device.max_size
                &&& host.offset == device.received.len()
                &&& host.crc == crc32(0, device.received)
            },
            Phase::Create => {
                &&& self.pending matches ActionView::Request { payload, reply }
                &&& reply
                &&& payload.len() > 0
                &&& payload[0] == ObjectCreateRequest::REQUEST_OPCODE
                &&& self.same_window()
                &&& host.position == device.received.len()
                &&& device.received.len() == device.executed
                &&& host.crc == crc32(0, device.received)
            },
            Phase::Write | Phase::Receipt => {
                &&& self.pending == writes(
                    data.subrange(device.received.len() as int, host.position as int),
                    host.phase == Phase::Receipt,
                )
                &&& self.same_window()
                &&& device.received.len() <= host.position
                &&& host.crc == crc32(0, data.take(host.position as int))
            },
            _ => {
                &&& self.pending == asks(GetCrcRequest)
                &&& self.same_window()
                &&& host.position == device.received.len()
                &&& host.crc == crc32(0, device.received)
            },
        })
    }
}

/// The transfer after a sequence of moves, where each can be made in turn.
pub open spec fn play(start: Transfer, moves: Seq<Move>) -> Option<Transfer>
    decreases moves.len(),
{
    if moves.len() == 0 {
        Some(start)
    } else {
        match play(start, moves.drop_last()) {
            Some(before) => if before.admits(moves.last()) {
                Some(before.apply(moves.last()))
            } else {
                None
            },
            None => None,
        }
    }
}

/// An offset within the window that starts at `start` lies that far above
/// the window's start.
proof fn lemma_within_window(start: nat, offset: nat, max_size: nat)
    requires
        max_size > 0,
        start % max_size == 0,
        start <= offset < start + max_size,
    ensures
        offset - offset % max_size == start,
{
    lemma_fundamental_div_mod(start as int, max_size as int);
    let q = start as int / max_size as int;
    assert(offset == q * max_size + (offset - start)) by (nonlinear_arith)
        requires
            start == max_size * q,
    ;
    lemma_fundamental_div_mod_converse(offset as int, max_size as int, q, offset - start);
}

/// The end of a window is a multiple of the window size.
proof fn lemma_window_boundary(start: nat, max_size: nat)
    requires
        max_size > 0,
        start % max_size == 0,
    ensures
        (start + max_size) % max_size == 0,
{
    lemma_fundamental_div_mod(start as int, max_size as int);
    let q = start as int / max_size as int;
    assert(start + max_size == (q + 1) * max_size + 0) by (nonlinear_arith)
        requires
            start == max_size * q,
    ;
    lemma_fundamental_div_mod_converse((start + max_size) as int, max_size as int, q + 1, 0);
}

/// A window starts no later than an offset in it, ends no earlier, holds
/// no more than the window size, and ends with the object at the latest.
proof fn lemma_window_end(offset: nat, max_size: nat, len: nat)
    requires
        max_size > 0,
        offset <= len,
    ensures
        offset <= window_end(offset, max_size, len) <= len,
        window_end(offset, max_size, len) - offset <= max_size,
        offset < len ==> offset < window_end(offset, max_size, len),
{
    assert(0 <= offset % max_size < max_size) by (nonlinear_arith)
        requires
            max_size > 0,
    ;
}

/// Where a device holds the start of an object up to an offset at which no
/// execute request is due, the window of that offset is the one that the
/// device has not executed.
proof fn lemma_device_window(device: Device, data: Seq<u8>, crc: u32, expected_crc: u32)
    requires
        device.holds(data),
        !execute_due(device.received.len(), crc, expected_crc, device.max_size, data.len()),
        expected_crc == crc32(0, data),
        crc == crc32(0, device.received),
    ensures
        window_end(device.received.len(), device.max_size, data.len()) <= window_end(
            device.executed,
            device.max_size,
            data.len(),
        ),
{
    let offset = device.received.len();
    let max_size = device.max_size;
    lemma_window_end(offset, max_size, data.len());
    lemma_window_end(device.executed, max_size, data.len());
    if device.executed % max_size == 0 {
        if offset < device.executed + max_size {
            lemma_within_window(device.executed, offset, max_size);
        } else {
            lemma_window_boundary(device.executed, max_size);
        }
    }
}

/// The next write of a window that session and device agree on keeps the
/// transfer coherent.
proof fn lemma_write_coherent(t: Transfer)
    requires
        t.host.object == t.object,
        t.host.image() is Some,
        !t.host.force,
        t.host.phase != Phase::Abort,
        t.device.holds(t.data()),
        t.same_window(),
        t.host.max_size > 0,
        t.host.chunk_size > 0,
        t.host.expected_crc == crc32(0, t.data()),
        t.host.offset <= t.host.position <= t.host.window_end <= t.data().len(),
        t.host.window_end - t.host.offset <= t.host.max_size,
        t.host.crc == crc32(
            t.host.window_crc,
            t.data().subrange(t.host.offset as int, t.host.position as int),
        ),
        t.host.position == t.device.received.len(),
        t.host.crc == crc32(0, t.device.received),
        t.written <= t.device.received.len() + t.restarts * t.device.max_size,
    ensures
        (Transfer {
            host: t.host.write_object().0,
            pending: t.host.write_object().1,
            written: t.written + write_len(t.host.write_object().1),
            ..t
        }).coherent(),
{
    lemma_opcodes();
    lemma_bare_responses();
    let host = t.host;
    let data = t.data();
    if host.position < host.window_end {
        let stop = chunk_end(host.position, host.window_end, host.chunk_size);
        let chunk = data.subrange(host.position as int, stop as int);
        let done = data.subrange(host.offset as int, host.position as int);
        lemma_crc32_concat(host.window_crc, done, chunk);
        assert(done + chunk =~= data.subrange(host.offset as int, stop as int));
        lemma_crc32_concat(0, t.device.received, chunk);
        assert(t.device.received + chunk =~= data.take(stop as int));
    }
}

/// The head of the transfer loop keeps the transfer coherent, where the
/// session stands where the device stands.
proof fn lemma_resume_coherent(t: Transfer)
    requires
        t.host.object == t.object,
        t.host.image() is Some,
        !t.host.force,
        t.host.phase != Phase::Abort,
        t.device.holds(t.data()),
        t.host.chunk_size > 0,
        t.host.max_size == t.device.max_size,
        t.host.expected_crc == crc32(0, t.data()),
        t.host.offset == t.device.received.len(),
        t.host.crc == crc32(0, t.device.received),
        t.written <= t.device.received.len() + t.restarts * t.device.max_size,
    ensures
        t.host.resumable(),
        (Transfer {
            host: t.host.resume().0,
            pending: t.host.resume().1,
            written: t.written + write_len(t.host.resume().1),
            ..t
        }).coherent(),
{
    lemma_opcodes();
    lemma_bare_responses();
    let host = t.host;
    let data = t.data();
    lemma_window_end(host.offset, host.max_size, data.len());
    if !execute_due(host.offset, host.crc, host.expected_crc, host.max_size, host.len()) {
        lemma_device_window(t.device, data, host.crc, host.expected_crc);
        if !create_due(host.offset, host.crc, host.max_size, host.data()) {
            let opened = State {
                window_end: window_end(host.offset, host.max_size, host.len()),
                position: host.offset,
                prn_count: 0,
                window_crc: host.crc,
                ..host
            };
            lemma_write_coherent(Transfer { host: opened, ..t });
        }
    }
}

/// The answer to a select request keeps the transfer coherent.
proof fn lemma_select_answered(t: Transfer, event: EventView)
    requires
        t.coherent(),
        t.admits(Move::Answer(event)),
        t.host.phase == Phase::Select,
    ensures
        t.host.accepts(event),
        t.apply(Move::Answer(event)).coherent(),
{
    lemma_opcodes();
    lemma_bare_responses();
    let frame = event->Response_0;
    let window = ObjectSelectResponse::parse(frame.skip(2));
    lemma_resume_coherent(Transfer { host: t.host.selected(window), ..t });
}

/// The answer to a request for the checksum keeps the transfer coherent.
proof fn lemma_crc_answered(t: Transfer, event: EventView)
    requires
        t.coherent(),
        t.admits(Move::Answer(event)),
        t.host.phase == Phase::Crc,
    ensures
        t.host.accepts(event),
        t.apply(Move::Answer(event)).coherent(),
{
    lemma_opcodes();
    lemma_bare_responses();
    let frame = event->Response_0;
    let report = GetCrcResponse::parse(frame.skip(2));
    lemma_resume_coherent(Transfer { host: t.host.reported(report), ..t });
}

/// The answer to an execute request keeps the transfer coherent.
proof fn lemma_execute_answered(t: Transfer, event: EventView)
    requires
        t.coherent(),
        t.admits(Move::Answer(event)),
        t.host.phase == Phase::Execute,
    ensures
        t.host.accepts(event),
        t.apply(Move::Answer(event)).coherent(),
{
    lemma_opcodes();
    lemma_bare_responses();
    lemma_window_end(t.host.offset, t.host.max_size, t.data().len());
}

/// The answer to a create request keeps the transfer coherent.
proof fn lemma_create_answered(t: Transfer, event: EventView)
    requires
        t.coherent(),
        t.admits(Move::Answer(event)),
        t.host.phase == Phase::Create,
    ensures
        t.host.accepts(event),
        t.apply(Move::Answer(event)).coherent(),
{
    lemma_opcodes();
    lemma_bare_responses();
    assert(t.delivered().received =~= t.device.received);
    lemma_write_coherent(t);
}

/// What follows a write keeps the transfer coherent.
proof fn lemma_write_answered(t: Transfer, event: EventView)
    requires
        t.coherent(),
        t.admits(Move::Answer(event)),
        t.host.phase == Phase::Write || t.host.phase == Phase::Receipt,
    ensures
        t.host.accepts(event),
        t.apply(Move::Answer(event)).coherent(),
{
    lemma_opcodes();
    lemma_bare_responses();
    let device = t.delivered();
    assert(device.received =~= t.data().take(t.host.position as int));
    lemma_write_coherent(Transfer { device, ..t });
}

/// An answer of the device keeps the transfer coherent.
proof fn lemma_answer_coherent(t: Transfer, event: EventView)
    requires
        t.coherent(),
        t.admits(Move::Answer(event)),
    ensures
        t.host.accepts(event),
        t.apply(Move::Answer(event)).coherent(),
        t.apply(Move::Answer(event)).data() == t.data(),
        t.apply(Move::Answer(event)).device.max_size == t.device.max_size,
{
    lemma_opcodes();
    match t.host.phase {
        Phase::Select => {
            lemma_select_answered(t, event);
        },
        Phase::Execute => {
            lemma_execute_answered(t, event);
        },
        Phase::Create => {
            lemma_create_answered(t, event);
        },
        Phase::Write | Phase::Receipt => {
            lemma_write_answered(t, event);
        },
        _ => {
            lemma_crc_answered(t, event);
        },
    }
    lemma_step_keeps_image(t.host, event);
}

/// A step of a session that is at work on an object keeps the package and
/// the stage.
proof fn lemma_step_keeps_image(s: State, event: EventView)
    requires
        s.accepts(event),
        match s.phase {
            Phase::Select
            | Phase::Execute
            | Phase::Create
            | Phase::Write
            | Phase::Receipt
            | Phase::Crc => true,
            _ => false,
        },
    ensures
        s.step(event).0.firmware == s.firmware,
        s.step(event).0.stage == s.stage,
{
}

/// A restart keeps the transfer coherent: it costs at most what the device
/// had not executed and what was on its way, which is a window at most.
proof fn lemma_restart_coherent(t: Transfer, delivered: bool, lost: bool)
    requires
        t.coherent(),
    ensures
        t.apply(Move::Restart { delivered, lost }).coherent(),
        t.apply(Move::Restart { delivered, lost }).data() == t.data(),
{
    lemma_opcodes();
    lemma_bare_responses();
    let data = t.data();
    let max_size = t.device.max_size;
    let reached = if delivered && t.in_transfer() {
        t.delivered()
    } else {
        t.device
    };
    lemma_window_end(t.device.executed, max_size, data.len());
    assert(reached.holds(data) && reached.executed >= t.device.executed && reached.max_size
        == max_size && reached.received.len() <= t.device.received.len() + t.in_flight()
        && (!lost ==> reached.received.len() + max_size >= t.device.received.len()
        + t.in_flight())) by {
        if delivered && t.in_transfer() {
            match t.host.phase {
                Phase::Execute => {
                    lemma_window_end(t.host.offset, max_size, data.len());
                },
                Phase::Create => {
                    assert(reached.received =~= t.device.received);
                },
                Phase::Write | Phase::Receipt => {
                    assert(reached.received =~= data.take(t.host.position as int));
                },
                _ => {},
            }
        }
    }
    if lost {
        lemma_window_end(reached.executed, max_size, data.len());
        assert(reached.forgets().received =~= data.take(reached.executed as int));
    }
    assert(t.restarts * max_size + max_size == (t.restarts + 1) * max_size) by (nonlinear_arith);
}

/// Every transfer of a play that began as a transfer begins is coherent,
/// and is of the same object to the same device.
proof fn lemma_play_coherent(start: Transfer, moves: Seq<Move>)
    requires
        start.begins(),
        play(start, moves) is Some,
    ensures
        play(start, moves).unwrap().coherent(),
        play(start, moves).unwrap().data() == start.data(),
        play(start, moves).unwrap().device.max_size == start.device.max_size,
    decreases moves.len(),
{
    if moves.len() > 0 {
        lemma_play_coherent(start, moves.drop_last());
        let before = play(start, moves.drop_last()).unwrap();
        match moves.last() {
            Move::Answer(event) => {
                lemma_answer_coherent(before, event);
            },
            Move::Restart { delivered, lost } => {
                lemma_restart_coherent(before, delivered, lost);
            },
        }
    }
}

/// The session accepts whatever such a device answers.
pub proof fn lemma_answers_accepted(start: Transfer, moves: Seq<Move>, event: EventView)
    requires
        start.begins(),
        play(start, moves) is Some,
        play(start, moves).unwrap().admits(Move::Answer(event)),
    ensures
        play(start, moves).unwrap().host.accepts(event),
{
    lemma_play_coherent(start, moves);
    lemma_answer_coherent(play(start, moves).unwrap(), event);
}

/// Resume monotonicity: in the transfer of an object to a device that does
/// what the protocol says, however often the transfer is cut and started
/// again, the session writes no more bytes than the object has, and a
/// window's worth for each restart. The transfer never fails.
pub proof fn lemma_resume_cost(start: Transfer, moves: Seq<Move>)
    requires
        start.begins(),
        play(start, moves) is Some,
    ensures
        play(start, moves).unwrap().written <= start.data().len() + play(
            start,
            moves,
        ).unwrap().restarts * start.device.max_size,
        play(start, moves).unwrap().host.phase != Phase::Abort,
{
    lemma_play_coherent(start, moves);
}

} // verus!
