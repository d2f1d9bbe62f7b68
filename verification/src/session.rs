//! The update session as plain values: what it waits for, what it accepts,
//! and what it does on each event.

use vstd::prelude::*;

use crate::archive::{FirmwareBundle, FirmwareImage, Stage};
use crate::checksum::{crc32, lemma_crc32_concat};
use crate::dfu::{
    frame_fits, frame_payload, request_bytes, DfuError, DfuRequest, DfuResponse, NoResponse,
    ObjectType,
};
use crate::protocol::{
    AbortRequest, GetCrcRequest, GetCrcResponse, GetMtuRequest, GetMtuResponse,
    ObjectCreateRequest, ObjectExecuteRequest, ObjectSelectRequest, ObjectSelectResponse,
    ObjectWriteRequest, ObjectWriteResponse, PingRequest, PingResponse, SetReceiptNotifyRequest,
};
use crate::transfer::{
    chunk_end, chunk_size_for, create_due, execute_due, receipt_due, window_end, TransferCursor,
    DEFAULT_CHUNK_SIZE,
};
use crate::updater::{Error, ResetMode};

verus! {

/// The id that a ping carries.
pub const PING_ID: u8 = 0x7F;

/// After how many writes a receipt is asked for, unless set otherwise.
pub const DEFAULT_PRN: u16 = 5;

/// The image whose version is asked for: the application.
pub const APPLICATION_IMAGE: u8 = 2;

/// What the session waits for.
#[derive(Debug, Clone, Copy, PartialEq, Eq, Structural)]
pub enum Phase {
    /// No update has been started.
    Idle,
    /// The answer to a ping.
    Ping,
    /// The answer to the request that sets the receipt interval.
    ReceiptNotify,
    /// The answer to the request for the MTU.
    Mtu,
    /// The answer to the request that selects an object.
    Select,
    /// The answer to an execute request.
    Execute,
    /// The answer to the request that opens a window.
    Create,
    /// A write that is not answered to have gone out.
    Write,
    /// The receipt for a write.
    Receipt,
    /// The answer to the request for the checksum.
    Crc,
    /// The abort request to have gone out.
    Abort,
    /// The pause after an image to be over.
    Pause,
    /// The reset after the first stage to be done.
    Reset,
    /// Nothing: the update has ended.
    Finished,
}

/// What a driver reports to the session, as plain values.
pub enum EventView {
    Ready,
    Response(Seq<u8>),
    Failure(Error),
}

/// What the session asks of its driver, as plain values.
pub enum ActionView {
    Request { payload: Seq<u8>, reply: bool },
    Pause { millis: u64 },
    Reset { mode: ResetMode },
    Finish { result: Result<(), Error> },
}

/// The action that sends `request`.
pub open spec fn asks<R: DfuRequest>(request: R) -> ActionView {
    ActionView::Request { payload: request_bytes(request), reply: R::Response::AWAITED }
}

/// The bytes of the request that writes `chunk`, before framing.
pub open spec fn write_bytes(chunk: Seq<u8>) -> Seq<u8> {
    seq![ObjectWriteRequest::<NoResponse>::REQUEST_OPCODE] + chunk
}

/// The action that writes `chunk` into the open window.
pub open spec fn writes(chunk: Seq<u8>, reply: bool) -> ActionView {
    ActionView::Request { payload: write_bytes(chunk), reply }
}

/// The opcode under which the answer awaited in a phase comes.
pub open spec fn reply_opcode(phase: Phase) -> u8 {
    match phase {
        Phase::Ping => PingRequest::RESPONSE_OPCODE,
        Phase::ReceiptNotify => SetReceiptNotifyRequest::RESPONSE_OPCODE,
        Phase::Mtu => GetMtuRequest::RESPONSE_OPCODE,
        Phase::Select => ObjectSelectRequest::RESPONSE_OPCODE,
        Phase::Execute => ObjectExecuteRequest::RESPONSE_OPCODE,
        Phase::Create => ObjectCreateRequest::RESPONSE_OPCODE,
        Phase::Receipt => ObjectWriteRequest::<ObjectWriteResponse>::RESPONSE_OPCODE,
        _ => GetCrcRequest::RESPONSE_OPCODE,
    }
}

/// The number of payload bytes that the answer awaited in a phase is read
/// from.
pub open spec fn reply_len(phase: Phase) -> nat {
    match phase {
        Phase::Ping => PingResponse::PAYLOAD_LEN as nat,
        Phase::Mtu => GetMtuResponse::PAYLOAD_LEN as nat,
        Phase::Select => ObjectSelectResponse::PAYLOAD_LEN as nat,
        Phase::Receipt => ObjectWriteResponse::PAYLOAD_LEN as nat,
        Phase::Crc => GetCrcResponse::PAYLOAD_LEN as nat,
        _ => 0,
    }
}

/// The session as plain values.
pub struct State {
    /// The package that is being transferred.
    pub firmware: Option<FirmwareBundle>,
    /// After how many writes a receipt is asked for; zero for never.
    pub prn: u16,
    /// The most bytes that one write carries.
    pub chunk_size: nat,
    /// Whether each object is written from its start, whatever the device
    /// holds of it.
    pub force: bool,
    /// What the session waits for.
    pub phase: Phase,
    /// The image that is being transferred.
    pub stage: Stage,
    /// The object of that image that is being transferred.
    pub object: ObjectType,
    /// The most bytes that the device takes into one window.
    pub max_size: nat,
    /// How many bytes of the object the device has taken.
    pub offset: nat,
    /// The checksum of what has been handed out for the object.
    pub crc: u32,
    /// The checksum of the whole object.
    pub expected_crc: u32,
    /// Where the window that is being written ends.
    pub window_end: nat,
    /// How many bytes of the object have been handed out.
    pub position: nat,
    /// How many writes have gone out since the last receipt.
    pub prn_count: nat,
    /// The checksum with which the writing of the window began.
    pub window_crc: u32,
    /// The error that ends the update once the abort request has gone out.
    pub failure: Option<Error>,
}

impl State {
    /// A session that has not been started.
    pub open spec fn fresh(force: bool) -> State {
        State {
            firmware: None,
            prn: DEFAULT_PRN,
            chunk_size: 0,
            force,
            phase: Phase::Idle,
            stage: Stage::Boot,
            object: ObjectType::Command,
            max_size: 0,
            offset: 0,
            crc: 0,
            expected_crc: 0,
            window_end: 0,
            position: 0,
            prn_count: 0,
            window_crc: 0,
            failure: None,
        }
    }

    /// The image that is being transferred.
    pub open spec fn image(self) -> Option<FirmwareImage> {
        match self.firmware {
            Some(bundle) => bundle.image(self.stage),
            None => None,
        }
    }

    /// The bytes of the object that is being transferred: the init packet
    /// for the command object, the image for the data object.
    pub open spec fn data(self) -> Seq<u8> {
        match self.object {
            ObjectType::Command => self.image().unwrap().init,
            ObjectType::Data => self.image().unwrap().payload,
        }
    }

    /// The length of the object that is being transferred.
    pub open spec fn len(self) -> nat {
        self.data().len()
    }

    /// The update ends.
    pub open spec fn finish(self, result: Result<(), Error>) -> (State, ActionView) {
        (State { phase: Phase::Finished, failure: None, ..self }, ActionView::Finish { result })
    }

    /// The transfer of an image has failed: an abort request goes out, and
    /// the error is kept for the end.
    pub open spec fn fail(self, error: Error) -> (State, ActionView) {
        (State { phase: Phase::Abort, failure: Some(error), ..self }, asks(AbortRequest))
    }

    /// The transfer of the image of a stage begins, with a ping.
    pub open spec fn update_module(self, stage: Stage) -> (State, ActionView) {
        (State { phase: Phase::Ping, stage, ..self }, asks(PingRequest { id: PING_ID }))
    }

    /// The application is next: it is transferred where the package has
    /// one, else the update ends.
    pub open spec fn enter_application(self) -> (State, ActionView) {
        if self.firmware.unwrap().application is Some {
            self.update_module(Stage::Application)
        } else {
            self.finish(Ok(()))
        }
    }

    /// An update of `bundle` starts: with the image that replaces the
    /// bootloader where the package has one, else with the application.
    pub open spec fn start(self, bundle: FirmwareBundle) -> (State, ActionView) {
        let loaded = State { firmware: Some(bundle), failure: None, ..self };
        if bundle.boot() is Some {
            loaded.update_module(Stage::Boot)
        } else {
            loaded.enter_application()
        }
    }

    /// The receipt interval is set.
    pub open spec fn notify(self) -> (State, ActionView) {
        (
            State { phase: Phase::ReceiptNotify, ..self },
            asks(SetReceiptNotifyRequest { target: self.prn }),
        )
    }

    /// An object is selected.
    pub open spec fn transfer_object(self, object: ObjectType) -> (State, ActionView) {
        (
            State { phase: Phase::Select, object, ..self },
            asks(ObjectSelectRequest { object_type: object }),
        )
    }

    /// The head of the transfer loop: an execute request where one is due,
    /// else the next window.
    pub open spec fn resume(self) -> (State, ActionView) {
        if execute_due(self.offset, self.crc, self.expected_crc, self.max_size, self.len()) {
            (State { phase: Phase::Execute, ..self }, asks(ObjectExecuteRequest))
        } else {
            self.open_window()
        }
    }

    /// The window that holds the offset is written: after a create request
    /// where one is due, else straight away.
    pub open spec fn open_window(self) -> (State, ActionView) {
        let end = window_end(self.offset, self.max_size, self.len());
        let opened = State {
            window_end: end,
            position: self.offset,
            prn_count: 0,
            window_crc: self.crc,
            ..self
        };
        if create_due(self.offset, self.crc, self.max_size, self.data()) {
            (
                State { phase: Phase::Create, ..opened },
                asks(
                    ObjectCreateRequest {
                        object_type: self.object,
                        object_size: (end - self.offset) as u32,
                    },
                ),
            )
        } else {
            opened.write_object()
        }
    }

    /// The next write of the window goes out, with its bytes taken into the
    /// checksum; after the last one, the device is asked for its checksum.
    pub open spec fn write_object(self) -> (State, ActionView) {
        if self.position < self.window_end {
            let stop = chunk_end(self.position, self.window_end, self.chunk_size);
            let chunk = self.data().subrange(self.position as int, stop as int);
            let crc = crc32(self.crc, chunk);
            if receipt_due(self.prn, self.prn_count) {
                (
                    State { phase: Phase::Receipt, position: stop, crc, prn_count: 0, ..self },
                    writes(chunk, true),
                )
            } else {
                (
                    State {
                        phase: Phase::Write,
                        position: stop,
                        crc,
                        prn_count: if self.prn > 0 {
                            self.prn_count + 1
                        } else {
                            self.prn_count
                        },
                        ..self
                    },
                    writes(chunk, false),
                )
            }
        } else {
            (State { phase: Phase::Crc, ..self }, asks(GetCrcRequest))
        }
    }

    /// An object has been executed to its end: after the command object
    /// comes the data object, after the data object the pause that ends the
    /// image.
    pub open spec fn object_done(self) -> (State, ActionView) {
        match self.object {
            ObjectType::Command => self.transfer_object(ObjectType::Data),
            ObjectType::Data => (
                State { phase: Phase::Pause, ..self },
                ActionView::Pause { millis: self.firmware.unwrap().settle_millis(self.stage) },
            ),
        }
    }

    /// The device has refused the request of this phase. A device that does
    /// not know the ping or the MTU request is an older one: the transfer
    /// goes on, with the default chunk size. Anything else ends it.
    pub open spec fn refused(self, error: Error) -> (State, ActionView) {
        if error == Error::DfuError(DfuError::OpcodeNotSupported) && self.phase == Phase::Ping {
            self.notify()
        } else if error == Error::DfuError(DfuError::OpcodeNotSupported) && self.phase
            == Phase::Mtu {
            State { chunk_size: DEFAULT_CHUNK_SIZE as nat, ..self }.transfer_object(
                ObjectType::Command,
            )
        } else {
            self.fail(error)
        }
    }

    /// The device has answered the request of this phase with success and
    /// this payload.
    pub open spec fn answered(self, payload: Seq<u8>) -> (State, ActionView) {
        match self.phase {
            Phase::Ping => if PingResponse::parse(payload).id != PING_ID {
                self.fail(Error::PingMismatch)
            } else {
                self.notify()
            },
            Phase::ReceiptNotify => (State { phase: Phase::Mtu, ..self }, asks(GetMtuRequest)),
            Phase::Mtu => State {
                chunk_size: chunk_size_for(GetMtuResponse::parse(payload).mtu),
                ..self
            }.transfer_object(ObjectType::Command),
            Phase::Select => self.selected(ObjectSelectResponse::parse(payload)).resume(),
            Phase::Execute => if self.offset == self.len() {
                self.object_done()
            } else {
                self.open_window()
            },
            Phase::Create => self.write_object(),
            Phase::Receipt => if ObjectWriteResponse::parse(payload).crc != self.crc {
                self.fail(Error::CrcMismatch)
            } else {
                self.write_object()
            },
            _ => if GetCrcResponse::parse(payload).crc != self.crc {
                self.reported(GetCrcResponse::parse(payload)).fail(Error::CrcMismatch)
            } else {
                self.reported(GetCrcResponse::parse(payload)).resume()
            },
        }
    }

    /// The session with the device's view of the selected object taken
    /// over: the offset and checksum are the device's, or zero where the
    /// transfer is forced to start over.
    pub open spec fn selected(self, window: ObjectSelectResponse) -> State {
        State {
            max_size: window.max_size as nat,
            offset: if self.force {
                0
            } else {
                window.offset as nat
            },
            crc: if self.force {
                0
            } else {
                window.crc
            },
            expected_crc: crc32(0, self.data()),
            ..self
        }
    }

    /// The session with a cursor and a window size taken over.
    pub open spec fn located(self, cursor: TransferCursor, max_size: u32) -> State {
        State {
            max_size: max_size as nat,
            offset: cursor.object_offset as nat,
            crc: cursor.object_crc,
            expected_crc: cursor.expected_crc,
            ..self
        }
    }

    /// The session with the offset that the device reports after a window.
    pub open spec fn reported(self, report: GetCrcResponse) -> State {
        State { offset: report.offset as nat, ..self }
    }

    /// Whether the head of the transfer loop can be passed: the window size
    /// is not zero, the offset lies within the object, and where the window
    /// is written straight away, the chunk size is not zero.
    pub open spec fn resumable(self) -> bool {
        &&& self.max_size > 0
        &&& self.offset <= self.len()
        &&& (!execute_due(self.offset, self.crc, self.expected_crc, self.max_size, self.len())
            && !create_due(self.offset, self.crc, self.max_size, self.data()) ==> self.chunk_size
            > 0)
    }

    /// Whether a payload that answers the request of this phase with success
    /// can be acted on: an MTU is at least two, a window can be written in
    /// chunks, and what is reported of an object lets the transfer loop go
    /// on.
    pub open spec fn admits(self, payload: Seq<u8>) -> bool {
        match self.phase {
            Phase::Mtu => GetMtuResponse::parse(payload).mtu >= 2,
            Phase::Select => self.selected(ObjectSelectResponse::parse(payload)).resumable(),
            Phase::Create => self.chunk_size > 0,
            Phase::Crc => GetCrcResponse::parse(payload).crc == self.crc ==> self.reported(
                GetCrcResponse::parse(payload),
            ).resumable(),
            _ => true,
        }
    }

    /// Whether an answer is awaited in this phase.
    pub open spec fn awaits_reply(self) -> bool {
        match self.phase {
            Phase::Ping
            | Phase::ReceiptNotify
            | Phase::Mtu
            | Phase::Select
            | Phase::Execute
            | Phase::Create
            | Phase::Receipt
            | Phase::Crc => true,
            _ => false,
        }
    }

    /// Whether the session can act on an event: the event is of the kind
    /// that the phase waits for, a frame is long enough for what it is read
    /// as, and what it reports can be acted on.
    pub open spec fn accepts(self, event: EventView) -> bool {
        if self.awaits_reply() {
            match event {
                EventView::Ready => false,
                EventView::Failure(_) => true,
                EventView::Response(frame) => {
                    &&& frame_fits(frame, reply_opcode(self.phase), reply_len(self.phase))
                    &&& match frame_payload(frame, reply_opcode(self.phase)) {
                        Ok(payload) => self.admits(payload),
                        Err(_) => true,
                    }
                },
            }
        } else {
            match self.phase {
                Phase::Write | Phase::Abort => !(event is Response),
                Phase::Pause | Phase::Reset => event is Ready,
                _ => false,
            }
        }
    }

    /// What the session does on an event that it accepts: the session
    /// afterwards, and the action that it asks for. For an event that it
    /// does not accept nothing is said.
    pub open spec fn step(self, event: EventView) -> (State, ActionView) {
        match self.phase {
            Phase::Idle | Phase::Finished => arbitrary(),
            Phase::Write => match event {
                EventView::Failure(error) => self.fail(error),
                _ => self.write_object(),
            },
            Phase::Abort => self.finish(Err(self.failure.unwrap())),
            Phase::Pause => match self.stage {
                Stage::Boot => (
                    State { phase: Phase::Reset, ..self },
                    ActionView::Reset { mode: ResetMode::Bootloader },
                ),
                Stage::Application => self.finish(Ok(())),
            },
            Phase::Reset => self.enter_application(),
            _ => match event {
                EventView::Ready => arbitrary(),
                EventView::Failure(error) => self.fail(error),
                EventView::Response(frame) => match frame_payload(
                    frame,
                    reply_opcode(self.phase),
                ) {
                    Ok(payload) => self.answered(payload),
                    Err(error) => self.refused(error),
                },
            },
        }
    }

    /// Whether the session is one that an update can have reached.
    pub open spec fn wf(self) -> bool {
        match self.phase {
            Phase::Idle | Phase::Finished => true,
            Phase::Ping | Phase::ReceiptNotify | Phase::Mtu | Phase::Select => self.image() is Some,
            Phase::Abort => self.failure is Some,
            Phase::Pause | Phase::Reset => self.firmware is Some,
            Phase::Execute => {
                &&& self.image() is Some
                &&& self.max_size > 0
                &&& self.offset <= self.len()
                &&& self.expected_crc == crc32(0, self.data())
                &&& execute_due(
                    self.offset,
                    self.crc,
                    self.expected_crc,
                    self.max_size,
                    self.len(),
                )
            },
            Phase::Create | Phase::Write | Phase::Receipt | Phase::Crc => {
                &&& self.image() is Some
                &&& self.max_size > 0
                &&& self.expected_crc == crc32(0, self.data())
                &&& self.window_end <= self.len()
                &&& self.position <= self.window_end
                &&& self.offset <= self.position
                &&& self.window_end - self.offset <= self.max_size
                &&& self.crc == crc32(
                    self.window_crc,
                    self.data().subrange(self.offset as int, self.position as int),
                )
                &&& (self.phase == Phase::Crc ==> self.position == self.window_end)
                &&& (self.phase == Phase::Write || self.phase == Phase::Receipt
                    ==> self.chunk_size > 0)
            },
        }
    }
}

/// A window that is written keeps the session well formed.
proof fn lemma_write_object_wf(s: State)
    requires
        s.image() is Some,
        s.max_size > 0,
        s.expected_crc == crc32(0, s.data()),
        s.offset <= s.position <= s.window_end <= s.len(),
        s.window_end - s.offset <= s.max_size,
        s.crc == crc32(s.window_crc, s.data().subrange(s.offset as int, s.position as int)),
        s.chunk_size > 0,
    ensures
        s.write_object().0.wf(),
{
    if s.position < s.window_end {
        let stop = chunk_end(s.position, s.window_end, s.chunk_size);
        let done = s.data().subrange(s.offset as int, s.position as int);
        let chunk = s.data().subrange(s.position as int, stop as int);
        lemma_crc32_concat(s.window_crc, done, chunk);
        assert(done + chunk =~= s.data().subrange(s.offset as int, stop as int));
    }
}

/// A window that is opened keeps the session well formed.
proof fn lemma_open_window_wf(s: State)
    requires
        s.image() is Some,
        s.max_size > 0,
        s.expected_crc == crc32(0, s.data()),
        s.offset <= s.len(),
        !create_due(s.offset, s.crc, s.max_size, s.data()) ==> s.chunk_size > 0,
    ensures
        s.open_window().0.wf(),
{
    let end = window_end(s.offset, s.max_size, s.len());
    let opened = State {
        window_end: end,
        position: s.offset,
        prn_count: 0,
        window_crc: s.crc,
        ..s
    };
    assert(s.offset % s.max_size < s.max_size) by (nonlinear_arith)
        requires
            s.max_size > 0,
    ;
    if !create_due(s.offset, s.crc, s.max_size, s.data()) {
        lemma_write_object_wf(opened);
    }
}

/// The head of the transfer loop keeps the session well formed.
proof fn lemma_resume_wf(s: State)
    requires
        s.image() is Some,
        s.expected_crc == crc32(0, s.data()),
        s.resumable(),
    ensures
        s.resume().0.wf(),
{
    if !execute_due(s.offset, s.crc, s.expected_crc, s.max_size, s.len()) {
        lemma_open_window_wf(s);
    }
}

/// Invariant: a well-formed session that acts on an event it accepts is
/// well formed afterwards. In particular a window never holds more than the
/// device takes at once, and while a window is written the checksum is that
/// of the bytes handed out, continued from the checksum at its start.
pub proof fn lemma_step_wf(s: State, event: EventView)
    requires
        s.wf(),
        s.accepts(event),
    ensures
        s.step(event).0.wf(),
{
    if s.awaits_reply() {
        match event {
            EventView::Response(frame) => {
                match frame_payload(frame, reply_opcode(s.phase)) {
                    Ok(payload) => {
                        match s.phase {
                            Phase::Select => {
                                lemma_resume_wf(s.selected(ObjectSelectResponse::parse(payload)));
                            },
                            Phase::Execute => {
                                if s.offset != s.len() {
                                    lemma_open_window_wf(s);
                                }
                            },
                            Phase::Create | Phase::Receipt => {
                                lemma_write_object_wf(s);
                            },
                            Phase::Crc => {
                                let report = GetCrcResponse::parse(payload);
                                if report.crc == s.crc {
                                    lemma_resume_wf(s.reported(report));
                                }
                            },
                            _ => {},
                        }
                    },
                    Err(error) => {},
                }
            },
            _ => {},
        }
    } else if s.phase == Phase::Write {
        lemma_write_object_wf(s);
    }
}

} // verus!
