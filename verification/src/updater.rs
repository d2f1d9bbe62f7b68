//! The update session: which request goes out next, and what becomes of
//! each answer.
//!
//! The session does no I/O. It hands out one action at a time: a request to
//! send, a pause, a reset, or the end of the update. A driver carries the
//! action out and hands back what happened, and the session answers with the
//! next action.

use vstd::prelude::*;

use crate::archive::{FirmwareArchive, FirmwareData, Stage};
use crate::checksum::crc32_update;
use crate::codec::DfuCodec;
use crate::dfu::{
    fits, frame_fits, frame_response, lemma_bare_responses, request_bytes, DfuError, DfuRequest,
    DfuResponse, NoDataResponse, NoResponse, ObjectType,
};
use crate::protocol::{
    lemma_opcodes, AbortRequest, GetCrcRequest, GetCrcResponse, GetFirmwareVersionRequest,
    GetFirmwareVersionResponse, GetMtuRequest, GetMtuResponse, ObjectCreateRequest,
    ObjectExecuteRequest, ObjectSelectRequest, ObjectSelectResponse, ObjectWriteRequest,
    ObjectWriteResponse, PingRequest, PingResponse, SetReceiptNotifyRequest,
};
use crate::session::{
    asks, lemma_step_wf, writes, ActionView, EventView, Phase, State, APPLICATION_IMAGE,
    DEFAULT_PRN, PING_ID,
};
use crate::transfer::{
    chunk_size_of, create_due, next_chunk_end, TransferCursor, DEFAULT_CHUNK_SIZE,
};

verus! {

/// `std::io::Error`: what a transport reports when it fails. The session
/// hands it on as it is and never looks inside.
#[verifier::external_type_specification]
#[verifier::external_body]
pub struct ExIoError(std::io::Error);

/// Why an update ended early.
#[derive(Debug)]
pub enum Error {
    /// The transport failed to read, write or flush.
    IOError(std::io::Error),
    /// An incoming frame did not start with the start byte.
    FramingError,
    /// The device answered with a status other than success.
    DfuError(DfuError),
    /// The device answered a ping with another id.
    PingMismatch,
    /// The device's checksum differs from the host's.
    CrcMismatch,
}

/// What a device is reset into.
#[derive(Debug, Clone, Copy, PartialEq, Eq, Structural)]
pub enum ResetMode {
    Bootloader,
    Application,
}

/// A device in its bootloader, as far as the session is concerned: the
/// framing that is used on its byte stream, and a way to reset it. After a
/// reset the stream reaches the device as it is then.
pub trait NordicDevice {
    type Codec: DfuCodec;

    fn reset(&mut self, mode: ResetMode);
}

/// What a driver reports to the session.
#[derive(Debug)]
pub enum Event {
    /// The action was carried out, and it called for no answer.
    Ready,
    /// The decoded frame that answers the request.
    Response(Vec<u8>),
    /// The request could not be sent, or its answer could not be read.
    Failure(Error),
}

impl View for Event {
    type V = EventView;

    open spec fn view(&self) -> EventView {
        match *self {
            Event::Ready => EventView::Ready,
            Event::Response(frame) => EventView::Response(frame@),
            Event::Failure(error) => EventView::Failure(error),
        }
    }
}

/// What the session asks of its driver.
#[derive(Debug)]
pub enum Action {
    /// Frame `payload` and send it; where `reply` is set, read the frame that
    /// answers it.
    Request { payload: Vec<u8>, reply: bool },
    /// Leave the device alone for so many milliseconds.
    Pause { millis: u64 },
    /// Reset the device.
    Reset { mode: ResetMode },
    /// The update has ended, with this result.
    Finish { result: Result<(), Error> },
}

impl View for Action {
    type V = ActionView;

    open spec fn view(&self) -> ActionView {
        match *self {
            Action::Request { payload, reply } => ActionView::Request { payload: payload@, reply },
            Action::Pause { millis } => ActionView::Pause { millis },
            Action::Reset { mode } => ActionView::Reset { mode },
            Action::Finish { result } => ActionView::Finish { result },
        }
    }
}

/// The action that sends `request`.
fn request<R: DfuRequest>(message: R) -> (action: Action)
    ensures
        action@ == asks(message),
{
    let reply = <R::Response as DfuResponse>::AWAITED;
    Action::Request { payload: message.dfu_write(), reply }
}

/// The action that writes `chunk` into the open window.
fn write_request(chunk: &[u8], reply: bool) -> (action: Action)
    ensures
        action@ == writes(chunk@, reply),
{
    proof {
        lemma_opcodes();
        lemma_bare_responses();
    }
    if reply {
        request(ObjectWriteRequest::<ObjectWriteResponse>::new(chunk))
    } else {
        request(ObjectWriteRequest::<NoResponse>::new(chunk))
    }
}

/// An update session.
pub struct Updater<'a> {
    firmware: Option<&'a FirmwareArchive>,
    prn: u16,
    chunk_size: usize,
    force: bool,
    phase: Phase,
    stage: Stage,
    object: ObjectType,
    max_size: u32,
    cursor: TransferCursor,
    window_end: usize,
    position: usize,
    prn_count: u16,
    window_crc: Ghost<u32>,
    failure: Option<Error>,
}

impl<'a> View for Updater<'a> {
    type V = State;

    closed spec fn view(&self) -> State {
        State {
            firmware: match self.firmware {
                Some(archive) => Some(archive@),
                None => None,
            },
            prn: self.prn,
            chunk_size: self.chunk_size as nat,
            force: self.force,
            phase: self.phase,
            stage: self.stage,
            object: self.object,
            max_size: self.max_size as nat,
            offset: self.cursor.object_offset as nat,
            crc: self.cursor.object_crc,
            expected_crc: self.cursor.expected_crc,
            window_end: self.window_end as nat,
            position: self.position as nat,
            prn_count: self.prn_count as nat,
            window_crc: self.window_crc@,
            failure: self.failure,
        }
    }
}

impl<'a> Updater<'a> {
    /// Whether the session is one that an update can have reached.
    pub open spec fn wf(&self) -> bool {
        self@.wf()
    }

    /// A session that has not been started. With `force` set, each object
    /// is written from its start, whatever the device holds of it.
    pub fn new(force: bool) -> (r: Self)
        ensures
            r@ == State::fresh(force),
            r.wf(),
    {
        Updater {
            firmware: None,
            prn: DEFAULT_PRN,
            chunk_size: 0,
            force,
            phase: Phase::Idle,
            stage: Stage::Boot,
            object: ObjectType::Command,
            max_size: 0,
            cursor: TransferCursor { object_offset: 0, object_crc: 0, expected_crc: 0 },
            window_end: 0,
            position: 0,
            prn_count: 0,
            window_crc: Ghost(0),
            failure: None,
        }
    }

    /// What the session waits for.
    pub fn phase(&self) -> (r: Phase)
        ensures
            r == self@.phase,
    {
        self.phase
    }

    /// Where the transfer of the current object stands.
    pub fn cursor(&self) -> (r: TransferCursor)
        ensures
            r.object_offset == self@.offset,
            r.object_crc == self@.crc,
            r.expected_crc == self@.expected_crc,
    {
        self.cursor
    }

    /// The most bytes that one write carries.
    pub fn chunk_size(&self) -> (r: usize)
        ensures
            r == self@.chunk_size,
    {
        self.chunk_size
    }

    /// Sets after how many writes a receipt is asked for; zero for never.
    /// The device learns of it with the next image.
    pub fn set_prn(&mut self, prn: u16)
        ensures
            final(self)@ == (State { prn, ..old(self)@ }),
            old(self).wf() ==> final(self).wf(),
    {
        self.prn = prn;
    }

    /// The bytes of the object that is being transferred.
    fn bytes(&self) -> (data: &'a [u8])
        requires
            self@.image() is Some,
        ensures
            data@ == self@.data(),
    {
        let archive: &'a FirmwareArchive = self.firmware.unwrap();
        let image: &'a FirmwareData = archive.image(self.stage).unwrap();
        match self.object {
            ObjectType::Command => image.dat.as_slice(),
            ObjectType::Data => image.bin.as_slice(),
        }
    }

    /// The update ends.
    fn finish(&mut self, result: Result<(), Error>) -> (action: Action)
        ensures
            (final(self)@, action@) == old(self)@.finish(result),
    {
        self.phase = Phase::Finished;
        self.failure = None;
        Action::Finish { result }
    }

    /// The transfer of an image has failed.
    fn fail(&mut self, error: Error) -> (action: Action)
        ensures
            (final(self)@, action@) == old(self)@.fail(error),
    {
        self.phase = Phase::Abort;
        self.failure = Some(error);
        request(AbortRequest)
    }

    /// The transfer of the image of a stage begins.
    fn update_module(&mut self, stage: Stage) -> (action: Action)
        ensures
            (final(self)@, action@) == old(self)@.update_module(stage),
    {
        self.phase = Phase::Ping;
        self.stage = stage;
        request(PingRequest { id: PING_ID })
    }

    /// The application is next.
    fn enter_application(&mut self) -> (action: Action)
        requires
            old(self)@.firmware is Some,
        ensures
            (final(self)@, action@) == old(self)@.enter_application(),
    {
        let archive: &'a FirmwareArchive = self.firmware.unwrap();
        if archive.application.is_some() {
            self.update_module(Stage::Application)
        } else {
            self.finish(Ok(()))
        }
    }

    /// Starts an update of `firmware`: the first action of the update is
    /// returned. The image that replaces the bootloader goes first, where
    /// the package has one; a package with a softdevice never has its
    /// bootloader image sent. A package with no image ends the update at
    /// once.
    pub fn update(&mut self, firmware: &'a FirmwareArchive) -> (action: Action)
        ensures
            (final(self)@, action@) == old(self)@.start(firmware@),
            final(self).wf(),
    {
        self.firmware = Some(firmware);
        self.failure = None;
        if firmware.image(Stage::Boot).is_some() {
            self.update_module(Stage::Boot)
        } else {
            self.enter_application()
        }
    }

    /// The receipt interval is set.
    fn notify(&mut self) -> (action: Action)
        ensures
            (final(self)@, action@) == old(self)@.notify(),
    {
        self.phase = Phase::ReceiptNotify;
        request(SetReceiptNotifyRequest { target: self.prn })
    }

    /// An object is selected.
    fn transfer_object(&mut self, object: ObjectType) -> (action: Action)
        ensures
            (final(self)@, action@) == old(self)@.transfer_object(object),
    {
        self.phase = Phase::Select;
        self.object = object;
        request(ObjectSelectRequest { object_type: object })
    }

    /// The next write of the window goes out.
    fn write_object(&mut self) -> (action: Action)
        requires
            old(self)@.image() is Some,
            old(self)@.position <= old(self)@.window_end <= old(self)@.len(),
        ensures
            (final(self)@, action@) == old(self)@.write_object(),
    {
        if self.position < self.window_end {
            let data = self.bytes();
            let stop = next_chunk_end(self.position, self.window_end, self.chunk_size);
            let chunk = &data[self.position..stop];
            let crc = crc32_update(self.cursor.object_crc, chunk);
            let receipt = self.prn > 0 && self.prn_count >= self.prn - 1;
            self.cursor.object_crc = crc;
            self.position = stop;
            if receipt {
                self.prn_count = 0;
                self.phase = Phase::Receipt;
            } else {
                if self.prn > 0 {
                    self.prn_count = self.prn_count + 1;
                }
                self.phase = Phase::Write;
            }
            write_request(chunk, receipt)
        } else {
            self.phase = Phase::Crc;
            request(GetCrcRequest)
        }
    }

    /// The window that holds the offset is written, after a create request
    /// where `create` says that one is due.
    fn open_window(&mut self, create: bool) -> (action: Action)
        requires
            old(self)@.image() is Some,
            old(self)@.max_size > 0,
            old(self)@.offset <= old(self)@.len(),
            create == create_due(
                old(self)@.offset,
                old(self)@.crc,
                old(self)@.max_size,
                old(self)@.data(),
            ),
        ensures
            (final(self)@, action@) == old(self)@.open_window(),
    {
        let data = self.bytes();
        let end = self.cursor.window_end(self.max_size, data.len());
        self.window_end = end;
        self.position = self.cursor.object_offset;
        self.prn_count = 0;
        self.window_crc = Ghost(self.cursor.object_crc);
        if create {
            self.phase = Phase::Create;
            request(
                ObjectCreateRequest {
                    object_type: self.object,
                    object_size: (end - self.cursor.object_offset) as u32,
                },
            )
        } else {
            self.write_object()
        }
    }

    /// The head of the transfer loop, for the cursor and the window size
    /// that an answer has brought. Where the loop cannot go on from there,
    /// nothing is changed.
    fn resume(&mut self, cursor: TransferCursor, max_size: u32) -> (r: Option<Action>)
        requires
            old(self)@.image() is Some,
        ensures
            match r {
                Some(action) => old(self)@.located(cursor, max_size).resumable() && (
                final(self)@, action@) == old(self)@.located(cursor, max_size).resume(),
                None => !old(self)@.located(cursor, max_size).resumable() && final(self)@ == old(
                    self,
                )@,
            },
    {
        let data = self.bytes();
        if max_size == 0 || cursor.object_offset > data.len() {
            return None;
        }
        let execute = cursor.execute_due(max_size, data.len());
        if execute {
            self.cursor = cursor;
            self.max_size = max_size;
            self.phase = Phase::Execute;
            return Some(request(ObjectExecuteRequest));
        }
        let create = cursor.create_due(max_size, data);
        if !create && self.chunk_size == 0 {
            return None;
        }
        self.cursor = cursor;
        self.max_size = max_size;
        Some(self.open_window(create))
    }

    /// An object has been executed to its end.
    fn object_done(&mut self) -> (action: Action)
        requires
            old(self)@.firmware is Some,
        ensures
            (final(self)@, action@) == old(self)@.object_done(),
    {
        match self.object {
            ObjectType::Command => self.transfer_object(ObjectType::Data),
            ObjectType::Data => {
                let archive: &'a FirmwareArchive = self.firmware.unwrap();
                self.phase = Phase::Pause;
                Action::Pause { millis: archive.settle_millis(self.stage) }
            },
        }
    }

    /// The device has refused the request of this phase.
    fn refused(&mut self, error: Error) -> (action: Action)
        ensures
            (final(self)@, action@) == old(self)@.refused(error),
    {
        match error {
            Error::DfuError(DfuError::OpcodeNotSupported) => match self.phase {
                Phase::Ping => self.notify(),
                Phase::Mtu => {
                    self.chunk_size = DEFAULT_CHUNK_SIZE;
                    self.transfer_object(ObjectType::Command)
                },
                _ => self.fail(error),
            },
            _ => self.fail(error),
        }
    }

    /// A decoded frame has come in while an answer is awaited.
    fn answer(&mut self, frame: &[u8]) -> (r: Option<Action>)
        requires
            old(self).wf(),
            old(self)@.awaits_reply(),
        ensures
            match r {
                Some(action) => old(self)@.accepts(EventView::Response(frame@)) && (
                final(self)@, action@) == old(self)@.step(EventView::Response(frame@)),
                None => !old(self)@.accepts(EventView::Response(frame@)) && final(self)@ == old(
                    self,
                )@,
            },
    {
        proof {
            lemma_opcodes();
            lemma_bare_responses();
        }
        match self.phase {
            Phase::Ping => {
                if !fits::<PingResponse>(frame, PingRequest::RESPONSE_OPCODE) {
                    return None;
                }
                match PingResponse::dfu_read(frame, PingRequest::RESPONSE_OPCODE) {
                    Ok(pong) => {
                        if pong.id != PING_ID {
                            Some(self.fail(Error::PingMismatch))
                        } else {
                            Some(self.notify())
                        }
                    },
                    Err(error) => Some(self.refused(error)),
                }
            },
            Phase::ReceiptNotify => {
                if !fits::<NoDataResponse>(frame, SetReceiptNotifyRequest::RESPONSE_OPCODE) {
                    return None;
                }
                match NoDataResponse::dfu_read(frame, SetReceiptNotifyRequest::RESPONSE_OPCODE) {
                    Ok(_) => {
                        self.phase = Phase::Mtu;
                        Some(request(GetMtuRequest))
                    },
                    Err(error) => Some(self.refused(error)),
                }
            },
            Phase::Mtu => {
                if !fits::<GetMtuResponse>(frame, GetMtuRequest::RESPONSE_OPCODE) {
                    return None;
                }
                match GetMtuResponse::dfu_read(frame, GetMtuRequest::RESPONSE_OPCODE) {
                    Ok(limit) => {
                        if limit.mtu < 2 {
                            return None;
                        }
                        self.chunk_size = chunk_size_of(limit.mtu);
                        Some(self.transfer_object(ObjectType::Command))
                    },
                    Err(error) => Some(self.refused(error)),
                }
            },
            Phase::Select => {
                if !fits::<ObjectSelectResponse>(frame, ObjectSelectRequest::RESPONSE_OPCODE) {
                    return None;
                }
                match ObjectSelectResponse::dfu_read(frame, ObjectSelectRequest::RESPONSE_OPCODE) {
                    Ok(window) => {
                        let cursor = TransferCursor::resume(&window, self.force, self.bytes());
                        self.resume(cursor, window.max_size)
                    },
                    Err(error) => Some(self.refused(error)),
                }
            },
            Phase::Execute => {
                if !fits::<NoDataResponse>(frame, ObjectExecuteRequest::RESPONSE_OPCODE) {
                    return None;
                }
                match NoDataResponse::dfu_read(frame, ObjectExecuteRequest::RESPONSE_OPCODE) {
                    Ok(_) => {
                        if self.cursor.object_offset == self.bytes().len() {
                            Some(self.object_done())
                        } else {
                            Some(self.open_window(true))
                        }
                    },
                    Err(error) => Some(self.refused(error)),
                }
            },
            Phase::Create => {
                if !fits::<NoDataResponse>(frame, ObjectCreateRequest::RESPONSE_OPCODE) {
                    return None;
                }
                match NoDataResponse::dfu_read(frame, ObjectCreateRequest::RESPONSE_OPCODE) {
                    Ok(_) => {
                        if self.chunk_size == 0 {
                            return None;
                        }
                        Some(self.write_object())
                    },
                    Err(error) => Some(self.refused(error)),
                }
            },
            Phase::Receipt => {
                if !fits::<ObjectWriteResponse>(
                    frame,
                    ObjectWriteRequest::<ObjectWriteResponse>::RESPONSE_OPCODE,
                ) {
                    return None;
                }
                match ObjectWriteResponse::dfu_read(
                    frame,
                    ObjectWriteRequest::<ObjectWriteResponse>::RESPONSE_OPCODE,
                ) {
                    Ok(receipt) => {
                        if receipt.crc != self.cursor.object_crc {
                            Some(self.fail(Error::CrcMismatch))
                        } else {
                            Some(self.write_object())
                        }
                    },
                    Err(error) => Some(self.refused(error)),
                }
            },
            _ => {
                if !fits::<GetCrcResponse>(frame, GetCrcRequest::RESPONSE_OPCODE) {
                    return None;
                }
                match GetCrcResponse::dfu_read(frame, GetCrcRequest::RESPONSE_OPCODE) {
                    Ok(report) => {
                        let mut cursor = self.cursor;
                        match cursor.reconcile(&report) {
                            Err(error) => {
                                self.cursor = cursor;
                                Some(self.fail(error))
                            },
                            Ok(_) => self.resume(cursor, self.max_size),
                        }
                    },
                    Err(error) => Some(self.refused(error)),
                }
            },
        }
    }

    /// Hands the session what came of its last action, and returns the next
    /// action. An event that the session cannot act on gives `None` and
    /// changes nothing: an event of a kind that the phase does not wait for,
    /// a frame too short for what it is read as, a window size of zero, an
    /// offset beyond the object, an MTU below two, or a chunk size of zero
    /// where a window is to be written.
    pub fn advance(&mut self, event: Event) -> (r: Option<Action>)
        requires
            old(self).wf(),
        ensures
            final(self).wf(),
            match r {
                Some(action) => old(self)@.accepts(event@) && (final(self)@, action@) == old(
                    self,
                )@.step(event@),
                None => !old(self)@.accepts(event@) && final(self)@ == old(self)@,
            },
    {
        proof {
            if old(self)@.accepts(event@) {
                lemma_step_wf(old(self)@, event@);
            }
        }
        match self.phase {
            Phase::Idle | Phase::Finished => None,
            Phase::Write => match event {
                Event::Ready => Some(self.write_object()),
                Event::Failure(error) => Some(self.fail(error)),
                Event::Response(_) => None,
            },
            Phase::Abort => match event {
                Event::Response(_) => None,
                _ => {
                    let error = self.failure.take().unwrap();
                    Some(self.finish(Err(error)))
                },
            },
            Phase::Pause => match event {
                Event::Ready => match self.stage {
                    Stage::Boot => {
                        self.phase = Phase::Reset;
                        Some(Action::Reset { mode: ResetMode::Bootloader })
                    },
                    Stage::Application => Some(self.finish(Ok(()))),
                },
                _ => None,
            },
            Phase::Reset => match event {
                Event::Ready => Some(self.enter_application()),
                _ => None,
            },
            _ => match event {
                Event::Ready => None,
                Event::Failure(error) => Some(self.fail(error)),
                Event::Response(frame) => self.answer(frame.as_slice()),
            },
        }
    }

    /// The request that asks a device for the version of its application.
    pub fn firmware_version_request() -> (r: Vec<u8>)
        ensures
            r@ == request_bytes(GetFirmwareVersionRequest { image: APPLICATION_IMAGE }),
    {
        GetFirmwareVersionRequest { image: APPLICATION_IMAGE }.dfu_write()
    }

    /// The version of the application on a device, from the decoded frame
    /// that answers the request for it.
    pub fn get_firmware_version(frame: &[u8]) -> (r: Result<u32, Error>)
        requires
            frame_fits(
                frame@,
                GetFirmwareVersionRequest::RESPONSE_OPCODE,
                GetFirmwareVersionResponse::PAYLOAD_LEN as nat,
            ),
        ensures
            match frame_response::<GetFirmwareVersionResponse>(
                frame@,
                GetFirmwareVersionRequest::RESPONSE_OPCODE,
            ) {
                Ok(answer) => r == Ok::<u32, Error>(answer.version),
                Err(error) => r == Err::<u32, Error>(error),
            },
    {
        proof {
            lemma_opcodes();
        }
        match GetFirmwareVersionResponse::dfu_read(
            frame,
            GetFirmwareVersionRequest::RESPONSE_OPCODE,
        ) {
            Ok(answer) => Ok(answer.version),
            Err(error) => Err(error),
        }
    }
}

} // verus!
