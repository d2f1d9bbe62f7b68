//! The shape shared by every DFU message: a request is its opcode followed
//! by its payload; a response is the opcode it answers, a status byte and a
//! payload.

use vstd::prelude::*;
use vstd::std_specs::convert::FromSpecImpl;

use crate::updater::Error;

verus! {

/// The status byte of a response that reports success.
pub const STATUS_SUCCESS: u8 = 0x01;

/// What a device reports in the status byte of a response that failed.
#[derive(Debug, Clone, Copy, PartialEq, Eq, Structural)]
pub enum DfuError {
    InvalidOpcode,
    OpcodeNotSupported,
    InvalidParameter,
    InsufficientResources,
    InvalidObject,
    UnsupportedType,
    OperationNotPermitted,
    OperationFailed,
    ExtendedError,
    UnknownError,
}

/// The two kinds of object that a device receives.
#[derive(Debug, Clone, Copy, PartialEq, Eq, Structural)]
pub enum ObjectType {
    Command,
    Data,
}

impl ObjectType {
    /// The byte that names this kind on the wire.
    pub open spec fn spec_code(self) -> u8 {
        match self {
            ObjectType::Command => 0x01,
            ObjectType::Data => 0x02,
        }
    }

    /// The byte that names this kind on the wire.
    #[verifier::when_used_as_spec(spec_code)]
    pub fn code(self) -> (r: u8)
        ensures
            r == self.spec_code(),
    {
        match self {
            ObjectType::Command => 0x01,
            ObjectType::Data => 0x02,
        }
    }
}

/// The error that a status byte stands for.
pub open spec fn status_error(code: u8) -> DfuError {
    if code == 0x00 {
        DfuError::InvalidOpcode
    } else if code == 0x02 {
        DfuError::OpcodeNotSupported
    } else if code == 0x03 {
        DfuError::InvalidParameter
    } else if code == 0x04 {
        DfuError::InsufficientResources
    } else if code == 0x05 {
        DfuError::InvalidObject
    } else if code == 0x06 {
        DfuError::UnsupportedType
    } else if code == 0x07 {
        DfuError::OperationNotPermitted
    } else if code == 0x08 {
        DfuError::OperationFailed
    } else if code == 0x09 {
        DfuError::ExtendedError
    } else {
        DfuError::UnknownError
    }
}

impl DfuError {
    /// The error that a status byte stands for.
    pub fn of_status(code: u8) -> (r: DfuError)
        ensures
            r == status_error(code),
    {
        if code == 0x00 {
            DfuError::InvalidOpcode
        } else if code == 0x02 {
            DfuError::OpcodeNotSupported
        } else if code == 0x03 {
            DfuError::InvalidParameter
        } else if code == 0x04 {
            DfuError::InsufficientResources
        } else if code == 0x05 {
            DfuError::InvalidObject
        } else if code == 0x06 {
            DfuError::UnsupportedType
        } else if code == 0x07 {
            DfuError::OperationNotPermitted
        } else if code == 0x08 {
            DfuError::OperationFailed
        } else if code == 0x09 {
            DfuError::ExtendedError
        } else {
            DfuError::UnknownError
        }
    }
}

impl From<u8> for DfuError {
    fn from(err_code: u8) -> (r: DfuError) {
        DfuError::of_status(err_code)
    }
}

impl FromSpecImpl<u8> for DfuError {
    open spec fn obeys_from_spec() -> bool {
        true
    }

    open spec fn from_spec(err_code: u8) -> DfuError {
        status_error(err_code)
    }
}

impl From<std::io::Error> for Error {
    fn from(err: std::io::Error) -> (r: Error) {
        Error::IOError(err)
    }
}

impl FromSpecImpl<std::io::Error> for Error {
    open spec fn obeys_from_spec() -> bool {
        true
    }

    open spec fn from_spec(err: std::io::Error) -> Error {
        Error::IOError(err)
    }
}

impl From<DfuError> for Error {
    fn from(err: DfuError) -> (r: Error) {
        Error::DfuError(err)
    }
}

impl FromSpecImpl<DfuError> for Error {
    open spec fn obeys_from_spec() -> bool {
        true
    }

    open spec fn from_spec(err: DfuError) -> Error {
        Error::DfuError(err)
    }
}

/// A value with a payload: the bytes that follow the opcode of a request.
pub trait DfuSerialize {
    /// The payload, as the wire carries it.
    spec fn payload(&self) -> Seq<u8>;

    /// The payload, as the wire carries it.
    fn serialize(self) -> (r: Vec<u8>)
        ensures
            r@ == self.payload(),
    ;
}

/// A request: the opcode it is sent under, the opcode its response comes
/// back under, and the response it is answered with.
pub trait DfuRequest: Sized + DfuSerialize {
    /// The opcode that the request starts with.
    const REQUEST_OPCODE: u8;

    /// The opcode that the response to it starts with.
    const RESPONSE_OPCODE: u8;

    type Response: DfuResponse;

    /// The bytes of the request before framing. They start with the
    /// request's opcode.
    fn dfu_write(self) -> (r: Vec<u8>)
        ensures
            r@ == seq![Self::REQUEST_OPCODE] + self.payload(),
            r@.len() >= 1,
            r@[0] == Self::REQUEST_OPCODE,
    {
        let mut request_data: Vec<u8> = Vec::new();
        request_data.push(Self::REQUEST_OPCODE);
        let body = self.serialize();
        request_data.extend_from_slice(body.as_slice());
        request_data
    }
}

/// The bytes of a request before framing: its opcode, then its payload.
pub open spec fn request_bytes<R: DfuRequest>(request: R) -> Seq<u8> {
    seq![R::REQUEST_OPCODE] + request.payload()
}

/// Whether a decoded frame is long enough to be read as a response under
/// `opcode` with a payload of `payload_len` bytes: it holds the two leading
/// bytes and, where these report success, the whole payload.
pub open spec fn frame_fits(frame: Seq<u8>, opcode: u8, payload_len: nat) -> bool {
    &&& frame.len() >= 2
    &&& (frame[0] == opcode && frame[1] == STATUS_SUCCESS ==> frame.len() >= 2 + payload_len)
}

/// What a decoded frame carries under `opcode`: a frame that starts with
/// another opcode is refused as an invalid opcode, a status other than
/// success gives the error it stands for, and the rest is the payload.
pub open spec fn frame_payload(frame: Seq<u8>, opcode: u8) -> Result<Seq<u8>, Error> {
    if frame[0] != opcode {
        Err(Error::DfuError(DfuError::InvalidOpcode))
    } else if frame[1] != STATUS_SUCCESS {
        Err(Error::DfuError(status_error(frame[1])))
    } else {
        Ok(frame.skip(2))
    }
}

/// A response, read from the payload of a decoded frame.
pub trait DfuResponse: Sized {
    /// Whether a frame is read for this response at all.
    const AWAITED: bool;

    /// The number of payload bytes that the response is read from.
    const PAYLOAD_LEN: usize;

    /// The response that a payload holds.
    spec fn parse(payload: Seq<u8>) -> Self;

    /// The response that a payload holds. Bytes after the response are
    /// ignored.
    fn deserialize(payload: &[u8]) -> (r: Self)
        requires
            payload.len() >= Self::PAYLOAD_LEN,
        ensures
            r == Self::parse(payload@),
    ;

    /// Reads a decoded frame as the response to a request whose response
    /// opcode is `opcode`. Where a frame is awaited, this succeeds exactly
    /// when the frame starts with `opcode` and its status byte reports
    /// success. Where none is awaited, the frame is not looked at beyond
    /// what the response is read from.
    fn dfu_read(frame: &[u8], opcode: u8) -> (r: Result<Self, Error>)
        requires
            Self::AWAITED ==> frame_fits(frame@, opcode, Self::PAYLOAD_LEN as nat),
            !Self::AWAITED ==> frame.len() >= Self::PAYLOAD_LEN,
        ensures
            Self::AWAITED ==> (r is Ok <==> frame[0] == opcode && frame[1] == STATUS_SUCCESS),
            Self::AWAITED ==> match frame_payload(frame@, opcode) {
                Ok(payload) => r == Ok::<Self, Error>(Self::parse(payload)),
                Err(e) => r == Err::<Self, Error>(e),
            },
            !Self::AWAITED ==> r == Ok::<Self, Error>(Self::parse(frame@)),
    {
        if !Self::AWAITED {
            return Ok(Self::deserialize(frame));
        }
        if frame[0] != opcode {
            return Err(Error::DfuError(DfuError::InvalidOpcode));
        }
        if frame[1] != STATUS_SUCCESS {
            Err(Error::DfuError(DfuError::of_status(frame[1])))
        } else {
            let payload = &frame[2..frame.len()];
            Ok(Self::deserialize(payload))
        }
    }
}

/// What a decoded frame is read as under `opcode`.
pub open spec fn frame_response<R: DfuResponse>(frame: Seq<u8>, opcode: u8) -> Result<R, Error> {
    match frame_payload(frame, opcode) {
        Ok(payload) => Ok(R::parse(payload)),
        Err(e) => Err(e),
    }
}

/// Whether `frame` can be read as a response under `opcode`.
pub fn fits<R: DfuResponse>(frame: &[u8], opcode: u8) -> (r: bool)
    ensures
        r == frame_fits(frame@, opcode, R::PAYLOAD_LEN as nat),
{
    if frame.len() < 2 {
        false
    } else if frame[0] == opcode && frame[1] == STATUS_SUCCESS {
        frame.len() - 2 >= R::PAYLOAD_LEN
    } else {
        true
    }
}

/// The response to a request that is not answered: no frame is read.
#[derive(Debug, Clone, Copy, PartialEq, Eq, Structural)]
pub struct NoResponse;

impl DfuResponse for NoResponse {
    const AWAITED: bool = false;

    const PAYLOAD_LEN: usize = 0;

    open spec fn parse(payload: Seq<u8>) -> Self {
        NoResponse
    }

    fn deserialize(payload: &[u8]) -> (r: Self) {
        NoResponse
    }

    fn dfu_read(frame: &[u8], opcode: u8) -> (r: Result<Self, Error>) {
        Ok(NoResponse)
    }
}

/// The response to a request that is answered with a status and nothing
/// else.
#[derive(Debug, Clone, Copy, PartialEq, Eq, Structural)]
pub struct NoDataResponse;

impl DfuResponse for NoDataResponse {
    const AWAITED: bool = true;

    const PAYLOAD_LEN: usize = 0;

    open spec fn parse(payload: Seq<u8>) -> Self {
        NoDataResponse
    }

    fn deserialize(payload: &[u8]) -> (r: Self) {
        NoDataResponse
    }
}

/// A response that is not awaited is read from nothing; a response without
/// data is awaited and has no payload.
pub proof fn lemma_bare_responses()
    ensures
        !NoResponse::AWAITED,
        NoResponse::PAYLOAD_LEN == 0,
        NoDataResponse::AWAITED,
        NoDataResponse::PAYLOAD_LEN == 0,
{
}

} // verus!
