//! The requests that a host sends and the responses that a device gives.
//! All integers travel least significant byte first, with nothing between
//! the fields.

use std::marker::PhantomData;
use vstd::prelude::*;

use crate::dfu::{DfuRequest, DfuResponse, DfuSerialize, NoDataResponse, NoResponse, ObjectType};
use crate::wire::{get_u16, get_u32, le_u16, le_u32, put_u16, put_u32, u16_le, u32_le};

verus! {

/// Asks for the version of the protocol that the device speaks.
pub struct ProtocolVersionRequest;

impl DfuSerialize for ProtocolVersionRequest {
    open spec fn payload(&self) -> Seq<u8> {
        Seq::empty()
    }

    fn serialize(self) -> (r: Vec<u8>) {
        Vec::new()
    }
}

impl DfuRequest for ProtocolVersionRequest {
    const REQUEST_OPCODE: u8 = 0x00;

    const RESPONSE_OPCODE: u8 = 0x00;

    type Response = ProtocolVersionResponse;
}

/// The version of the protocol that the device speaks.
#[derive(Debug, Clone, Copy, PartialEq, Eq, Structural)]
pub struct ProtocolVersionResponse {
    pub version: u8,
}

impl DfuResponse for ProtocolVersionResponse {
    const AWAITED: bool = true;

    const PAYLOAD_LEN: usize = 1;

    open spec fn parse(payload: Seq<u8>) -> Self {
        ProtocolVersionResponse {
            version: payload[0],
        }
    }

    fn deserialize(payload: &[u8]) -> (r: Self) {
        ProtocolVersionResponse {
            version: payload[0],
        }
    }
}

/// Opens a fresh object of `object_size` bytes on the device.
pub struct ObjectCreateRequest {
    pub object_type: ObjectType,
    pub object_size: u32,
}

impl DfuSerialize for ObjectCreateRequest {
    open spec fn payload(&self) -> Seq<u8> {
        seq![self.object_type.spec_code()] + u32_le(self.object_size)
    }

    fn serialize(self) -> (r: Vec<u8>) {
        let mut out: Vec<u8> = Vec::new();
        out.push(self.object_type.code());
        put_u32(&mut out, self.object_size);
        out
    }
}

impl DfuRequest for ObjectCreateRequest {
    const REQUEST_OPCODE: u8 = 0x01;

    const RESPONSE_OPCODE: u8 = 0x01;

    type Response = NoDataResponse;
}

/// Sets after how many writes the device sends a receipt.
pub struct SetReceiptNotifyRequest {
    pub target: u16,
}

impl DfuSerialize for SetReceiptNotifyRequest {
    open spec fn payload(&self) -> Seq<u8> {
        u16_le(self.target)
    }

    fn serialize(self) -> (r: Vec<u8>) {
        let mut out: Vec<u8> = Vec::new();
        put_u16(&mut out, self.target);
        out
    }
}

impl DfuRequest for SetReceiptNotifyRequest {
    const REQUEST_OPCODE: u8 = 0x02;

    const RESPONSE_OPCODE: u8 = 0x02;

    type Response = NoDataResponse;
}

/// Asks for the offset and checksum of the object being written.
pub struct GetCrcRequest;

impl DfuSerialize for GetCrcRequest {
    open spec fn payload(&self) -> Seq<u8> {
        Seq::empty()
    }

    fn serialize(self) -> (r: Vec<u8>) {
        Vec::new()
    }
}

impl DfuRequest for GetCrcRequest {
    const REQUEST_OPCODE: u8 = 0x03;

    const RESPONSE_OPCODE: u8 = 0x03;

    type Response = GetCrcResponse;
}

/// How far the device has written the current object, and its checksum so far.
#[derive(Debug, Clone, Copy, PartialEq, Eq, Structural)]
pub struct GetCrcResponse {
    pub offset: u32,
    pub crc: u32,
}

impl DfuResponse for GetCrcResponse {
    const AWAITED: bool = true;

    const PAYLOAD_LEN: usize = 8;

    open spec fn parse(payload: Seq<u8>) -> Self {
        GetCrcResponse {
            offset: le_u32(payload, 0),
            crc: le_u32(payload, 4),
        }
    }

    fn deserialize(payload: &[u8]) -> (r: Self) {
        GetCrcResponse {
            offset: get_u32(payload, 0),
            crc: get_u32(payload, 4),
        }
    }
}

/// Commits the object that was written.
pub struct ObjectExecuteRequest;

impl DfuSerialize for ObjectExecuteRequest {
    open spec fn payload(&self) -> Seq<u8> {
        Seq::empty()
    }

    fn serialize(self) -> (r: Vec<u8>) {
        Vec::new()
    }
}

impl DfuRequest for ObjectExecuteRequest {
    const REQUEST_OPCODE: u8 = 0x04;

    const RESPONSE_OPCODE: u8 = 0x04;

    type Response = NoDataResponse;
}

/// Selects the kind of object to write and asks what the device holds of it.
pub struct ObjectSelectRequest {
    pub object_type: ObjectType,
}

impl DfuSerialize for ObjectSelectRequest {
    open spec fn payload(&self) -> Seq<u8> {
        seq![self.object_type.spec_code()]
    }

    fn serialize(self) -> (r: Vec<u8>) {
        let mut out: Vec<u8> = Vec::new();
        out.push(self.object_type.code());
        out
    }
}

impl DfuRequest for ObjectSelectRequest {
    const REQUEST_OPCODE: u8 = 0x06;

    const RESPONSE_OPCODE: u8 = 0x06;

    type Response = ObjectSelectResponse;
}

/// The device's view of the selected object: the most it takes at once, how far it
/// has written, and its checksum so far.
#[derive(Debug, Clone, Copy, PartialEq, Eq, Structural)]
pub struct ObjectSelectResponse {
    pub max_size: u32,
    pub offset: u32,
    pub crc: u32,
}

impl DfuResponse for ObjectSelectResponse {
    const AWAITED: bool = true;

    const PAYLOAD_LEN: usize = 12;

    open spec fn parse(payload: Seq<u8>) -> Self {
        ObjectSelectResponse {
            max_size: le_u32(payload, 0),
            offset: le_u32(payload, 4),
            crc: le_u32(payload, 8),
        }
    }

    fn deserialize(payload: &[u8]) -> (r: Self) {
        ObjectSelectResponse {
            max_size: get_u32(payload, 0),
            offset: get_u32(payload, 4),
            crc: get_u32(payload, 8),
        }
    }
}

/// Asks for the largest frame that the device takes.
pub struct GetMtuRequest;

impl DfuSerialize for GetMtuRequest {
    open spec fn payload(&self) -> Seq<u8> {
        Seq::empty()
    }

    fn serialize(self) -> (r: Vec<u8>) {
        Vec::new()
    }
}

impl DfuRequest for GetMtuRequest {
    const REQUEST_OPCODE: u8 = 0x07;

    const RESPONSE_OPCODE: u8 = 0x07;

    type Response = GetMtuResponse;
}

/// The largest frame that the device takes.
#[derive(Debug, Clone, Copy, PartialEq, Eq, Structural)]
pub struct GetMtuResponse {
    pub mtu: u16,
}

impl DfuResponse for GetMtuResponse {
    const AWAITED: bool = true;

    const PAYLOAD_LEN: usize = 2;

    open spec fn parse(payload: Seq<u8>) -> Self {
        GetMtuResponse {
            mtu: le_u16(payload, 0),
        }
    }

    fn deserialize(payload: &[u8]) -> (r: Self) {
        GetMtuResponse {
            mtu: get_u16(payload, 0),
        }
    }
}

/// Writes bytes into the open object. Sent for a response of type
/// `NoResponse` it is not answered; sent for an `ObjectWriteResponse` the
/// device answers with a receipt, under the opcode of a checksum request.
pub struct ObjectWriteRequest<T: DfuResponse = ObjectWriteResponse> {
    pub data: Vec<u8>,
    phantom: PhantomData<T>,
}

impl<T: DfuResponse> DfuSerialize for ObjectWriteRequest<T> {
    closed spec fn payload(&self) -> Seq<u8> {
        self.data@
    }

    fn serialize(self) -> (r: Vec<u8>) {
        self.data
    }
}

impl DfuRequest for ObjectWriteRequest<ObjectWriteResponse> {
    const REQUEST_OPCODE: u8 = 0x08;

    const RESPONSE_OPCODE: u8 = 0x03;

    type Response = ObjectWriteResponse;
}

impl DfuRequest for ObjectWriteRequest<NoResponse> {
    const REQUEST_OPCODE: u8 = 0x08;

    const RESPONSE_OPCODE: u8 = 0x08;

    type Response = NoResponse;
}

impl<T: DfuResponse> ObjectWriteRequest<T> {
    /// A request that writes a copy of `data`.
    pub fn new(data: &[u8]) -> (r: ObjectWriteRequest<T>)
        ensures
            r.payload() == data@,
    {
        let mut copy: Vec<u8> = Vec::new();
        copy.extend_from_slice(data);
        ObjectWriteRequest { data: copy, phantom: PhantomData }
    }
}

/// The receipt for a write: how far the device has written, and its checksum so far.
#[derive(Debug, Clone, Copy, PartialEq, Eq, Structural)]
pub struct ObjectWriteResponse {
    pub offset: u32,
    pub crc: u32,
}

impl DfuResponse for ObjectWriteResponse {
    const AWAITED: bool = true;

    const PAYLOAD_LEN: usize = 8;

    open spec fn parse(payload: Seq<u8>) -> Self {
        ObjectWriteResponse {
            offset: le_u32(payload, 0),
            crc: le_u32(payload, 4),
        }
    }

    fn deserialize(payload: &[u8]) -> (r: Self) {
        ObjectWriteResponse {
            offset: get_u32(payload, 0),
            crc: get_u32(payload, 4),
        }
    }
}

/// Asks the device to echo `id`.
pub struct PingRequest {
    pub id: u8,
}

impl DfuSerialize for PingRequest {
    open spec fn payload(&self) -> Seq<u8> {
        seq![self.id]
    }

    fn serialize(self) -> (r: Vec<u8>) {
        let mut out: Vec<u8> = Vec::new();
        out.push(self.id);
        out
    }
}

impl DfuRequest for PingRequest {
    const REQUEST_OPCODE: u8 = 0x09;

    const RESPONSE_OPCODE: u8 = 0x09;

    type Response = PingResponse;
}

/// The id that the device echoes.
#[derive(Debug, Clone, Copy, PartialEq, Eq, Structural)]
pub struct PingResponse {
    pub id: u8,
}

impl DfuResponse for PingResponse {
    const AWAITED: bool = true;

    const PAYLOAD_LEN: usize = 1;

    open spec fn parse(payload: Seq<u8>) -> Self {
        PingResponse {
            id: payload[0],
        }
    }

    fn deserialize(payload: &[u8]) -> (r: Self) {
        PingResponse {
            id: payload[0],
        }
    }
}

/// Asks what hardware the device is.
pub struct GetHardwareVersionRequest;

impl DfuSerialize for GetHardwareVersionRequest {
    open spec fn payload(&self) -> Seq<u8> {
        Seq::empty()
    }

    fn serialize(self) -> (r: Vec<u8>) {
        Vec::new()
    }
}

impl DfuRequest for GetHardwareVersionRequest {
    const REQUEST_OPCODE: u8 = 0x0A;

    const RESPONSE_OPCODE: u8 = 0x0A;

    type Response = GetHardwareVersionResponse;
}

/// What hardware the device is.
#[derive(Debug, Clone, Copy, PartialEq, Eq, Structural)]
pub struct GetHardwareVersionResponse {
    pub part: u32,
    pub variant: u32,
    pub rom_size: u32,
    pub ram_size: u32,
    pub rom_page_size: u32,
}

impl DfuResponse for GetHardwareVersionResponse {
    const AWAITED: bool = true;

    const PAYLOAD_LEN: usize = 20;

    open spec fn parse(payload: Seq<u8>) -> Self {
        GetHardwareVersionResponse {
            part: le_u32(payload, 0),
            variant: le_u32(payload, 4),
            rom_size: le_u32(payload, 8),
            ram_size: le_u32(payload, 12),
            rom_page_size: le_u32(payload, 16),
        }
    }

    fn deserialize(payload: &[u8]) -> (r: Self) {
        GetHardwareVersionResponse {
            part: get_u32(payload, 0),
            variant: get_u32(payload, 4),
            rom_size: get_u32(payload, 8),
            ram_size: get_u32(payload, 12),
            rom_page_size: get_u32(payload, 16),
        }
    }
}

/// Asks for the version of one of the images on the device.
pub struct GetFirmwareVersionRequest {
    pub image: u8,
}

impl DfuSerialize for GetFirmwareVersionRequest {
    open spec fn payload(&self) -> Seq<u8> {
        seq![self.image]
    }

    fn serialize(self) -> (r: Vec<u8>) {
        let mut out: Vec<u8> = Vec::new();
        out.push(self.image);
        out
    }
}

impl DfuRequest for GetFirmwareVersionRequest {
    const REQUEST_OPCODE: u8 = 0x0B;

    const RESPONSE_OPCODE: u8 = 0x0B;

    type Response = GetFirmwareVersionResponse;
}

/// The kind, version and place of an image on the device.
#[derive(Debug, Clone, Copy, PartialEq, Eq, Structural)]
pub struct GetFirmwareVersionResponse {
    pub firmware_type: u8,
    pub version: u32,
    pub address: u32,
    pub length: u32,
}

impl DfuResponse for GetFirmwareVersionResponse {
    const AWAITED: bool = true;

    const PAYLOAD_LEN: usize = 13;

    open spec fn parse(payload: Seq<u8>) -> Self {
        GetFirmwareVersionResponse {
            firmware_type: payload[0],
            version: le_u32(payload, 1),
            address: le_u32(payload, 5),
            length: le_u32(payload, 9),
        }
    }

    fn deserialize(payload: &[u8]) -> (r: Self) {
        GetFirmwareVersionResponse {
            firmware_type: payload[0],
            version: get_u32(payload, 1),
            address: get_u32(payload, 5),
            length: get_u32(payload, 9),
        }
    }
}

/// Ends the transfer. It is not answered.
pub struct AbortRequest;

impl DfuSerialize for AbortRequest {
    open spec fn payload(&self) -> Seq<u8> {
        Seq::empty()
    }

    fn serialize(self) -> (r: Vec<u8>) {
        Vec::new()
    }
}

impl DfuRequest for AbortRequest {
    const REQUEST_OPCODE: u8 = 0x0C;

    const RESPONSE_OPCODE: u8 = 0x0C;

    type Response = NoResponse;
}

/// The opcode table: the opcode of each request, the opcode under which its
/// response comes, and the number of payload bytes of each response.
pub proof fn lemma_opcodes()
    ensures
        ProtocolVersionRequest::REQUEST_OPCODE == 0x00,
        ProtocolVersionRequest::RESPONSE_OPCODE == 0x00,
        ObjectCreateRequest::REQUEST_OPCODE == 0x01,
        ObjectCreateRequest::RESPONSE_OPCODE == 0x01,
        SetReceiptNotifyRequest::REQUEST_OPCODE == 0x02,
        SetReceiptNotifyRequest::RESPONSE_OPCODE == 0x02,
        GetCrcRequest::REQUEST_OPCODE == 0x03,
        GetCrcRequest::RESPONSE_OPCODE == 0x03,
        ObjectExecuteRequest::REQUEST_OPCODE == 0x04,
        ObjectExecuteRequest::RESPONSE_OPCODE == 0x04,
        ObjectSelectRequest::REQUEST_OPCODE == 0x06,
        ObjectSelectRequest::RESPONSE_OPCODE == 0x06,
        GetMtuRequest::REQUEST_OPCODE == 0x07,
        GetMtuRequest::RESPONSE_OPCODE == 0x07,
        ObjectWriteRequest::<ObjectWriteResponse>::REQUEST_OPCODE == 0x08,
        ObjectWriteRequest::<ObjectWriteResponse>::RESPONSE_OPCODE == 0x03,
        ObjectWriteRequest::<NoResponse>::REQUEST_OPCODE == 0x08,
        ObjectWriteRequest::<NoResponse>::RESPONSE_OPCODE == 0x08,
        PingRequest::REQUEST_OPCODE == 0x09,
        PingRequest::RESPONSE_OPCODE == 0x09,
        GetHardwareVersionRequest::REQUEST_OPCODE == 0x0A,
        GetHardwareVersionRequest::RESPONSE_OPCODE == 0x0A,
        GetFirmwareVersionRequest::REQUEST_OPCODE == 0x0B,
        GetFirmwareVersionRequest::RESPONSE_OPCODE == 0x0B,
        AbortRequest::REQUEST_OPCODE == 0x0C,
        AbortRequest::RESPONSE_OPCODE == 0x0C,
        ProtocolVersionResponse::AWAITED,
        ProtocolVersionResponse::PAYLOAD_LEN == 1,
        GetCrcResponse::AWAITED,
        GetCrcResponse::PAYLOAD_LEN == 8,
        ObjectSelectResponse::AWAITED,
        ObjectSelectResponse::PAYLOAD_LEN == 12,
        GetMtuResponse::AWAITED,
        GetMtuResponse::PAYLOAD_LEN == 2,
        ObjectWriteResponse::AWAITED,
        ObjectWriteResponse::PAYLOAD_LEN == 8,
        PingResponse::AWAITED,
        PingResponse::PAYLOAD_LEN == 1,
        GetHardwareVersionResponse::AWAITED,
        GetHardwareVersionResponse::PAYLOAD_LEN == 20,
        GetFirmwareVersionResponse::AWAITED,
        GetFirmwareVersionResponse::PAYLOAD_LEN == 13,
{
}

} // verus!
