use nordic_dfu::dfu::{
    fits, DfuError, DfuRequest, DfuResponse, DfuSerialize, NoDataResponse, NoResponse, ObjectType,
    STATUS_SUCCESS,
};
use nordic_dfu::protocol::{
    AbortRequest, GetCrcRequest, GetCrcResponse, GetFirmwareVersionRequest,
    GetFirmwareVersionResponse, GetHardwareVersionRequest, GetHardwareVersionResponse,
    GetMtuRequest, GetMtuResponse, ObjectCreateRequest, ObjectExecuteRequest, ObjectSelectRequest,
    ObjectSelectResponse, ObjectWriteRequest, ObjectWriteResponse, PingRequest, PingResponse,
    ProtocolVersionRequest, ProtocolVersionResponse, SetReceiptNotifyRequest,
};
use nordic_dfu::updater::Error;
use nordic_dfu::wire::{get_u16, get_u32, put_u16, put_u32};

fn dfu_error<T>(result: Result<T, Error>) -> DfuError {
    match result {
        Err(Error::DfuError(error)) => error,
        Err(other) => panic!("another error: {:?}", other),
        Ok(_) => panic!("no error"),
    }
}

#[test]
fn integers_go_least_significant_byte_first() {
    let mut out = vec![0xEE];
    put_u16(&mut out, 0x1234);
    put_u32(&mut out, 0x1234_5678);
    assert_eq!(out, vec![0xEE, 0x34, 0x12, 0x78, 0x56, 0x34, 0x12]);
    assert_eq!(get_u16(&out, 1), 0x1234);
    assert_eq!(get_u32(&out, 3), 0x1234_5678);
}

#[test]
fn integers_at_their_limits() {
    let mut out = Vec::new();
    put_u16(&mut out, u16::MAX);
    put_u32(&mut out, u32::MAX);
    put_u16(&mut out, 0);
    put_u32(&mut out, 0);
    put_u32(&mut out, 0x0100_0000);
    assert_eq!(
        out,
        vec![0xFF, 0xFF, 0xFF, 0xFF, 0xFF, 0xFF, 0, 0, 0, 0, 0, 0, 0, 0, 0, 1]
    );
    assert_eq!(get_u16(&out, 0), u16::MAX);
    assert_eq!(get_u32(&out, 2), u32::MAX);
    assert_eq!(get_u32(&out, 12), 0x0100_0000);
}

#[test]
fn integers_are_written_as_bincode_writes_them() {
    for value in [0u32, 1, 0xFF, 0x100, 0xFFFF, 0x1_0000, 0x1234_5678, u32::MAX] {
        let mut out = Vec::new();
        put_u32(&mut out, value);
        assert_eq!(out, bincode::serialize(&value).unwrap());
        assert_eq!(get_u32(&out, 0), bincode::deserialize::<u32>(&out).unwrap());
    }
    for value in [0u16, 1, 0xFF, 0x100, 0x1234, u16::MAX] {
        let mut out = Vec::new();
        put_u16(&mut out, value);
        assert_eq!(out, bincode::serialize(&value).unwrap());
        assert_eq!(get_u16(&out, 0), bincode::deserialize::<u16>(&out).unwrap());
    }
}

#[test]
fn object_types_have_their_codes() {
    assert_eq!(ObjectType::Command.code(), 0x01);
    assert_eq!(ObjectType::Data.code(), 0x02);
}

#[test]
fn requests_carry_their_opcodes() {
    assert_eq!(ProtocolVersionRequest::REQUEST_OPCODE, 0x00);
    assert_eq!(ObjectCreateRequest::REQUEST_OPCODE, 0x01);
    assert_eq!(SetReceiptNotifyRequest::REQUEST_OPCODE, 0x02);
    assert_eq!(GetCrcRequest::REQUEST_OPCODE, 0x03);
    assert_eq!(ObjectExecuteRequest::REQUEST_OPCODE, 0x04);
    assert_eq!(ObjectSelectRequest::REQUEST_OPCODE, 0x06);
    assert_eq!(GetMtuRequest::REQUEST_OPCODE, 0x07);
    assert_eq!(ObjectWriteRequest::<ObjectWriteResponse>::REQUEST_OPCODE, 0x08);
    assert_eq!(ObjectWriteRequest::<NoResponse>::REQUEST_OPCODE, 0x08);
    assert_eq!(PingRequest::REQUEST_OPCODE, 0x09);
    assert_eq!(GetHardwareVersionRequest::REQUEST_OPCODE, 0x0A);
    assert_eq!(GetFirmwareVersionRequest::REQUEST_OPCODE, 0x0B);
    assert_eq!(AbortRequest::REQUEST_OPCODE, 0x0C);
}

#[test]
fn responses_come_under_the_opcode_of_their_request() {
    assert_eq!(ProtocolVersionRequest::RESPONSE_OPCODE, 0x00);
    assert_eq!(ObjectCreateRequest::RESPONSE_OPCODE, 0x01);
    assert_eq!(SetReceiptNotifyRequest::RESPONSE_OPCODE, 0x02);
    assert_eq!(GetCrcRequest::RESPONSE_OPCODE, 0x03);
    assert_eq!(ObjectExecuteRequest::RESPONSE_OPCODE, 0x04);
    assert_eq!(ObjectSelectRequest::RESPONSE_OPCODE, 0x06);
    assert_eq!(GetMtuRequest::RESPONSE_OPCODE, 0x07);
    assert_eq!(PingRequest::RESPONSE_OPCODE, 0x09);
    assert_eq!(GetHardwareVersionRequest::RESPONSE_OPCODE, 0x0A);
    assert_eq!(GetFirmwareVersionRequest::RESPONSE_OPCODE, 0x0B);
}

#[test]
fn a_receipt_comes_under_the_opcode_of_a_checksum_request() {
    assert_eq!(ObjectWriteRequest::<ObjectWriteResponse>::RESPONSE_OPCODE, 0x03);
    assert_eq!(
        ObjectWriteRequest::<ObjectWriteResponse>::RESPONSE_OPCODE,
        GetCrcRequest::RESPONSE_OPCODE
    );
}

#[test]
fn every_request_starts_with_its_opcode() {
    assert_eq!(ProtocolVersionRequest.dfu_write(), vec![0x00]);
    assert_eq!(
        ObjectCreateRequest { object_type: ObjectType::Data, object_size: 8 }.dfu_write(),
        vec![0x01, 0x02, 8, 0, 0, 0]
    );
    assert_eq!(
        ObjectCreateRequest { object_type: ObjectType::Command, object_size: 0x0102_0304 }
            .dfu_write(),
        vec![0x01, 0x01, 0x04, 0x03, 0x02, 0x01]
    );
    assert_eq!(SetReceiptNotifyRequest { target: 5 }.dfu_write(), vec![0x02, 5, 0]);
    assert_eq!(SetReceiptNotifyRequest { target: 0x0102 }.dfu_write(), vec![0x02, 0x02, 0x01]);
    assert_eq!(GetCrcRequest.dfu_write(), vec![0x03]);
    assert_eq!(ObjectExecuteRequest.dfu_write(), vec![0x04]);
    assert_eq!(
        ObjectSelectRequest { object_type: ObjectType::Command }.dfu_write(),
        vec![0x06, 0x01]
    );
    assert_eq!(ObjectSelectRequest { object_type: ObjectType::Data }.dfu_write(), vec![0x06, 0x02]);
    assert_eq!(GetMtuRequest.dfu_write(), vec![0x07]);
    assert_eq!(
        ObjectWriteRequest::<NoResponse>::new(&[1, 2, 3]).dfu_write(),
        vec![0x08, 1, 2, 3]
    );
    assert_eq!(
        ObjectWriteRequest::<ObjectWriteResponse>::new(&[0xC0, 0xDB]).dfu_write(),
        vec![0x08, 0xC0, 0xDB]
    );
    assert_eq!(ObjectWriteRequest::<NoResponse>::new(&[]).dfu_write(), vec![0x08]);
    assert_eq!(PingRequest { id: 0x7F }.dfu_write(), vec![0x09, 0x7F]);
    assert_eq!(GetHardwareVersionRequest.dfu_write(), vec![0x0A]);
    assert_eq!(GetFirmwareVersionRequest { image: 2 }.dfu_write(), vec![0x0B, 2]);
    assert_eq!(AbortRequest.dfu_write(), vec![0x0C]);
}

#[test]
fn payloads_are_what_bincode_writes_for_the_fields() {
    assert_eq!(
        ObjectCreateRequest { object_type: ObjectType::Data, object_size: 0xAABB_CCDD }.serialize(),
        bincode::serialize(&(2u8, 0xAABB_CCDDu32)).unwrap()
    );
    assert_eq!(
        SetReceiptNotifyRequest { target: 0xBEEF }.serialize(),
        bincode::serialize(&0xBEEFu16).unwrap()
    );
    assert_eq!(PingRequest { id: 9 }.serialize(), bincode::serialize(&9u8).unwrap());
    assert_eq!(GetCrcRequest.serialize(), bincode::serialize(&()).unwrap());
    assert_eq!(ObjectWriteRequest::<NoResponse>::new(&[7, 8]).serialize(), vec![7, 8]);
}

#[test]
fn a_write_request_copies_its_data() {
    let request = ObjectWriteRequest::<NoResponse>::new(&[4, 5, 6]);
    assert_eq!(request.data, vec![4, 5, 6]);
}

#[test]
fn ping_response_is_read() {
    let pong = PingResponse::dfu_read(&[0x09, 0x01, 0x7F], PingRequest::RESPONSE_OPCODE).unwrap();
    assert_eq!(pong, PingResponse { id: 0x7F });
}

#[test]
fn object_select_response_is_read() {
    let frame = [
        0x06, 0x01, 0x00, 0x10, 0x00, 0x00, 0x40, 0x00, 0x00, 0x00, 0x78, 0x56, 0x34, 0x12,
    ];
    let window =
        ObjectSelectResponse::dfu_read(&frame, ObjectSelectRequest::RESPONSE_OPCODE).unwrap();
    assert_eq!(window, ObjectSelectResponse { max_size: 4096, offset: 64, crc: 0x1234_5678 });
}

#[test]
fn every_response_is_read_from_its_layout() {
    assert_eq!(
        ProtocolVersionResponse::dfu_read(&[0x00, 0x01, 0x05], 0x00).unwrap(),
        ProtocolVersionResponse { version: 5 }
    );
    assert_eq!(
        GetCrcResponse::dfu_read(&[0x03, 0x01, 8, 0, 0, 0, 0xEF, 0xBE, 0xAD, 0xDE], 0x03).unwrap(),
        GetCrcResponse { offset: 8, crc: 0xDEAD_BEEF }
    );
    assert_eq!(
        ObjectWriteResponse::dfu_read(&[0x03, 0x01, 0, 1, 0, 0, 1, 2, 3, 4], 0x03).unwrap(),
        ObjectWriteResponse { offset: 256, crc: 0x0403_0201 }
    );
    assert_eq!(
        GetMtuResponse::dfu_read(&[0x07, 0x01, 0x83, 0x00], 0x07).unwrap(),
        GetMtuResponse { mtu: 131 }
    );
    assert_eq!(
        GetHardwareVersionResponse::dfu_read(
            &[0x0A, 0x01, 1, 0, 0, 0, 2, 0, 0, 0, 3, 0, 0, 0, 4, 0, 0, 0, 5, 0, 0, 0],
            0x0A
        )
        .unwrap(),
        GetHardwareVersionResponse {
            part: 1,
            variant: 2,
            rom_size: 3,
            ram_size: 4,
            rom_page_size: 5
        }
    );
    assert_eq!(
        GetFirmwareVersionResponse::dfu_read(
            &[0x0B, 0x01, 0x01, 0x2A, 0, 0, 0, 0x00, 0x60, 0x02, 0x00, 0x00, 0x10, 0, 0],
            0x0B
        )
        .unwrap(),
        GetFirmwareVersionResponse {
            firmware_type: 1,
            version: 42,
            address: 0x0002_6000,
            length: 0x1000
        }
    );
    assert_eq!(NoDataResponse::dfu_read(&[0x04, 0x01], 0x04).unwrap(), NoDataResponse);
}

#[test]
fn responses_are_read_as_bincode_reads_them() {
    let payload = [0x00, 0x10, 0x00, 0x00, 0x40, 0x00, 0x00, 0x00, 0x78, 0x56, 0x34, 0x12];
    let window = ObjectSelectResponse::deserialize(&payload);
    let fields: (u32, u32, u32) = bincode::deserialize(&payload).unwrap();
    assert_eq!((window.max_size, window.offset, window.crc), fields);

    let payload = [0x01, 0x2A, 0, 0, 0, 0x00, 0x60, 0x02, 0x00, 0x00, 0x10, 0, 0];
    let version = GetFirmwareVersionResponse::deserialize(&payload);
    let fields: (u8, u32, u32, u32) = bincode::deserialize(&payload).unwrap();
    assert_eq!(
        (version.firmware_type, version.version, version.address, version.length),
        fields
    );
}

#[test]
fn bytes_after_a_response_are_ignored() {
    let pong = PingResponse::dfu_read(&[0x09, 0x01, 0x7F, 0xAA, 0xBB], 0x09).unwrap();
    assert_eq!(pong, PingResponse { id: 0x7F });
    assert_eq!(NoDataResponse::dfu_read(&[0x01, 0x01, 0xFF], 0x01).unwrap(), NoDataResponse);
}

#[test]
fn a_frame_under_another_opcode_is_an_invalid_opcode() {
    let refused = PingResponse::dfu_read(&[0x07, 0x01, 0x7F], PingRequest::RESPONSE_OPCODE);
    assert_eq!(dfu_error(refused), DfuError::InvalidOpcode);
    // The opcode is looked at before the status.
    let refused = PingResponse::dfu_read(&[0x07, 0x02], PingRequest::RESPONSE_OPCODE);
    assert_eq!(dfu_error(refused), DfuError::InvalidOpcode);
    // A receipt is not accepted under the opcode of the write.
    let refused = ObjectWriteResponse::dfu_read(
        &[0x08, 0x01, 0, 0, 0, 0, 0, 0, 0, 0],
        ObjectWriteRequest::<ObjectWriteResponse>::RESPONSE_OPCODE,
    );
    assert_eq!(dfu_error(refused), DfuError::InvalidOpcode);
}

#[test]
fn every_status_has_its_error() {
    let expected = [
        (0x00, DfuError::InvalidOpcode),
        (0x02, DfuError::OpcodeNotSupported),
        (0x03, DfuError::InvalidParameter),
        (0x04, DfuError::InsufficientResources),
        (0x05, DfuError::InvalidObject),
        (0x06, DfuError::UnsupportedType),
        (0x07, DfuError::OperationNotPermitted),
        (0x08, DfuError::OperationFailed),
        (0x09, DfuError::ExtendedError),
        (0x0A, DfuError::UnknownError),
        (0x0B, DfuError::UnknownError),
        (0x7F, DfuError::UnknownError),
        (0xFF, DfuError::UnknownError),
    ];
    for (status, error) in expected {
        assert_eq!(DfuError::from(status), error);
        assert_eq!(DfuError::of_status(status), error);
        let refused = GetCrcResponse::dfu_read(&[0x03, status], 0x03);
        assert_eq!(dfu_error(refused), error);
    }
}

#[test]
fn reading_succeeds_exactly_on_the_opcode_and_success() {
    assert_eq!(STATUS_SUCCESS, 1);
    for opcode in 0..=255u8 {
        for status in 0..=255u8 {
            let frame = [opcode, status, 0x7F];
            let read = PingResponse::dfu_read(&frame, PingRequest::RESPONSE_OPCODE);
            assert_eq!(read.is_ok(), opcode == 0x09 && status == 0x01);
        }
    }
}

#[test]
fn errors_convert() {
    assert!(matches!(
        Error::from(DfuError::InvalidObject),
        Error::DfuError(DfuError::InvalidObject)
    ));
    let io = std::io::Error::new(std::io::ErrorKind::TimedOut, "no answer");
    match Error::from(io) {
        Error::IOError(inner) => assert_eq!(inner.kind(), std::io::ErrorKind::TimedOut),
        other => panic!("another error: {:?}", other),
    }
}

#[test]
fn no_response_reads_no_frame() {
    assert!(!NoResponse::AWAITED);
    assert_eq!(NoResponse::dfu_read(&[], 0x0C).unwrap(), NoResponse);
    assert_eq!(NoResponse::dfu_read(&[0x55], 0x08).unwrap(), NoResponse);
}

#[test]
fn a_frame_fits_when_it_holds_what_is_read() {
    assert!(!fits::<PingResponse>(&[], 0x09));
    assert!(!fits::<PingResponse>(&[0x09], 0x09));
    assert!(!fits::<PingResponse>(&[0x09, 0x01], 0x09));
    assert!(fits::<PingResponse>(&[0x09, 0x01, 0x7F], 0x09));
    // A frame that reports an error, or answers something else, needs no payload.
    assert!(fits::<PingResponse>(&[0x09, 0x02], 0x09));
    assert!(fits::<PingResponse>(&[0x07, 0x01], 0x09));
    assert!(fits::<NoDataResponse>(&[0x04, 0x01], 0x04));
    assert!(!fits::<ObjectSelectResponse>(&[0x06, 0x01, 0, 0, 0, 0, 0, 0, 0, 0, 0, 0, 0], 0x06));
    assert!(fits::<ObjectSelectResponse>(&[0x06, 0x01, 0, 0, 0, 0, 0, 0, 0, 0, 0, 0, 0, 0], 0x06));
}

#[test]
fn payload_lengths_are_those_of_the_layouts() {
    assert_eq!(ProtocolVersionResponse::PAYLOAD_LEN, 1);
    assert_eq!(GetCrcResponse::PAYLOAD_LEN, 8);
    assert_eq!(ObjectSelectResponse::PAYLOAD_LEN, 12);
    assert_eq!(GetMtuResponse::PAYLOAD_LEN, 2);
    assert_eq!(ObjectWriteResponse::PAYLOAD_LEN, 8);
    assert_eq!(PingResponse::PAYLOAD_LEN, 1);
    assert_eq!(GetHardwareVersionResponse::PAYLOAD_LEN, 20);
    assert_eq!(GetFirmwareVersionResponse::PAYLOAD_LEN, 13);
    assert_eq!(NoDataResponse::PAYLOAD_LEN, 0);
    assert_eq!(NoResponse::PAYLOAD_LEN, 0);
}
