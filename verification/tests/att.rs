use burble::att::{AccessType, ErrorCode, ErrorRsp, Handle, Opcode, Perms, Request, Security};

#[test]
fn att_opcodes() {
    assert_eq!(Opcode::ErrorRsp.raw(), 0x01);
    assert_eq!(Opcode::ReadByTypeReq.raw(), 0x08);
    assert_eq!(Opcode::WriteCmd.raw(), 0x52);
    assert_eq!(Opcode::SignedWriteCmd.raw(), 0xD2);
    assert_eq!(Opcode::from_raw(0x0A), Some(Opcode::ReadReq));
    assert_eq!(Opcode::from_raw(0x00), None);
    assert_eq!(Opcode::from_raw(0x14), None);
    let mut n = 0;
    for v in 0..=u8::MAX {
        if let Some(op) = Opcode::from_raw(v) {
            assert_eq!(op.raw(), v);
            n += 1;
        }
    }
    assert_eq!(n, 31);
}

#[test]
fn att_access_types() {
    for op in [
        Opcode::FindInformationReq,
        Opcode::FindByTypeValueReq,
        Opcode::ReadByTypeReq,
        Opcode::ReadReq,
        Opcode::ReadBlobReq,
        Opcode::ReadMultipleReq,
        Opcode::ReadByGroupTypeReq,
        Opcode::ReadMultipleVariableReq,
    ] {
        assert_eq!(op.access_type(), Some(AccessType::Read));
        assert_eq!(Request::new(op, Security::none()).unwrap().ac().typ(), AccessType::Read);
    }
    for op in [
        Opcode::WriteReq,
        Opcode::WriteCmd,
        Opcode::PrepareWriteReq,
        Opcode::ExecuteWriteReq,
        Opcode::SignedWriteCmd,
    ] {
        assert_eq!(op.access_type(), Some(AccessType::Write));
        assert_eq!(Request::new(op, Security::none()).unwrap().op(), op);
    }
    for op in [Opcode::ErrorRsp, Opcode::ExchangeMtuReq, Opcode::ReadRsp, Opcode::HandleValueNtf] {
        assert_eq!(op.access_type(), None);
        assert_eq!(Request::new(op, Security::none()), None);
    }
}

#[test]
fn att_error_codes() {
    assert_eq!(ErrorCode::InvalidHandle.raw(), 0x01);
    assert_eq!(ErrorCode::InsufficientAuthentication.raw(), 0x05);
    assert_eq!(ErrorCode::AttributeNotFound.raw(), 0x0A);
    assert_eq!(ErrorCode::InsufficientEncryptionKeySize.raw(), 0x0C);
    assert_eq!(ErrorCode::InsufficientEncryption.raw(), 0x0F);
    assert_eq!(ErrorCode::OutOfRange.raw(), 0xFF);
    assert_eq!(ErrorCode::from_raw(0x08), Some(ErrorCode::InsufficientAuthorization));
    assert_eq!(ErrorCode::from_raw(0x00), None);
    assert_eq!(ErrorCode::from_raw(0x80), None);
}

#[test]
fn att_error_response() {
    let h = Handle::new(0x1234).unwrap();
    let e = Opcode::WriteReq.hdl_err(ErrorCode::WriteNotPermitted, h);
    assert_eq!(e, ErrorRsp { req: 0x12, hdl: Some(h), err: ErrorCode::WriteNotPermitted });
    assert_eq!(e.pdu(), [0x01, 0x12, 0x34, 0x12, 0x03]);
    let e = Opcode::ReadMultipleReq.err(ErrorCode::InvalidPdu);
    assert_eq!(e, ErrorRsp { req: 0x0E, hdl: None, err: ErrorCode::InvalidPdu });
    assert_eq!(e.pdu(), [0x01, 0x0E, 0x00, 0x00, 0x04]);
}

#[test]
fn att_permissions() {
    assert_eq!(Perms::open(), Perms { read: Security::none(), write: Security::none() });
    let sec = Security { encrypt: true, key_len: 7, ..Security::none() };
    assert_eq!(Perms::new(sec), Perms { read: sec, write: sec });
    assert_eq!(Handle::min().raw(), 1);
}
