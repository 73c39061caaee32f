//! Attribute protocol: handles, opcodes, error codes, and permissions.

use vstd::prelude::*;
use crate::codec::Packer;

verus! {

/// Attribute handle: a 16-bit identifier that is never zero.
#[derive(Clone, Copy, Debug, PartialEq, Eq, Structural, PartialOrd, Ord, Hash)]
pub struct Handle {
    h: u16,
}

impl Handle {
    /// The lowest handle.
    pub const MIN: u16 = 0x0001;

    /// The highest handle, which also stands for the end of any range.
    pub const MAX: u16 = 0xFFFF;

    #[verifier::type_invariant]
    spec fn inv(self) -> bool {
        self.h != 0
    }

    /// The handle as a 16-bit value.
    pub closed spec fn spec_raw(self) -> u16 {
        self.h
    }

    /// Creates the handle `h`, or returns `None` for zero.
    pub fn new(h: u16) -> (r: Option<Handle>)
        ensures
            r.is_some() == (h != 0),
            r.is_some() ==> r.unwrap().raw() == h,
    {
        if h != 0 {
            Some(Handle { h })
        } else {
            None
        }
    }

    /// The handle with the value `h`.
    pub closed spec fn spec_of(h: u16) -> Handle {
        Handle { h }
    }

    /// The handle with the value `h` has the value `h`.
    pub broadcast proof fn lemma_spec_of(h: u16)
        ensures
            #[trigger] Handle::spec_of(h).raw() == h,
    {
    }

    /// Handles with the same value are the same handle.
    pub proof fn lemma_eq(a: Handle, b: Handle)
        requires
            a.raw() == b.raw(),
        ensures
            a == b,
    {
    }

    /// Returns the lowest handle.
    pub fn min() -> (r: Handle)
        ensures
            r.raw() == Handle::MIN,
    {
        Handle { h: Handle::MIN }
    }

    /// Returns the highest handle.
    pub fn max() -> (r: Handle)
        ensures
            r.raw() == Handle::MAX,
    {
        Handle { h: Handle::MAX }
    }

    /// Returns the handle as a 16-bit value.
    #[verifier::when_used_as_spec(spec_raw)]
    pub fn raw(self) -> (r: u16)
        ensures
            r == self.spec_raw(),
            r != 0,
    {
        proof {
            use_type_invariant(&self);
        }
        self.h
    }
}

/// Inclusive range of attribute handles, from `start` up to `end`.
#[derive(Clone, Copy, Debug, PartialEq, Eq, Structural)]
pub struct HandleRange {
    start: Handle,
    end: Handle,
}

impl HandleRange {
    #[verifier::type_invariant]
    spec fn inv(self) -> bool {
        self.start.raw() <= self.end.raw()
    }

    /// The first handle of the range.
    pub closed spec fn spec_start(self) -> Handle {
        self.start
    }

    /// The last handle of the range.
    pub closed spec fn spec_end(self) -> Handle {
        self.end
    }

    /// Whether the range holds the handle `h`.
    pub open spec fn contains(self, h: u16) -> bool {
        self.start().raw() <= h <= self.end().raw()
    }

    /// Creates the range from `start` up to `end`.
    pub fn new(start: Handle, end: Handle) -> (r: HandleRange)
        requires
            start.raw() <= end.raw(),
        ensures
            r.start() == start,
            r.end() == end,
    {
        HandleRange { start, end }
    }

    /// Creates the range from `start` up to `end`, or returns `None` if
    /// `start` is above `end`.
    pub fn checked(start: Handle, end: Handle) -> (r: Option<HandleRange>)
        ensures
            r.is_some() == (start.raw() <= end.raw()),
            r.is_some() ==> r.unwrap().start() == start && r.unwrap().end() == end,
    {
        if start.raw() <= end.raw() {
            Some(HandleRange { start, end })
        } else {
            None
        }
    }

    /// Returns the range of all handles.
    pub fn all() -> (r: HandleRange)
        ensures
            r.start().raw() == Handle::MIN,
            r.end().raw() == Handle::MAX,
    {
        HandleRange::new(Handle::min(), Handle::max())
    }

    /// Returns the first handle of the range.
    #[verifier::when_used_as_spec(spec_start)]
    pub fn start(self) -> (r: Handle)
        ensures
            r == self.spec_start(),
            r.raw() <= self.spec_end().raw(),
    {
        proof {
            use_type_invariant(&self);
        }
        self.start
    }

    /// Returns the last handle of the range.
    #[verifier::when_used_as_spec(spec_end)]
    pub fn end(self) -> (r: Handle)
        ensures
            r == self.spec_end(),
            self.spec_start().raw() <= r.raw(),
    {
        proof {
            use_type_invariant(&self);
        }
        self.end
    }
}

/// Kind of access that a request asks for.
#[derive(Clone, Copy, Debug, PartialEq, Eq, Structural)]
pub enum AccessType {
    Read,
    Write,
}

/// Attribute protocol opcodes.
#[derive(Clone, Copy, Debug, PartialEq, Eq, Structural)]
pub enum Opcode {
    ErrorRsp,
    ExchangeMtuReq,
    ExchangeMtuRsp,
    FindInformationReq,
    FindInformationRsp,
    FindByTypeValueReq,
    FindByTypeValueRsp,
    ReadByTypeReq,
    ReadByTypeRsp,
    ReadReq,
    ReadRsp,
    ReadBlobReq,
    ReadBlobRsp,
    ReadMultipleReq,
    ReadMultipleRsp,
    ReadByGroupTypeReq,
    ReadByGroupTypeRsp,
    WriteReq,
    WriteRsp,
    WriteCmd,
    PrepareWriteReq,
    PrepareWriteRsp,
    ExecuteWriteReq,
    ExecuteWriteRsp,
    ReadMultipleVariableReq,
    ReadMultipleVariableRsp,
    MultipleHandleValueNtf,
    HandleValueNtf,
    HandleValueInd,
    HandleValueCfm,
    SignedWriteCmd,
}

impl Opcode {
    /// The opcode on the wire.
    pub open spec fn spec_raw(self) -> u8 {
        match self {
            Opcode::ErrorRsp => 0x01,
            Opcode::ExchangeMtuReq => 0x02,
            Opcode::ExchangeMtuRsp => 0x03,
            Opcode::FindInformationReq => 0x04,
            Opcode::FindInformationRsp => 0x05,
            Opcode::FindByTypeValueReq => 0x06,
            Opcode::FindByTypeValueRsp => 0x07,
            Opcode::ReadByTypeReq => 0x08,
            Opcode::ReadByTypeRsp => 0x09,
            Opcode::ReadReq => 0x0A,
            Opcode::ReadRsp => 0x0B,
            Opcode::ReadBlobReq => 0x0C,
            Opcode::ReadBlobRsp => 0x0D,
            Opcode::ReadMultipleReq => 0x0E,
            Opcode::ReadMultipleRsp => 0x0F,
            Opcode::ReadByGroupTypeReq => 0x10,
            Opcode::ReadByGroupTypeRsp => 0x11,
            Opcode::WriteReq => 0x12,
            Opcode::WriteRsp => 0x13,
            Opcode::WriteCmd => 0x52,
            Opcode::PrepareWriteReq => 0x16,
            Opcode::PrepareWriteRsp => 0x17,
            Opcode::ExecuteWriteReq => 0x18,
            Opcode::ExecuteWriteRsp => 0x19,
            Opcode::ReadMultipleVariableReq => 0x20,
            Opcode::ReadMultipleVariableRsp => 0x21,
            Opcode::MultipleHandleValueNtf => 0x23,
            Opcode::HandleValueNtf => 0x1B,
            Opcode::HandleValueInd => 0x1D,
            Opcode::HandleValueCfm => 0x1E,
            Opcode::SignedWriteCmd => 0xD2,
        }
    }

    /// Returns the opcode on the wire.
    #[verifier::when_used_as_spec(spec_raw)]
    pub fn raw(self) -> (r: u8)
        ensures
            r == self.spec_raw(),
    {
        match self {
            Opcode::ErrorRsp => 0x01,
            Opcode::ExchangeMtuReq => 0x02,
            Opcode::ExchangeMtuRsp => 0x03,
            Opcode::FindInformationReq => 0x04,
            Opcode::FindInformationRsp => 0x05,
            Opcode::FindByTypeValueReq => 0x06,
            Opcode::FindByTypeValueRsp => 0x07,
            Opcode::ReadByTypeReq => 0x08,
            Opcode::ReadByTypeRsp => 0x09,
            Opcode::ReadReq => 0x0A,
            Opcode::ReadRsp => 0x0B,
            Opcode::ReadBlobReq => 0x0C,
            Opcode::ReadBlobRsp => 0x0D,
            Opcode::ReadMultipleReq => 0x0E,
            Opcode::ReadMultipleRsp => 0x0F,
            Opcode::ReadByGroupTypeReq => 0x10,
            Opcode::ReadByGroupTypeRsp => 0x11,
            Opcode::WriteReq => 0x12,
            Opcode::WriteRsp => 0x13,
            Opcode::WriteCmd => 0x52,
            Opcode::PrepareWriteReq => 0x16,
            Opcode::PrepareWriteRsp => 0x17,
            Opcode::ExecuteWriteReq => 0x18,
            Opcode::ExecuteWriteRsp => 0x19,
            Opcode::ReadMultipleVariableReq => 0x20,
            Opcode::ReadMultipleVariableRsp => 0x21,
            Opcode::MultipleHandleValueNtf => 0x23,
            Opcode::HandleValueNtf => 0x1B,
            Opcode::HandleValueInd => 0x1D,
            Opcode::HandleValueCfm => 0x1E,
            Opcode::SignedWriteCmd => 0xD2,
        }
    }

    /// The value whose opcode is `v`, if there is one.
    pub open spec fn spec_from_raw(v: u8) -> Option<Opcode> {
        if exists|c: Opcode| c.raw() == v {
            Some(choose|c: Opcode| c.raw() == v)
        } else {
            None
        }
    }

    /// Returns the value whose opcode is `v`, if there is one.
    #[verifier::when_used_as_spec(spec_from_raw)]
    pub fn from_raw(v: u8) -> (r: Option<Opcode>)
        ensures
            r == Opcode::spec_from_raw(v),
            match r {
                Some(c) => c.raw() == v,
                None => forall|c: Opcode| c.raw() != v,
            },
    {
        let r = match v {
            0x01 => Some(Opcode::ErrorRsp),
            0x02 => Some(Opcode::ExchangeMtuReq),
            0x03 => Some(Opcode::ExchangeMtuRsp),
            0x04 => Some(Opcode::FindInformationReq),
            0x05 => Some(Opcode::FindInformationRsp),
            0x06 => Some(Opcode::FindByTypeValueReq),
            0x07 => Some(Opcode::FindByTypeValueRsp),
            0x08 => Some(Opcode::ReadByTypeReq),
            0x09 => Some(Opcode::ReadByTypeRsp),
            0x0A => Some(Opcode::ReadReq),
            0x0B => Some(Opcode::ReadRsp),
            0x0C => Some(Opcode::ReadBlobReq),
            0x0D => Some(Opcode::ReadBlobRsp),
            0x0E => Some(Opcode::ReadMultipleReq),
            0x0F => Some(Opcode::ReadMultipleRsp),
            0x10 => Some(Opcode::ReadByGroupTypeReq),
            0x11 => Some(Opcode::ReadByGroupTypeRsp),
            0x12 => Some(Opcode::WriteReq),
            0x13 => Some(Opcode::WriteRsp),
            0x52 => Some(Opcode::WriteCmd),
            0x16 => Some(Opcode::PrepareWriteReq),
            0x17 => Some(Opcode::PrepareWriteRsp),
            0x18 => Some(Opcode::ExecuteWriteReq),
            0x19 => Some(Opcode::ExecuteWriteRsp),
            0x20 => Some(Opcode::ReadMultipleVariableReq),
            0x21 => Some(Opcode::ReadMultipleVariableRsp),
            0x23 => Some(Opcode::MultipleHandleValueNtf),
            0x1B => Some(Opcode::HandleValueNtf),
            0x1D => Some(Opcode::HandleValueInd),
            0x1E => Some(Opcode::HandleValueCfm),
            0xD2 => Some(Opcode::SignedWriteCmd),
            _ => None,
        };
        proof {
            if let Some(c) = r {
                assert(c.raw() == v);
                Opcode::lemma_raw_injective(c, choose|c: Opcode| c.raw() == v);
            } else {
                assert(forall|c: Opcode| c.raw() != v);
            }
        }
        r
    }

    /// A code decodes to the value that encodes to it.
    pub proof fn lemma_from_raw(v: u8)
        ensures
            match Opcode::from_raw(v) {
                Some(c) => c.raw() == v,
                None => forall|c: Opcode| c.raw() != v,
            },
    {
    }

    /// Every value decodes from its own code.
    pub proof fn lemma_from_raw_of_raw(self)
        ensures
            Opcode::from_raw(self.raw()) == Some(self),
    {
        Opcode::lemma_raw_injective(self, choose|c: Opcode| c.raw() == self.raw());
    }

    /// Distinct values have distinct codes.
    pub proof fn lemma_raw_injective(a: Opcode, b: Opcode)
        requires
            a.raw() == b.raw(),
        ensures
            a == b,
    {
    }

    /// The kind of access that a request with this opcode asks for, or
    /// `None` for an opcode that asks for no access to an attribute.
    pub open spec fn spec_access_type(self) -> Option<AccessType> {
        match self {
            Opcode::FindInformationReq
            | Opcode::FindByTypeValueReq
            | Opcode::ReadByTypeReq
            | Opcode::ReadReq
            | Opcode::ReadBlobReq
            | Opcode::ReadMultipleReq
            | Opcode::ReadByGroupTypeReq
            | Opcode::ReadMultipleVariableReq => Some(AccessType::Read),
            Opcode::WriteReq
            | Opcode::WriteCmd
            | Opcode::PrepareWriteReq
            | Opcode::ExecuteWriteReq
            | Opcode::SignedWriteCmd => Some(AccessType::Write),
            _ => None,
        }
    }

    /// Returns the kind of access that a request with this opcode asks for.
    #[verifier::when_used_as_spec(spec_access_type)]
    pub fn access_type(self) -> (r: Option<AccessType>)
        ensures
            r == self.spec_access_type(),
    {
        match self {
            Opcode::FindInformationReq
            | Opcode::FindByTypeValueReq
            | Opcode::ReadByTypeReq
            | Opcode::ReadReq
            | Opcode::ReadBlobReq
            | Opcode::ReadMultipleReq
            | Opcode::ReadByGroupTypeReq
            | Opcode::ReadMultipleVariableReq => Some(AccessType::Read),
            Opcode::WriteReq
            | Opcode::WriteCmd
            | Opcode::PrepareWriteReq
            | Opcode::ExecuteWriteReq
            | Opcode::SignedWriteCmd => Some(AccessType::Write),
            _ => None,
        }
    }

    /// The error response to a request with this opcode that names no handle.
    pub open spec fn spec_err(self, err: ErrorCode) -> ErrorRsp {
        ErrorRsp { req: self.raw(), hdl: None, err }
    }

    /// The error response to a request with this opcode that names `hdl`.
    pub open spec fn spec_hdl_err(self, err: ErrorCode, hdl: Handle) -> ErrorRsp {
        ErrorRsp { req: self.raw(), hdl: Some(hdl), err }
    }

    /// Returns the error response to a request with this opcode that names
    /// no handle.
    #[verifier::when_used_as_spec(spec_err)]
    pub fn err(self, err: ErrorCode) -> (r: ErrorRsp)
        ensures
            r == self.spec_err(err),
    {
        ErrorRsp { req: self.raw(), hdl: None, err }
    }

    /// Returns the error response to a request with this opcode that names
    /// `hdl`.
    #[verifier::when_used_as_spec(spec_hdl_err)]
    pub fn hdl_err(self, err: ErrorCode, hdl: Handle) -> (r: ErrorRsp)
        ensures
            r == self.spec_hdl_err(err, hdl),
    {
        ErrorRsp { req: self.raw(), hdl: Some(hdl), err }
    }
}

/// Error response to a request: the opcode of the request, the handle that
/// the error is about, if any, and the error code.
#[derive(Clone, Copy, Debug, PartialEq, Eq, Structural)]
pub struct ErrorRsp {
    pub req: u8,
    pub hdl: Option<Handle>,
    pub err: ErrorCode,
}

impl ErrorRsp {
    /// The bytes of the response on the wire: the opcode of an error
    /// response, the opcode of the request, the handle, or zero where there
    /// is none, and the error code.
    pub open spec fn spec_pdu(self) -> Seq<u8> {
        let h: u16 = match self.hdl {
            Some(h) => h.raw(),
            None => 0,
        };
        seq![Opcode::ErrorRsp.raw(), self.req] + crate::codec::le_seq(h as nat, 2) + seq![
            self.err.raw(),
        ]
    }

    /// Returns the bytes of the response on the wire.
    pub fn pdu(self) -> (r: Vec<u8>)
        ensures
            r@ == self.spec_pdu(),
            r@.len() == 5,
    {
        let h: u16 = match self.hdl {
            Some(h) => h.raw(),
            None => 0,
        };
        let p = Packer::new(5).u8(Opcode::ErrorRsp.raw()).u8(self.req).u16(h).u8(self.err.raw());
        proof {
            crate::codec::lemma_le_seq_len(h as nat, 2);
            assert(p@ =~= self.spec_pdu());
        }
        p.into_vec()
    }
}

/// Result of a request: what it asked for, or the error response to send.
pub type RspResult<T> = Result<T, ErrorRsp>;


/// Attribute protocol error codes.
#[derive(Clone, Copy, Debug, PartialEq, Eq, Structural)]
pub enum ErrorCode {
    InvalidHandle,
    ReadNotPermitted,
    WriteNotPermitted,
    InvalidPdu,
    InsufficientAuthentication,
    RequestNotSupported,
    InvalidOffset,
    InsufficientAuthorization,
    PrepareQueueFull,
    AttributeNotFound,
    AttributeNotLong,
    InsufficientEncryptionKeySize,
    InvalidAttributeValueLength,
    UnlikelyError,
    InsufficientEncryption,
    UnsupportedGroupType,
    InsufficientResources,
    DatabaseOutOfSync,
    ValueNotAllowed,
    WriteRequestRejected,
    CccdImproperlyConfigured,
    ProcedureAlreadyInProgress,
    OutOfRange,
}

impl ErrorCode {
    /// The error code on the wire.
    pub open spec fn spec_raw(self) -> u8 {
        match self {
            ErrorCode::InvalidHandle => 0x01,
            ErrorCode::ReadNotPermitted => 0x02,
            ErrorCode::WriteNotPermitted => 0x03,
            ErrorCode::InvalidPdu => 0x04,
            ErrorCode::InsufficientAuthentication => 0x05,
            ErrorCode::RequestNotSupported => 0x06,
            ErrorCode::InvalidOffset => 0x07,
            ErrorCode::InsufficientAuthorization => 0x08,
            ErrorCode::PrepareQueueFull => 0x09,
            ErrorCode::AttributeNotFound => 0x0A,
            ErrorCode::AttributeNotLong => 0x0B,
            ErrorCode::InsufficientEncryptionKeySize => 0x0C,
            ErrorCode::InvalidAttributeValueLength => 0x0D,
            ErrorCode::UnlikelyError => 0x0E,
            ErrorCode::InsufficientEncryption => 0x0F,
            ErrorCode::UnsupportedGroupType => 0x10,
            ErrorCode::InsufficientResources => 0x11,
            ErrorCode::DatabaseOutOfSync => 0x12,
            ErrorCode::ValueNotAllowed => 0x13,
            ErrorCode::WriteRequestRejected => 0xFC,
            ErrorCode::CccdImproperlyConfigured => 0xFD,
            ErrorCode::ProcedureAlreadyInProgress => 0xFE,
            ErrorCode::OutOfRange => 0xFF,
        }
    }

    /// Returns the error code on the wire.
    #[verifier::when_used_as_spec(spec_raw)]
    pub fn raw(self) -> (r: u8)
        ensures
            r == self.spec_raw(),
    {
        match self {
            ErrorCode::InvalidHandle => 0x01,
            ErrorCode::ReadNotPermitted => 0x02,
            ErrorCode::WriteNotPermitted => 0x03,
            ErrorCode::InvalidPdu => 0x04,
            ErrorCode::InsufficientAuthentication => 0x05,
            ErrorCode::RequestNotSupported => 0x06,
            ErrorCode::InvalidOffset => 0x07,
            ErrorCode::InsufficientAuthorization => 0x08,
            ErrorCode::PrepareQueueFull => 0x09,
            ErrorCode::AttributeNotFound => 0x0A,
            ErrorCode::AttributeNotLong => 0x0B,
            ErrorCode::InsufficientEncryptionKeySize => 0x0C,
            ErrorCode::InvalidAttributeValueLength => 0x0D,
            ErrorCode::UnlikelyError => 0x0E,
            ErrorCode::InsufficientEncryption => 0x0F,
            ErrorCode::UnsupportedGroupType => 0x10,
            ErrorCode::InsufficientResources => 0x11,
            ErrorCode::DatabaseOutOfSync => 0x12,
            ErrorCode::ValueNotAllowed => 0x13,
            ErrorCode::WriteRequestRejected => 0xFC,
            ErrorCode::CccdImproperlyConfigured => 0xFD,
            ErrorCode::ProcedureAlreadyInProgress => 0xFE,
            ErrorCode::OutOfRange => 0xFF,
        }
    }

    /// The value whose error code is `v`, if there is one.
    pub open spec fn spec_from_raw(v: u8) -> Option<ErrorCode> {
        if exists|c: ErrorCode| c.raw() == v {
            Some(choose|c: ErrorCode| c.raw() == v)
        } else {
            None
        }
    }

    /// Returns the value whose error code is `v`, if there is one.
    #[verifier::when_used_as_spec(spec_from_raw)]
    pub fn from_raw(v: u8) -> (r: Option<ErrorCode>)
        ensures
            r == ErrorCode::spec_from_raw(v),
            match r {
                Some(c) => c.raw() == v,
                None => forall|c: ErrorCode| c.raw() != v,
            },
    {
        let r = match v {
            0x01 => Some(ErrorCode::InvalidHandle),
            0x02 => Some(ErrorCode::ReadNotPermitted),
            0x03 => Some(ErrorCode::WriteNotPermitted),
            0x04 => Some(ErrorCode::InvalidPdu),
            0x05 => Some(ErrorCode::InsufficientAuthentication),
            0x06 => Some(ErrorCode::RequestNotSupported),
            0x07 => Some(ErrorCode::InvalidOffset),
            0x08 => Some(ErrorCode::InsufficientAuthorization),
            0x09 => Some(ErrorCode::PrepareQueueFull),
            0x0A => Some(ErrorCode::AttributeNotFound),
            0x0B => Some(ErrorCode::AttributeNotLong),
            0x0C => Some(ErrorCode::InsufficientEncryptionKeySize),
            0x0D => Some(ErrorCode::InvalidAttributeValueLength),
            0x0E => Some(ErrorCode::UnlikelyError),
            0x0F => Some(ErrorCode::InsufficientEncryption),
            0x10 => Some(ErrorCode::UnsupportedGroupType),
            0x11 => Some(ErrorCode::InsufficientResources),
            0x12 => Some(ErrorCode::DatabaseOutOfSync),
            0x13 => Some(ErrorCode::ValueNotAllowed),
            0xFC => Some(ErrorCode::WriteRequestRejected),
            0xFD => Some(ErrorCode::CccdImproperlyConfigured),
            0xFE => Some(ErrorCode::ProcedureAlreadyInProgress),
            0xFF => Some(ErrorCode::OutOfRange),
            _ => None,
        };
        proof {
            if let Some(c) = r {
                assert(c.raw() == v);
                ErrorCode::lemma_raw_injective(c, choose|c: ErrorCode| c.raw() == v);
            } else {
                assert(forall|c: ErrorCode| c.raw() != v);
            }
        }
        r
    }

    /// A code decodes to the value that encodes to it.
    pub proof fn lemma_from_raw(v: u8)
        ensures
            match ErrorCode::from_raw(v) {
                Some(c) => c.raw() == v,
                None => forall|c: ErrorCode| c.raw() != v,
            },
    {
    }

    /// Every value decodes from its own code.
    pub proof fn lemma_from_raw_of_raw(self)
        ensures
            ErrorCode::from_raw(self.raw()) == Some(self),
    {
        ErrorCode::lemma_raw_injective(self, choose|c: ErrorCode| c.raw() == self.raw());
    }

    /// Distinct values have distinct codes.
    pub proof fn lemma_raw_injective(a: ErrorCode, b: ErrorCode)
        requires
            a.raw() == b.raw(),
        ensures
            a == b,
    {
    }
}

/// Security of a link, or the security that an access requires.
///
/// Of a link it tells whether the link is encrypted and with what key size,
/// whether the peer is authenticated and authorized, and whether the keys
/// come from LE Secure Connections pairing. Of a requirement, `key_len` is the
/// least key size that will do.
#[derive(Clone, Copy, Debug, PartialEq, Eq, Structural)]
pub struct Security {
    pub encrypt: bool,
    pub authn: bool,
    pub authz: bool,
    pub lesc: bool,
    pub key_len: u8,
}

impl Security {
    /// No security: what an open attribute requires, and what a link has
    /// before pairing.
    pub open spec fn spec_none() -> Security {
        Security { encrypt: false, authn: false, authz: false, lesc: false, key_len: 0 }
    }

    /// The error that tells what the link `have` lacks of this requirement,
    /// or `None` if it lacks nothing.
    ///
    /// Authentication is looked at first, with LE Secure Connections as a
    /// part of it, then authorization, then encryption, and last the key
    /// size.
    pub open spec fn spec_missing(self, have: Security) -> Option<ErrorCode> {
        if (self.authn && !have.authn) || (self.lesc && !have.lesc) {
            Some(ErrorCode::InsufficientAuthentication)
        } else if self.authz && !have.authz {
            Some(ErrorCode::InsufficientAuthorization)
        } else if self.encrypt && !have.encrypt {
            Some(ErrorCode::InsufficientEncryption)
        } else if self.encrypt && have.key_len < self.key_len {
            Some(ErrorCode::InsufficientEncryptionKeySize)
        } else {
            None
        }
    }

    /// Returns no security.
    #[verifier::when_used_as_spec(spec_none)]
    pub fn none() -> (r: Security)
        ensures
            r == Security::spec_none(),
    {
        Security { encrypt: false, authn: false, authz: false, lesc: false, key_len: 0 }
    }

    /// Returns the error that tells what the link `have` lacks of this
    /// requirement, or `None` if it lacks nothing.
    #[verifier::when_used_as_spec(spec_missing)]
    pub fn missing(self, have: Security) -> (r: Option<ErrorCode>)
        ensures
            r == self.spec_missing(have),
    {
        if (self.authn && !have.authn) || (self.lesc && !have.lesc) {
            Some(ErrorCode::InsufficientAuthentication)
        } else if self.authz && !have.authz {
            Some(ErrorCode::InsufficientAuthorization)
        } else if self.encrypt && !have.encrypt {
            Some(ErrorCode::InsufficientEncryption)
        } else if self.encrypt && have.key_len < self.key_len {
            Some(ErrorCode::InsufficientEncryptionKeySize)
        } else {
            None
        }
    }

    /// A link that has no less than another lacks nothing that the other
    /// does not lack.
    pub proof fn lemma_missing_monotonic(self, have: Security, more: Security)
        requires
            have.encrypt ==> more.encrypt,
            have.authn ==> more.authn,
            have.authz ==> more.authz,
            have.lesc ==> more.lesc,
            have.key_len <= more.key_len,
            self.missing(have).is_none(),
        ensures
            self.missing(more).is_none(),
    {
    }
}

/// Access that a request asks for: its kind, and the security of the link
/// that the request came over.
#[derive(Clone, Copy, Debug, PartialEq, Eq, Structural)]
pub struct Access {
    pub typ: AccessType,
    pub sec: Security,
}

impl Access {
    /// Returns the kind of access.
    pub fn typ(self) -> (r: AccessType)
        ensures
            r == self.typ,
    {
        self.typ
    }
}

/// Attribute permissions: the security that reading requires, and the
/// security that writing requires.
#[derive(Clone, Copy, Debug, PartialEq, Eq, Structural)]
pub struct Perms {
    pub read: Security,
    pub write: Security,
}

impl Perms {
    /// The security that an access of kind `typ` requires.
    pub open spec fn spec_required(self, typ: AccessType) -> Security {
        match typ {
            AccessType::Read => self.read,
            AccessType::Write => self.write,
        }
    }

    /// Whether the access `ac` is permitted, or the error that tells what the
    /// link lacks.
    pub open spec fn spec_test(self, ac: Access) -> Result<(), ErrorCode> {
        match self.spec_required(ac.typ).missing(ac.sec) {
            Some(e) => Err(e),
            None => Ok(()),
        }
    }

    /// Permissions that require no security for reading or writing.
    pub open spec fn spec_open() -> Perms {
        Perms { read: Security::none(), write: Security::none() }
    }

    /// Returns permissions that require no security for reading or writing.
    #[verifier::when_used_as_spec(spec_open)]
    pub fn open() -> (r: Perms)
        ensures
            r == Perms::spec_open(),
    {
        Perms { read: Security::none(), write: Security::none() }
    }

    /// Returns permissions that require `sec` for reading and for writing.
    pub fn new(sec: Security) -> (r: Perms)
        ensures
            r == (Perms { read: sec, write: sec }),
    {
        Perms { read: sec, write: sec }
    }

    /// Returns whether the access `ac` is permitted, or the error that tells
    /// what the link lacks.
    #[verifier::when_used_as_spec(spec_test)]
    pub fn test(self, ac: Access) -> (r: Result<(), ErrorCode>)
        ensures
            r == self.spec_test(ac),
    {
        let need = match ac.typ {
            AccessType::Read => self.read,
            AccessType::Write => self.write,
        };
        match need.missing(ac.sec) {
            Some(e) => Err(e),
            None => Ok(()),
        }
    }
}

/// Context of a request: its opcode, and the access that it asks for.
#[derive(Clone, Copy, Debug, PartialEq, Eq, Structural)]
pub struct Request {
    op: Opcode,
    ac: Access,
}

impl Request {
    #[verifier::type_invariant]
    spec fn inv(self) -> bool {
        self.op.access_type() == Some(self.ac.typ)
    }

    /// The opcode of the request.
    pub closed spec fn spec_op(self) -> Opcode {
        self.op
    }

    /// The access that the request asks for.
    pub closed spec fn spec_ac(self) -> Access {
        self.ac
    }

    /// Creates the context of a request with opcode `op` that came over a
    /// link with security `sec`. It returns `None` for an opcode that asks
    /// for no access to an attribute.
    pub fn new(op: Opcode, sec: Security) -> (r: Option<Request>)
        ensures
            r.is_some() == op.access_type().is_some(),
            r.is_some() ==> r.unwrap().op() == op && r.unwrap().ac() == (Access {
                typ: op.access_type().unwrap(),
                sec,
            }),
    {
        match op.access_type() {
            Some(typ) => Some(Request { op, ac: Access { typ, sec } }),
            None => None,
        }
    }

    /// Returns the opcode of the request.
    #[verifier::when_used_as_spec(spec_op)]
    pub fn op(self) -> (r: Opcode)
        ensures
            r == self.spec_op(),
            r.access_type() == Some(self.spec_ac().typ),
    {
        proof {
            use_type_invariant(&self);
        }
        self.op
    }

    /// Returns the access that the request asks for.
    #[verifier::when_used_as_spec(spec_ac)]
    pub fn ac(self) -> (r: Access)
        ensures
            r == self.spec_ac(),
            self.spec_op().access_type() == Some(r.typ),
    {
        proof {
            use_type_invariant(&self);
        }
        self.ac
    }
}

} // verus!
