//! HCI opcodes, event codes, status codes, and advertising constants.

use vstd::prelude::*;

verus! {

/// HCI command header and buffer sizes.
pub const CMD_HDR: usize = 3;

pub const CMD_BUF: usize = 258;

/// HCI ACL data header and buffer sizes.
pub const ACL_HDR: usize = 4;

pub const ACL_LE_MIN_DATA_LEN: u16 = 27;

/// HCI event header and buffer sizes.
pub const EVT_HDR: usize = 2;

pub const EVT_BUF: usize = 257;

/// HCI command opcodes.
#[derive(Clone, Copy, Debug, PartialEq, Eq, Structural)]
pub enum Opcode {
    /// Opcode 0x0000 is used to update `Num_HCI_Command_Packets`
    ///.
    Nop,
    // HCI Control and Baseband commands
    SetEventMask,
    Reset,
    SetControllerToHostFlowControl,
    HostBufferSize,
    SetEventMaskPage2,
    WriteLeHostSupport,
    // Informational parameters commands
    ReadLocalVersionInformation,
    ReadLocalSupportedCommands,
    ReadBufferSize,
    ReadBdAddr,
    // LE Controller commands
    LeSetEventMask,
    LeReadBufferSize,
    LeReadBufferSizeV2,
    LeLongTermKeyRequestReply,
    LeLongTermKeyRequestNegativeReply,
    LeSetAdvertisingSetRandomAddress,
    LeSetExtendedAdvertisingParameters,
    LeSetExtendedAdvertisingData,
    LeSetExtendedScanResponseData,
    LeSetExtendedAdvertisingEnable,
    LeReadMaximumAdvertisingDataLength,
    LeReadNumberOfSupportedAdvertisingSets,
    LeRemoveAdvertisingSet,
    LeClearAdvertisingSets,
    LeSetPeriodicAdvertisingParameters,
    LeSetPeriodicAdvertisingData,
    LeSetPeriodicAdvertisingEnable,
}

impl Opcode {
    /// The opcode on the wire.
    pub open spec fn spec_raw(self) -> u16 {
        match self {
            Opcode::Nop => 0x0000,
            Opcode::SetEventMask => 0x0C01,
            Opcode::Reset => 0x0C03,
            Opcode::SetControllerToHostFlowControl => 0x0C31,
            Opcode::HostBufferSize => 0x0C33,
            Opcode::SetEventMaskPage2 => 0x0C63,
            Opcode::WriteLeHostSupport => 0x0C6D,
            Opcode::ReadLocalVersionInformation => 0x1001,
            Opcode::ReadLocalSupportedCommands => 0x1002,
            Opcode::ReadBufferSize => 0x1005,
            Opcode::ReadBdAddr => 0x1009,
            Opcode::LeSetEventMask => 0x2001,
            Opcode::LeReadBufferSize => 0x2002,
            Opcode::LeReadBufferSizeV2 => 0x2060,
            Opcode::LeLongTermKeyRequestReply => 0x201A,
            Opcode::LeLongTermKeyRequestNegativeReply => 0x201B,
            Opcode::LeSetAdvertisingSetRandomAddress => 0x2035,
            Opcode::LeSetExtendedAdvertisingParameters => 0x2036,
            Opcode::LeSetExtendedAdvertisingData => 0x2037,
            Opcode::LeSetExtendedScanResponseData => 0x2038,
            Opcode::LeSetExtendedAdvertisingEnable => 0x2039,
            Opcode::LeReadMaximumAdvertisingDataLength => 0x203A,
            Opcode::LeReadNumberOfSupportedAdvertisingSets => 0x203B,
            Opcode::LeRemoveAdvertisingSet => 0x203C,
            Opcode::LeClearAdvertisingSets => 0x203D,
            Opcode::LeSetPeriodicAdvertisingParameters => 0x203E,
            Opcode::LeSetPeriodicAdvertisingData => 0x203F,
            Opcode::LeSetPeriodicAdvertisingEnable => 0x2040,
        }
    }

    /// Returns the opcode on the wire.
    #[verifier::when_used_as_spec(spec_raw)]
    pub fn raw(self) -> (r: u16)
        ensures
            r == self.spec_raw(),
    {
        match self {
            Opcode::Nop => 0x0000,
            Opcode::SetEventMask => 0x0C01,
            Opcode::Reset => 0x0C03,
            Opcode::SetControllerToHostFlowControl => 0x0C31,
            Opcode::HostBufferSize => 0x0C33,
            Opcode::SetEventMaskPage2 => 0x0C63,
            Opcode::WriteLeHostSupport => 0x0C6D,
            Opcode::ReadLocalVersionInformation => 0x1001,
            Opcode::ReadLocalSupportedCommands => 0x1002,
            Opcode::ReadBufferSize => 0x1005,
            Opcode::ReadBdAddr => 0x1009,
            Opcode::LeSetEventMask => 0x2001,
            Opcode::LeReadBufferSize => 0x2002,
            Opcode::LeReadBufferSizeV2 => 0x2060,
            Opcode::LeLongTermKeyRequestReply => 0x201A,
            Opcode::LeLongTermKeyRequestNegativeReply => 0x201B,
            Opcode::LeSetAdvertisingSetRandomAddress => 0x2035,
            Opcode::LeSetExtendedAdvertisingParameters => 0x2036,
            Opcode::LeSetExtendedAdvertisingData => 0x2037,
            Opcode::LeSetExtendedScanResponseData => 0x2038,
            Opcode::LeSetExtendedAdvertisingEnable => 0x2039,
            Opcode::LeReadMaximumAdvertisingDataLength => 0x203A,
            Opcode::LeReadNumberOfSupportedAdvertisingSets => 0x203B,
            Opcode::LeRemoveAdvertisingSet => 0x203C,
            Opcode::LeClearAdvertisingSets => 0x203D,
            Opcode::LeSetPeriodicAdvertisingParameters => 0x203E,
            Opcode::LeSetPeriodicAdvertisingData => 0x203F,
            Opcode::LeSetPeriodicAdvertisingEnable => 0x2040,
        }
    }

    /// The value whose opcode is `v`, or [`Opcode::Nop`] if there is none.
    pub open spec fn spec_from_raw(v: u16) -> Opcode {
        if exists|c: Opcode| c.raw() == v {
            choose|c: Opcode| c.raw() == v
        } else {
            Opcode::Nop
        }
    }

    /// Returns the value whose opcode is `v`, or [`Opcode::Nop`] if there is
    /// none.
    #[verifier::when_used_as_spec(spec_from_raw)]
    pub fn from_raw(v: u16) -> (r: Opcode)
        ensures
            r == Opcode::spec_from_raw(v),
            r.raw() == v || (r == Opcode::Nop && forall|c: Opcode| c.raw() != v),
    {
        let r = match v {
            0x0000 => Opcode::Nop,
            0x0C01 => Opcode::SetEventMask,
            0x0C03 => Opcode::Reset,
            0x0C31 => Opcode::SetControllerToHostFlowControl,
            0x0C33 => Opcode::HostBufferSize,
            0x0C63 => Opcode::SetEventMaskPage2,
            0x0C6D => Opcode::WriteLeHostSupport,
            0x1001 => Opcode::ReadLocalVersionInformation,
            0x1002 => Opcode::ReadLocalSupportedCommands,
            0x1005 => Opcode::ReadBufferSize,
            0x1009 => Opcode::ReadBdAddr,
            0x2001 => Opcode::LeSetEventMask,
            0x2002 => Opcode::LeReadBufferSize,
            0x2060 => Opcode::LeReadBufferSizeV2,
            0x201A => Opcode::LeLongTermKeyRequestReply,
            0x201B => Opcode::LeLongTermKeyRequestNegativeReply,
            0x2035 => Opcode::LeSetAdvertisingSetRandomAddress,
            0x2036 => Opcode::LeSetExtendedAdvertisingParameters,
            0x2037 => Opcode::LeSetExtendedAdvertisingData,
            0x2038 => Opcode::LeSetExtendedScanResponseData,
            0x2039 => Opcode::LeSetExtendedAdvertisingEnable,
            0x203A => Opcode::LeReadMaximumAdvertisingDataLength,
            0x203B => Opcode::LeReadNumberOfSupportedAdvertisingSets,
            0x203C => Opcode::LeRemoveAdvertisingSet,
            0x203D => Opcode::LeClearAdvertisingSets,
            0x203E => Opcode::LeSetPeriodicAdvertisingParameters,
            0x203F => Opcode::LeSetPeriodicAdvertisingData,
            0x2040 => Opcode::LeSetPeriodicAdvertisingEnable,
            _ => Opcode::Nop,
        };
        proof {
            if r.raw() == v {
                Opcode::lemma_raw_injective(r, choose|c: Opcode| c.raw() == v);
            } else {
                assert(forall|c: Opcode| c.raw() != v);
            }
        }
        r
    }

    /// Every value decodes from its own code.
    pub proof fn lemma_from_raw_of_raw(self)
        ensures
            Opcode::from_raw(self.raw()) == self,
    {
        Opcode::lemma_raw_injective(self, choose|c: Opcode| c.raw() == self.raw());
    }

    /// Distinct values have distinct codes.
    pub proof fn lemma_raw_injective(a: Opcode, b: Opcode)
        requires
            a.raw() == b.raw(),
        ensures
            a == b,
    {
    }

    /// The group that the opcode belongs to. [`Opcode::Nop`] belongs to no
    /// group.
    pub open spec fn spec_group(self) -> Option<OpcodeGroup> {
        match self {
            Opcode::Nop => None,
            Opcode::SetEventMask
            | Opcode::Reset
            | Opcode::SetControllerToHostFlowControl
            | Opcode::HostBufferSize
            | Opcode::SetEventMaskPage2
            | Opcode::WriteLeHostSupport => Some(OpcodeGroup::HciControl),
            Opcode::ReadLocalVersionInformation
            | Opcode::ReadLocalSupportedCommands
            | Opcode::ReadBufferSize
            | Opcode::ReadBdAddr => Some(OpcodeGroup::InfoParams),
            _ => Some(OpcodeGroup::Le),
        }
    }

    /// Returns the group that the opcode belongs to.
    #[verifier::when_used_as_spec(spec_group)]
    pub fn group(self) -> (r: Option<OpcodeGroup>)
        ensures
            r == self.spec_group(),
    {
        match self {
            Opcode::Nop => None,
            Opcode::SetEventMask
            | Opcode::Reset
            | Opcode::SetControllerToHostFlowControl
            | Opcode::HostBufferSize
            | Opcode::SetEventMaskPage2
            | Opcode::WriteLeHostSupport => Some(OpcodeGroup::HciControl),
            Opcode::ReadLocalVersionInformation
            | Opcode::ReadLocalSupportedCommands
            | Opcode::ReadBufferSize
            | Opcode::ReadBdAddr => Some(OpcodeGroup::InfoParams),
            _ => Some(OpcodeGroup::Le),
        }
    }

    /// An opcode is its group's field shifted over a command field of ten
    /// bits.
    pub proof fn lemma_raw_is_group_and_command(self)
        requires
            self != Opcode::Nop,
        ensures
            self.group().is_some(),
            self.raw() >> 10 == self.group().unwrap().raw(),
            self.raw() == ogf_ocf(self.group().unwrap().raw(), self.raw() & 0x03FF),
    {
        let v = self.raw();
        let g = self.group().unwrap().raw();
        assert(v >> 10 == g && v == (g << 10) | (v & 0x03FF)) by (bit_vector)
            requires
                (g == 3 && 0x0C00 <= v < 0x1000) || (g == 4 && 0x1000 <= v < 0x1400) || (g == 8
                    && 0x2000 <= v < 0x2400),
        ;
    }

    /// Returns whether the opcode is `Nop`, the opcode of no command.
    pub fn is_none(self) -> (r: bool)
        ensures
            r == (self == Opcode::Nop),
    {
        matches!(self, Opcode::Nop)
    }

    /// Returns whether the opcode is that of a command.
    pub fn is_some(self) -> (r: bool)
        ensures
            r == (self != Opcode::Nop),
    {
        !self.is_none()
    }
}

impl Default for Opcode {
    fn default() -> (r: Opcode)
        ensures
            r == Opcode::Nop,
    {
        Opcode::Nop
    }
}

/// An opcode made of a group field and a command field.
pub open spec fn ogf_ocf(ogf: u16, ocf: u16) -> u16 {
    (ogf << 10) | ocf
}

/// Opcode group field definitions.
#[derive(Clone, Copy, Debug, PartialEq, Eq, Structural)]
pub enum OpcodeGroup {
    LinkControl,
    LinkPolicy,
    HciControl,
    InfoParams,
    StatusParams,
    Testing,
    Le,
    Vendor,
}

impl OpcodeGroup {
    /// The opcode group field.
    pub open spec fn spec_raw(self) -> u16 {
        match self {
            OpcodeGroup::LinkControl => 0x01,
            OpcodeGroup::LinkPolicy => 0x02,
            OpcodeGroup::HciControl => 0x03,
            OpcodeGroup::InfoParams => 0x04,
            OpcodeGroup::StatusParams => 0x05,
            OpcodeGroup::Testing => 0x06,
            OpcodeGroup::Le => 0x08,
            OpcodeGroup::Vendor => 0x3F,
        }
    }

    /// Returns the opcode group field.
    #[verifier::when_used_as_spec(spec_raw)]
    pub fn raw(self) -> (r: u16)
        ensures
            r == self.spec_raw(),
    {
        match self {
            OpcodeGroup::LinkControl => 0x01,
            OpcodeGroup::LinkPolicy => 0x02,
            OpcodeGroup::HciControl => 0x03,
            OpcodeGroup::InfoParams => 0x04,
            OpcodeGroup::StatusParams => 0x05,
            OpcodeGroup::Testing => 0x06,
            OpcodeGroup::Le => 0x08,
            OpcodeGroup::Vendor => 0x3F,
        }
    }

    /// Combines the group field with a command field to create a full opcode.
    pub fn ocf(self, ocf: u16) -> (r: u16)
        ensures
            r == ogf_ocf(self.raw(), ocf),
            ocf < 0x0400 ==> r == self.raw() * 0x0400 + ocf,
    {
        let g: u16 = self.raw();
        assert(g < 0x40 && ocf < 0x0400 ==> (g << 10) | ocf == g * 0x0400 + ocf) by (bit_vector);
        (g << 10) | ocf
    }
}

/// HCI event codes. An LE subevent has its subevent code in the high byte
/// above the code of the LE meta event.
#[derive(Clone, Copy, Debug, PartialEq, Eq, Structural)]
pub enum EventCode {
    InquiryComplete,
    InquiryResult,
    ConnectionComplete,
    ConnectionRequest,
    DisconnectionComplete,
    AuthenticationComplete,
    RemoteNameRequestComplete,
    EncryptionChangeV1,
    EncryptionChangeV2,
    ChangeConnectionLinkKeyComplete,
    LinkKeyTypeChanged,
    ReadRemoteSupportedFeaturesComplete,
    ReadRemoteVersionInformationComplete,
    QosSetupComplete,
    CommandComplete,
    CommandStatus,
    HardwareError,
    FlushOccurred,
    RoleChange,
    NumberOfCompletedPackets,
    ModeChange,
    ReturnLinkKeys,
    PinCodeRequest,
    LinkKeyRequest,
    LinkKeyNotification,
    LoopbackCommand,
    DataBufferOverflow,
    MaxSlotsChange,
    ReadClockOffsetComplete,
    ConnectionPacketTypeChanged,
    QosViolation,
    PageScanRepetitionModeChange,
    FlowSpecificationComplete,
    InquiryResultWithRssi,
    ReadRemoteExtendedFeaturesComplete,
    SynchronousConnectionComplete,
    SynchronousConnectionChanged,
    SniffSubrating,
    ExtendedInquiryResult,
    EncryptionKeyRefreshComplete,
    IoCapabilityRequest,
    IoCapabilityResponse,
    UserConfirmationRequest,
    UserPasskeyRequest,
    RemoteOobDataRequest,
    SimplePairingComplete,
    LinkSupervisionTimeoutChanged,
    EnhancedFlushComplete,
    UserPasskeyNotification,
    KeypressNotification,
    RemoteHostSupportedFeaturesNotification,
    NumberOfCompletedDataBlocks,
    // HCI LE subevent codes.
    LeMetaEvent,
    LeConnectionComplete,
    LeAdvertisingReport,
    LeConnectionUpdateComplete,
    LeReadRemoteFeaturesComplete,
    LeLongTermKeyRequest,
    LeRemoteConnectionParameterRequest,
    LeDataLengthChange,
    LeReadLocalP256PublicKeyComplete,
    LeGenerateDhKeyComplete,
    LeEnhancedConnectionComplete,
    LeDirectedAdvertisingReport,
    LePhyUpdateComplete,
    LeExtendedAdvertisingReport,
    LePeriodicAdvertisingSyncEstablished,
    LePeriodicAdvertisingReport,
    LePeriodicAdvertisingSyncLost,
    LeScanTimeout,
    LeAdvertisingSetTerminated,
    LeScanRequestReceived,
    LeChannelSelectionAlgorithm,
    LeConnectionlessIqReport,
    LeConnectionIqReport,
    LeCteRequestFailed,
    LePeriodicAdvertisingSyncTransferReceived,
    LeCisEstablished,
    LeCisRequest,
    LeCreateBigComplete,
    LeTerminateBigComplete,
    LeBigSyncEstablished,
    LeBigSyncLost,
    LeRequestPeerScaComplete,
    LePathLossThreshold,
    LeTransmitPowerReporting,
    LeBigInfoAdvertisingReport,
    LeSubrateChange,
    TriggeredClockCapture,
    SynchronizationTrainComplete,
    SynchronizationTrainReceived,
    ConnectionlessPeripheralBroadcastReceive,
    ConnectionlessPeripheralBroadcastTimeout,
    TruncatedPageComplete,
    PeripheralPageResponseTimeout,
    ConnectionlessPeripheralBroadcastChannelMapChange,
    InquiryResponseNotification,
    AuthenticatedPayloadTimeoutExpired,
    SamStatusChange,
    Vendor,
}

impl EventCode {
    /// The event code on the wire.
    pub open spec fn spec_raw(self) -> u16 {
        match self {
            EventCode::InquiryComplete => 0x0001,
            EventCode::InquiryResult => 0x0002,
            EventCode::ConnectionComplete => 0x0003,
            EventCode::ConnectionRequest => 0x0004,
            EventCode::DisconnectionComplete => 0x0005,
            EventCode::AuthenticationComplete => 0x0006,
            EventCode::RemoteNameRequestComplete => 0x0007,
            EventCode::EncryptionChangeV1 => 0x0008,
            EventCode::EncryptionChangeV2 => 0x0059,
            EventCode::ChangeConnectionLinkKeyComplete => 0x0009,
            EventCode::LinkKeyTypeChanged => 0x000A,
            EventCode::ReadRemoteSupportedFeaturesComplete => 0x000B,
            EventCode::ReadRemoteVersionInformationComplete => 0x000C,
            EventCode::QosSetupComplete => 0x000D,
            EventCode::CommandComplete => 0x000E,
            EventCode::CommandStatus => 0x000F,
            EventCode::HardwareError => 0x0010,
            EventCode::FlushOccurred => 0x0011,
            EventCode::RoleChange => 0x0012,
            EventCode::NumberOfCompletedPackets => 0x0013,
            EventCode::ModeChange => 0x0014,
            EventCode::ReturnLinkKeys => 0x0015,
            EventCode::PinCodeRequest => 0x0016,
            EventCode::LinkKeyRequest => 0x0017,
            EventCode::LinkKeyNotification => 0x0018,
            EventCode::LoopbackCommand => 0x0019,
            EventCode::DataBufferOverflow => 0x001A,
            EventCode::MaxSlotsChange => 0x001B,
            EventCode::ReadClockOffsetComplete => 0x001C,
            EventCode::ConnectionPacketTypeChanged => 0x001D,
            EventCode::QosViolation => 0x001E,
            EventCode::PageScanRepetitionModeChange => 0x0020,
            EventCode::FlowSpecificationComplete => 0x0021,
            EventCode::InquiryResultWithRssi => 0x0022,
            EventCode::ReadRemoteExtendedFeaturesComplete => 0x0023,
            EventCode::SynchronousConnectionComplete => 0x002C,
            EventCode::SynchronousConnectionChanged => 0x002D,
            EventCode::SniffSubrating => 0x002E,
            EventCode::ExtendedInquiryResult => 0x002F,
            EventCode::EncryptionKeyRefreshComplete => 0x0030,
            EventCode::IoCapabilityRequest => 0x0031,
            EventCode::IoCapabilityResponse => 0x0032,
            EventCode::UserConfirmationRequest => 0x0033,
            EventCode::UserPasskeyRequest => 0x0034,
            EventCode::RemoteOobDataRequest => 0x0035,
            EventCode::SimplePairingComplete => 0x0036,
            EventCode::LinkSupervisionTimeoutChanged => 0x0038,
            EventCode::EnhancedFlushComplete => 0x0039,
            EventCode::UserPasskeyNotification => 0x003B,
            EventCode::KeypressNotification => 0x003C,
            EventCode::RemoteHostSupportedFeaturesNotification => 0x003D,
            EventCode::NumberOfCompletedDataBlocks => 0x0048,
            EventCode::LeMetaEvent => 0x003E,
            EventCode::LeConnectionComplete => 0x013E,
            EventCode::LeAdvertisingReport => 0x023E,
            EventCode::LeConnectionUpdateComplete => 0x033E,
            EventCode::LeReadRemoteFeaturesComplete => 0x043E,
            EventCode::LeLongTermKeyRequest => 0x053E,
            EventCode::LeRemoteConnectionParameterRequest => 0x063E,
            EventCode::LeDataLengthChange => 0x073E,
            EventCode::LeReadLocalP256PublicKeyComplete => 0x083E,
            EventCode::LeGenerateDhKeyComplete => 0x093E,
            EventCode::LeEnhancedConnectionComplete => 0x0A3E,
            EventCode::LeDirectedAdvertisingReport => 0x0B3E,
            EventCode::LePhyUpdateComplete => 0x0C3E,
            EventCode::LeExtendedAdvertisingReport => 0x0D3E,
            EventCode::LePeriodicAdvertisingSyncEstablished => 0x0E3E,
            EventCode::LePeriodicAdvertisingReport => 0x0F3E,
            EventCode::LePeriodicAdvertisingSyncLost => 0x103E,
            EventCode::LeScanTimeout => 0x113E,
            EventCode::LeAdvertisingSetTerminated => 0x123E,
            EventCode::LeScanRequestReceived => 0x133E,
            EventCode::LeChannelSelectionAlgorithm => 0x143E,
            EventCode::LeConnectionlessIqReport => 0x153E,
            EventCode::LeConnectionIqReport => 0x163E,
            EventCode::LeCteRequestFailed => 0x173E,
            EventCode::LePeriodicAdvertisingSyncTransferReceived => 0x183E,
            EventCode::LeCisEstablished => 0x193E,
            EventCode::LeCisRequest => 0x1A3E,
            EventCode::LeCreateBigComplete => 0x1B3E,
            EventCode::LeTerminateBigComplete => 0x1C3E,
            EventCode::LeBigSyncEstablished => 0x1D3E,
            EventCode::LeBigSyncLost => 0x1E3E,
            EventCode::LeRequestPeerScaComplete => 0x1F3E,
            EventCode::LePathLossThreshold => 0x203E,
            EventCode::LeTransmitPowerReporting => 0x213E,
            EventCode::LeBigInfoAdvertisingReport => 0x223E,
            EventCode::LeSubrateChange => 0x233E,
            EventCode::TriggeredClockCapture => 0x004E,
            EventCode::SynchronizationTrainComplete => 0x004F,
            EventCode::SynchronizationTrainReceived => 0x0050,
            EventCode::ConnectionlessPeripheralBroadcastReceive => 0x0051,
            EventCode::ConnectionlessPeripheralBroadcastTimeout => 0x0052,
            EventCode::TruncatedPageComplete => 0x0053,
            EventCode::PeripheralPageResponseTimeout => 0x0054,
            EventCode::ConnectionlessPeripheralBroadcastChannelMapChange => 0x0055,
            EventCode::InquiryResponseNotification => 0x0056,
            EventCode::AuthenticatedPayloadTimeoutExpired => 0x0057,
            EventCode::SamStatusChange => 0x0058,
            EventCode::Vendor => 0x00FF,
        }
    }

    /// Returns the event code on the wire.
    #[verifier::when_used_as_spec(spec_raw)]
    pub fn raw(self) -> (r: u16)
        ensures
            r == self.spec_raw(),
    {
        match self {
            EventCode::InquiryComplete => 0x0001,
            EventCode::InquiryResult => 0x0002,
            EventCode::ConnectionComplete => 0x0003,
            EventCode::ConnectionRequest => 0x0004,
            EventCode::DisconnectionComplete => 0x0005,
            EventCode::AuthenticationComplete => 0x0006,
            EventCode::RemoteNameRequestComplete => 0x0007,
            EventCode::EncryptionChangeV1 => 0x0008,
            EventCode::EncryptionChangeV2 => 0x0059,
            EventCode::ChangeConnectionLinkKeyComplete => 0x0009,
            EventCode::LinkKeyTypeChanged => 0x000A,
            EventCode::ReadRemoteSupportedFeaturesComplete => 0x000B,
            EventCode::ReadRemoteVersionInformationComplete => 0x000C,
            EventCode::QosSetupComplete => 0x000D,
            EventCode::CommandComplete => 0x000E,
            EventCode::CommandStatus => 0x000F,
            EventCode::HardwareError => 0x0010,
            EventCode::FlushOccurred => 0x0011,
            EventCode::RoleChange => 0x0012,
            EventCode::NumberOfCompletedPackets => 0x0013,
            EventCode::ModeChange => 0x0014,
            EventCode::ReturnLinkKeys => 0x0015,
            EventCode::PinCodeRequest => 0x0016,
            EventCode::LinkKeyRequest => 0x0017,
            EventCode::LinkKeyNotification => 0x0018,
            EventCode::LoopbackCommand => 0x0019,
            EventCode::DataBufferOverflow => 0x001A,
            EventCode::MaxSlotsChange => 0x001B,
            EventCode::ReadClockOffsetComplete => 0x001C,
            EventCode::ConnectionPacketTypeChanged => 0x001D,
            EventCode::QosViolation => 0x001E,
            EventCode::PageScanRepetitionModeChange => 0x0020,
            EventCode::FlowSpecificationComplete => 0x0021,
            EventCode::InquiryResultWithRssi => 0x0022,
            EventCode::ReadRemoteExtendedFeaturesComplete => 0x0023,
            EventCode::SynchronousConnectionComplete => 0x002C,
            EventCode::SynchronousConnectionChanged => 0x002D,
            EventCode::SniffSubrating => 0x002E,
            EventCode::ExtendedInquiryResult => 0x002F,
            EventCode::EncryptionKeyRefreshComplete => 0x0030,
            EventCode::IoCapabilityRequest => 0x0031,
            EventCode::IoCapabilityResponse => 0x0032,
            EventCode::UserConfirmationRequest => 0x0033,
            EventCode::UserPasskeyRequest => 0x0034,
            EventCode::RemoteOobDataRequest => 0x0035,
            EventCode::SimplePairingComplete => 0x0036,
            EventCode::LinkSupervisionTimeoutChanged => 0x0038,
            EventCode::EnhancedFlushComplete => 0x0039,
            EventCode::UserPasskeyNotification => 0x003B,
            EventCode::KeypressNotification => 0x003C,
            EventCode::RemoteHostSupportedFeaturesNotification => 0x003D,
            EventCode::NumberOfCompletedDataBlocks => 0x0048,
            EventCode::LeMetaEvent => 0x003E,
            EventCode::LeConnectionComplete => 0x013E,
            EventCode::LeAdvertisingReport => 0x023E,
            EventCode::LeConnectionUpdateComplete => 0x033E,
            EventCode::LeReadRemoteFeaturesComplete => 0x043E,
            EventCode::LeLongTermKeyRequest => 0x053E,
            EventCode::LeRemoteConnectionParameterRequest => 0x063E,
            EventCode::LeDataLengthChange => 0x073E,
            EventCode::LeReadLocalP256PublicKeyComplete => 0x083E,
            EventCode::LeGenerateDhKeyComplete => 0x093E,
            EventCode::LeEnhancedConnectionComplete => 0x0A3E,
            EventCode::LeDirectedAdvertisingReport => 0x0B3E,
            EventCode::LePhyUpdateComplete => 0x0C3E,
            EventCode::LeExtendedAdvertisingReport => 0x0D3E,
            EventCode::LePeriodicAdvertisingSyncEstablished => 0x0E3E,
            EventCode::LePeriodicAdvertisingReport => 0x0F3E,
            EventCode::LePeriodicAdvertisingSyncLost => 0x103E,
            EventCode::LeScanTimeout => 0x113E,
            EventCode::LeAdvertisingSetTerminated => 0x123E,
            EventCode::LeScanRequestReceived => 0x133E,
            EventCode::LeChannelSelectionAlgorithm => 0x143E,
            EventCode::LeConnectionlessIqReport => 0x153E,
            EventCode::LeConnectionIqReport => 0x163E,
            EventCode::LeCteRequestFailed => 0x173E,
            EventCode::LePeriodicAdvertisingSyncTransferReceived => 0x183E,
            EventCode::LeCisEstablished => 0x193E,
            EventCode::LeCisRequest => 0x1A3E,
            EventCode::LeCreateBigComplete => 0x1B3E,
            EventCode::LeTerminateBigComplete => 0x1C3E,
            EventCode::LeBigSyncEstablished => 0x1D3E,
            EventCode::LeBigSyncLost => 0x1E3E,
            EventCode::LeRequestPeerScaComplete => 0x1F3E,
            EventCode::LePathLossThreshold => 0x203E,
            EventCode::LeTransmitPowerReporting => 0x213E,
            EventCode::LeBigInfoAdvertisingReport => 0x223E,
            EventCode::LeSubrateChange => 0x233E,
            EventCode::TriggeredClockCapture => 0x004E,
            EventCode::SynchronizationTrainComplete => 0x004F,
            EventCode::SynchronizationTrainReceived => 0x0050,
            EventCode::ConnectionlessPeripheralBroadcastReceive => 0x0051,
            EventCode::ConnectionlessPeripheralBroadcastTimeout => 0x0052,
            EventCode::TruncatedPageComplete => 0x0053,
            EventCode::PeripheralPageResponseTimeout => 0x0054,
            EventCode::ConnectionlessPeripheralBroadcastChannelMapChange => 0x0055,
            EventCode::InquiryResponseNotification => 0x0056,
            EventCode::AuthenticatedPayloadTimeoutExpired => 0x0057,
            EventCode::SamStatusChange => 0x0058,
            EventCode::Vendor => 0x00FF,
        }
    }

    /// The value whose event code is `v`, if there is one.
    pub open spec fn spec_from_raw(v: u16) -> Option<EventCode> {
        if exists|c: EventCode| c.raw() == v {
            Some(choose|c: EventCode| c.raw() == v)
        } else {
            None
        }
    }

    /// Returns the value whose event code is `v`, if there is one.
    #[verifier::when_used_as_spec(spec_from_raw)]
    pub fn from_raw(v: u16) -> (r: Option<EventCode>)
        ensures
            r == EventCode::spec_from_raw(v),
            match r {
                Some(c) => c.raw() == v,
                None => forall|c: EventCode| c.raw() != v,
            },
    {
        let r = match v {
            0x0001 => Some(EventCode::InquiryComplete),
            0x0002 => Some(EventCode::InquiryResult),
            0x0003 => Some(EventCode::ConnectionComplete),
            0x0004 => Some(EventCode::ConnectionRequest),
            0x0005 => Some(EventCode::DisconnectionComplete),
            0x0006 => Some(EventCode::AuthenticationComplete),
            0x0007 => Some(EventCode::RemoteNameRequestComplete),
            0x0008 => Some(EventCode::EncryptionChangeV1),
            0x0059 => Some(EventCode::EncryptionChangeV2),
            0x0009 => Some(EventCode::ChangeConnectionLinkKeyComplete),
            0x000A => Some(EventCode::LinkKeyTypeChanged),
            0x000B => Some(EventCode::ReadRemoteSupportedFeaturesComplete),
            0x000C => Some(EventCode::ReadRemoteVersionInformationComplete),
            0x000D => Some(EventCode::QosSetupComplete),
            0x000E => Some(EventCode::CommandComplete),
            0x000F => Some(EventCode::CommandStatus),
            0x0010 => Some(EventCode::HardwareError),
            0x0011 => Some(EventCode::FlushOccurred),
            0x0012 => Some(EventCode::RoleChange),
            0x0013 => Some(EventCode::NumberOfCompletedPackets),
            0x0014 => Some(EventCode::ModeChange),
            0x0015 => Some(EventCode::ReturnLinkKeys),
            0x0016 => Some(EventCode::PinCodeRequest),
            0x0017 => Some(EventCode::LinkKeyRequest),
            0x0018 => Some(EventCode::LinkKeyNotification),
            0x0019 => Some(EventCode::LoopbackCommand),
            0x001A => Some(EventCode::DataBufferOverflow),
            0x001B => Some(EventCode::MaxSlotsChange),
            0x001C => Some(EventCode::ReadClockOffsetComplete),
            0x001D => Some(EventCode::ConnectionPacketTypeChanged),
            0x001E => Some(EventCode::QosViolation),
            0x0020 => Some(EventCode::PageScanRepetitionModeChange),
            0x0021 => Some(EventCode::FlowSpecificationComplete),
            0x0022 => Some(EventCode::InquiryResultWithRssi),
            0x0023 => Some(EventCode::ReadRemoteExtendedFeaturesComplete),
            0x002C => Some(EventCode::SynchronousConnectionComplete),
            0x002D => Some(EventCode::SynchronousConnectionChanged),
            0x002E => Some(EventCode::SniffSubrating),
            0x002F => Some(EventCode::ExtendedInquiryResult),
            0x0030 => Some(EventCode::EncryptionKeyRefreshComplete),
            0x0031 => Some(EventCode::IoCapabilityRequest),
            0x0032 => Some(EventCode::IoCapabilityResponse),
            0x0033 => Some(EventCode::UserConfirmationRequest),
            0x0034 => Some(EventCode::UserPasskeyRequest),
            0x0035 => Some(EventCode::RemoteOobDataRequest),
            0x0036 => Some(EventCode::SimplePairingComplete),
            0x0038 => Some(EventCode::LinkSupervisionTimeoutChanged),
            0x0039 => Some(EventCode::EnhancedFlushComplete),
            0x003B => Some(EventCode::UserPasskeyNotification),
            0x003C => Some(EventCode::KeypressNotification),
            0x003D => Some(EventCode::RemoteHostSupportedFeaturesNotification),
            0x0048 => Some(EventCode::NumberOfCompletedDataBlocks),
            0x003E => Some(EventCode::LeMetaEvent),
            0x013E => Some(EventCode::LeConnectionComplete),
            0x023E => Some(EventCode::LeAdvertisingReport),
            0x033E => Some(EventCode::LeConnectionUpdateComplete),
            0x043E => Some(EventCode::LeReadRemoteFeaturesComplete),
            0x053E => Some(EventCode::LeLongTermKeyRequest),
            0x063E => Some(EventCode::LeRemoteConnectionParameterRequest),
            0x073E => Some(EventCode::LeDataLengthChange),
            0x083E => Some(EventCode::LeReadLocalP256PublicKeyComplete),
            0x093E => Some(EventCode::LeGenerateDhKeyComplete),
            0x0A3E => Some(EventCode::LeEnhancedConnectionComplete),
            0x0B3E => Some(EventCode::LeDirectedAdvertisingReport),
            0x0C3E => Some(EventCode::LePhyUpdateComplete),
            0x0D3E => Some(EventCode::LeExtendedAdvertisingReport),
            0x0E3E => Some(EventCode::LePeriodicAdvertisingSyncEstablished),
            0x0F3E => Some(EventCode::LePeriodicAdvertisingReport),
            0x103E => Some(EventCode::LePeriodicAdvertisingSyncLost),
            0x113E => Some(EventCode::LeScanTimeout),
            0x123E => Some(EventCode::LeAdvertisingSetTerminated),
            0x133E => Some(EventCode::LeScanRequestReceived),
            0x143E => Some(EventCode::LeChannelSelectionAlgorithm),
            0x153E => Some(EventCode::LeConnectionlessIqReport),
            0x163E => Some(EventCode::LeConnectionIqReport),
            0x173E => Some(EventCode::LeCteRequestFailed),
            0x183E => Some(EventCode::LePeriodicAdvertisingSyncTransferReceived),
            0x193E => Some(EventCode::LeCisEstablished),
            0x1A3E => Some(EventCode::LeCisRequest),
            0x1B3E => Some(EventCode::LeCreateBigComplete),
            0x1C3E => Some(EventCode::LeTerminateBigComplete),
            0x1D3E => Some(EventCode::LeBigSyncEstablished),
            0x1E3E => Some(EventCode::LeBigSyncLost),
            0x1F3E => Some(EventCode::LeRequestPeerScaComplete),
            0x203E => Some(EventCode::LePathLossThreshold),
            0x213E => Some(EventCode::LeTransmitPowerReporting),
            0x223E => Some(EventCode::LeBigInfoAdvertisingReport),
            0x233E => Some(EventCode::LeSubrateChange),
            0x004E => Some(EventCode::TriggeredClockCapture),
            0x004F => Some(EventCode::SynchronizationTrainComplete),
            0x0050 => Some(EventCode::SynchronizationTrainReceived),
            0x0051 => Some(EventCode::ConnectionlessPeripheralBroadcastReceive),
            0x0052 => Some(EventCode::ConnectionlessPeripheralBroadcastTimeout),
            0x0053 => Some(EventCode::TruncatedPageComplete),
            0x0054 => Some(EventCode::PeripheralPageResponseTimeout),
            0x0055 => Some(EventCode::ConnectionlessPeripheralBroadcastChannelMapChange),
            0x0056 => Some(EventCode::InquiryResponseNotification),
            0x0057 => Some(EventCode::AuthenticatedPayloadTimeoutExpired),
            0x0058 => Some(EventCode::SamStatusChange),
            0x00FF => Some(EventCode::Vendor),
            _ => None,
        };
        proof {
            if let Some(c) = r {
                assert(c.raw() == v);
                EventCode::lemma_raw_injective(c, choose|c: EventCode| c.raw() == v);
            } else {
                assert(forall|c: EventCode| c.raw() != v);
            }
        }
        r
    }

    /// A code decodes to the value that encodes to it.
    pub proof fn lemma_from_raw(v: u16)
        ensures
            match EventCode::from_raw(v) {
                Some(c) => c.raw() == v,
                None => forall|c: EventCode| c.raw() != v,
            },
    {
    }

    /// Every value decodes from its own code.
    pub proof fn lemma_from_raw_of_raw(self)
        ensures
            EventCode::from_raw(self.raw()) == Some(self),
    {
        EventCode::lemma_raw_injective(self, choose|c: EventCode| c.raw() == self.raw());
    }

    /// Distinct values have distinct codes.
    pub proof fn lemma_raw_injective(a: EventCode, b: EventCode)
        requires
            a.raw() == b.raw(),
        ensures
            a == b,
    {
    }

    /// Returns whether the event code is either `CommandComplete` or
    /// `CommandStatus`.
    pub fn is_cmd(self) -> (r: bool)
        ensures
            r == (self == EventCode::CommandComplete || self == EventCode::CommandStatus),
    {
        matches!(self, EventCode::CommandComplete | EventCode::CommandStatus)
    }

    /// Whether the code is that of an LE subevent.
    pub open spec fn spec_is_le(self) -> bool {
        self.raw() > 0xFF
    }

    /// Returns whether the code is that of an LE subevent.
    #[verifier::when_used_as_spec(spec_is_le)]
    pub fn is_le(self) -> (r: bool)
        ensures
            r == self.spec_is_le(),
    {
        self.raw() > 0xFF
    }

    /// The code of an LE subevent is made of its subevent code and the code
    /// of the LE meta event.
    pub proof fn lemma_le_raw(self)
        requires
            self.is_le(),
        ensures
            0x01 <= self.raw() >> 8 <= 0x23,
            self.raw() == le_code((self.raw() >> 8) as u8),
            self.raw() & 0xFF == EventCode::LeMetaEvent.raw(),
    {
        let v = self.raw();
        assert(0x01 <= v >> 8 <= 0x23 && v == (((v >> 8) as u8) as u16) << 8 | 0x3E && v & 0xFF
            == 0x3E) by (bit_vector)
            requires
                0x013E <= v <= 0x233E,
                (v - 0x3E) % 0x100 == 0,
        ;
    }

    /// The format of the parameters that events with this code begin with.
    pub open spec fn spec_param_fmt(self) -> EventFmt {
        match self {
            EventCode::InquiryComplete => EventFmt { bits: EventFmt::STATUS },
            EventCode::InquiryResult => EventFmt { bits: EventFmt::OTHER },
            EventCode::ConnectionComplete => EventFmt {
                bits: EventFmt::STATUS | EventFmt::CONN_HANDLE,
            },
            EventCode::ConnectionRequest => EventFmt { bits: EventFmt::OTHER },
            EventCode::DisconnectionComplete => EventFmt {
                bits: EventFmt::STATUS | EventFmt::CONN_HANDLE,
            },
            EventCode::AuthenticationComplete => EventFmt {
                bits: EventFmt::STATUS | EventFmt::CONN_HANDLE,
            },
            EventCode::RemoteNameRequestComplete => EventFmt { bits: EventFmt::STATUS },
            EventCode::EncryptionChangeV1 => EventFmt {
                bits: EventFmt::STATUS | EventFmt::CONN_HANDLE,
            },
            EventCode::EncryptionChangeV2 => EventFmt {
                bits: EventFmt::STATUS | EventFmt::CONN_HANDLE,
            },
            EventCode::ChangeConnectionLinkKeyComplete => EventFmt {
                bits: EventFmt::STATUS | EventFmt::CONN_HANDLE,
            },
            EventCode::LinkKeyTypeChanged => EventFmt {
                bits: EventFmt::STATUS | EventFmt::CONN_HANDLE,
            },
            EventCode::ReadRemoteSupportedFeaturesComplete => EventFmt {
                bits: EventFmt::STATUS | EventFmt::CONN_HANDLE,
            },
            EventCode::ReadRemoteVersionInformationComplete => EventFmt {
                bits: EventFmt::STATUS | EventFmt::CONN_HANDLE,
            },
            EventCode::QosSetupComplete => EventFmt {
                bits: EventFmt::STATUS | EventFmt::CONN_HANDLE,
            },
            EventCode::CommandComplete => EventFmt { bits: EventFmt::STATUS },
            EventCode::CommandStatus => EventFmt { bits: EventFmt::STATUS },
            EventCode::HardwareError => EventFmt { bits: EventFmt::OTHER },
            EventCode::FlushOccurred => EventFmt { bits: EventFmt::CONN_HANDLE },
            EventCode::RoleChange => EventFmt { bits: EventFmt::STATUS },
            EventCode::NumberOfCompletedPackets => EventFmt { bits: EventFmt::OTHER },
            EventCode::ModeChange => EventFmt { bits: EventFmt::STATUS | EventFmt::CONN_HANDLE },
            EventCode::ReturnLinkKeys => EventFmt { bits: EventFmt::OTHER },
            EventCode::PinCodeRequest => EventFmt { bits: EventFmt::OTHER },
            EventCode::LinkKeyRequest => EventFmt { bits: EventFmt::OTHER },
            EventCode::LinkKeyNotification => EventFmt { bits: EventFmt::OTHER },
            EventCode::LoopbackCommand => EventFmt { bits: EventFmt::OTHER },
            EventCode::DataBufferOverflow => EventFmt { bits: EventFmt::OTHER },
            EventCode::MaxSlotsChange => EventFmt { bits: EventFmt::CONN_HANDLE },
            EventCode::ReadClockOffsetComplete => EventFmt {
                bits: EventFmt::STATUS | EventFmt::CONN_HANDLE,
            },
            EventCode::ConnectionPacketTypeChanged => EventFmt {
                bits: EventFmt::STATUS | EventFmt::CONN_HANDLE,
            },
            EventCode::QosViolation => EventFmt { bits: EventFmt::CONN_HANDLE },
            EventCode::PageScanRepetitionModeChange => EventFmt { bits: EventFmt::OTHER },
            EventCode::FlowSpecificationComplete => EventFmt {
                bits: EventFmt::STATUS | EventFmt::CONN_HANDLE,
            },
            EventCode::InquiryResultWithRssi => EventFmt { bits: EventFmt::OTHER },
            EventCode::ReadRemoteExtendedFeaturesComplete => EventFmt {
                bits: EventFmt::STATUS | EventFmt::CONN_HANDLE,
            },
            EventCode::SynchronousConnectionComplete => EventFmt {
                bits: EventFmt::STATUS | EventFmt::CONN_HANDLE,
            },
            EventCode::SynchronousConnectionChanged => EventFmt {
                bits: EventFmt::STATUS | EventFmt::CONN_HANDLE,
            },
            EventCode::SniffSubrating => EventFmt {
                bits: EventFmt::STATUS | EventFmt::CONN_HANDLE,
            },
            EventCode::ExtendedInquiryResult => EventFmt { bits: EventFmt::OTHER },
            EventCode::EncryptionKeyRefreshComplete => EventFmt {
                bits: EventFmt::STATUS | EventFmt::CONN_HANDLE,
            },
            EventCode::IoCapabilityRequest => EventFmt { bits: EventFmt::OTHER },
            EventCode::IoCapabilityResponse => EventFmt { bits: EventFmt::OTHER },
            EventCode::UserConfirmationRequest => EventFmt { bits: EventFmt::OTHER },
            EventCode::UserPasskeyRequest => EventFmt { bits: EventFmt::OTHER },
            EventCode::RemoteOobDataRequest => EventFmt { bits: EventFmt::OTHER },
            EventCode::SimplePairingComplete => EventFmt { bits: EventFmt::STATUS },
            EventCode::LinkSupervisionTimeoutChanged => EventFmt { bits: EventFmt::CONN_HANDLE },
            EventCode::EnhancedFlushComplete => EventFmt { bits: EventFmt::CONN_HANDLE },
            EventCode::UserPasskeyNotification => EventFmt { bits: EventFmt::OTHER },
            EventCode::KeypressNotification => EventFmt { bits: EventFmt::OTHER },
            EventCode::RemoteHostSupportedFeaturesNotification => EventFmt {
                bits: EventFmt::OTHER,
            },
            EventCode::NumberOfCompletedDataBlocks => EventFmt { bits: EventFmt::OTHER },
            EventCode::LeMetaEvent => EventFmt { bits: EventFmt::OTHER },
            EventCode::LeConnectionComplete => EventFmt {
                bits: EventFmt::STATUS | EventFmt::CONN_HANDLE,
            },
            EventCode::LeAdvertisingReport => EventFmt { bits: EventFmt::OTHER },
            EventCode::LeConnectionUpdateComplete => EventFmt {
                bits: EventFmt::STATUS | EventFmt::CONN_HANDLE,
            },
            EventCode::LeReadRemoteFeaturesComplete => EventFmt {
                bits: EventFmt::STATUS | EventFmt::CONN_HANDLE,
            },
            EventCode::LeLongTermKeyRequest => EventFmt { bits: EventFmt::CONN_HANDLE },
            EventCode::LeRemoteConnectionParameterRequest => EventFmt {
                bits: EventFmt::CONN_HANDLE,
            },
            EventCode::LeDataLengthChange => EventFmt { bits: EventFmt::CONN_HANDLE },
            EventCode::LeReadLocalP256PublicKeyComplete => EventFmt { bits: EventFmt::STATUS },
            EventCode::LeGenerateDhKeyComplete => EventFmt { bits: EventFmt::STATUS },
            EventCode::LeEnhancedConnectionComplete => EventFmt {
                bits: EventFmt::STATUS | EventFmt::CONN_HANDLE,
            },
            EventCode::LeDirectedAdvertisingReport => EventFmt { bits: EventFmt::OTHER },
            EventCode::LePhyUpdateComplete => EventFmt {
                bits: EventFmt::STATUS | EventFmt::CONN_HANDLE,
            },
            EventCode::LeExtendedAdvertisingReport => EventFmt { bits: EventFmt::OTHER },
            EventCode::LePeriodicAdvertisingSyncEstablished => EventFmt {
                bits: EventFmt::STATUS | EventFmt::SYNC_HANDLE,
            },
            EventCode::LePeriodicAdvertisingReport => EventFmt { bits: EventFmt::SYNC_HANDLE },
            EventCode::LePeriodicAdvertisingSyncLost => EventFmt { bits: EventFmt::SYNC_HANDLE },
            EventCode::LeScanTimeout => EventFmt { bits: EventFmt::OTHER },
            EventCode::LeAdvertisingSetTerminated => EventFmt {
                bits: EventFmt::STATUS | EventFmt::ADV_HANDLE,
            },
            EventCode::LeScanRequestReceived => EventFmt { bits: EventFmt::ADV_HANDLE },
            EventCode::LeChannelSelectionAlgorithm => EventFmt { bits: EventFmt::CONN_HANDLE },
            EventCode::LeConnectionlessIqReport => EventFmt { bits: EventFmt::SYNC_HANDLE },
            EventCode::LeConnectionIqReport => EventFmt { bits: EventFmt::CONN_HANDLE },
            EventCode::LeCteRequestFailed => EventFmt {
                bits: EventFmt::STATUS | EventFmt::CONN_HANDLE,
            },
            EventCode::LePeriodicAdvertisingSyncTransferReceived => EventFmt {
                bits: EventFmt::STATUS | EventFmt::CONN_HANDLE,
            },
            EventCode::LeCisEstablished => EventFmt {
                bits: EventFmt::STATUS | EventFmt::CONN_HANDLE,
            },
            EventCode::LeCisRequest => EventFmt { bits: EventFmt::CONN_HANDLE },
            EventCode::LeCreateBigComplete => EventFmt {
                bits: EventFmt::STATUS | EventFmt::BIG_HANDLE,
            },
            EventCode::LeTerminateBigComplete => EventFmt { bits: EventFmt::BIG_HANDLE },
            EventCode::LeBigSyncEstablished => EventFmt {
                bits: EventFmt::STATUS | EventFmt::BIG_HANDLE,
            },
            EventCode::LeBigSyncLost => EventFmt { bits: EventFmt::BIG_HANDLE },
            EventCode::LeRequestPeerScaComplete => EventFmt {
                bits: EventFmt::STATUS | EventFmt::CONN_HANDLE,
            },
            EventCode::LePathLossThreshold => EventFmt { bits: EventFmt::CONN_HANDLE },
            EventCode::LeTransmitPowerReporting => EventFmt {
                bits: EventFmt::STATUS | EventFmt::CONN_HANDLE,
            },
            EventCode::LeBigInfoAdvertisingReport => EventFmt { bits: EventFmt::SYNC_HANDLE },
            EventCode::LeSubrateChange => EventFmt {
                bits: EventFmt::STATUS | EventFmt::CONN_HANDLE,
            },
            EventCode::TriggeredClockCapture => EventFmt { bits: EventFmt::CONN_HANDLE },
            EventCode::SynchronizationTrainComplete => EventFmt { bits: EventFmt::STATUS },
            EventCode::SynchronizationTrainReceived => EventFmt { bits: EventFmt::STATUS },
            EventCode::ConnectionlessPeripheralBroadcastReceive => EventFmt {
                bits: EventFmt::OTHER,
            },
            EventCode::ConnectionlessPeripheralBroadcastTimeout => EventFmt {
                bits: EventFmt::OTHER,
            },
            EventCode::TruncatedPageComplete => EventFmt { bits: EventFmt::STATUS },
            EventCode::PeripheralPageResponseTimeout => EventFmt { bits: EventFmt::OTHER },
            EventCode::ConnectionlessPeripheralBroadcastChannelMapChange => EventFmt {
                bits: EventFmt::OTHER,
            },
            EventCode::InquiryResponseNotification => EventFmt { bits: EventFmt::OTHER },
            EventCode::AuthenticatedPayloadTimeoutExpired => EventFmt {
                bits: EventFmt::CONN_HANDLE,
            },
            EventCode::SamStatusChange => EventFmt { bits: EventFmt::CONN_HANDLE },
            EventCode::Vendor => EventFmt { bits: EventFmt::OTHER },
        }
    }

    /// Returns the format of the associated event parameters.
    #[verifier::when_used_as_spec(spec_param_fmt)]
    pub fn param_fmt(self) -> (r: EventFmt)
        ensures
            r == self.spec_param_fmt(),
    {
        match self {
            EventCode::InquiryComplete => EventFmt { bits: EventFmt::STATUS },
            EventCode::InquiryResult => EventFmt { bits: EventFmt::OTHER },
            EventCode::ConnectionComplete => EventFmt {
                bits: EventFmt::STATUS | EventFmt::CONN_HANDLE,
            },
            EventCode::ConnectionRequest => EventFmt { bits: EventFmt::OTHER },
            EventCode::DisconnectionComplete => EventFmt {
                bits: EventFmt::STATUS | EventFmt::CONN_HANDLE,
            },
            EventCode::AuthenticationComplete => EventFmt {
                bits: EventFmt::STATUS | EventFmt::CONN_HANDLE,
            },
            EventCode::RemoteNameRequestComplete => EventFmt { bits: EventFmt::STATUS },
            EventCode::EncryptionChangeV1 => EventFmt {
                bits: EventFmt::STATUS | EventFmt::CONN_HANDLE,
            },
            EventCode::EncryptionChangeV2 => EventFmt {
                bits: EventFmt::STATUS | EventFmt::CONN_HANDLE,
            },
            EventCode::ChangeConnectionLinkKeyComplete => EventFmt {
                bits: EventFmt::STATUS | EventFmt::CONN_HANDLE,
            },
            EventCode::LinkKeyTypeChanged => EventFmt {
                bits: EventFmt::STATUS | EventFmt::CONN_HANDLE,
            },
            EventCode::ReadRemoteSupportedFeaturesComplete => EventFmt {
                bits: EventFmt::STATUS | EventFmt::CONN_HANDLE,
            },
            EventCode::ReadRemoteVersionInformationComplete => EventFmt {
                bits: EventFmt::STATUS | EventFmt::CONN_HANDLE,
            },
            EventCode::QosSetupComplete => EventFmt {
                bits: EventFmt::STATUS | EventFmt::CONN_HANDLE,
            },
            EventCode::CommandComplete => EventFmt { bits: EventFmt::STATUS },
            EventCode::CommandStatus => EventFmt { bits: EventFmt::STATUS },
            EventCode::HardwareError => EventFmt { bits: EventFmt::OTHER },
            EventCode::FlushOccurred => EventFmt { bits: EventFmt::CONN_HANDLE },
            EventCode::RoleChange => EventFmt { bits: EventFmt::STATUS },
            EventCode::NumberOfCompletedPackets => EventFmt { bits: EventFmt::OTHER },
            EventCode::ModeChange => EventFmt { bits: EventFmt::STATUS | EventFmt::CONN_HANDLE },
            EventCode::ReturnLinkKeys => EventFmt { bits: EventFmt::OTHER },
            EventCode::PinCodeRequest => EventFmt { bits: EventFmt::OTHER },
            EventCode::LinkKeyRequest => EventFmt { bits: EventFmt::OTHER },
            EventCode::LinkKeyNotification => EventFmt { bits: EventFmt::OTHER },
            EventCode::LoopbackCommand => EventFmt { bits: EventFmt::OTHER },
            EventCode::DataBufferOverflow => EventFmt { bits: EventFmt::OTHER },
            EventCode::MaxSlotsChange => EventFmt { bits: EventFmt::CONN_HANDLE },
            EventCode::ReadClockOffsetComplete => EventFmt {
                bits: EventFmt::STATUS | EventFmt::CONN_HANDLE,
            },
            EventCode::ConnectionPacketTypeChanged => EventFmt {
                bits: EventFmt::STATUS | EventFmt::CONN_HANDLE,
            },
            EventCode::QosViolation => EventFmt { bits: EventFmt::CONN_HANDLE },
            EventCode::PageScanRepetitionModeChange => EventFmt { bits: EventFmt::OTHER },
            EventCode::FlowSpecificationComplete => EventFmt {
                bits: EventFmt::STATUS | EventFmt::CONN_HANDLE,
            },
            EventCode::InquiryResultWithRssi => EventFmt { bits: EventFmt::OTHER },
            EventCode::ReadRemoteExtendedFeaturesComplete => EventFmt {
                bits: EventFmt::STATUS | EventFmt::CONN_HANDLE,
            },
            EventCode::SynchronousConnectionComplete => EventFmt {
                bits: EventFmt::STATUS | EventFmt::CONN_HANDLE,
            },
            EventCode::SynchronousConnectionChanged => EventFmt {
                bits: EventFmt::STATUS | EventFmt::CONN_HANDLE,
            },
            EventCode::SniffSubrating => EventFmt {
                bits: EventFmt::STATUS | EventFmt::CONN_HANDLE,
            },
            EventCode::ExtendedInquiryResult => EventFmt { bits: EventFmt::OTHER },
            EventCode::EncryptionKeyRefreshComplete => EventFmt {
                bits: EventFmt::STATUS | EventFmt::CONN_HANDLE,
            },
            EventCode::IoCapabilityRequest => EventFmt { bits: EventFmt::OTHER },
            EventCode::IoCapabilityResponse => EventFmt { bits: EventFmt::OTHER },
            EventCode::UserConfirmationRequest => EventFmt { bits: EventFmt::OTHER },
            EventCode::UserPasskeyRequest => EventFmt { bits: EventFmt::OTHER },
            EventCode::RemoteOobDataRequest => EventFmt { bits: EventFmt::OTHER },
            EventCode::SimplePairingComplete => EventFmt { bits: EventFmt::STATUS },
            EventCode::LinkSupervisionTimeoutChanged => EventFmt { bits: EventFmt::CONN_HANDLE },
            EventCode::EnhancedFlushComplete => EventFmt { bits: EventFmt::CONN_HANDLE },
            EventCode::UserPasskeyNotification => EventFmt { bits: EventFmt::OTHER },
            EventCode::KeypressNotification => EventFmt { bits: EventFmt::OTHER },
            EventCode::RemoteHostSupportedFeaturesNotification => EventFmt {
                bits: EventFmt::OTHER,
            },
            EventCode::NumberOfCompletedDataBlocks => EventFmt { bits: EventFmt::OTHER },
            EventCode::LeMetaEvent => EventFmt { bits: EventFmt::OTHER },
            EventCode::LeConnectionComplete => EventFmt {
                bits: EventFmt::STATUS | EventFmt::CONN_HANDLE,
            },
            EventCode::LeAdvertisingReport => EventFmt { bits: EventFmt::OTHER },
            EventCode::LeConnectionUpdateComplete => EventFmt {
                bits: EventFmt::STATUS | EventFmt::CONN_HANDLE,
            },
            EventCode::LeReadRemoteFeaturesComplete => EventFmt {
                bits: EventFmt::STATUS | EventFmt::CONN_HANDLE,
            },
            EventCode::LeLongTermKeyRequest => EventFmt { bits: EventFmt::CONN_HANDLE },
            EventCode::LeRemoteConnectionParameterRequest => EventFmt {
                bits: EventFmt::CONN_HANDLE,
            },
            EventCode::LeDataLengthChange => EventFmt { bits: EventFmt::CONN_HANDLE },
            EventCode::LeReadLocalP256PublicKeyComplete => EventFmt { bits: EventFmt::STATUS },
            EventCode::LeGenerateDhKeyComplete => EventFmt { bits: EventFmt::STATUS },
            EventCode::LeEnhancedConnectionComplete => EventFmt {
                bits: EventFmt::STATUS | EventFmt::CONN_HANDLE,
            },
            EventCode::LeDirectedAdvertisingReport => EventFmt { bits: EventFmt::OTHER },
            EventCode::LePhyUpdateComplete => EventFmt {
                bits: EventFmt::STATUS | EventFmt::CONN_HANDLE,
            },
            EventCode::LeExtendedAdvertisingReport => EventFmt { bits: EventFmt::OTHER },
            EventCode::LePeriodicAdvertisingSyncEstablished => EventFmt {
                bits: EventFmt::STATUS | EventFmt::SYNC_HANDLE,
            },
            EventCode::LePeriodicAdvertisingReport => EventFmt { bits: EventFmt::SYNC_HANDLE },
            EventCode::LePeriodicAdvertisingSyncLost => EventFmt { bits: EventFmt::SYNC_HANDLE },
            EventCode::LeScanTimeout => EventFmt { bits: EventFmt::OTHER },
            EventCode::LeAdvertisingSetTerminated => EventFmt {
                bits: EventFmt::STATUS | EventFmt::ADV_HANDLE,
            },
            EventCode::LeScanRequestReceived => EventFmt { bits: EventFmt::ADV_HANDLE },
            EventCode::LeChannelSelectionAlgorithm => EventFmt { bits: EventFmt::CONN_HANDLE },
            EventCode::LeConnectionlessIqReport => EventFmt { bits: EventFmt::SYNC_HANDLE },
            EventCode::LeConnectionIqReport => EventFmt { bits: EventFmt::CONN_HANDLE },
            EventCode::LeCteRequestFailed => EventFmt {
                bits: EventFmt::STATUS | EventFmt::CONN_HANDLE,
            },
            EventCode::LePeriodicAdvertisingSyncTransferReceived => EventFmt {
                bits: EventFmt::STATUS | EventFmt::CONN_HANDLE,
            },
            EventCode::LeCisEstablished => EventFmt {
                bits: EventFmt::STATUS | EventFmt::CONN_HANDLE,
            },
            EventCode::LeCisRequest => EventFmt { bits: EventFmt::CONN_HANDLE },
            EventCode::LeCreateBigComplete => EventFmt {
                bits: EventFmt::STATUS | EventFmt::BIG_HANDLE,
            },
            EventCode::LeTerminateBigComplete => EventFmt { bits: EventFmt::BIG_HANDLE },
            EventCode::LeBigSyncEstablished => EventFmt {
                bits: EventFmt::STATUS | EventFmt::BIG_HANDLE,
            },
            EventCode::LeBigSyncLost => EventFmt { bits: EventFmt::BIG_HANDLE },
            EventCode::LeRequestPeerScaComplete => EventFmt {
                bits: EventFmt::STATUS | EventFmt::CONN_HANDLE,
            },
            EventCode::LePathLossThreshold => EventFmt { bits: EventFmt::CONN_HANDLE },
            EventCode::LeTransmitPowerReporting => EventFmt {
                bits: EventFmt::STATUS | EventFmt::CONN_HANDLE,
            },
            EventCode::LeBigInfoAdvertisingReport => EventFmt { bits: EventFmt::SYNC_HANDLE },
            EventCode::LeSubrateChange => EventFmt {
                bits: EventFmt::STATUS | EventFmt::CONN_HANDLE,
            },
            EventCode::TriggeredClockCapture => EventFmt { bits: EventFmt::CONN_HANDLE },
            EventCode::SynchronizationTrainComplete => EventFmt { bits: EventFmt::STATUS },
            EventCode::SynchronizationTrainReceived => EventFmt { bits: EventFmt::STATUS },
            EventCode::ConnectionlessPeripheralBroadcastReceive => EventFmt {
                bits: EventFmt::OTHER,
            },
            EventCode::ConnectionlessPeripheralBroadcastTimeout => EventFmt {
                bits: EventFmt::OTHER,
            },
            EventCode::TruncatedPageComplete => EventFmt { bits: EventFmt::STATUS },
            EventCode::PeripheralPageResponseTimeout => EventFmt { bits: EventFmt::OTHER },
            EventCode::ConnectionlessPeripheralBroadcastChannelMapChange => EventFmt {
                bits: EventFmt::OTHER,
            },
            EventCode::InquiryResponseNotification => EventFmt { bits: EventFmt::OTHER },
            EventCode::AuthenticatedPayloadTimeoutExpired => EventFmt {
                bits: EventFmt::CONN_HANDLE,
            },
            EventCode::SamStatusChange => EventFmt { bits: EventFmt::CONN_HANDLE },
            EventCode::Vendor => EventFmt { bits: EventFmt::OTHER },
        }
    }

    /// The event mask page and bit that enable events with this code, or
    /// `None` for an event that cannot be masked.
    pub open spec fn spec_mask_bit(self) -> Option<(MaskPage, u8)> {
        match self {
            // Page 1
            EventCode::InquiryComplete => Some((MaskPage::Page1, 0)),
            EventCode::InquiryResult => Some((MaskPage::Page1, 1)),
            EventCode::ConnectionComplete => Some((MaskPage::Page1, 2)),
            EventCode::ConnectionRequest => Some((MaskPage::Page1, 3)),
            EventCode::DisconnectionComplete => Some((MaskPage::Page1, 4)),
            EventCode::AuthenticationComplete => Some((MaskPage::Page1, 5)),
            EventCode::RemoteNameRequestComplete => Some((MaskPage::Page1, 6)),
            EventCode::EncryptionChangeV1 => Some((MaskPage::Page1, 7)),
            EventCode::ChangeConnectionLinkKeyComplete => Some((MaskPage::Page1, 8)),
            EventCode::LinkKeyTypeChanged => Some((MaskPage::Page1, 9)),
            EventCode::ReadRemoteSupportedFeaturesComplete => Some((MaskPage::Page1, 10)),
            EventCode::ReadRemoteVersionInformationComplete => Some((MaskPage::Page1, 11)),
            EventCode::QosSetupComplete => Some((MaskPage::Page1, 12)),
            EventCode::HardwareError => Some((MaskPage::Page1, 15)),
            EventCode::FlushOccurred => Some((MaskPage::Page1, 16)),
            EventCode::RoleChange => Some((MaskPage::Page1, 17)),
            EventCode::ModeChange => Some((MaskPage::Page1, 19)),
            EventCode::ReturnLinkKeys => Some((MaskPage::Page1, 20)),
            EventCode::PinCodeRequest => Some((MaskPage::Page1, 21)),
            EventCode::LinkKeyRequest => Some((MaskPage::Page1, 22)),
            EventCode::LinkKeyNotification => Some((MaskPage::Page1, 23)),
            EventCode::LoopbackCommand => Some((MaskPage::Page1, 24)),
            EventCode::DataBufferOverflow => Some((MaskPage::Page1, 25)),
            EventCode::MaxSlotsChange => Some((MaskPage::Page1, 26)),
            EventCode::ReadClockOffsetComplete => Some((MaskPage::Page1, 27)),
            EventCode::ConnectionPacketTypeChanged => Some((MaskPage::Page1, 28)),
            EventCode::QosViolation => Some((MaskPage::Page1, 29)),
            EventCode::PageScanRepetitionModeChange => Some((MaskPage::Page1, 31)),
            EventCode::FlowSpecificationComplete => Some((MaskPage::Page1, 32)),
            EventCode::InquiryResultWithRssi => Some((MaskPage::Page1, 33)),
            EventCode::ReadRemoteExtendedFeaturesComplete => Some((MaskPage::Page1, 34)),
            EventCode::SynchronousConnectionComplete => Some((MaskPage::Page1, 43)),
            EventCode::SynchronousConnectionChanged => Some((MaskPage::Page1, 44)),
            EventCode::SniffSubrating => Some((MaskPage::Page1, 45)),
            EventCode::ExtendedInquiryResult => Some((MaskPage::Page1, 46)),
            EventCode::EncryptionKeyRefreshComplete => Some((MaskPage::Page1, 47)),
            EventCode::IoCapabilityRequest => Some((MaskPage::Page1, 48)),
            EventCode::IoCapabilityResponse => Some((MaskPage::Page1, 49)),
            EventCode::UserConfirmationRequest => Some((MaskPage::Page1, 50)),
            EventCode::UserPasskeyRequest => Some((MaskPage::Page1, 51)),
            EventCode::RemoteOobDataRequest => Some((MaskPage::Page1, 52)),
            EventCode::SimplePairingComplete => Some((MaskPage::Page1, 53)),
            EventCode::LinkSupervisionTimeoutChanged => Some((MaskPage::Page1, 55)),
            EventCode::EnhancedFlushComplete => Some((MaskPage::Page1, 56)),
            EventCode::UserPasskeyNotification => Some((MaskPage::Page1, 58)),
            EventCode::KeypressNotification => Some((MaskPage::Page1, 59)),
            EventCode::RemoteHostSupportedFeaturesNotification => Some((MaskPage::Page1, 60)),
            EventCode::LeMetaEvent => Some((MaskPage::Page1, 61)),
            // LE
            EventCode::LeConnectionComplete => Some((MaskPage::Le, 0)),
            EventCode::LeAdvertisingReport => Some((MaskPage::Le, 1)),
            EventCode::LeConnectionUpdateComplete => Some((MaskPage::Le, 2)),
            EventCode::LeReadRemoteFeaturesComplete => Some((MaskPage::Le, 3)),
            EventCode::LeLongTermKeyRequest => Some((MaskPage::Le, 4)),
            EventCode::LeRemoteConnectionParameterRequest => Some((MaskPage::Le, 5)),
            EventCode::LeDataLengthChange => Some((MaskPage::Le, 6)),
            EventCode::LeReadLocalP256PublicKeyComplete => Some((MaskPage::Le, 7)),
            EventCode::LeGenerateDhKeyComplete => Some((MaskPage::Le, 8)),
            EventCode::LeEnhancedConnectionComplete => Some((MaskPage::Le, 9)),
            EventCode::LeDirectedAdvertisingReport => Some((MaskPage::Le, 10)),
            EventCode::LePhyUpdateComplete => Some((MaskPage::Le, 11)),
            EventCode::LeExtendedAdvertisingReport => Some((MaskPage::Le, 12)),
            EventCode::LePeriodicAdvertisingSyncEstablished => Some((MaskPage::Le, 13)),
            EventCode::LePeriodicAdvertisingReport => Some((MaskPage::Le, 14)),
            EventCode::LePeriodicAdvertisingSyncLost => Some((MaskPage::Le, 15)),
            EventCode::LeScanTimeout => Some((MaskPage::Le, 16)),
            EventCode::LeAdvertisingSetTerminated => Some((MaskPage::Le, 17)),
            EventCode::LeScanRequestReceived => Some((MaskPage::Le, 18)),
            EventCode::LeChannelSelectionAlgorithm => Some((MaskPage::Le, 19)),
            EventCode::LeConnectionlessIqReport => Some((MaskPage::Le, 20)),
            EventCode::LeConnectionIqReport => Some((MaskPage::Le, 21)),
            EventCode::LeCteRequestFailed => Some((MaskPage::Le, 22)),
            EventCode::LePeriodicAdvertisingSyncTransferReceived => Some((MaskPage::Le, 23)),
            EventCode::LeCisEstablished => Some((MaskPage::Le, 24)),
            EventCode::LeCisRequest => Some((MaskPage::Le, 25)),
            EventCode::LeCreateBigComplete => Some((MaskPage::Le, 26)),
            EventCode::LeTerminateBigComplete => Some((MaskPage::Le, 27)),
            EventCode::LeBigSyncEstablished => Some((MaskPage::Le, 28)),
            EventCode::LeBigSyncLost => Some((MaskPage::Le, 29)),
            EventCode::LeRequestPeerScaComplete => Some((MaskPage::Le, 30)),
            EventCode::LePathLossThreshold => Some((MaskPage::Le, 31)),
            EventCode::LeTransmitPowerReporting => Some((MaskPage::Le, 32)),
            EventCode::LeBigInfoAdvertisingReport => Some((MaskPage::Le, 33)),
            EventCode::LeSubrateChange => Some((MaskPage::Le, 34)),
            // Page 2
            EventCode::NumberOfCompletedDataBlocks => Some((MaskPage::Page2, 8)),
            EventCode::TriggeredClockCapture => Some((MaskPage::Page2, 14)),
            EventCode::SynchronizationTrainComplete => Some((MaskPage::Page2, 15)),
            EventCode::SynchronizationTrainReceived => Some((MaskPage::Page2, 16)),
            EventCode::ConnectionlessPeripheralBroadcastReceive => Some((MaskPage::Page2, 17)),
            EventCode::ConnectionlessPeripheralBroadcastTimeout => Some((MaskPage::Page2, 18)),
            EventCode::TruncatedPageComplete => Some((MaskPage::Page2, 19)),
            EventCode::PeripheralPageResponseTimeout => Some((MaskPage::Page2, 20)),
            EventCode::ConnectionlessPeripheralBroadcastChannelMapChange => Some((MaskPage::Page2, 21)),
            EventCode::InquiryResponseNotification => Some((MaskPage::Page2, 22)),
            EventCode::AuthenticatedPayloadTimeoutExpired => Some((MaskPage::Page2, 23)),
            EventCode::SamStatusChange => Some((MaskPage::Page2, 24)),
            EventCode::EncryptionChangeV2 => Some((MaskPage::Page2, 25)),
            // Unmaskable events
            EventCode::CommandComplete
            | EventCode::CommandStatus
            | EventCode::NumberOfCompletedPackets
            | EventCode::Vendor => None,
        }
    }

    /// Returns the event mask page and bit that enable events with this code,
    /// or `None` for an event that cannot be masked.
    #[verifier::when_used_as_spec(spec_mask_bit)]
    pub fn mask_bit(self) -> (r: Option<(MaskPage, u8)>)
        ensures
            r == self.spec_mask_bit(),
            r.is_some() ==> r.unwrap().1 < 64,
    {
        match self {
            // Page 1
            EventCode::InquiryComplete => Some((MaskPage::Page1, 0)),
            EventCode::InquiryResult => Some((MaskPage::Page1, 1)),
            EventCode::ConnectionComplete => Some((MaskPage::Page1, 2)),
            EventCode::ConnectionRequest => Some((MaskPage::Page1, 3)),
            EventCode::DisconnectionComplete => Some((MaskPage::Page1, 4)),
            EventCode::AuthenticationComplete => Some((MaskPage::Page1, 5)),
            EventCode::RemoteNameRequestComplete => Some((MaskPage::Page1, 6)),
            EventCode::EncryptionChangeV1 => Some((MaskPage::Page1, 7)),
            EventCode::ChangeConnectionLinkKeyComplete => Some((MaskPage::Page1, 8)),
            EventCode::LinkKeyTypeChanged => Some((MaskPage::Page1, 9)),
            EventCode::ReadRemoteSupportedFeaturesComplete => Some((MaskPage::Page1, 10)),
            EventCode::ReadRemoteVersionInformationComplete => Some((MaskPage::Page1, 11)),
            EventCode::QosSetupComplete => Some((MaskPage::Page1, 12)),
            EventCode::HardwareError => Some((MaskPage::Page1, 15)),
            EventCode::FlushOccurred => Some((MaskPage::Page1, 16)),
            EventCode::RoleChange => Some((MaskPage::Page1, 17)),
            EventCode::ModeChange => Some((MaskPage::Page1, 19)),
            EventCode::ReturnLinkKeys => Some((MaskPage::Page1, 20)),
            EventCode::PinCodeRequest => Some((MaskPage::Page1, 21)),
            EventCode::LinkKeyRequest => Some((MaskPage::Page1, 22)),
            EventCode::LinkKeyNotification => Some((MaskPage::Page1, 23)),
            EventCode::LoopbackCommand => Some((MaskPage::Page1, 24)),
            EventCode::DataBufferOverflow => Some((MaskPage::Page1, 25)),
            EventCode::MaxSlotsChange => Some((MaskPage::Page1, 26)),
            EventCode::ReadClockOffsetComplete => Some((MaskPage::Page1, 27)),
            EventCode::ConnectionPacketTypeChanged => Some((MaskPage::Page1, 28)),
            EventCode::QosViolation => Some((MaskPage::Page1, 29)),
            EventCode::PageScanRepetitionModeChange => Some((MaskPage::Page1, 31)),
            EventCode::FlowSpecificationComplete => Some((MaskPage::Page1, 32)),
            EventCode::InquiryResultWithRssi => Some((MaskPage::Page1, 33)),
            EventCode::ReadRemoteExtendedFeaturesComplete => Some((MaskPage::Page1, 34)),
            EventCode::SynchronousConnectionComplete => Some((MaskPage::Page1, 43)),
            EventCode::SynchronousConnectionChanged => Some((MaskPage::Page1, 44)),
            EventCode::SniffSubrating => Some((MaskPage::Page1, 45)),
            EventCode::ExtendedInquiryResult => Some((MaskPage::Page1, 46)),
            EventCode::EncryptionKeyRefreshComplete => Some((MaskPage::Page1, 47)),
            EventCode::IoCapabilityRequest => Some((MaskPage::Page1, 48)),
            EventCode::IoCapabilityResponse => Some((MaskPage::Page1, 49)),
            EventCode::UserConfirmationRequest => Some((MaskPage::Page1, 50)),
            EventCode::UserPasskeyRequest => Some((MaskPage::Page1, 51)),
            EventCode::RemoteOobDataRequest => Some((MaskPage::Page1, 52)),
            EventCode::SimplePairingComplete => Some((MaskPage::Page1, 53)),
            EventCode::LinkSupervisionTimeoutChanged => Some((MaskPage::Page1, 55)),
            EventCode::EnhancedFlushComplete => Some((MaskPage::Page1, 56)),
            EventCode::UserPasskeyNotification => Some((MaskPage::Page1, 58)),
            EventCode::KeypressNotification => Some((MaskPage::Page1, 59)),
            EventCode::RemoteHostSupportedFeaturesNotification => Some((MaskPage::Page1, 60)),
            EventCode::LeMetaEvent => Some((MaskPage::Page1, 61)),
            // LE
            EventCode::LeConnectionComplete => Some((MaskPage::Le, 0)),
            EventCode::LeAdvertisingReport => Some((MaskPage::Le, 1)),
            EventCode::LeConnectionUpdateComplete => Some((MaskPage::Le, 2)),
            EventCode::LeReadRemoteFeaturesComplete => Some((MaskPage::Le, 3)),
            EventCode::LeLongTermKeyRequest => Some((MaskPage::Le, 4)),
            EventCode::LeRemoteConnectionParameterRequest => Some((MaskPage::Le, 5)),
            EventCode::LeDataLengthChange => Some((MaskPage::Le, 6)),
            EventCode::LeReadLocalP256PublicKeyComplete => Some((MaskPage::Le, 7)),
            EventCode::LeGenerateDhKeyComplete => Some((MaskPage::Le, 8)),
            EventCode::LeEnhancedConnectionComplete => Some((MaskPage::Le, 9)),
            EventCode::LeDirectedAdvertisingReport => Some((MaskPage::Le, 10)),
            EventCode::LePhyUpdateComplete => Some((MaskPage::Le, 11)),
            EventCode::LeExtendedAdvertisingReport => Some((MaskPage::Le, 12)),
            EventCode::LePeriodicAdvertisingSyncEstablished => Some((MaskPage::Le, 13)),
            EventCode::LePeriodicAdvertisingReport => Some((MaskPage::Le, 14)),
            EventCode::LePeriodicAdvertisingSyncLost => Some((MaskPage::Le, 15)),
            EventCode::LeScanTimeout => Some((MaskPage::Le, 16)),
            EventCode::LeAdvertisingSetTerminated => Some((MaskPage::Le, 17)),
            EventCode::LeScanRequestReceived => Some((MaskPage::Le, 18)),
            EventCode::LeChannelSelectionAlgorithm => Some((MaskPage::Le, 19)),
            EventCode::LeConnectionlessIqReport => Some((MaskPage::Le, 20)),
            EventCode::LeConnectionIqReport => Some((MaskPage::Le, 21)),
            EventCode::LeCteRequestFailed => Some((MaskPage::Le, 22)),
            EventCode::LePeriodicAdvertisingSyncTransferReceived => Some((MaskPage::Le, 23)),
            EventCode::LeCisEstablished => Some((MaskPage::Le, 24)),
            EventCode::LeCisRequest => Some((MaskPage::Le, 25)),
            EventCode::LeCreateBigComplete => Some((MaskPage::Le, 26)),
            EventCode::LeTerminateBigComplete => Some((MaskPage::Le, 27)),
            EventCode::LeBigSyncEstablished => Some((MaskPage::Le, 28)),
            EventCode::LeBigSyncLost => Some((MaskPage::Le, 29)),
            EventCode::LeRequestPeerScaComplete => Some((MaskPage::Le, 30)),
            EventCode::LePathLossThreshold => Some((MaskPage::Le, 31)),
            EventCode::LeTransmitPowerReporting => Some((MaskPage::Le, 32)),
            EventCode::LeBigInfoAdvertisingReport => Some((MaskPage::Le, 33)),
            EventCode::LeSubrateChange => Some((MaskPage::Le, 34)),
            // Page 2
            EventCode::NumberOfCompletedDataBlocks => Some((MaskPage::Page2, 8)),
            EventCode::TriggeredClockCapture => Some((MaskPage::Page2, 14)),
            EventCode::SynchronizationTrainComplete => Some((MaskPage::Page2, 15)),
            EventCode::SynchronizationTrainReceived => Some((MaskPage::Page2, 16)),
            EventCode::ConnectionlessPeripheralBroadcastReceive => Some((MaskPage::Page2, 17)),
            EventCode::ConnectionlessPeripheralBroadcastTimeout => Some((MaskPage::Page2, 18)),
            EventCode::TruncatedPageComplete => Some((MaskPage::Page2, 19)),
            EventCode::PeripheralPageResponseTimeout => Some((MaskPage::Page2, 20)),
            EventCode::ConnectionlessPeripheralBroadcastChannelMapChange => Some((MaskPage::Page2, 21)),
            EventCode::InquiryResponseNotification => Some((MaskPage::Page2, 22)),
            EventCode::AuthenticatedPayloadTimeoutExpired => Some((MaskPage::Page2, 23)),
            EventCode::SamStatusChange => Some((MaskPage::Page2, 24)),
            EventCode::EncryptionChangeV2 => Some((MaskPage::Page2, 25)),
            // Unmaskable events
            EventCode::CommandComplete
            | EventCode::CommandStatus
            | EventCode::NumberOfCompletedPackets
            | EventCode::Vendor => None,
        }
    }

    /// Sets or clears the associated event mask bit. The mask is left as it
    /// is for an event that cannot be masked.
    pub fn set(self, m: &mut EventMask, enable: bool)
        ensures
            *final(m) == old(m).with(self.mask_bit(), enable),
    {
        match self.mask_bit() {
            Some((MaskPage::Page1, bit)) => {
                m.p1 = with_bit(m.p1, bit, enable);
            },
            Some((MaskPage::Page2, bit)) => {
                m.p2 = with_bit(m.p2, bit, enable);
            },
            Some((MaskPage::Le, bit)) => {
                m.le = with_bit(m.le, bit, enable);
            },
            None => {},
        }
    }

    /// The events of the LE page are the LE subevents, each at the bit one
    /// below its subevent code.
    pub proof fn lemma_le_mask_bit(self)
        ensures
            self.is_le() <==> (self.mask_bit().is_some() && self.mask_bit().unwrap().0
                == MaskPage::Le),
            self.is_le() ==> self.mask_bit().unwrap().1 == (self.raw() - 0x3E) / 0x100 - 1,
    {
    }

    /// Two event codes that share a mask bit are the same code.
    pub proof fn lemma_mask_bit_injective(a: EventCode, b: EventCode)
        requires
            a.mask_bit().is_some(),
            a.mask_bit() == b.mask_bit(),
        ensures
            a == b,
    {
    }
}

/// Returns the event code of the LE subevent with code `subevent`.
pub fn le(subevent: u8) -> (r: u16)
    ensures
        r == le_code(subevent),
        r == subevent * 0x100 + 0x3E,
{
    assert((subevent as u16) << 8 | 0x3E == subevent * 0x100 + 0x3E) by (bit_vector);
    (subevent as u16) << 8 | 0x3E
}

/// The event code of the LE subevent with code `subevent`.
pub open spec fn le_code(subevent: u8) -> u16 {
    (subevent as u16) << 8 | 0x3E
}

/// One of the three bit fields of an event mask.
#[derive(Clone, Copy, Debug, PartialEq, Eq, Structural)]
pub enum MaskPage {
    /// Page 1 of the event mask.
    Page1,
    /// Page 2 of the event mask.
    Page2,
    /// The LE event mask.
    Le,
}

/// The bit field `v` with bit `bit` set to `enable`.
pub open spec fn spec_with_bit(v: u64, bit: u8, enable: bool) -> u64 {
    v & !(1u64 << bit) | (if enable { 1u64 } else { 0u64 }) << bit
}

/// Returns the bit field `v` with bit `bit` set to `enable`.
#[verifier::when_used_as_spec(spec_with_bit)]
pub fn with_bit(v: u64, bit: u8, enable: bool) -> (r: u64)
    requires
        bit < 64,
    ensures
        r == spec_with_bit(v, bit, enable),
{
    let e: u64 = if enable { 1 } else { 0 };
    v & !(1u64 << bit) | e << bit
}

/// Whether bit `bit` of the bit field `v` is set.
pub open spec fn has_bit(v: u64, bit: u8) -> bool {
    (v >> bit) & 1 == 1
}

/// Setting a bit changes that bit and no other.
pub proof fn lemma_with_bit(v: u64, bit: u8, enable: bool, other: u8)
    requires
        bit < 64,
        other < 64,
    ensures
        has_bit(with_bit(v, bit, enable), other) == if other == bit {
            enable
        } else {
            has_bit(v, other)
        },
{
    let e: u64 = if enable { 1 } else { 0 };
    assert(((v & !(1u64 << bit) | e << bit) >> other) & 1 == 1 <==> if other == bit {
        e == 1
    } else {
        (v >> other) & 1 == 1
    }) by (bit_vector)
        requires
            bit < 64,
            other < 64,
            e == 0 || e == 1,
    ;
}

/// `HCI_Set_Event_Mask`, `HCI_Set_Event_Mask_Page_2`, and
/// `HCI_LE_Set_Event_Mask` command parameters.
#[derive(Clone, Copy, Debug, PartialEq, Eq, Structural)]
pub struct EventMask {
    pub p1: u64,
    pub p2: u64,
    pub le: u64,
}

impl EventMask {
    /// The mask with the bit at `at` set to `enable`, or the mask itself
    /// where `at` is `None`.
    pub open spec fn with(self, at: Option<(MaskPage, u8)>, enable: bool) -> EventMask {
        match at {
            Some((MaskPage::Page1, bit)) => EventMask { p1: with_bit(self.p1, bit, enable), ..self },
            Some((MaskPage::Page2, bit)) => EventMask { p2: with_bit(self.p2, bit, enable), ..self },
            Some((MaskPage::Le, bit)) => EventMask { le: with_bit(self.le, bit, enable), ..self },
            None => self,
        }
    }

    /// The mask with the events of `codes` enabled one after the other.
    pub open spec fn enabled(self, codes: Seq<EventCode>) -> EventMask
        decreases codes.len(),
    {
        if codes.len() == 0 {
            self
        } else {
            self.with(codes[0].mask_bit(), true).enabled(codes.drop_first())
        }
    }

    /// Whether the mask enables the event at `at`.
    pub open spec fn has(self, at: (MaskPage, u8)) -> bool {
        match at.0 {
            MaskPage::Page1 => has_bit(self.p1, at.1),
            MaskPage::Page2 => has_bit(self.p2, at.1),
            MaskPage::Le => has_bit(self.le, at.1),
        }
    }

    /// The mask that enables no event.
    pub open spec fn spec_new() -> EventMask {
        EventMask { p1: 0, p2: 0, le: 0 }
    }

    /// Returns the mask that enables no event.
    #[verifier::when_used_as_spec(spec_new)]
    pub fn new() -> (r: EventMask)
        ensures
            r == EventMask::spec_new(),
    {
        EventMask { p1: 0, p2: 0, le: 0 }
    }

    /// Creates an event mask from the events to enable.
    pub fn from_iter(codes: &[EventCode]) -> (r: EventMask)
        ensures
            r == EventMask::new().enabled(codes@),
    {
        let mut m = EventMask::new();
        let mut i: usize = 0;
        assert(codes@.skip(0) =~= codes@);
        while i < codes.len()
            invariant
                i <= codes@.len(),
                m.enabled(codes@.skip(i as int)) == EventMask::new().enabled(codes@),
            decreases codes@.len() - i,
        {
            assert(codes@.skip(i as int).drop_first() =~= codes@.skip(i + 1));
            codes[i].set(&mut m, true);
            i += 1;
        }
        m
    }

    /// Enabling events sets their bits and leaves every other bit as it was.
    pub proof fn lemma_enabled_has(self, codes: Seq<EventCode>, at: (MaskPage, u8))
        requires
            at.1 < 64,
        ensures
            self.enabled(codes).has(at) == (self.has(at) || exists|i: int|
                0 <= i < codes.len() && #[trigger] codes[i].mask_bit() == Some(at)),
        decreases codes.len(),
    {
        if codes.len() > 0 {
            let c = codes[0];
            let next = self.with(c.mask_bit(), true);
            let rest = codes.drop_first();
            next.lemma_enabled_has(rest, at);
            match c.mask_bit() {
                Some((page, bit)) => {
                    let v = match page {
                        MaskPage::Page1 => self.p1,
                        MaskPage::Page2 => self.p2,
                        MaskPage::Le => self.le,
                    };
                    lemma_with_bit(v, bit, true, at.1);
                },
                None => {},
            }
            if exists|i: int| 0 <= i < codes.len() && #[trigger] codes[i].mask_bit() == Some(at) {
                let i = choose|i: int|
                    0 <= i < codes.len() && #[trigger] codes[i].mask_bit() == Some(at);
                if i > 0 {
                    assert(rest[i - 1].mask_bit() == Some(at));
                }
            }
            if exists|i: int| 0 <= i < rest.len() && #[trigger] rest[i].mask_bit() == Some(at) {
                let i = choose|i: int|
                    0 <= i < rest.len() && #[trigger] rest[i].mask_bit() == Some(at);
                assert(codes[i + 1].mask_bit() == Some(at));
            }
        }
    }
}

impl Default for EventMask {
    fn default() -> (r: EventMask)
        ensures
            r == EventMask::new(),
    {
        EventMask::new()
    }
}

/// Event parameter format.
#[derive(Clone, Copy, Debug, PartialEq, Eq, Structural)]
pub struct EventFmt {
    /// The flags as a bit set.
    pub bits: u8,
}

impl EventFmt {
    /// Event begins with neither a status nor a handle.
    pub const OTHER: u8 = 0x00;

    /// Event contains a status parameter.
    pub const STATUS: u8 = 0x01;

    /// Event contains a connection handle.
    pub const CONN_HANDLE: u8 = 0x02;

    /// Event contains a periodic advertising handle.
    pub const SYNC_HANDLE: u8 = 0x04;

    /// Event contains an advertising handle.
    pub const ADV_HANDLE: u8 = 0x08;

    /// Event contains a BIG handle.
    pub const BIG_HANDLE: u8 = 0x10;

    /// Handle type mask.
    pub const HANDLE: u8 = 0x1E;

    /// Every defined flag.
    pub const ALL: u8 = 0x1F;

    /// Whether every flag of `mask` is set.
    pub open spec fn spec_contains(self, mask: u8) -> bool {
        self.bits & mask == mask
    }

    /// Whether some flag of `mask` is set.
    pub open spec fn spec_intersects(self, mask: u8) -> bool {
        self.bits & mask != 0
    }

    /// Returns the empty set of flags.
    pub fn empty() -> (r: EventFmt)
        ensures
            r.bits == 0,
    {
        EventFmt { bits: 0 }
    }

    /// Returns the flags as a bit set.
    pub fn bits(self) -> (r: u8)
        ensures
            r == self.bits,
    {
        self.bits
    }

    /// Returns the flags with the bit set `v`, unless it holds a bit that is
    /// no flag.
    pub fn from_bits(v: u8) -> (r: Option<EventFmt>)
        ensures
            r == if v & !EventFmt::ALL == 0 {
                Some(EventFmt { bits: v })
            } else {
                None
            },
    {
        if v & !Self::ALL == 0 {
            Some(EventFmt { bits: v })
        } else {
            None
        }
    }

    /// Returns the flags among the bits of `v`, dropping any bit that is no
    /// flag.
    pub fn from_bits_truncate(v: u8) -> (r: EventFmt)
        ensures
            r.bits == v & EventFmt::ALL,
    {
        EventFmt { bits: v & Self::ALL }
    }

    /// Returns whether no flag is set.
    pub fn is_empty(self) -> (r: bool)
        ensures
            r == (self.bits == 0),
    {
        self.bits == 0
    }

    /// Returns whether every flag of `mask` is set.
    #[verifier::when_used_as_spec(spec_contains)]
    pub fn contains(self, mask: u8) -> (r: bool)
        ensures
            r == self.spec_contains(mask),
    {
        self.bits & mask == mask
    }

    /// Returns whether some flag of `mask` is set.
    #[verifier::when_used_as_spec(spec_intersects)]
    pub fn intersects(self, mask: u8) -> (r: bool)
        ensures
            r == self.spec_intersects(mask),
    {
        self.bits & mask != 0
    }

    /// Returns the flags of `self` together with those of `mask`.
    pub fn union(self, mask: u8) -> (r: EventFmt)
        ensures
            r.bits == self.bits | mask,
    {
        EventFmt { bits: self.bits | mask }
    }
}

/// HCI status codes.
#[derive(Clone, Copy, Debug, PartialEq, Eq, Structural)]
pub enum Status {
    Success,
    UnknownCommand,
    UnknownConnectionIdentifier,
    HardwareFailure,
    PageTimeout,
    AuthenticationFailure,
    PinOrKeyMissing,
    MemoryCapacityExceeded,
    ConnectionTimeout,
    ConnectionLimitExceeded,
    SynchronousConnectionLimitToADeviceExceeded,
    ConnectionAlreadyExists,
    CommandDisallowed,
    ConnectionRejectedDueToLimitedResources,
    ConnectionRejectedDueToSecurityReasons,
    ConnectionRejectedDueToUnacceptableBdAddr,
    ConnectionAcceptTimeoutExceeded,
    UnsupportedFeatureOrParameterValue,
    InvalidCommandParameters,
    RemoteUserTerminatedConnection,
    RemoteDeviceTerminatedConnectionDueToLowResources,
    RemoteDeviceTerminatedConnectionDueToPowerOff,
    ConnectionTerminatedByLocalHost,
    RepeatedAttempts,
    PairingNotAllowed,
    UnknownLmpPdu,
    UnsupportedRemoteFeature,
    ScoOffsetRejected,
    ScoIntervalRejected,
    ScoAirModeRejected,
    InvalidLmpLlParameters,
    UnspecifiedError,
    UnsupportedLmpLlParameterValue,
    RoleChangeNotAllowed,
    LmpLlResponseTimeout,
    LmpLlErrorTransactionCollision,
    LmpPduNotAllowed,
    EncryptionModeNotAcceptable,
    LinkKeyCannotBeChanged,
    RequestedQosNotSupported,
    InstantPassed,
    PairingWithUnitKeyNotSupported,
    DifferentTransactionCollision,
    QosUnacceptableParameter,
    QosRejected,
    ChannelClassificationNotSupported,
    InsufficientSecurity,
    ParameterOutOfMandatoryRange,
    RoleSwitchPending,
    ReservedSlotViolation,
    RoleSwitchFailed,
    ExtendedInquiryResponseTooLarge,
    SecureSimplePairingNotSupportedByHost,
    HostBusyPairing,
    ConnectionRejectedDueToNoSuitableChannelFound,
    ControllerBusy,
    UnacceptableConnectionParameters,
    AdvertisingTimeout,
    ConnectionTerminatedDueToMicFailure,
    ConnectionFailedToBeEstablished,
    CoarseClockAdjustmentRejected,
    Type0SubmapNotDefined,
    UnknownAdvertisingIdentifier,
    LimitReached,
    OperationCancelledByHost,
    PacketTooLong,
}

impl Status {
    /// The status code on the wire.
    pub open spec fn spec_raw(self) -> u8 {
        match self {
            Status::Success => 0x00,
            Status::UnknownCommand => 0x01,
            Status::UnknownConnectionIdentifier => 0x02,
            Status::HardwareFailure => 0x03,
            Status::PageTimeout => 0x04,
            Status::AuthenticationFailure => 0x05,
            Status::PinOrKeyMissing => 0x06,
            Status::MemoryCapacityExceeded => 0x07,
            Status::ConnectionTimeout => 0x08,
            Status::ConnectionLimitExceeded => 0x09,
            Status::SynchronousConnectionLimitToADeviceExceeded => 0x0A,
            Status::ConnectionAlreadyExists => 0x0B,
            Status::CommandDisallowed => 0x0C,
            Status::ConnectionRejectedDueToLimitedResources => 0x0D,
            Status::ConnectionRejectedDueToSecurityReasons => 0x0E,
            Status::ConnectionRejectedDueToUnacceptableBdAddr => 0x0F,
            Status::ConnectionAcceptTimeoutExceeded => 0x10,
            Status::UnsupportedFeatureOrParameterValue => 0x11,
            Status::InvalidCommandParameters => 0x12,
            Status::RemoteUserTerminatedConnection => 0x13,
            Status::RemoteDeviceTerminatedConnectionDueToLowResources => 0x14,
            Status::RemoteDeviceTerminatedConnectionDueToPowerOff => 0x15,
            Status::ConnectionTerminatedByLocalHost => 0x16,
            Status::RepeatedAttempts => 0x17,
            Status::PairingNotAllowed => 0x18,
            Status::UnknownLmpPdu => 0x19,
            Status::UnsupportedRemoteFeature => 0x1A,
            Status::ScoOffsetRejected => 0x1B,
            Status::ScoIntervalRejected => 0x1C,
            Status::ScoAirModeRejected => 0x1D,
            Status::InvalidLmpLlParameters => 0x1E,
            Status::UnspecifiedError => 0x1F,
            Status::UnsupportedLmpLlParameterValue => 0x20,
            Status::RoleChangeNotAllowed => 0x21,
            Status::LmpLlResponseTimeout => 0x22,
            Status::LmpLlErrorTransactionCollision => 0x23,
            Status::LmpPduNotAllowed => 0x24,
            Status::EncryptionModeNotAcceptable => 0x25,
            Status::LinkKeyCannotBeChanged => 0x26,
            Status::RequestedQosNotSupported => 0x27,
            Status::InstantPassed => 0x28,
            Status::PairingWithUnitKeyNotSupported => 0x29,
            Status::DifferentTransactionCollision => 0x2A,
            Status::QosUnacceptableParameter => 0x2C,
            Status::QosRejected => 0x2D,
            Status::ChannelClassificationNotSupported => 0x2E,
            Status::InsufficientSecurity => 0x2F,
            Status::ParameterOutOfMandatoryRange => 0x30,
            Status::RoleSwitchPending => 0x32,
            Status::ReservedSlotViolation => 0x34,
            Status::RoleSwitchFailed => 0x35,
            Status::ExtendedInquiryResponseTooLarge => 0x36,
            Status::SecureSimplePairingNotSupportedByHost => 0x37,
            Status::HostBusyPairing => 0x38,
            Status::ConnectionRejectedDueToNoSuitableChannelFound => 0x39,
            Status::ControllerBusy => 0x3A,
            Status::UnacceptableConnectionParameters => 0x3B,
            Status::AdvertisingTimeout => 0x3C,
            Status::ConnectionTerminatedDueToMicFailure => 0x3D,
            Status::ConnectionFailedToBeEstablished => 0x3E,
            Status::CoarseClockAdjustmentRejected => 0x40,
            Status::Type0SubmapNotDefined => 0x41,
            Status::UnknownAdvertisingIdentifier => 0x42,
            Status::LimitReached => 0x43,
            Status::OperationCancelledByHost => 0x44,
            Status::PacketTooLong => 0x45,
        }
    }

    /// Returns the status code on the wire.
    #[verifier::when_used_as_spec(spec_raw)]
    pub fn raw(self) -> (r: u8)
        ensures
            r == self.spec_raw(),
    {
        match self {
            Status::Success => 0x00,
            Status::UnknownCommand => 0x01,
            Status::UnknownConnectionIdentifier => 0x02,
            Status::HardwareFailure => 0x03,
            Status::PageTimeout => 0x04,
            Status::AuthenticationFailure => 0x05,
            Status::PinOrKeyMissing => 0x06,
            Status::MemoryCapacityExceeded => 0x07,
            Status::ConnectionTimeout => 0x08,
            Status::ConnectionLimitExceeded => 0x09,
            Status::SynchronousConnectionLimitToADeviceExceeded => 0x0A,
            Status::ConnectionAlreadyExists => 0x0B,
            Status::CommandDisallowed => 0x0C,
            Status::ConnectionRejectedDueToLimitedResources => 0x0D,
            Status::ConnectionRejectedDueToSecurityReasons => 0x0E,
            Status::ConnectionRejectedDueToUnacceptableBdAddr => 0x0F,
            Status::ConnectionAcceptTimeoutExceeded => 0x10,
            Status::UnsupportedFeatureOrParameterValue => 0x11,
            Status::InvalidCommandParameters => 0x12,
            Status::RemoteUserTerminatedConnection => 0x13,
            Status::RemoteDeviceTerminatedConnectionDueToLowResources => 0x14,
            Status::RemoteDeviceTerminatedConnectionDueToPowerOff => 0x15,
            Status::ConnectionTerminatedByLocalHost => 0x16,
            Status::RepeatedAttempts => 0x17,
            Status::PairingNotAllowed => 0x18,
            Status::UnknownLmpPdu => 0x19,
            Status::UnsupportedRemoteFeature => 0x1A,
            Status::ScoOffsetRejected => 0x1B,
            Status::ScoIntervalRejected => 0x1C,
            Status::ScoAirModeRejected => 0x1D,
            Status::InvalidLmpLlParameters => 0x1E,
            Status::UnspecifiedError => 0x1F,
            Status::UnsupportedLmpLlParameterValue => 0x20,
            Status::RoleChangeNotAllowed => 0x21,
            Status::LmpLlResponseTimeout => 0x22,
            Status::LmpLlErrorTransactionCollision => 0x23,
            Status::LmpPduNotAllowed => 0x24,
            Status::EncryptionModeNotAcceptable => 0x25,
            Status::LinkKeyCannotBeChanged => 0x26,
            Status::RequestedQosNotSupported => 0x27,
            Status::InstantPassed => 0x28,
            Status::PairingWithUnitKeyNotSupported => 0x29,
            Status::DifferentTransactionCollision => 0x2A,
            Status::QosUnacceptableParameter => 0x2C,
            Status::QosRejected => 0x2D,
            Status::ChannelClassificationNotSupported => 0x2E,
            Status::InsufficientSecurity => 0x2F,
            Status::ParameterOutOfMandatoryRange => 0x30,
            Status::RoleSwitchPending => 0x32,
            Status::ReservedSlotViolation => 0x34,
            Status::RoleSwitchFailed => 0x35,
            Status::ExtendedInquiryResponseTooLarge => 0x36,
            Status::SecureSimplePairingNotSupportedByHost => 0x37,
            Status::HostBusyPairing => 0x38,
            Status::ConnectionRejectedDueToNoSuitableChannelFound => 0x39,
            Status::ControllerBusy => 0x3A,
            Status::UnacceptableConnectionParameters => 0x3B,
            Status::AdvertisingTimeout => 0x3C,
            Status::ConnectionTerminatedDueToMicFailure => 0x3D,
            Status::ConnectionFailedToBeEstablished => 0x3E,
            Status::CoarseClockAdjustmentRejected => 0x40,
            Status::Type0SubmapNotDefined => 0x41,
            Status::UnknownAdvertisingIdentifier => 0x42,
            Status::LimitReached => 0x43,
            Status::OperationCancelledByHost => 0x44,
            Status::PacketTooLong => 0x45,
        }
    }

    /// The value whose status code is `v`, or [`Status::UnspecifiedError`] if there is none.
    pub open spec fn spec_from_raw(v: u8) -> Status {
        if exists|c: Status| c.raw() == v {
            choose|c: Status| c.raw() == v
        } else {
            Status::UnspecifiedError
        }
    }

    /// Returns the value whose status code is `v`, or [`Status::UnspecifiedError`] if there is
    /// none.
    #[verifier::when_used_as_spec(spec_from_raw)]
    pub fn from_raw(v: u8) -> (r: Status)
        ensures
            r == Status::spec_from_raw(v),
            r.raw() == v || (r == Status::UnspecifiedError && forall|c: Status| c.raw() != v),
    {
        let r = match v {
            0x00 => Status::Success,
            0x01 => Status::UnknownCommand,
            0x02 => Status::UnknownConnectionIdentifier,
            0x03 => Status::HardwareFailure,
            0x04 => Status::PageTimeout,
            0x05 => Status::AuthenticationFailure,
            0x06 => Status::PinOrKeyMissing,
            0x07 => Status::MemoryCapacityExceeded,
            0x08 => Status::ConnectionTimeout,
            0x09 => Status::ConnectionLimitExceeded,
            0x0A => Status::SynchronousConnectionLimitToADeviceExceeded,
            0x0B => Status::ConnectionAlreadyExists,
            0x0C => Status::CommandDisallowed,
            0x0D => Status::ConnectionRejectedDueToLimitedResources,
            0x0E => Status::ConnectionRejectedDueToSecurityReasons,
            0x0F => Status::ConnectionRejectedDueToUnacceptableBdAddr,
            0x10 => Status::ConnectionAcceptTimeoutExceeded,
            0x11 => Status::UnsupportedFeatureOrParameterValue,
            0x12 => Status::InvalidCommandParameters,
            0x13 => Status::RemoteUserTerminatedConnection,
            0x14 => Status::RemoteDeviceTerminatedConnectionDueToLowResources,
            0x15 => Status::RemoteDeviceTerminatedConnectionDueToPowerOff,
            0x16 => Status::ConnectionTerminatedByLocalHost,
            0x17 => Status::RepeatedAttempts,
            0x18 => Status::PairingNotAllowed,
            0x19 => Status::UnknownLmpPdu,
            0x1A => Status::UnsupportedRemoteFeature,
            0x1B => Status::ScoOffsetRejected,
            0x1C => Status::ScoIntervalRejected,
            0x1D => Status::ScoAirModeRejected,
            0x1E => Status::InvalidLmpLlParameters,
            0x1F => Status::UnspecifiedError,
            0x20 => Status::UnsupportedLmpLlParameterValue,
            0x21 => Status::RoleChangeNotAllowed,
            0x22 => Status::LmpLlResponseTimeout,
            0x23 => Status::LmpLlErrorTransactionCollision,
            0x24 => Status::LmpPduNotAllowed,
            0x25 => Status::EncryptionModeNotAcceptable,
            0x26 => Status::LinkKeyCannotBeChanged,
            0x27 => Status::RequestedQosNotSupported,
            0x28 => Status::InstantPassed,
            0x29 => Status::PairingWithUnitKeyNotSupported,
            0x2A => Status::DifferentTransactionCollision,
            0x2C => Status::QosUnacceptableParameter,
            0x2D => Status::QosRejected,
            0x2E => Status::ChannelClassificationNotSupported,
            0x2F => Status::InsufficientSecurity,
            0x30 => Status::ParameterOutOfMandatoryRange,
            0x32 => Status::RoleSwitchPending,
            0x34 => Status::ReservedSlotViolation,
            0x35 => Status::RoleSwitchFailed,
            0x36 => Status::ExtendedInquiryResponseTooLarge,
            0x37 => Status::SecureSimplePairingNotSupportedByHost,
            0x38 => Status::HostBusyPairing,
            0x39 => Status::ConnectionRejectedDueToNoSuitableChannelFound,
            0x3A => Status::ControllerBusy,
            0x3B => Status::UnacceptableConnectionParameters,
            0x3C => Status::AdvertisingTimeout,
            0x3D => Status::ConnectionTerminatedDueToMicFailure,
            0x3E => Status::ConnectionFailedToBeEstablished,
            0x40 => Status::CoarseClockAdjustmentRejected,
            0x41 => Status::Type0SubmapNotDefined,
            0x42 => Status::UnknownAdvertisingIdentifier,
            0x43 => Status::LimitReached,
            0x44 => Status::OperationCancelledByHost,
            0x45 => Status::PacketTooLong,
            _ => Status::UnspecifiedError,
        };
        proof {
            if r.raw() == v {
                Status::lemma_raw_injective(r, choose|c: Status| c.raw() == v);
            } else {
                assert(forall|c: Status| c.raw() != v);
            }
        }
        r
    }

    /// Every value decodes from its own code.
    pub proof fn lemma_from_raw_of_raw(self)
        ensures
            Status::from_raw(self.raw()) == self,
    {
        Status::lemma_raw_injective(self, choose|c: Status| c.raw() == self.raw());
    }

    /// Distinct values have distinct codes.
    pub proof fn lemma_raw_injective(a: Status, b: Status)
        requires
            a.raw() == b.raw(),
        ensures
            a == b,
    {
    }

    /// Returns whether status is `Success`.
    pub fn is_ok(self) -> (r: bool)
        ensures
            r == (self == Status::Success),
            r == (self.raw() == 0),
    {
        matches!(self, Status::Success)
    }
}

/// Device connection role.
#[derive(Clone, Copy, Debug, PartialEq, Eq, Structural)]
pub enum Role {
    /// Device is acting as Central.
    Central,
    /// Device is acting as Peripheral.
    Peripheral,
}

impl Role {
    /// The role code on the wire.
    pub open spec fn spec_raw(self) -> u8 {
        match self {
            Role::Central => 0x00,
            Role::Peripheral => 0x01,
        }
    }

    /// Returns the role code on the wire.
    #[verifier::when_used_as_spec(spec_raw)]
    pub fn raw(self) -> (r: u8)
        ensures
            r == self.spec_raw(),
    {
        match self {
            Role::Central => 0x00,
            Role::Peripheral => 0x01,
        }
    }

    /// The value whose role code is `v`, if there is one.
    pub open spec fn spec_from_raw(v: u8) -> Option<Role> {
        if exists|c: Role| c.raw() == v {
            Some(choose|c: Role| c.raw() == v)
        } else {
            None
        }
    }

    /// Returns the value whose role code is `v`, if there is one.
    #[verifier::when_used_as_spec(spec_from_raw)]
    pub fn from_raw(v: u8) -> (r: Option<Role>)
        ensures
            r == Role::spec_from_raw(v),
            match r {
                Some(c) => c.raw() == v,
                None => forall|c: Role| c.raw() != v,
            },
    {
        let r = match v {
            0x00 => Some(Role::Central),
            0x01 => Some(Role::Peripheral),
            _ => None,
        };
        proof {
            if let Some(c) = r {
                assert(c.raw() == v);
                Role::lemma_raw_injective(c, choose|c: Role| c.raw() == v);
            } else {
                assert(forall|c: Role| c.raw() != v);
            }
        }
        r
    }

    /// A code decodes to the value that encodes to it.
    pub proof fn lemma_from_raw(v: u8)
        ensures
            match Role::from_raw(v) {
                Some(c) => c.raw() == v,
                None => forall|c: Role| c.raw() != v,
            },
    {
    }

    /// Every value decodes from its own code.
    pub proof fn lemma_from_raw_of_raw(self)
        ensures
            Role::from_raw(self.raw()) == Some(self),
    {
        Role::lemma_raw_injective(self, choose|c: Role| c.raw() == self.raw());
    }

    /// Distinct values have distinct codes.
    pub proof fn lemma_raw_injective(a: Role, b: Role)
        requires
            a.raw() == b.raw(),
        ensures
            a == b,
    {
    }
}

/// Basic properties of an advertising event.
#[derive(Clone, Copy, Debug, PartialEq, Eq, Structural)]
pub struct AdvProp {
    /// The flags as a bit set.
    pub bits: u16,
}

impl AdvProp {
    pub const CONNECTABLE: u16 = 0x0001;

    pub const SCANNABLE: u16 = 0x0002;

    pub const DIRECTED: u16 = 0x0004;

    pub const HIGH_DUTY_CYCLE: u16 = 0x0008;

    pub const LEGACY: u16 = 0x0010;

    pub const ANONYMOUS: u16 = 0x0020;

    pub const INCLUDE_TX_POWER: u16 = 0x0040;

    /// Every defined flag.
    pub const ALL: u16 = 0x007F;

    /// Whether every flag of `mask` is set.
    pub open spec fn spec_contains(self, mask: u16) -> bool {
        self.bits & mask == mask
    }

    /// Whether some flag of `mask` is set.
    pub open spec fn spec_intersects(self, mask: u16) -> bool {
        self.bits & mask != 0
    }

    /// Returns the empty set of flags.
    pub fn empty() -> (r: AdvProp)
        ensures
            r.bits == 0,
    {
        AdvProp { bits: 0 }
    }

    /// Returns the flags as a bit set.
    pub fn bits(self) -> (r: u16)
        ensures
            r == self.bits,
    {
        self.bits
    }

    /// Returns the flags with the bit set `v`, unless it holds a bit that is
    /// no flag.
    pub fn from_bits(v: u16) -> (r: Option<AdvProp>)
        ensures
            r == if v & !AdvProp::ALL == 0 {
                Some(AdvProp { bits: v })
            } else {
                None
            },
    {
        if v & !Self::ALL == 0 {
            Some(AdvProp { bits: v })
        } else {
            None
        }
    }

    /// Returns the flags among the bits of `v`, dropping any bit that is no
    /// flag.
    pub fn from_bits_truncate(v: u16) -> (r: AdvProp)
        ensures
            r.bits == v & AdvProp::ALL,
    {
        AdvProp { bits: v & Self::ALL }
    }

    /// Returns whether no flag is set.
    pub fn is_empty(self) -> (r: bool)
        ensures
            r == (self.bits == 0),
    {
        self.bits == 0
    }

    /// Returns whether every flag of `mask` is set.
    #[verifier::when_used_as_spec(spec_contains)]
    pub fn contains(self, mask: u16) -> (r: bool)
        ensures
            r == self.spec_contains(mask),
    {
        self.bits & mask == mask
    }

    /// Returns whether some flag of `mask` is set.
    #[verifier::when_used_as_spec(spec_intersects)]
    pub fn intersects(self, mask: u16) -> (r: bool)
        ensures
            r == self.spec_intersects(mask),
    {
        self.bits & mask != 0
    }

    /// Returns the flags of `self` together with those of `mask`.
    pub fn union(self, mask: u16) -> (r: AdvProp)
        ensures
            r.bits == self.bits | mask,
    {
        AdvProp { bits: self.bits | mask }
    }
}

impl Default for AdvProp {
    fn default() -> (r: AdvProp)
        ensures
            r.bits == 0,
    {
        AdvProp::empty()
    }
}

/// Channels used for transmitting advertising packets.
#[derive(Clone, Copy, Debug, PartialEq, Eq, Structural)]
pub struct AdvChanMap {
    /// The flags as a bit set.
    pub bits: u8,
}

impl AdvChanMap {
    pub const CH37: u8 = 0x01;

    pub const CH38: u8 = 0x02;

    pub const CH39: u8 = 0x04;

    /// Every defined flag.
    pub const ALL: u8 = 0x07;

    /// Whether every flag of `mask` is set.
    pub open spec fn spec_contains(self, mask: u8) -> bool {
        self.bits & mask == mask
    }

    /// Whether some flag of `mask` is set.
    pub open spec fn spec_intersects(self, mask: u8) -> bool {
        self.bits & mask != 0
    }

    /// Returns the empty set of flags.
    pub fn empty() -> (r: AdvChanMap)
        ensures
            r.bits == 0,
    {
        AdvChanMap { bits: 0 }
    }

    /// Returns the flags as a bit set.
    pub fn bits(self) -> (r: u8)
        ensures
            r == self.bits,
    {
        self.bits
    }

    /// Returns the flags with the bit set `v`, unless it holds a bit that is
    /// no flag.
    pub fn from_bits(v: u8) -> (r: Option<AdvChanMap>)
        ensures
            r == if v & !AdvChanMap::ALL == 0 {
                Some(AdvChanMap { bits: v })
            } else {
                None
            },
    {
        if v & !Self::ALL == 0 {
            Some(AdvChanMap { bits: v })
        } else {
            None
        }
    }

    /// Returns the flags among the bits of `v`, dropping any bit that is no
    /// flag.
    pub fn from_bits_truncate(v: u8) -> (r: AdvChanMap)
        ensures
            r.bits == v & AdvChanMap::ALL,
    {
        AdvChanMap { bits: v & Self::ALL }
    }

    /// Returns whether no flag is set.
    pub fn is_empty(self) -> (r: bool)
        ensures
            r == (self.bits == 0),
    {
        self.bits == 0
    }

    /// Returns whether every flag of `mask` is set.
    #[verifier::when_used_as_spec(spec_contains)]
    pub fn contains(self, mask: u8) -> (r: bool)
        ensures
            r == self.spec_contains(mask),
    {
        self.bits & mask == mask
    }

    /// Returns whether some flag of `mask` is set.
    #[verifier::when_used_as_spec(spec_intersects)]
    pub fn intersects(self, mask: u8) -> (r: bool)
        ensures
            r == self.spec_intersects(mask),
    {
        self.bits & mask != 0
    }

    /// Returns the flags of `self` together with those of `mask`.
    pub fn union(self, mask: u8) -> (r: AdvChanMap)
        ensures
            r.bits == self.bits | mask,
    {
        AdvChanMap { bits: self.bits | mask }
    }
}

impl Default for AdvChanMap {
    fn default() -> (r: AdvChanMap)
        ensures
            r.bits == AdvChanMap::ALL,
    {
        AdvChanMap { bits: AdvChanMap::ALL }
    }
}

/// Type of address being used in an advertising packet.
#[derive(Clone, Copy, Debug, PartialEq, Eq, Structural)]
pub enum AdvAddrType {
    /// Public Device Address.
    Public,
    /// Random Device Address
    Random,
    /// Controller generates the Resolvable Private Address based on the local
    /// IRK from the resolving list. If the resolving list contains no matching
    /// entry, use the public address.
    PrivateOrPublic,
    /// Controller generates the Resolvable Private Address based on the local
    /// IRK from the resolving list. If the resolving list contains no matching
    /// entry, use the random address from
    /// `le_set_advertising_set_random_address`.
    PrivateOrRandom,
}

impl AdvAddrType {
    /// The address type code on the wire.
    pub open spec fn spec_raw(self) -> u8 {
        match self {
            AdvAddrType::Public => 0x00,
            AdvAddrType::Random => 0x01,
            AdvAddrType::PrivateOrPublic => 0x02,
            AdvAddrType::PrivateOrRandom => 0x03,
        }
    }

    /// Returns the address type code on the wire.
    #[verifier::when_used_as_spec(spec_raw)]
    pub fn raw(self) -> (r: u8)
        ensures
            r == self.spec_raw(),
    {
        match self {
            AdvAddrType::Public => 0x00,
            AdvAddrType::Random => 0x01,
            AdvAddrType::PrivateOrPublic => 0x02,
            AdvAddrType::PrivateOrRandom => 0x03,
        }
    }

    /// Distinct values have distinct codes.
    pub proof fn lemma_raw_injective(a: AdvAddrType, b: AdvAddrType)
        requires
            a.raw() == b.raw(),
        ensures
            a == b,
    {
    }
}

impl Default for AdvAddrType {
    fn default() -> (r: AdvAddrType)
        ensures
            r == AdvAddrType::Public,
    {
        AdvAddrType::Public
    }
}

/// Type of filtering to perform for scan and connection requests.
#[derive(Clone, Copy, Debug, PartialEq, Eq, Structural)]
pub enum AdvFilterPolicy {
    /// Process scan and connection requests from all devices (i.e., the Filter
    /// Accept List is not in use).
    AcceptAll,
    /// Process connection requests from all devices and scan requests only from
    /// devices that are in the Filter Accept List.
    FilterScan,
    /// Process scan requests from all devices and connection requests only from
    /// devices that are in the Filter Accept List.
    FilterConnect,
    /// Process scan and connection requests only from devices in the Filter
    /// Accept List.
    FilterAll,
}

impl AdvFilterPolicy {
    /// The policy code on the wire.
    pub open spec fn spec_raw(self) -> u8 {
        match self {
            AdvFilterPolicy::AcceptAll => 0x00,
            AdvFilterPolicy::FilterScan => 0x01,
            AdvFilterPolicy::FilterConnect => 0x02,
            AdvFilterPolicy::FilterAll => 0x03,
        }
    }

    /// Returns the policy code on the wire.
    #[verifier::when_used_as_spec(spec_raw)]
    pub fn raw(self) -> (r: u8)
        ensures
            r == self.spec_raw(),
    {
        match self {
            AdvFilterPolicy::AcceptAll => 0x00,
            AdvFilterPolicy::FilterScan => 0x01,
            AdvFilterPolicy::FilterConnect => 0x02,
            AdvFilterPolicy::FilterAll => 0x03,
        }
    }

    /// Distinct values have distinct codes.
    pub proof fn lemma_raw_injective(a: AdvFilterPolicy, b: AdvFilterPolicy)
        requires
            a.raw() == b.raw(),
        ensures
            a == b,
    {
    }
}

impl Default for AdvFilterPolicy {
    fn default() -> (r: AdvFilterPolicy)
        ensures
            r == AdvFilterPolicy::AcceptAll,
    {
        AdvFilterPolicy::AcceptAll
    }
}

/// Physical layer for advertising. LE Coded assumes S=8.
#[derive(Clone, Copy, Debug, PartialEq, Eq, Structural)]
pub enum AdvPhy {
    Le1M,
    Le2M,
    LeCoded,
}

impl AdvPhy {
    /// The PHY code on the wire.
    pub open spec fn spec_raw(self) -> u8 {
        match self {
            AdvPhy::Le1M => 0x01,
            AdvPhy::Le2M => 0x02,
            AdvPhy::LeCoded => 0x03,
        }
    }

    /// Returns the PHY code on the wire.
    #[verifier::when_used_as_spec(spec_raw)]
    pub fn raw(self) -> (r: u8)
        ensures
            r == self.spec_raw(),
    {
        match self {
            AdvPhy::Le1M => 0x01,
            AdvPhy::Le2M => 0x02,
            AdvPhy::LeCoded => 0x03,
        }
    }

    /// Distinct values have distinct codes.
    pub proof fn lemma_raw_injective(a: AdvPhy, b: AdvPhy)
        requires
            a.raw() == b.raw(),
        ensures
            a == b,
    {
    }
}

impl Default for AdvPhy {
    fn default() -> (r: AdvPhy)
        ensures
            r == AdvPhy::Le1M,
    {
        AdvPhy::Le1M
    }
}

/// Defines the interpretation of advertising data.
#[derive(Clone, Copy, Debug, PartialEq, Eq, Structural)]
pub enum AdvDataOp {
    /// Intermediate fragment of fragmented extended advertising data.
    Cont,
    /// First fragment of fragmented extended advertising data.
    First,
    /// Last fragment of fragmented extended advertising data.
    Last,
    /// Complete extended advertising data.
    Complete,
    /// Unchanged data (just update the Advertising DID).
    Unchanged,
}

impl AdvDataOp {
    /// The operation code on the wire.
    pub open spec fn spec_raw(self) -> u8 {
        match self {
            AdvDataOp::Cont => 0x00,
            AdvDataOp::First => 0x01,
            AdvDataOp::Last => 0x02,
            AdvDataOp::Complete => 0x03,
            AdvDataOp::Unchanged => 0x04,
        }
    }

    /// Returns the operation code on the wire.
    #[verifier::when_used_as_spec(spec_raw)]
    pub fn raw(self) -> (r: u8)
        ensures
            r == self.spec_raw(),
    {
        match self {
            AdvDataOp::Cont => 0x00,
            AdvDataOp::First => 0x01,
            AdvDataOp::Last => 0x02,
            AdvDataOp::Complete => 0x03,
            AdvDataOp::Unchanged => 0x04,
        }
    }

    /// Distinct values have distinct codes.
    pub proof fn lemma_raw_injective(a: AdvDataOp, b: AdvDataOp)
        requires
            a.raw() == b.raw(),
        ensures
            a == b,
    {
    }
}

/// Versions of the Bluetooth core.
#[derive(Clone, Copy, Debug, PartialEq, Eq, Structural)]
pub enum CoreVersion {
    V1_0b,
    V1_1,
    V1_2,
    V2_0,
    V2_1,
    V3_0,
    V4_0,
    V4_1,
    V4_2,
    V5_0,
    V5_1,
    V5_2,
    V5_3,
    Unknown,
}

impl CoreVersion {
    /// The version code on the wire.
    pub open spec fn spec_raw(self) -> u8 {
        match self {
            CoreVersion::V1_0b => 0x00,
            CoreVersion::V1_1 => 0x01,
            CoreVersion::V1_2 => 0x02,
            CoreVersion::V2_0 => 0x03,
            CoreVersion::V2_1 => 0x04,
            CoreVersion::V3_0 => 0x05,
            CoreVersion::V4_0 => 0x06,
            CoreVersion::V4_1 => 0x07,
            CoreVersion::V4_2 => 0x08,
            CoreVersion::V5_0 => 0x09,
            CoreVersion::V5_1 => 0x0A,
            CoreVersion::V5_2 => 0x0B,
            CoreVersion::V5_3 => 0x0C,
            CoreVersion::Unknown => 0xFF,
        }
    }

    /// Returns the version code on the wire.
    #[verifier::when_used_as_spec(spec_raw)]
    pub fn raw(self) -> (r: u8)
        ensures
            r == self.spec_raw(),
    {
        match self {
            CoreVersion::V1_0b => 0x00,
            CoreVersion::V1_1 => 0x01,
            CoreVersion::V1_2 => 0x02,
            CoreVersion::V2_0 => 0x03,
            CoreVersion::V2_1 => 0x04,
            CoreVersion::V3_0 => 0x05,
            CoreVersion::V4_0 => 0x06,
            CoreVersion::V4_1 => 0x07,
            CoreVersion::V4_2 => 0x08,
            CoreVersion::V5_0 => 0x09,
            CoreVersion::V5_1 => 0x0A,
            CoreVersion::V5_2 => 0x0B,
            CoreVersion::V5_3 => 0x0C,
            CoreVersion::Unknown => 0xFF,
        }
    }

    /// The value whose version code is `v`, or [`CoreVersion::Unknown`] if there is none.
    pub open spec fn spec_from_raw(v: u8) -> CoreVersion {
        if exists|c: CoreVersion| c.raw() == v {
            choose|c: CoreVersion| c.raw() == v
        } else {
            CoreVersion::Unknown
        }
    }

    /// Returns the value whose version code is `v`, or [`CoreVersion::Unknown`] if there is
    /// none.
    #[verifier::when_used_as_spec(spec_from_raw)]
    pub fn from_raw(v: u8) -> (r: CoreVersion)
        ensures
            r == CoreVersion::spec_from_raw(v),
            r.raw() == v || (r == CoreVersion::Unknown && forall|c: CoreVersion| c.raw() != v),
    {
        let r = match v {
            0x00 => CoreVersion::V1_0b,
            0x01 => CoreVersion::V1_1,
            0x02 => CoreVersion::V1_2,
            0x03 => CoreVersion::V2_0,
            0x04 => CoreVersion::V2_1,
            0x05 => CoreVersion::V3_0,
            0x06 => CoreVersion::V4_0,
            0x07 => CoreVersion::V4_1,
            0x08 => CoreVersion::V4_2,
            0x09 => CoreVersion::V5_0,
            0x0A => CoreVersion::V5_1,
            0x0B => CoreVersion::V5_2,
            0x0C => CoreVersion::V5_3,
            0xFF => CoreVersion::Unknown,
            _ => CoreVersion::Unknown,
        };
        proof {
            if r.raw() == v {
                CoreVersion::lemma_raw_injective(r, choose|c: CoreVersion| c.raw() == v);
            } else {
                assert(forall|c: CoreVersion| c.raw() != v);
            }
        }
        r
    }

    /// Every value decodes from its own code.
    pub proof fn lemma_from_raw_of_raw(self)
        ensures
            CoreVersion::from_raw(self.raw()) == self,
    {
        CoreVersion::lemma_raw_injective(self, choose|c: CoreVersion| c.raw() == self.raw());
    }

    /// Distinct values have distinct codes.
    pub proof fn lemma_raw_injective(a: CoreVersion, b: CoreVersion)
        requires
            a.raw() == b.raw(),
        ensures
            a == b,
    {
    }
}

impl Default for CoreVersion {
    fn default() -> (r: CoreVersion)
        ensures
            r == CoreVersion::Unknown,
    {
        CoreVersion::Unknown
    }
}

} // verus!
