//! HCI event decoding and the rules that match events to their waiters.

use vstd::prelude::*;
use vstd::slice::slice_to_vec;
use crate::codec::{lemma_le_nat_one, Unpacker, UnpackerView};
use crate::hci::conn::{AdvHandle, ConnHandle};
use crate::hci::consts::{le_code, EventCode, EventFmt, MaskPage, Opcode, Role, Status, EVT_HDR};
use crate::le::RawAddr;

verus! {

/// HCI LE subevent codes.
#[derive(Clone, Copy, Debug, PartialEq, Eq, Structural)]
pub enum SubeventCode {
    ConnectionComplete,
    AdvertisingReport,
    ConnectionUpdateComplete,
    ReadRemoteFeaturesComplete,
    LongTermKeyRequest,
    RemoteConnectionParameterRequest,
    DataLengthChange,
    ReadLocalP256PublicKeyComplete,
    GenerateDhKeyComplete,
    EnhancedConnectionComplete,
    DirectedAdvertisingReport,
    PhyUpdateComplete,
    ExtendedAdvertisingReport,
    PeriodicAdvertisingSyncEstablished,
    PeriodicAdvertisingReport,
    PeriodicAdvertisingSyncLost,
    ScanTimeout,
    AdvertisingSetTerminated,
    ScanRequestReceived,
    ChannelSelectionAlgorithm,
    ConnectionlessIqReport,
    ConnectionIqReport,
    CteRequestFailed,
    PeriodicAdvertisingSyncTransferReceived,
    CisEstablished,
    CisRequest,
    CreateBigComplete,
    TerminateBigComplete,
    BigSyncEstablished,
    BigSyncLost,
    RequestPeerScaComplete,
    PathLossThreshold,
    TransmitPowerReporting,
    BigInfoAdvertisingReport,
    SubrateChange,
}

impl SubeventCode {
    /// The subevent code on the wire.
    pub open spec fn spec_raw(self) -> u8 {
        match self {
            SubeventCode::ConnectionComplete => 0x01,
            SubeventCode::AdvertisingReport => 0x02,
            SubeventCode::ConnectionUpdateComplete => 0x03,
            SubeventCode::ReadRemoteFeaturesComplete => 0x04,
            SubeventCode::LongTermKeyRequest => 0x05,
            SubeventCode::RemoteConnectionParameterRequest => 0x06,
            SubeventCode::DataLengthChange => 0x07,
            SubeventCode::ReadLocalP256PublicKeyComplete => 0x08,
            SubeventCode::GenerateDhKeyComplete => 0x09,
            SubeventCode::EnhancedConnectionComplete => 0x0A,
            SubeventCode::DirectedAdvertisingReport => 0x0B,
            SubeventCode::PhyUpdateComplete => 0x0C,
            SubeventCode::ExtendedAdvertisingReport => 0x0D,
            SubeventCode::PeriodicAdvertisingSyncEstablished => 0x0E,
            SubeventCode::PeriodicAdvertisingReport => 0x0F,
            SubeventCode::PeriodicAdvertisingSyncLost => 0x10,
            SubeventCode::ScanTimeout => 0x11,
            SubeventCode::AdvertisingSetTerminated => 0x12,
            SubeventCode::ScanRequestReceived => 0x13,
            SubeventCode::ChannelSelectionAlgorithm => 0x14,
            SubeventCode::ConnectionlessIqReport => 0x15,
            SubeventCode::ConnectionIqReport => 0x16,
            SubeventCode::CteRequestFailed => 0x17,
            SubeventCode::PeriodicAdvertisingSyncTransferReceived => 0x18,
            SubeventCode::CisEstablished => 0x19,
            SubeventCode::CisRequest => 0x1A,
            SubeventCode::CreateBigComplete => 0x1B,
            SubeventCode::TerminateBigComplete => 0x1C,
            SubeventCode::BigSyncEstablished => 0x1D,
            SubeventCode::BigSyncLost => 0x1E,
            SubeventCode::RequestPeerScaComplete => 0x1F,
            SubeventCode::PathLossThreshold => 0x20,
            SubeventCode::TransmitPowerReporting => 0x21,
            SubeventCode::BigInfoAdvertisingReport => 0x22,
            SubeventCode::SubrateChange => 0x23,
        }
    }

    /// Returns the subevent code on the wire.
    #[verifier::when_used_as_spec(spec_raw)]
    pub fn raw(self) -> (r: u8)
        ensures
            r == self.spec_raw(),
            0x01 <= r <= 0x23,
    {
        match self {
            SubeventCode::ConnectionComplete => 0x01,
            SubeventCode::AdvertisingReport => 0x02,
            SubeventCode::ConnectionUpdateComplete => 0x03,
            SubeventCode::ReadRemoteFeaturesComplete => 0x04,
            SubeventCode::LongTermKeyRequest => 0x05,
            SubeventCode::RemoteConnectionParameterRequest => 0x06,
            SubeventCode::DataLengthChange => 0x07,
            SubeventCode::ReadLocalP256PublicKeyComplete => 0x08,
            SubeventCode::GenerateDhKeyComplete => 0x09,
            SubeventCode::EnhancedConnectionComplete => 0x0A,
            SubeventCode::DirectedAdvertisingReport => 0x0B,
            SubeventCode::PhyUpdateComplete => 0x0C,
            SubeventCode::ExtendedAdvertisingReport => 0x0D,
            SubeventCode::PeriodicAdvertisingSyncEstablished => 0x0E,
            SubeventCode::PeriodicAdvertisingReport => 0x0F,
            SubeventCode::PeriodicAdvertisingSyncLost => 0x10,
            SubeventCode::ScanTimeout => 0x11,
            SubeventCode::AdvertisingSetTerminated => 0x12,
            SubeventCode::ScanRequestReceived => 0x13,
            SubeventCode::ChannelSelectionAlgorithm => 0x14,
            SubeventCode::ConnectionlessIqReport => 0x15,
            SubeventCode::ConnectionIqReport => 0x16,
            SubeventCode::CteRequestFailed => 0x17,
            SubeventCode::PeriodicAdvertisingSyncTransferReceived => 0x18,
            SubeventCode::CisEstablished => 0x19,
            SubeventCode::CisRequest => 0x1A,
            SubeventCode::CreateBigComplete => 0x1B,
            SubeventCode::TerminateBigComplete => 0x1C,
            SubeventCode::BigSyncEstablished => 0x1D,
            SubeventCode::BigSyncLost => 0x1E,
            SubeventCode::RequestPeerScaComplete => 0x1F,
            SubeventCode::PathLossThreshold => 0x20,
            SubeventCode::TransmitPowerReporting => 0x21,
            SubeventCode::BigInfoAdvertisingReport => 0x22,
            SubeventCode::SubrateChange => 0x23,
        }
    }

    /// The value whose subevent code is `v`, if there is one.
    pub open spec fn spec_from_raw(v: u8) -> Option<SubeventCode> {
        if exists|c: SubeventCode| c.raw() == v {
            Some(choose|c: SubeventCode| c.raw() == v)
        } else {
            None
        }
    }

    /// Returns the value whose subevent code is `v`, if there is one.
    #[verifier::when_used_as_spec(spec_from_raw)]
    pub fn from_raw(v: u8) -> (r: Option<SubeventCode>)
        ensures
            r == SubeventCode::spec_from_raw(v),
            match r {
                Some(c) => c.raw() == v,
                None => forall|c: SubeventCode| c.raw() != v,
            },
    {
        let r = match v {
            0x01 => Some(SubeventCode::ConnectionComplete),
            0x02 => Some(SubeventCode::AdvertisingReport),
            0x03 => Some(SubeventCode::ConnectionUpdateComplete),
            0x04 => Some(SubeventCode::ReadRemoteFeaturesComplete),
            0x05 => Some(SubeventCode::LongTermKeyRequest),
            0x06 => Some(SubeventCode::RemoteConnectionParameterRequest),
            0x07 => Some(SubeventCode::DataLengthChange),
            0x08 => Some(SubeventCode::ReadLocalP256PublicKeyComplete),
            0x09 => Some(SubeventCode::GenerateDhKeyComplete),
            0x0A => Some(SubeventCode::EnhancedConnectionComplete),
            0x0B => Some(SubeventCode::DirectedAdvertisingReport),
            0x0C => Some(SubeventCode::PhyUpdateComplete),
            0x0D => Some(SubeventCode::ExtendedAdvertisingReport),
            0x0E => Some(SubeventCode::PeriodicAdvertisingSyncEstablished),
            0x0F => Some(SubeventCode::PeriodicAdvertisingReport),
            0x10 => Some(SubeventCode::PeriodicAdvertisingSyncLost),
            0x11 => Some(SubeventCode::ScanTimeout),
            0x12 => Some(SubeventCode::AdvertisingSetTerminated),
            0x13 => Some(SubeventCode::ScanRequestReceived),
            0x14 => Some(SubeventCode::ChannelSelectionAlgorithm),
            0x15 => Some(SubeventCode::ConnectionlessIqReport),
            0x16 => Some(SubeventCode::ConnectionIqReport),
            0x17 => Some(SubeventCode::CteRequestFailed),
            0x18 => Some(SubeventCode::PeriodicAdvertisingSyncTransferReceived),
            0x19 => Some(SubeventCode::CisEstablished),
            0x1A => Some(SubeventCode::CisRequest),
            0x1B => Some(SubeventCode::CreateBigComplete),
            0x1C => Some(SubeventCode::TerminateBigComplete),
            0x1D => Some(SubeventCode::BigSyncEstablished),
            0x1E => Some(SubeventCode::BigSyncLost),
            0x1F => Some(SubeventCode::RequestPeerScaComplete),
            0x20 => Some(SubeventCode::PathLossThreshold),
            0x21 => Some(SubeventCode::TransmitPowerReporting),
            0x22 => Some(SubeventCode::BigInfoAdvertisingReport),
            0x23 => Some(SubeventCode::SubrateChange),
            _ => None,
        };
        proof {
            if let Some(c) = r {
                assert(c.raw() == v);
                SubeventCode::lemma_raw_injective(c, choose|c: SubeventCode| c.raw() == v);
            } else {
                assert(forall|c: SubeventCode| c.raw() != v);
            }
        }
        r
    }

    /// A code decodes to the value that encodes to it.
    pub proof fn lemma_from_raw(v: u8)
        ensures
            match SubeventCode::from_raw(v) {
                Some(c) => c.raw() == v,
                None => forall|c: SubeventCode| c.raw() != v,
            },
    {
    }

    /// Every value decodes from its own code.
    pub proof fn lemma_from_raw_of_raw(self)
        ensures
            SubeventCode::from_raw(self.raw()) == Some(self),
    {
        SubeventCode::lemma_raw_injective(self, choose|c: SubeventCode| c.raw() == self.raw());
    }

    /// Distinct values have distinct codes.
    pub proof fn lemma_raw_injective(a: SubeventCode, b: SubeventCode)
        requires
            a.raw() == b.raw(),
        ensures
            a == b,
    {
    }

    /// The event code that stands for the subevent.
    pub open spec fn spec_code(self) -> EventCode {
        match self {
            SubeventCode::ConnectionComplete => EventCode::LeConnectionComplete,
            SubeventCode::AdvertisingReport => EventCode::LeAdvertisingReport,
            SubeventCode::ConnectionUpdateComplete => EventCode::LeConnectionUpdateComplete,
            SubeventCode::ReadRemoteFeaturesComplete => EventCode::LeReadRemoteFeaturesComplete,
            SubeventCode::LongTermKeyRequest => EventCode::LeLongTermKeyRequest,
            SubeventCode::RemoteConnectionParameterRequest => EventCode::LeRemoteConnectionParameterRequest,
            SubeventCode::DataLengthChange => EventCode::LeDataLengthChange,
            SubeventCode::ReadLocalP256PublicKeyComplete => EventCode::LeReadLocalP256PublicKeyComplete,
            SubeventCode::GenerateDhKeyComplete => EventCode::LeGenerateDhKeyComplete,
            SubeventCode::EnhancedConnectionComplete => EventCode::LeEnhancedConnectionComplete,
            SubeventCode::DirectedAdvertisingReport => EventCode::LeDirectedAdvertisingReport,
            SubeventCode::PhyUpdateComplete => EventCode::LePhyUpdateComplete,
            SubeventCode::ExtendedAdvertisingReport => EventCode::LeExtendedAdvertisingReport,
            SubeventCode::PeriodicAdvertisingSyncEstablished => EventCode::LePeriodicAdvertisingSyncEstablished,
            SubeventCode::PeriodicAdvertisingReport => EventCode::LePeriodicAdvertisingReport,
            SubeventCode::PeriodicAdvertisingSyncLost => EventCode::LePeriodicAdvertisingSyncLost,
            SubeventCode::ScanTimeout => EventCode::LeScanTimeout,
            SubeventCode::AdvertisingSetTerminated => EventCode::LeAdvertisingSetTerminated,
            SubeventCode::ScanRequestReceived => EventCode::LeScanRequestReceived,
            SubeventCode::ChannelSelectionAlgorithm => EventCode::LeChannelSelectionAlgorithm,
            SubeventCode::ConnectionlessIqReport => EventCode::LeConnectionlessIqReport,
            SubeventCode::ConnectionIqReport => EventCode::LeConnectionIqReport,
            SubeventCode::CteRequestFailed => EventCode::LeCteRequestFailed,
            SubeventCode::PeriodicAdvertisingSyncTransferReceived => EventCode::LePeriodicAdvertisingSyncTransferReceived,
            SubeventCode::CisEstablished => EventCode::LeCisEstablished,
            SubeventCode::CisRequest => EventCode::LeCisRequest,
            SubeventCode::CreateBigComplete => EventCode::LeCreateBigComplete,
            SubeventCode::TerminateBigComplete => EventCode::LeTerminateBigComplete,
            SubeventCode::BigSyncEstablished => EventCode::LeBigSyncEstablished,
            SubeventCode::BigSyncLost => EventCode::LeBigSyncLost,
            SubeventCode::RequestPeerScaComplete => EventCode::LeRequestPeerScaComplete,
            SubeventCode::PathLossThreshold => EventCode::LePathLossThreshold,
            SubeventCode::TransmitPowerReporting => EventCode::LeTransmitPowerReporting,
            SubeventCode::BigInfoAdvertisingReport => EventCode::LeBigInfoAdvertisingReport,
            SubeventCode::SubrateChange => EventCode::LeSubrateChange,
        }
    }

    /// Returns the event code that stands for the subevent.
    #[verifier::when_used_as_spec(spec_code)]
    pub fn code(self) -> (r: EventCode)
        ensures
            r == self.spec_code(),
    {
        match self {
            SubeventCode::ConnectionComplete => EventCode::LeConnectionComplete,
            SubeventCode::AdvertisingReport => EventCode::LeAdvertisingReport,
            SubeventCode::ConnectionUpdateComplete => EventCode::LeConnectionUpdateComplete,
            SubeventCode::ReadRemoteFeaturesComplete => EventCode::LeReadRemoteFeaturesComplete,
            SubeventCode::LongTermKeyRequest => EventCode::LeLongTermKeyRequest,
            SubeventCode::RemoteConnectionParameterRequest => EventCode::LeRemoteConnectionParameterRequest,
            SubeventCode::DataLengthChange => EventCode::LeDataLengthChange,
            SubeventCode::ReadLocalP256PublicKeyComplete => EventCode::LeReadLocalP256PublicKeyComplete,
            SubeventCode::GenerateDhKeyComplete => EventCode::LeGenerateDhKeyComplete,
            SubeventCode::EnhancedConnectionComplete => EventCode::LeEnhancedConnectionComplete,
            SubeventCode::DirectedAdvertisingReport => EventCode::LeDirectedAdvertisingReport,
            SubeventCode::PhyUpdateComplete => EventCode::LePhyUpdateComplete,
            SubeventCode::ExtendedAdvertisingReport => EventCode::LeExtendedAdvertisingReport,
            SubeventCode::PeriodicAdvertisingSyncEstablished => EventCode::LePeriodicAdvertisingSyncEstablished,
            SubeventCode::PeriodicAdvertisingReport => EventCode::LePeriodicAdvertisingReport,
            SubeventCode::PeriodicAdvertisingSyncLost => EventCode::LePeriodicAdvertisingSyncLost,
            SubeventCode::ScanTimeout => EventCode::LeScanTimeout,
            SubeventCode::AdvertisingSetTerminated => EventCode::LeAdvertisingSetTerminated,
            SubeventCode::ScanRequestReceived => EventCode::LeScanRequestReceived,
            SubeventCode::ChannelSelectionAlgorithm => EventCode::LeChannelSelectionAlgorithm,
            SubeventCode::ConnectionlessIqReport => EventCode::LeConnectionlessIqReport,
            SubeventCode::ConnectionIqReport => EventCode::LeConnectionIqReport,
            SubeventCode::CteRequestFailed => EventCode::LeCteRequestFailed,
            SubeventCode::PeriodicAdvertisingSyncTransferReceived => EventCode::LePeriodicAdvertisingSyncTransferReceived,
            SubeventCode::CisEstablished => EventCode::LeCisEstablished,
            SubeventCode::CisRequest => EventCode::LeCisRequest,
            SubeventCode::CreateBigComplete => EventCode::LeCreateBigComplete,
            SubeventCode::TerminateBigComplete => EventCode::LeTerminateBigComplete,
            SubeventCode::BigSyncEstablished => EventCode::LeBigSyncEstablished,
            SubeventCode::BigSyncLost => EventCode::LeBigSyncLost,
            SubeventCode::RequestPeerScaComplete => EventCode::LeRequestPeerScaComplete,
            SubeventCode::PathLossThreshold => EventCode::LePathLossThreshold,
            SubeventCode::TransmitPowerReporting => EventCode::LeTransmitPowerReporting,
            SubeventCode::BigInfoAdvertisingReport => EventCode::LeBigInfoAdvertisingReport,
            SubeventCode::SubrateChange => EventCode::LeSubrateChange,
        }
    }

    /// The event code of a subevent holds the subevent code above the code of
    /// the LE meta event, and its mask bit is on the LE page, one below the
    /// subevent code.
    pub proof fn lemma_code(self)
        ensures
            self.code().is_le(),
            self.code().raw() == self.raw() * 0x100 + 0x3E,
            self.code().raw() == le_code(self.raw()),
            self.code().mask_bit() == Some((MaskPage::Le, (self.raw() - 1) as u8)),
    {
        let s = self.raw();
        assert((s as u16) << 8 | 0x3E == s * 0x100 + 0x3E) by (bit_vector);
    }

    /// The format of the parameters that the subevent begins with.
    pub open spec fn spec_param_fmt(self) -> EventFmt {
        self.code().param_fmt()
    }

    /// Returns the format of the associated event parameters.
    #[verifier::when_used_as_spec(spec_param_fmt)]
    pub fn param_fmt(self) -> (r: EventFmt)
        ensures
            r == self.spec_param_fmt(),
    {
        self.code().param_fmt()
    }

    /// The bit of the LE event mask that enables the subevent.
    pub open spec fn spec_mask(self) -> u64 {
        1u64 << ((self.raw() - 1) as u8)
    }

    /// Returns the bit of the LE event mask that enables the subevent.
    #[verifier::when_used_as_spec(spec_mask)]
    pub fn mask(self) -> (r: u64)
        ensures
            r == self.spec_mask(),
    {
        1u64 << (self.raw() - 1)
    }
}

/// HCI event or LE subevent code.
#[derive(Clone, Copy, Debug, PartialEq, Eq, Structural)]
pub enum EventType {
    Hci(EventCode),
    Le(SubeventCode),
}

impl EventType {
    /// Whether the event type is either `CommandStatus` or `CommandComplete`.
    pub open spec fn spec_is_cmd(self) -> bool {
        self == EventType::Hci(EventCode::CommandComplete) || self == EventType::Hci(
            EventCode::CommandStatus,
        )
    }

    /// The format of the parameters that events of this type begin with.
    pub open spec fn spec_param_fmt(self) -> EventFmt {
        match self {
            EventType::Hci(c) => c.param_fmt(),
            EventType::Le(c) => c.param_fmt(),
        }
    }

    /// The event code that stands for the type.
    pub open spec fn spec_code(self) -> EventCode {
        match self {
            EventType::Hci(c) => c,
            EventType::Le(c) => c.code(),
        }
    }

    /// Returns whether the event type is either `CommandStatus` or
    /// `CommandComplete`.
    #[verifier::when_used_as_spec(spec_is_cmd)]
    pub fn is_cmd(self) -> (r: bool)
        ensures
            r == self.spec_is_cmd(),
    {
        matches!(self, EventType::Hci(EventCode::CommandComplete | EventCode::CommandStatus))
    }

    /// Returns the format of the associated event parameters.
    #[verifier::when_used_as_spec(spec_param_fmt)]
    pub fn param_fmt(self) -> (r: EventFmt)
        ensures
            r == self.spec_param_fmt(),
            r == self.code().param_fmt(),
    {
        match self {
            EventType::Hci(c) => c.param_fmt(),
            EventType::Le(c) => c.param_fmt(),
        }
    }

    /// Returns the event code that stands for the type.
    #[verifier::when_used_as_spec(spec_code)]
    pub fn code(self) -> (r: EventCode)
        ensures
            r == self.spec_code(),
    {
        match self {
            EventType::Hci(c) => c,
            EventType::Le(c) => c.code(),
        }
    }
}

impl Default for EventType {
    /// Returns an invalid `EventType`: the LE meta event, which no decoded
    /// event has for its type.
    fn default() -> (r: EventType)
        ensures
            r == EventType::Hci(EventCode::LeMetaEvent),
    {
        EventType::Hci(EventCode::LeMetaEvent)
    }
}

/// Error type returned by the HCI layer.
#[derive(Debug)]
pub enum Error {
    /// The bytes are no event: they are shorter than an event header, or the
    /// length in the header is not the length of the parameters.
    InvalidEvent(Vec<u8>),
    /// The event or subevent code is not known.
    UnknownEvent { code: u8, subevent: u8, params: Vec<u8> },
    /// A command response was expected, and another event came.
    NonCommandEvent { typ: EventType },
    /// The controller answered the command with a status other than success.
    CommandFailed { opcode: Opcode, status: Status },
    /// A waiter with the same filter is registered already.
    FilterConflict,
    /// The controller accepts no further command for the moment.
    CommandQuotaExceeded,
    /// The controller, or the host in its place, gave this status.
    Hci { status: Status },
}

/// An [`Error`] with its bytes as sequences.
pub enum ErrorView {
    InvalidEvent(Seq<u8>),
    UnknownEvent { code: u8, subevent: u8, params: Seq<u8> },
    NonCommandEvent { typ: EventType },
    CommandFailed { opcode: Opcode, status: Status },
    FilterConflict,
    CommandQuotaExceeded,
    Hci { status: Status },
}

impl View for Error {
    type V = ErrorView;

    open spec fn view(&self) -> ErrorView {
        match *self {
            Error::InvalidEvent(v) => ErrorView::InvalidEvent(v@),
            Error::UnknownEvent { code, subevent, params } => ErrorView::UnknownEvent {
                code,
                subevent,
                params: params@,
            },
            Error::NonCommandEvent { typ } => ErrorView::NonCommandEvent { typ },
            Error::CommandFailed { opcode, status } => ErrorView::CommandFailed { opcode, status },
            Error::FilterConflict => ErrorView::FilterConflict,
            Error::CommandQuotaExceeded => ErrorView::CommandQuotaExceeded,
            Error::Hci { status } => ErrorView::Hci { status },
        }
    }
}

/// Defines event matching criteria.
#[derive(Clone, Copy, Debug, PartialEq, Eq, Structural)]
pub enum EventFilter {
    /// The response to the command with this opcode.
    Command(Opcode),
    /// Events for the advertising manager.
    AdvManager,
    /// Events for the channel manager.
    ChanManager,
    /// Events for the security database.
    SecDb,
}

impl EventFilter {
    /// Whether two filters would create an ambiguity in event delivery if
    /// both were registered.
    pub open spec fn spec_conflicts_with(&self, other: &EventFilter) -> bool {
        *self == *other
    }

    /// Returns whether two filters would create an ambiguity in event delivery
    /// if both were registered.
    #[verifier::when_used_as_spec(spec_conflicts_with)]
    pub fn conflicts_with(&self, other: &EventFilter) -> (r: bool)
        ensures
            r == self.spec_conflicts_with(other),
    {
        *self == *other
    }
}

/// A decoded event: what its header holds, and the parameters that are still
/// to be read.
pub struct EventView {
    pub typ: EventType,
    pub status: Status,
    pub cmd_quota: u8,
    pub opcode: Opcode,
    pub handle: u16,
    pub params: UnpackerView,
}

impl EventView {
    /// The connection handle of the event, for an event that begins with a
    /// valid one.
    pub open spec fn conn_handle(self) -> Option<u16> {
        if self.typ.param_fmt().contains(EventFmt::CONN_HANDLE) && self.handle >> 12 == 0 {
            Some(self.handle)
        } else {
            None
        }
    }

    /// The advertising handle of the event, for an event that begins with a
    /// valid one.
    pub open spec fn adv_handle(self) -> Option<u8> {
        if self.typ.param_fmt().contains(EventFmt::ADV_HANDLE) && self.handle as u8
            <= AdvHandle::MAX {
            Some(self.handle as u8)
        } else {
            None
        }
    }

    /// The role that an LE connection event reports: the parameter that
    /// follows its status and connection handle.
    pub open spec fn role(self) -> Option<Role> {
        Role::spec_from_raw(self.params.value(1) as u8)
    }

    /// Whether the event is one that a waiter with filter `f` waits for.
    ///
    /// A disconnection and the number of completed packets go to the channel
    /// manager. A command response goes to the waiter for its opcode. An LE
    /// connection goes to the channel manager and the security database, and
    /// to the advertising manager where the local device is the peripheral.
    /// A request for a long term key goes to the security database, the end
    /// of an advertising set to the advertising manager. No waiter waits for
    /// any other event.
    pub open spec fn matches(self, f: EventFilter) -> bool {
        match self.typ {
            EventType::Hci(EventCode::DisconnectionComplete)
            | EventType::Hci(EventCode::NumberOfCompletedPackets) => f == EventFilter::ChanManager,
            EventType::Hci(EventCode::CommandComplete)
            | EventType::Hci(EventCode::CommandStatus) => f == EventFilter::Command(self.opcode),
            EventType::Le(SubeventCode::ConnectionComplete)
            | EventType::Le(SubeventCode::EnhancedConnectionComplete) => match f {
                EventFilter::Command(_) => false,
                EventFilter::AdvManager => self.role() == Some(Role::Peripheral),
                EventFilter::ChanManager => true,
                EventFilter::SecDb => true,
            },
            EventType::Le(SubeventCode::LongTermKeyRequest) => f == EventFilter::SecDb,
            EventType::Le(SubeventCode::AdvertisingSetTerminated) => f == EventFilter::AdvManager,
            _ => false,
        }
    }
}

/// Whether `b` has the frame of an event: a header of two bytes whose second
/// byte is the number of the bytes that follow.
pub open spec fn spec_framed(b: Seq<u8>) -> bool {
    b.len() >= 2 && b[1] == b.len() - 2
}

/// The parameters that an event of type `typ` begins with, read from `p`.
///
/// A completed command begins with the command quota and the opcode, and its
/// status follows if any parameter does. A command status begins with the
/// status, then the quota and the opcode. Any other event begins with its
/// status and then its handle, as far as its format has them; an advertising
/// or BIG handle is one byte, any other handle two.
pub open spec fn spec_event_params(typ: EventType, p: UnpackerView) -> EventView {
    if typ == EventType::Hci(EventCode::CommandComplete) {
        let p1 = p.advance(1);
        let p2 = p1.advance(2);
        EventView {
            typ,
            status: if p2.bytes.len() > 0 {
                Status::spec_from_raw(p2.value(1) as u8)
            } else {
                Status::Success
            },
            cmd_quota: p.value(1) as u8,
            opcode: Opcode::spec_from_raw(p1.value(2) as u16),
            handle: 0,
            params: if p2.bytes.len() > 0 {
                p2.advance(1)
            } else {
                p2
            },
        }
    } else if typ == EventType::Hci(EventCode::CommandStatus) {
        let p1 = p.advance(1);
        let p2 = p1.advance(1);
        EventView {
            typ,
            status: Status::spec_from_raw(p.value(1) as u8),
            cmd_quota: p1.value(1) as u8,
            opcode: Opcode::spec_from_raw(p2.value(2) as u16),
            handle: 0,
            params: p2.advance(2),
        }
    } else {
        let pf = typ.param_fmt();
        let has_status = pf.intersects(EventFmt::STATUS);
        let p1 = if has_status {
            p.advance(1)
        } else {
            p
        };
        let n: nat = if !pf.intersects(EventFmt::HANDLE) {
            0
        } else if pf.intersects(EventFmt::ADV_HANDLE | EventFmt::BIG_HANDLE) {
            1
        } else {
            2
        };
        EventView {
            typ,
            status: if has_status {
                Status::spec_from_raw(p.value(1) as u8)
            } else {
                Status::Success
            },
            cmd_quota: 0,
            opcode: Opcode::Nop,
            handle: if n == 0 {
                0
            } else {
                p1.value(n) as u16
            },
            params: if n == 0 {
                p1
            } else {
                p1.advance(n)
            },
        }
    }
}

/// The event that the bytes `b` hold, or the reason why they hold none.
///
/// The first byte is the event code. For the LE meta event the first
/// parameter is the subevent code, which then tells the type.
pub open spec fn spec_event(b: Seq<u8>) -> Result<EventView, ErrorView> {
    if !spec_framed(b) {
        Err(ErrorView::InvalidEvent(b))
    } else {
        let p = UnpackerView { bytes: b.skip(2), ok: true };
        let code = b[0];
        if code == 0x3E {
            let subevent = p.value(1) as u8;
            match SubeventCode::spec_from_raw(subevent) {
                Some(s) => Ok(spec_event_params(EventType::Le(s), p.advance(1))),
                None => Err(ErrorView::UnknownEvent { code, subevent, params: p.advance(1).bytes }),
            }
        } else {
            match EventCode::spec_from_raw(code as u16) {
                Some(c) => Ok(spec_event_params(EventType::Hci(c), p)),
                None => Err(ErrorView::UnknownEvent { code, subevent: 0, params: p.bytes }),
            }
        }
    }
}

/// HCI event decoder.
#[derive(Clone, Copy, Debug)]
pub struct Event<'a> {
    pub typ: EventType,
    pub status: Status,
    pub cmd_quota: u8,
    pub opcode: Opcode,
    pub handle: u16,
    pub params: Unpacker<'a>,
}

impl<'a> View for Event<'a> {
    type V = EventView;

    open spec fn view(&self) -> EventView {
        EventView {
            typ: self.typ,
            status: self.status,
            cmd_quota: self.cmd_quota,
            opcode: self.opcode,
            handle: self.handle,
            params: self.params@,
        }
    }
}

impl<'a> Event<'a> {
    /// Tries to parse event header from `orig`. The subevent code for LE
    /// events, event status, and handle parameters are also consumed.
    pub fn try_from(orig: &'a [u8]) -> (r: Result<Event<'a>, Error>)
        ensures
            match r {
                Ok(e) => spec_event(orig@) == Ok::<EventView, ErrorView>(e@),
                Err(e) => spec_event(orig@) == Err::<EventView, ErrorView>(e@),
            },
    {
        let mut evt = Unpacker::new(orig);
        let mut hdr = match evt.skip(EVT_HDR) {
            Some(hdr) => hdr,
            None => {
                return Err(Error::InvalidEvent(slice_to_vec(orig)));
            },
        };
        assert(orig@.take(2).take(1) =~= orig@.take(1));
        assert(orig@.take(2).skip(1).take(1) =~= seq![orig@[1]]);
        assert(orig@.take(1) =~= seq![orig@[0]]);
        proof {
            lemma_le_nat_one(orig@[0]);
            lemma_le_nat_one(orig@[1]);
        }
        let code = hdr.u8();
        let len = hdr.u8();
        if evt.len() != len as usize {
            return Err(Error::InvalidEvent(slice_to_vec(orig)));
        }
        let typ = if code == 0x3E {
            let subevent = evt.u8();
            match SubeventCode::from_raw(subevent) {
                Some(subevent) => EventType::Le(subevent),
                None => {
                    return Err(
                        Error::UnknownEvent {
                            code,
                            subevent,
                            params: slice_to_vec(evt.as_slice()),
                        },
                    );
                },
            }
        } else {
            match EventCode::from_raw(code as u16) {
                Some(code) => EventType::Hci(code),
                None => {
                    return Err(
                        Error::UnknownEvent {
                            code,
                            subevent: 0,
                            params: slice_to_vec(evt.as_slice()),
                        },
                    );
                },
            }
        };
        let mut e = Event {
            typ,
            status: Status::Success,
            cmd_quota: 0,
            opcode: Opcode::Nop,
            handle: 0,
            params: evt,
        };
        match typ {
            EventType::Hci(EventCode::CommandComplete) => {
                e.cmd_quota = e.params.u8();
                e.opcode = Opcode::from_raw(e.params.u16());
                if !e.params.is_empty() {
                    e.status = Status::from_raw(e.params.u8());
                }
            },
            EventType::Hci(EventCode::CommandStatus) => {
                e.status = Status::from_raw(e.params.u8());
                e.cmd_quota = e.params.u8();
                e.opcode = Opcode::from_raw(e.params.u16());
            },
            _ => {
                let pf = typ.param_fmt();
                if pf.intersects(EventFmt::STATUS) {
                    e.status = Status::from_raw(e.params.u8());
                }
                if pf.intersects(EventFmt::HANDLE) {
                    e.handle = if pf.intersects(EventFmt::ADV_HANDLE | EventFmt::BIG_HANDLE) {
                        e.params.u8() as u16
                    } else {
                        e.params.u16()
                    };
                }
            },
        }
        Ok(e)
    }

    /// Returns the event type.
    pub fn typ(&self) -> (r: EventType)
        ensures
            r == self@.typ,
    {
        self.typ
    }

    /// Returns the event status or [`Status::Success`] for events without a
    /// status parameter.
    pub fn status(&self) -> (r: Status)
        ensures
            r == self@.status,
    {
        self.status
    }

    /// Returns the opcode from `CommandComplete` or `CommandStatus` events.
    /// [`Opcode::Nop`] may be returned for either event that only updates the
    /// command quota and for non-command events.
    pub fn opcode(&self) -> (r: Opcode)
        ensures
            r == self@.opcode,
    {
        self.opcode
    }

    /// Returns the associated advertising handle or `None` for non-advertising
    /// events.
    pub fn adv_handle(&self) -> (r: Option<AdvHandle>)
        ensures
            r.is_some() == self@.adv_handle().is_some(),
            r.is_some() ==> r.unwrap().raw() == self@.adv_handle().unwrap(),
    {
        if self.typ.param_fmt().contains(EventFmt::ADV_HANDLE) {
            AdvHandle::new(self.handle as u8)
        } else {
            None
        }
    }

    /// Returns the associated connection handle or `None` for non-connection
    /// events.
    pub fn conn_handle(&self) -> (r: Option<ConnHandle>)
        ensures
            r.is_some() == self@.conn_handle().is_some(),
            r.is_some() ==> r.unwrap().raw() == self@.conn_handle().unwrap(),
    {
        let h = ConnHandle::new(self.handle);
        if self.typ.param_fmt().contains(EventFmt::CONN_HANDLE) && h.is_valid() {
            Some(h)
        } else {
            None
        }
    }

    /// Returns the next `BD_ADDR`.
    pub fn addr(&mut self) -> (r: RawAddr)
        ensures
            r@ == if old(self)@.params.has(6) {
                old(self)@.params.bytes.take(6)
            } else {
                Seq::new(6, |i: int| 0u8)
            },
            final(self)@ == (EventView { params: old(self)@.params.advance(6), ..old(self)@ }),
    {
        RawAddr::from_le_bytes(self.params.bytes::<6>())
    }

    /// Returns the received event if it represents successful command
    /// completion.
    pub fn ok(self) -> (r: Result<Event<'a>, Error>)
        ensures
            r matches Ok(e) ==> e == self && self@.typ.is_cmd() && self@.status == Status::Success,
            r matches Err(e) ==> e@ == if !self@.typ.is_cmd() {
                ErrorView::NonCommandEvent { typ: self@.typ }
            } else {
                ErrorView::CommandFailed { opcode: self@.opcode, status: self@.status }
            },
            r.is_ok() == (self@.typ.is_cmd() && self@.status == Status::Success),
    {
        if !self.typ.is_cmd() {
            return Err(Error::NonCommandEvent { typ: self.typ });
        }
        if !self.status.is_ok() {
            return Err(Error::CommandFailed { opcode: self.opcode, status: self.status });
        }
        Ok(self)
    }

    /// Returns whether the event matches filter `f`.
    pub fn matches(&self, f: &EventFilter) -> (r: bool)
        ensures
            r == self@.matches(*f),
    {
        match self.typ {
            EventType::Hci(EventCode::DisconnectionComplete | EventCode::NumberOfCompletedPackets) => {
                matches!(*f, EventFilter::ChanManager)
            },
            EventType::Hci(EventCode::CommandComplete | EventCode::CommandStatus) => {
                match *f {
                    EventFilter::Command(op) => op == self.opcode,
                    _ => false,
                }
            },
            EventType::Le(
                SubeventCode::ConnectionComplete | SubeventCode::EnhancedConnectionComplete,
            ) => {
                match *f {
                    EventFilter::Command(_) => false,
                    EventFilter::AdvManager => {
                        let mut p = self.params;
                        match Role::from_raw(p.u8()) {
                            Some(Role::Peripheral) => true,
                            _ => false,
                        }
                    },
                    EventFilter::ChanManager => true,
                    EventFilter::SecDb => true,
                }
            },
            EventType::Le(SubeventCode::LongTermKeyRequest) => matches!(*f, EventFilter::SecDb),
            EventType::Le(SubeventCode::AdvertisingSetTerminated) => matches!(
                *f,
                EventFilter::AdvManager
            ),
            _ => false,
        }
    }
}

} // verus!
