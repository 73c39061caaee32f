//! 16-, 32-, and 128-bit UUIDs and the values that the Bluetooth SIG assigned.

use vstd::prelude::*;
use crate::codec::{
    le_nat, le_seq, lemma_le_nat_bound, lemma_le_nat_of_le_seq, lemma_le_seq_len,
    lemma_pow256_values, Packer, Unpacker,
};

verus! {

/// Number of bits below the 32-bit field of a UUID.
pub const SHIFT: u32 = 96;

/// The Bluetooth base UUID, `00000000-0000-1000-8000-00805F9B34FB`.
pub const BASE: u128 = 0x00000000_0000_1000_8000_00805F9B34FB;

/// Everything but the low 16 bits of the 32-bit field.
pub const MASK_16: u128 = 0xFFFF0000_FFFF_FFFF_FFFF_FFFFFFFFFFFF;

/// Everything but the 32-bit field.
pub const MASK_32: u128 = 0x00000000_FFFF_FFFF_FFFF_FFFFFFFFFFFF;

/// The 128-bit UUID that stands for the 16- or 32-bit value `v`.
pub open spec fn sig_uuid(v: u32) -> u128 {
    (v as u128) << 96 | BASE
}

/// The 16-bit value that the UUID `v` stands for: `v` is the base UUID but
/// for its 32-bit field, which holds a non-zero 16-bit value.
pub open spec fn spec_as_u16(v: u128) -> Option<u16> {
    if v & MASK_16 == BASE && (v >> 96) as u16 > 0 {
        Some((v >> 96) as u16)
    } else {
        None
    }
}

/// The 32-bit value that the UUID `v` stands for: `v` is the base UUID but
/// for its 32-bit field, which holds a value above 16 bits.
pub open spec fn spec_as_u32(v: u128) -> Option<u32> {
    if v & MASK_32 == BASE && (v >> 96) as u32 > 0xFFFF {
        Some((v >> 96) as u32)
    } else {
        None
    }
}

/// The UUID `v` itself where it differs from the base UUID outside the 32-bit
/// field, and so stands for no 16- or 32-bit value.
pub open spec fn spec_as_u128(v: u128) -> Option<u128> {
    if v & MASK_32 != BASE {
        Some(v)
    } else {
        None
    }
}

/// The UUID that the little-endian bytes `b` hold: two bytes hold a 16-bit
/// UUID, sixteen a 128-bit one. No other length holds a UUID, and no UUID is
/// zero.
pub open spec fn spec_from_le(b: Seq<u8>) -> Option<u128> {
    if b.len() == 2 && le_nat(b) != 0 {
        Some(sig_uuid(le_nat(b) as u32))
    } else if b.len() == 16 && le_nat(b) != 0 {
        Some(le_nat(b) as u128)
    } else {
        None
    }
}

/// The little-endian bytes that stand for the UUID `v` in an attribute value:
/// two for a 16-bit UUID, sixteen for any other.
pub open spec fn spec_to_le(v: u128) -> Seq<u8> {
    match spec_as_u16(v) {
        Some(x) => le_seq(x as nat, 2),
        None => le_seq(v as nat, 16),
    }
}

/// The bytes that stand for a UUID hold that UUID.
pub proof fn lemma_from_le_of_to_le(v: u128)
    requires
        v != 0,
    ensures
        spec_from_le(spec_to_le(v)) == Some(v),
{
    lemma_pow256_values();
    match spec_as_u16(v) {
        Some(x) => {
            lemma_le_seq_len(x as nat, 2);
            lemma_le_nat_of_le_seq(x as nat, 2);
            lemma_u16_lossless(v, x);
        },
        None => {
            lemma_le_seq_len(v as nat, 16);
            lemma_le_nat_of_le_seq(v as nat, 16);
        },
    }
}

/// At most one of the three projections of a UUID is defined.
pub proof fn lemma_projections_exclusive(v: u128)
    ensures
        !(spec_as_u16(v).is_some() && spec_as_u32(v).is_some()),
        !(spec_as_u16(v).is_some() && spec_as_u128(v).is_some()),
        !(spec_as_u32(v).is_some() && spec_as_u128(v).is_some()),
{
    assert(v & 0xFFFF0000_FFFF_FFFF_FFFF_FFFFFFFFFFFFu128 == 0x00000000_0000_1000_8000_00805F9B34FBu128
        ==> v & 0x00000000_FFFF_FFFF_FFFF_FFFFFFFFFFFFu128
        == 0x00000000_0000_1000_8000_00805F9B34FBu128 && ((v >> 96) as u32) <= 0xFFFF)
        by (bit_vector);
}

/// The 16-bit projection loses nothing: the UUID is the base UUID with the
/// value in its 32-bit field, and that UUID projects to the value.
pub proof fn lemma_u16_lossless(v: u128, x: u16)
    ensures
        spec_as_u16(v) == Some(x) ==> v == sig_uuid(x as u32),
        x != 0 ==> spec_as_u16(sig_uuid(x as u32)) == Some(x),
        x != 0 ==> sig_uuid(x as u32) != 0,
{
    assert(v & 0xFFFF0000_FFFF_FFFF_FFFF_FFFFFFFFFFFFu128 == 0x00000000_0000_1000_8000_00805F9B34FBu128
        && (v >> 96) as u16 == x ==> v == ((x as u32) as u128) << 96
        | 0x00000000_0000_1000_8000_00805F9B34FBu128) by (bit_vector);
    let u = (x as u32 as u128) << 96 | 0x00000000_0000_1000_8000_00805F9B34FBu128;
    assert(u & 0xFFFF0000_FFFF_FFFF_FFFF_FFFFFFFFFFFFu128 == 0x00000000_0000_1000_8000_00805F9B34FBu128
        && (u >> 96) as u16 == x && u != 0) by (bit_vector)
        requires
            u == (x as u32 as u128) << 96 | 0x00000000_0000_1000_8000_00805F9B34FBu128,
    ;
}

/// The 32-bit projection loses nothing: the UUID is the base UUID with the
/// value in its 32-bit field, and that UUID projects to the value.
pub proof fn lemma_u32_lossless(v: u128, x: u32)
    ensures
        spec_as_u32(v) == Some(x) ==> v == sig_uuid(x),
        x > 0xFFFF ==> spec_as_u32(sig_uuid(x)) == Some(x),
{
    assert(v & 0x00000000_FFFF_FFFF_FFFF_FFFFFFFFFFFFu128 == 0x00000000_0000_1000_8000_00805F9B34FBu128
        && (v >> 96) as u32 == x ==> v == (x as u128) << 96
        | 0x00000000_0000_1000_8000_00805F9B34FBu128) by (bit_vector);
    let u = (x as u128) << 96 | 0x00000000_0000_1000_8000_00805F9B34FBu128;
    assert(u & 0x00000000_FFFF_FFFF_FFFF_FFFFFFFFFFFFu128 == 0x00000000_0000_1000_8000_00805F9B34FBu128
        && (u >> 96) as u32 == x) by (bit_vector)
        requires
            u == (x as u128) << 96 | 0x00000000_0000_1000_8000_00805F9B34FBu128,
    ;
}

/// 16-, 32-, or 128-bit UUID. It is never zero.
#[derive(Clone, Copy, Debug, PartialEq, Eq, Structural, PartialOrd, Ord, Hash)]
pub struct Uuid {
    v: u128,
}

impl Uuid {
    #[verifier::type_invariant]
    spec fn inv(self) -> bool {
        self.v != 0
    }

    /// The UUID as a 128-bit value.
    pub closed spec fn spec_raw(self) -> u128 {
        self.v
    }

    /// Creates a UUID from a `u128`, or returns `None` for zero.
    pub fn new(v: u128) -> (r: Option<Uuid>)
        ensures
            r.is_some() == (v != 0),
            r.is_some() ==> r.unwrap().raw() == v,
    {
        if v != 0 {
            Some(Uuid { v })
        } else {
            None
        }
    }

    /// Creates a UUID from a `u128` that is not zero.
    pub fn nonzero(v: u128) -> (r: Uuid)
        requires
            v != 0,
        ensures
            r.raw() == v,
    {
        Uuid { v }
    }

    /// UUIDs with the same value are the same UUID.
    pub proof fn lemma_eq(a: Uuid, b: Uuid)
        requires
            a.raw() == b.raw(),
        ensures
            a == b,
    {
    }

    /// Creates a UUID from its little-endian bytes: two bytes for a 16-bit
    /// UUID, sixteen for a 128-bit one. It returns `None` for any other
    /// length and for a zero value.
    pub fn from_le_slice(b: &[u8]) -> (r: Option<Uuid>)
        ensures
            r.is_some() == spec_from_le(b@).is_some(),
            r.is_some() ==> Some(r.unwrap().raw()) == spec_from_le(b@),
    {
        let mut p = Unpacker::new(b);
        proof {
            lemma_le_nat_bound(b@);
            lemma_pow256_values();
            assert(b@.take(b@.len() as int) =~= b@);
        }
        if b.len() == 2 {
            match Uuid16::new(p.u16()) {
                Some(u) => Some(u.as_uuid()),
                None => None,
            }
        } else if b.len() == 16 {
            Uuid::new(p.u128())
        } else {
            None
        }
    }

    /// Returns the UUID as a 128-bit value.
    #[verifier::when_used_as_spec(spec_raw)]
    pub fn raw(self) -> (r: u128)
        ensures
            r == self.spec_raw(),
            r != 0,
    {
        proof {
            use_type_invariant(&self);
        }
        self.v
    }

    /// Returns the little-endian bytes that stand for the UUID in an attribute
    /// value: two for a 16-bit UUID, sixteen for any other.
    pub fn to_le_vec(self) -> (r: Vec<u8>)
        ensures
            r@ == spec_to_le(self.raw()),
            r@.len() == 2 || r@.len() == 16,
    {
        match self.as_u16() {
            Some(x) => Packer::new(2).u16(x).into_vec(),
            None => Packer::new(16).u128(self.v).into_vec(),
        }
    }

    /// Returns a [`Uuid16`] representation or [`None`] if the UUID is not an
    /// assigned 16-bit UUID.
    pub fn as_uuid16(self) -> (r: Option<Uuid16>)
        ensures
            r.is_some() == spec_as_u16(self.raw()).is_some(),
            r.is_some() ==> Some(r.unwrap().raw()) == spec_as_u16(self.raw()),
    {
        match self.as_u16() {
            Some(v) => Some(Uuid16::sig(v)),
            None => None,
        }
    }

    /// Converts an assigned 16-bit Bluetooth SIG UUID to `u16`. This is
    /// mutually exclusive with `as_u32` and `as_u128`.
    pub fn as_u16(self) -> (r: Option<u16>)
        ensures
            r == spec_as_u16(self.raw()),
            r.is_some() ==> r.unwrap() != 0,
    {
        let v = (self.v >> SHIFT) as u16;
        if self.v & MASK_16 == BASE && v > 0 {
            Some(v)
        } else {
            None
        }
    }

    /// Converts an assigned 32-bit Bluetooth SIG UUID to `u32`. This is
    /// mutually exclusive with `as_u16` and `as_u128`.
    pub fn as_u32(self) -> (r: Option<u32>)
        ensures
            r == spec_as_u32(self.raw()),
    {
        let v = (self.v >> SHIFT) as u32;
        if self.v & MASK_32 == BASE && v > 0xFFFF {
            Some(v)
        } else {
            None
        }
    }

    /// Converts an unassigned UUID to `u128`. This is mutually exclusive with
    /// `as_u16` and `as_u32`.
    pub fn as_u128(self) -> (r: Option<u128>)
        ensures
            r == spec_as_u128(self.raw()),
    {
        if self.v & MASK_32 != BASE {
            Some(self.v)
        } else {
            None
        }
    }
}

/// 16-bit Bluetooth SIG UUID. It is never zero.
#[derive(Clone, Copy, Debug, PartialEq, Eq, Structural, PartialOrd, Ord)]
pub struct Uuid16 {
    v: u16,
}

impl Uuid16 {
    #[verifier::type_invariant]
    spec fn inv(self) -> bool {
        self.v != 0
    }

    /// The raw 16-bit UUID value.
    pub closed spec fn spec_raw(self) -> u16 {
        self.v
    }

    /// The 16-bit UUID with the value `v`.
    pub closed spec fn spec_of(v: u16) -> Uuid16 {
        Uuid16 { v }
    }

    /// The 16-bit UUID with the value `v` has the value `v`.
    pub broadcast proof fn lemma_spec_of(v: u16)
        ensures
            #[trigger] Uuid16::spec_of(v).raw() == v,
    {
    }

    /// 16-bit UUIDs with the same value are the same UUID.
    pub proof fn lemma_eq(a: Uuid16, b: Uuid16)
        requires
            a.raw() == b.raw(),
        ensures
            a == b,
    {
    }

    /// Creates a 16-bit SIG UUID from a `u16`, or returns `None` for zero.
    pub fn new(v: u16) -> (r: Option<Uuid16>)
        ensures
            r.is_some() == (v != 0),
            r.is_some() ==> r.unwrap().raw() == v,
    {
        if v != 0 {
            Some(Uuid16 { v })
        } else {
            None
        }
    }

    /// Creates an assigned 16-bit SIG UUID from a non-zero `u16`.
    pub fn sig(v: u16) -> (r: Uuid16)
        requires
            v != 0,
        ensures
            r.raw() == v,
    {
        Uuid16 { v }
    }

    /// Returns 128-bit UUID representation.
    pub fn as_uuid(self) -> (r: Uuid)
        ensures
            r.raw() == sig_uuid(self.raw() as u32),
            spec_as_u16(r.raw()) == Some(self.raw()),
    {
        proof {
            use_type_invariant(&self);
            lemma_u16_lossless(0, self.v);
        }
        Uuid { v: (self.v as u128) << SHIFT | BASE }
    }

    /// Returns the raw 16-bit UUID value.
    #[verifier::when_used_as_spec(spec_raw)]
    pub fn raw(self) -> (r: u16)
        ensures
            r == self.spec_raw(),
            r != 0,
    {
        proof {
            use_type_invariant(&self);
        }
        self.v
    }
}

/// SDP service class identifiers.
#[derive(Clone, Copy, Debug, PartialEq, Eq, Structural)]
pub enum ServiceClassId {
    ServiceDiscoveryServer,
    BrowseGroupDescriptor,
    SerialPort,
    LanAccessUsingPpp,
    DialupNetworking,
    IrMcSync,
    ObexObjectPush,
    ObexFileTransfer,
    IrMcSyncCommand,
    Headset,
    CordlessTelephony,
    AudioSource,
    AudioSink,
    AvRemoteControlTarget,
    AvRemoteControl,
    AvRemoteControlController,
    Intercom,
    Fax,
    HeadsetAudioGateway,
    Wap,
    WapClient,
    Panu,
    Nap,
    Gn,
    DirectPrinting,
    ReferencePrinting,
    ImagingResponder,
    ImagingAutomaticArchive,
    ImagingReferencedObjects,
    Handsfree,
    HandsfreeAudioGateway,
    DirectPrintingReferenceObjectsService,
    ReflectedUi,
    PrintingStatus,
    HumanInterfaceDeviceService,
    HcrPrint,
    HcrScan,
    CommonIsdnAccess,
    SimAccess,
    PhonebookAccessPce,
    PhonebookAccessPse,
    HeadsetHs,
    MessageAccessServer,
    MessageNotificationServer,
    GnssServer,
    ThreeDDisplay,
    ThreeDGlasses,
    MpsScUuid,
    CtnAccessService,
    CtnNotificationService,
    PnPInformation,
    GenericNetworking,
    GenericFileTransfer,
    GenericAudio,
    GenericTelephony,
    UpnpService,
    UpnpIpService,
    EsdpUpnpIpPan,
    EsdpUpnpIpLap,
    EsdpUpnpL2Cap,
    VideoSource,
    VideoSink,
    HdpSource,
    HdpSink,
}

impl ServiceClassId {
    /// The 16-bit value that the Bluetooth SIG assigned.
    pub open spec fn spec_raw(self) -> u16 {
        match self {
            ServiceClassId::ServiceDiscoveryServer => 0x1000,
            ServiceClassId::BrowseGroupDescriptor => 0x1001,
            ServiceClassId::SerialPort => 0x1101,
            ServiceClassId::LanAccessUsingPpp => 0x1102,
            ServiceClassId::DialupNetworking => 0x1103,
            ServiceClassId::IrMcSync => 0x1104,
            ServiceClassId::ObexObjectPush => 0x1105,
            ServiceClassId::ObexFileTransfer => 0x1106,
            ServiceClassId::IrMcSyncCommand => 0x1107,
            ServiceClassId::Headset => 0x1108,
            ServiceClassId::CordlessTelephony => 0x1109,
            ServiceClassId::AudioSource => 0x110A,
            ServiceClassId::AudioSink => 0x110B,
            ServiceClassId::AvRemoteControlTarget => 0x110C,
            ServiceClassId::AvRemoteControl => 0x110E,
            ServiceClassId::AvRemoteControlController => 0x110F,
            ServiceClassId::Intercom => 0x1110,
            ServiceClassId::Fax => 0x1111,
            ServiceClassId::HeadsetAudioGateway => 0x1112,
            ServiceClassId::Wap => 0x1113,
            ServiceClassId::WapClient => 0x1114,
            ServiceClassId::Panu => 0x1115,
            ServiceClassId::Nap => 0x1116,
            ServiceClassId::Gn => 0x1117,
            ServiceClassId::DirectPrinting => 0x1118,
            ServiceClassId::ReferencePrinting => 0x1119,
            ServiceClassId::ImagingResponder => 0x111B,
            ServiceClassId::ImagingAutomaticArchive => 0x111C,
            ServiceClassId::ImagingReferencedObjects => 0x111D,
            ServiceClassId::Handsfree => 0x111E,
            ServiceClassId::HandsfreeAudioGateway => 0x111F,
            ServiceClassId::DirectPrintingReferenceObjectsService => 0x1120,
            ServiceClassId::ReflectedUi => 0x1121,
            ServiceClassId::PrintingStatus => 0x1123,
            ServiceClassId::HumanInterfaceDeviceService => 0x1124,
            ServiceClassId::HcrPrint => 0x1126,
            ServiceClassId::HcrScan => 0x1127,
            ServiceClassId::CommonIsdnAccess => 0x1128,
            ServiceClassId::SimAccess => 0x112D,
            ServiceClassId::PhonebookAccessPce => 0x112E,
            ServiceClassId::PhonebookAccessPse => 0x112F,
            ServiceClassId::HeadsetHs => 0x1131,
            ServiceClassId::MessageAccessServer => 0x1132,
            ServiceClassId::MessageNotificationServer => 0x1133,
            ServiceClassId::GnssServer => 0x1136,
            ServiceClassId::ThreeDDisplay => 0x1137,
            ServiceClassId::ThreeDGlasses => 0x1138,
            ServiceClassId::MpsScUuid => 0x113B,
            ServiceClassId::CtnAccessService => 0x113C,
            ServiceClassId::CtnNotificationService => 0x113D,
            ServiceClassId::PnPInformation => 0x1200,
            ServiceClassId::GenericNetworking => 0x1201,
            ServiceClassId::GenericFileTransfer => 0x1202,
            ServiceClassId::GenericAudio => 0x1203,
            ServiceClassId::GenericTelephony => 0x1204,
            ServiceClassId::UpnpService => 0x1205,
            ServiceClassId::UpnpIpService => 0x1206,
            ServiceClassId::EsdpUpnpIpPan => 0x1300,
            ServiceClassId::EsdpUpnpIpLap => 0x1301,
            ServiceClassId::EsdpUpnpL2Cap => 0x1302,
            ServiceClassId::VideoSource => 0x1303,
            ServiceClassId::VideoSink => 0x1304,
            ServiceClassId::HdpSource => 0x1401,
            ServiceClassId::HdpSink => 0x1402,
        }
    }

    /// Returns the 16-bit value that the Bluetooth SIG assigned.
    #[verifier::when_used_as_spec(spec_raw)]
    pub fn raw(self) -> (r: u16)
        ensures
            r == self.spec_raw(),
            r != 0,
    {
        match self {
            ServiceClassId::ServiceDiscoveryServer => 0x1000,
            ServiceClassId::BrowseGroupDescriptor => 0x1001,
            ServiceClassId::SerialPort => 0x1101,
            ServiceClassId::LanAccessUsingPpp => 0x1102,
            ServiceClassId::DialupNetworking => 0x1103,
            ServiceClassId::IrMcSync => 0x1104,
            ServiceClassId::ObexObjectPush => 0x1105,
            ServiceClassId::ObexFileTransfer => 0x1106,
            ServiceClassId::IrMcSyncCommand => 0x1107,
            ServiceClassId::Headset => 0x1108,
            ServiceClassId::CordlessTelephony => 0x1109,
            ServiceClassId::AudioSource => 0x110A,
            ServiceClassId::AudioSink => 0x110B,
            ServiceClassId::AvRemoteControlTarget => 0x110C,
            ServiceClassId::AvRemoteControl => 0x110E,
            ServiceClassId::AvRemoteControlController => 0x110F,
            ServiceClassId::Intercom => 0x1110,
            ServiceClassId::Fax => 0x1111,
            ServiceClassId::HeadsetAudioGateway => 0x1112,
            ServiceClassId::Wap => 0x1113,
            ServiceClassId::WapClient => 0x1114,
            ServiceClassId::Panu => 0x1115,
            ServiceClassId::Nap => 0x1116,
            ServiceClassId::Gn => 0x1117,
            ServiceClassId::DirectPrinting => 0x1118,
            ServiceClassId::ReferencePrinting => 0x1119,
            ServiceClassId::ImagingResponder => 0x111B,
            ServiceClassId::ImagingAutomaticArchive => 0x111C,
            ServiceClassId::ImagingReferencedObjects => 0x111D,
            ServiceClassId::Handsfree => 0x111E,
            ServiceClassId::HandsfreeAudioGateway => 0x111F,
            ServiceClassId::DirectPrintingReferenceObjectsService => 0x1120,
            ServiceClassId::ReflectedUi => 0x1121,
            ServiceClassId::PrintingStatus => 0x1123,
            ServiceClassId::HumanInterfaceDeviceService => 0x1124,
            ServiceClassId::HcrPrint => 0x1126,
            ServiceClassId::HcrScan => 0x1127,
            ServiceClassId::CommonIsdnAccess => 0x1128,
            ServiceClassId::SimAccess => 0x112D,
            ServiceClassId::PhonebookAccessPce => 0x112E,
            ServiceClassId::PhonebookAccessPse => 0x112F,
            ServiceClassId::HeadsetHs => 0x1131,
            ServiceClassId::MessageAccessServer => 0x1132,
            ServiceClassId::MessageNotificationServer => 0x1133,
            ServiceClassId::GnssServer => 0x1136,
            ServiceClassId::ThreeDDisplay => 0x1137,
            ServiceClassId::ThreeDGlasses => 0x1138,
            ServiceClassId::MpsScUuid => 0x113B,
            ServiceClassId::CtnAccessService => 0x113C,
            ServiceClassId::CtnNotificationService => 0x113D,
            ServiceClassId::PnPInformation => 0x1200,
            ServiceClassId::GenericNetworking => 0x1201,
            ServiceClassId::GenericFileTransfer => 0x1202,
            ServiceClassId::GenericAudio => 0x1203,
            ServiceClassId::GenericTelephony => 0x1204,
            ServiceClassId::UpnpService => 0x1205,
            ServiceClassId::UpnpIpService => 0x1206,
            ServiceClassId::EsdpUpnpIpPan => 0x1300,
            ServiceClassId::EsdpUpnpIpLap => 0x1301,
            ServiceClassId::EsdpUpnpL2Cap => 0x1302,
            ServiceClassId::VideoSource => 0x1303,
            ServiceClassId::VideoSink => 0x1304,
            ServiceClassId::HdpSource => 0x1401,
            ServiceClassId::HdpSink => 0x1402,
        }
    }

    /// Returns the `Uuid16` representation of the variant.
    pub fn uuid16(self) -> (r: Uuid16)
        ensures
            r.raw() == self.raw(),
    {
        Uuid16::sig(self.raw())
    }

    /// Returns the 128-bit UUID of the variant.
    pub fn uuid(self) -> (r: Uuid)
        ensures
            r.raw() == sig_uuid(self.raw() as u32),
    {
        self.uuid16().as_uuid()
    }

    /// Distinct variants have distinct values.
    pub proof fn lemma_raw_injective(a: ServiceClassId, b: ServiceClassId)
        requires
            a.raw() == b.raw(),
        ensures
            a == b,
    {
    }
}

/// GATT Services.
#[derive(Clone, Copy, Debug, PartialEq, Eq, Structural)]
pub enum GattServiceId {
    GenericAccess,
    GenericAttribute,
    ImmediateAlert,
    LinkLoss,
    TxPower,
    CurrentTime,
    ReferenceTimeUpdate,
    NextDstChange,
    Glucose,
    HealthThermometer,
    DeviceInformation,
    HeartRate,
    PhoneAlertStatus,
    Battery,
    BloodPressure,
    AlertNotification,
    HumanInterfaceDevice,
    ScanParameters,
    RunningSpeedAndCadence,
    AutomationIo,
    CyclingSpeedAndCadence,
    CyclingPower,
    LocationAndNavigation,
    EnvironmentalSensing,
    BodyComposition,
    UserData,
    WeightScale,
    BondManagement,
    ContinuousGlucoseMonitoring,
    InternetProtocolSupport,
    IndoorPositioning,
    PulseOximeter,
    HttpProxy,
    TransportDiscovery,
    ObjectTransfer,
    FitnessMachine,
    MeshProvisioning,
    MeshProxy,
    ReconnectionConfiguration,
    InsulinDelivery,
    BinarySensor,
    EmergencyConfiguration,
    AuthorizationControl,
    PhysicalActivityMonitor,
    AudioInputControl,
    VolumeControl,
    VolumeOffsetControl,
    CoordinatedSetIdentification,
    DeviceTime,
    MediaControl,
    GenericMediaControl,
    ConstantToneExtension,
    TelephoneBearer,
    GenericTelephoneBearer,
    MicrophoneControl,
    AudioStreamControl,
    BroadcastAudioScan,
    PublishedAudioCapabilities,
    BasicAudioAnnouncement,
    BroadcastAudioAnnouncement,
    CommonAudio,
    HearingAid,
    Tmas,
}

impl GattServiceId {
    /// The 16-bit value that the Bluetooth SIG assigned.
    pub open spec fn spec_raw(self) -> u16 {
        match self {
            GattServiceId::GenericAccess => 0x1800,
            GattServiceId::GenericAttribute => 0x1801,
            GattServiceId::ImmediateAlert => 0x1802,
            GattServiceId::LinkLoss => 0x1803,
            GattServiceId::TxPower => 0x1804,
            GattServiceId::CurrentTime => 0x1805,
            GattServiceId::ReferenceTimeUpdate => 0x1806,
            GattServiceId::NextDstChange => 0x1807,
            GattServiceId::Glucose => 0x1808,
            GattServiceId::HealthThermometer => 0x1809,
            GattServiceId::DeviceInformation => 0x180A,
            GattServiceId::HeartRate => 0x180D,
            GattServiceId::PhoneAlertStatus => 0x180E,
            GattServiceId::Battery => 0x180F,
            GattServiceId::BloodPressure => 0x1810,
            GattServiceId::AlertNotification => 0x1811,
            GattServiceId::HumanInterfaceDevice => 0x1812,
            GattServiceId::ScanParameters => 0x1813,
            GattServiceId::RunningSpeedAndCadence => 0x1814,
            GattServiceId::AutomationIo => 0x1815,
            GattServiceId::CyclingSpeedAndCadence => 0x1816,
            GattServiceId::CyclingPower => 0x1818,
            GattServiceId::LocationAndNavigation => 0x1819,
            GattServiceId::EnvironmentalSensing => 0x181A,
            GattServiceId::BodyComposition => 0x181B,
            GattServiceId::UserData => 0x181C,
            GattServiceId::WeightScale => 0x181D,
            GattServiceId::BondManagement => 0x181E,
            GattServiceId::ContinuousGlucoseMonitoring => 0x181F,
            GattServiceId::InternetProtocolSupport => 0x1820,
            GattServiceId::IndoorPositioning => 0x1821,
            GattServiceId::PulseOximeter => 0x1822,
            GattServiceId::HttpProxy => 0x1823,
            GattServiceId::TransportDiscovery => 0x1824,
            GattServiceId::ObjectTransfer => 0x1825,
            GattServiceId::FitnessMachine => 0x1826,
            GattServiceId::MeshProvisioning => 0x1827,
            GattServiceId::MeshProxy => 0x1828,
            GattServiceId::ReconnectionConfiguration => 0x1829,
            GattServiceId::InsulinDelivery => 0x183A,
            GattServiceId::BinarySensor => 0x183B,
            GattServiceId::EmergencyConfiguration => 0x183C,
            GattServiceId::AuthorizationControl => 0x183D,
            GattServiceId::PhysicalActivityMonitor => 0x183E,
            GattServiceId::AudioInputControl => 0x1843,
            GattServiceId::VolumeControl => 0x1844,
            GattServiceId::VolumeOffsetControl => 0x1845,
            GattServiceId::CoordinatedSetIdentification => 0x1846,
            GattServiceId::DeviceTime => 0x1847,
            GattServiceId::MediaControl => 0x1848,
            GattServiceId::GenericMediaControl => 0x1849,
            GattServiceId::ConstantToneExtension => 0x184A,
            GattServiceId::TelephoneBearer => 0x184B,
            GattServiceId::GenericTelephoneBearer => 0x184C,
            GattServiceId::MicrophoneControl => 0x184D,
            GattServiceId::AudioStreamControl => 0x184E,
            GattServiceId::BroadcastAudioScan => 0x184F,
            GattServiceId::PublishedAudioCapabilities => 0x1850,
            GattServiceId::BasicAudioAnnouncement => 0x1851,
            GattServiceId::BroadcastAudioAnnouncement => 0x1852,
            GattServiceId::CommonAudio => 0x1853,
            GattServiceId::HearingAid => 0x1854,
            GattServiceId::Tmas => 0x1855,
        }
    }

    /// Returns the 16-bit value that the Bluetooth SIG assigned.
    #[verifier::when_used_as_spec(spec_raw)]
    pub fn raw(self) -> (r: u16)
        ensures
            r == self.spec_raw(),
            r != 0,
    {
        match self {
            GattServiceId::GenericAccess => 0x1800,
            GattServiceId::GenericAttribute => 0x1801,
            GattServiceId::ImmediateAlert => 0x1802,
            GattServiceId::LinkLoss => 0x1803,
            GattServiceId::TxPower => 0x1804,
            GattServiceId::CurrentTime => 0x1805,
            GattServiceId::ReferenceTimeUpdate => 0x1806,
            GattServiceId::NextDstChange => 0x1807,
            GattServiceId::Glucose => 0x1808,
            GattServiceId::HealthThermometer => 0x1809,
            GattServiceId::DeviceInformation => 0x180A,
            GattServiceId::HeartRate => 0x180D,
            GattServiceId::PhoneAlertStatus => 0x180E,
            GattServiceId::Battery => 0x180F,
            GattServiceId::BloodPressure => 0x1810,
            GattServiceId::AlertNotification => 0x1811,
            GattServiceId::HumanInterfaceDevice => 0x1812,
            GattServiceId::ScanParameters => 0x1813,
            GattServiceId::RunningSpeedAndCadence => 0x1814,
            GattServiceId::AutomationIo => 0x1815,
            GattServiceId::CyclingSpeedAndCadence => 0x1816,
            GattServiceId::CyclingPower => 0x1818,
            GattServiceId::LocationAndNavigation => 0x1819,
            GattServiceId::EnvironmentalSensing => 0x181A,
            GattServiceId::BodyComposition => 0x181B,
            GattServiceId::UserData => 0x181C,
            GattServiceId::WeightScale => 0x181D,
            GattServiceId::BondManagement => 0x181E,
            GattServiceId::ContinuousGlucoseMonitoring => 0x181F,
            GattServiceId::InternetProtocolSupport => 0x1820,
            GattServiceId::IndoorPositioning => 0x1821,
            GattServiceId::PulseOximeter => 0x1822,
            GattServiceId::HttpProxy => 0x1823,
            GattServiceId::TransportDiscovery => 0x1824,
            GattServiceId::ObjectTransfer => 0x1825,
            GattServiceId::FitnessMachine => 0x1826,
            GattServiceId::MeshProvisioning => 0x1827,
            GattServiceId::MeshProxy => 0x1828,
            GattServiceId::ReconnectionConfiguration => 0x1829,
            GattServiceId::InsulinDelivery => 0x183A,
            GattServiceId::BinarySensor => 0x183B,
            GattServiceId::EmergencyConfiguration => 0x183C,
            GattServiceId::AuthorizationControl => 0x183D,
            GattServiceId::PhysicalActivityMonitor => 0x183E,
            GattServiceId::AudioInputControl => 0x1843,
            GattServiceId::VolumeControl => 0x1844,
            GattServiceId::VolumeOffsetControl => 0x1845,
            GattServiceId::CoordinatedSetIdentification => 0x1846,
            GattServiceId::DeviceTime => 0x1847,
            GattServiceId::MediaControl => 0x1848,
            GattServiceId::GenericMediaControl => 0x1849,
            GattServiceId::ConstantToneExtension => 0x184A,
            GattServiceId::TelephoneBearer => 0x184B,
            GattServiceId::GenericTelephoneBearer => 0x184C,
            GattServiceId::MicrophoneControl => 0x184D,
            GattServiceId::AudioStreamControl => 0x184E,
            GattServiceId::BroadcastAudioScan => 0x184F,
            GattServiceId::PublishedAudioCapabilities => 0x1850,
            GattServiceId::BasicAudioAnnouncement => 0x1851,
            GattServiceId::BroadcastAudioAnnouncement => 0x1852,
            GattServiceId::CommonAudio => 0x1853,
            GattServiceId::HearingAid => 0x1854,
            GattServiceId::Tmas => 0x1855,
        }
    }

    /// Returns the `Uuid16` representation of the variant.
    pub fn uuid16(self) -> (r: Uuid16)
        ensures
            r.raw() == self.raw(),
    {
        Uuid16::sig(self.raw())
    }

    /// Returns the 128-bit UUID of the variant.
    pub fn uuid(self) -> (r: Uuid)
        ensures
            r.raw() == sig_uuid(self.raw() as u32),
    {
        self.uuid16().as_uuid()
    }

    /// Distinct variants have distinct values.
    pub proof fn lemma_raw_injective(a: GattServiceId, b: GattServiceId)
        requires
            a.raw() == b.raw(),
        ensures
            a == b,
    {
    }
}

/// Descriptors.
#[derive(Clone, Copy, Debug, PartialEq, Eq, Structural)]
pub enum DescriptorId {
    CharacteristicExtendedProperties,
    CharacteristicUserDescription,
    ClientCharacteristicConfiguration,
    ServerCharacteristicConfiguration,
    CharacteristicPresentationFormat,
    CharacteristicAggregateFormat,
    ValidRange,
    ExternalReportReference,
    ReportReference,
    NumberOfDigitals,
    ValueTriggerSetting,
    EnvironmentalSensingConfiguration,
    EnvironmentalSensingMeasurement,
    EnvironmentalSensingTriggerSetting,
    TimeTriggerSetting,
    CompleteBredrTransportBlockData,
}

impl DescriptorId {
    /// The 16-bit value that the Bluetooth SIG assigned.
    pub open spec fn spec_raw(self) -> u16 {
        match self {
            DescriptorId::CharacteristicExtendedProperties => 0x2900,
            DescriptorId::CharacteristicUserDescription => 0x2901,
            DescriptorId::ClientCharacteristicConfiguration => 0x2902,
            DescriptorId::ServerCharacteristicConfiguration => 0x2903,
            DescriptorId::CharacteristicPresentationFormat => 0x2904,
            DescriptorId::CharacteristicAggregateFormat => 0x2905,
            DescriptorId::ValidRange => 0x2906,
            DescriptorId::ExternalReportReference => 0x2907,
            DescriptorId::ReportReference => 0x2908,
            DescriptorId::NumberOfDigitals => 0x2909,
            DescriptorId::ValueTriggerSetting => 0x290A,
            DescriptorId::EnvironmentalSensingConfiguration => 0x290B,
            DescriptorId::EnvironmentalSensingMeasurement => 0x290C,
            DescriptorId::EnvironmentalSensingTriggerSetting => 0x290D,
            DescriptorId::TimeTriggerSetting => 0x290E,
            DescriptorId::CompleteBredrTransportBlockData => 0x290F,
        }
    }

    /// Returns the 16-bit value that the Bluetooth SIG assigned.
    #[verifier::when_used_as_spec(spec_raw)]
    pub fn raw(self) -> (r: u16)
        ensures
            r == self.spec_raw(),
            r != 0,
    {
        match self {
            DescriptorId::CharacteristicExtendedProperties => 0x2900,
            DescriptorId::CharacteristicUserDescription => 0x2901,
            DescriptorId::ClientCharacteristicConfiguration => 0x2902,
            DescriptorId::ServerCharacteristicConfiguration => 0x2903,
            DescriptorId::CharacteristicPresentationFormat => 0x2904,
            DescriptorId::CharacteristicAggregateFormat => 0x2905,
            DescriptorId::ValidRange => 0x2906,
            DescriptorId::ExternalReportReference => 0x2907,
            DescriptorId::ReportReference => 0x2908,
            DescriptorId::NumberOfDigitals => 0x2909,
            DescriptorId::ValueTriggerSetting => 0x290A,
            DescriptorId::EnvironmentalSensingConfiguration => 0x290B,
            DescriptorId::EnvironmentalSensingMeasurement => 0x290C,
            DescriptorId::EnvironmentalSensingTriggerSetting => 0x290D,
            DescriptorId::TimeTriggerSetting => 0x290E,
            DescriptorId::CompleteBredrTransportBlockData => 0x290F,
        }
    }

    /// Returns the `Uuid16` representation of the variant.
    pub fn uuid16(self) -> (r: Uuid16)
        ensures
            r.raw() == self.raw(),
    {
        Uuid16::sig(self.raw())
    }

    /// Returns the 128-bit UUID of the variant.
    pub fn uuid(self) -> (r: Uuid)
        ensures
            r.raw() == sig_uuid(self.raw() as u32),
    {
        self.uuid16().as_uuid()
    }

    /// Distinct variants have distinct values.
    pub proof fn lemma_raw_injective(a: DescriptorId, b: DescriptorId)
        requires
            a.raw() == b.raw(),
        ensures
            a == b,
    {
    }
}

/// Characteristics.
#[derive(Clone, Copy, Debug, PartialEq, Eq, Structural)]
pub enum CharacteristicId {
    DeviceName,
    Appearance,
    PeripheralPrivacyFlag,
    ReconnectionAddress,
    PeripheralPreferredConnectionParameters,
    ServiceChanged,
    AlertLevel,
    TxPowerLevel,
    DateTime,
    DayOfWeek,
    DayDateTime,
    ExactTime256,
    DstOffset,
    TimeZone,
    LocalTimeInformation,
    TimeWithDst,
    TimeAccuracy,
    TimeSource,
    ReferenceTimeInformation,
    TimeUpdateControlPoint,
    TimeUpdateState,
    GlucoseMeasurement,
    BatteryLevel,
    TemperatureMeasurement,
    TemperatureType,
    IntermediateTemperature,
    MeasurementInterval,
    BootKeyboardInputReport,
    SystemId,
    ModelNumberString,
    SerialNumberString,
    FirmwareRevisionString,
    HardwareRevisionString,
    SoftwareRevisionString,
    ManufacturerNameString,
    IeeeRegulatoryCertificationDataList,
    CurrentTime,
    MagneticDeclination,
    ScanRefresh,
    BootKeyboardOutputReport,
    BootMouseInputReport,
    GlucoseMeasurementContext,
    BloodPressureMeasurement,
    IntermediateCuffPressure,
    HeartRateMeasurement,
    BodySensorLocation,
    HeartRateControlPoint,
    AlertStatus,
    RingerControlPoint,
    RingerSetting,
    AlertCategoryIdBitMask,
    AlertCategoryId,
    AlertNotificationControlPoint,
    UnreadAlertStatus,
    NewAlert,
    SupportedNewAlertCategory,
    SupportedUnreadAlertCategory,
    BloodPressureFeature,
    HidInformation,
    ReportMap,
    HidControlPoint,
    Report,
    ProtocolMode,
    ScanIntervalWindow,
    PnpId,
    GlucoseFeature,
    RecordAccessControlPoint,
    RscMeasurement,
    RscFeature,
    ScControlPoint,
    Aggregate,
    CscMeasurement,
    CscFeature,
    SensorLocation,
    PlxSpotCheckMeasurement,
    PlxContinuousMeasurement,
    PlxFeatures,
    CyclingPowerMeasurement,
    CyclingPowerVector,
    CyclingPowerFeature,
    CyclingPowerControlPoint,
    LocationAndSpeed,
    Navigation,
    PositionQuality,
    LnFeature,
    LnControlPoint,
    Elevation,
    Pressure,
    Temperature,
    Humidity,
    TrueWindSpeed,
    TrueWindDirection,
    ApparentWindSpeed,
    ApparentWindDirection,
    GustFactor,
    PollenConcentration,
    UvIndex,
    Irradiance,
    Rainfall,
    WindChill,
    HeatIndex,
    DewPoint,
    DescriptorValueChanged,
    AerobicHeartRateLowerLimit,
    AerobicThreshold,
    Age,
    AnaerobicHeartRateLowerLimit,
    AnaerobicHeartRateUpperLimit,
    AnaerobicThreshold,
    AerobicHeartRateUpperLimit,
    DateOfBirth,
    DateOfThresholdAssessment,
    EmailAddress,
    FatBurnHeartRateLowerLimit,
    FatBurnHeartRateUpperLimit,
    FirstName,
    FiveZoneHeartRateLimits,
    Gender,
    HeartRateMax,
    Height,
    HipCircumference,
    LastName,
    MaximumRecommendedHeartRate,
    RestingHeartRate,
    SportTypeForAerobicAndAnaerobicThresholds,
    ThreeZoneHeartRateLimits,
    TwoZoneHeartRateLimits,
    Vo2Max,
    WaistCircumference,
    Weight,
    DatabaseChangeIncrement,
    UserIndex,
    BodyCompositionFeature,
    BodyCompositionMeasurement,
    WeightMeasurement,
    WeightScaleFeature,
    UserControlPoint,
    MagneticFluxDensity2D,
    MagneticFluxDensity3D,
    Language,
    BarometricPressureTrend,
    BondManagementControlPoint,
    BondManagementFeature,
    CentralAddressResolution,
    CgmMeasurement,
    CgmFeature,
    CgmStatus,
    CgmSessionStartTime,
    CgmSessionRunTime,
    CgmSpecificOpsControlPoint,
    IndoorPositioningConfiguration,
    Latitude,
    Longitude,
    LocalNorthCoordinate,
    LocalEastCoordinate,
    FloorNumber,
    Altitude,
    Uncertainty,
    LocationName,
    Uri,
    HttpHeaders,
    HttpStatusCode,
    HttpEntityBody,
    HttpControlPoint,
    HttpsSecurity,
    TdsControlPoint,
    OtsFeature,
    ObjectName,
    ObjectType,
    ObjectSize,
    ObjectFirstCreated,
    ObjectLastModified,
    ObjectId,
    ObjectProperties,
    ObjectActionControlPoint,
    ObjectListControlPoint,
    ObjectListFilter,
    ObjectChanged,
    ResolvablePrivateAddressOnly,
    FitnessMachineFeature,
    TreadmillData,
    CrossTrainerData,
    StepClimberData,
    StairClimberData,
    RowerData,
    IndoorBikeData,
    TrainingStatus,
    SupportedSpeedRange,
    SupportedInclinationRange,
    SupportedResistanceLevelRange,
    SupportedHeartRateRange,
    SupportedPowerRange,
    FitnessMachineControlPoint,
    FitnessMachineStatus,
    MeshProvisioningDataIn,
    MeshProvisioningDataOut,
    MeshProxyDataIn,
    MeshProxyDataOut,
    AverageCurrent,
    AverageVoltage,
    Boolean,
    ChromaticDistanceFromPlanckian,
    ChromaticityCoordinates,
    ChromaticityInCctAndDuvValues,
    ChromaticityTolerance,
    CieColorRenderingIndex,
    Coefficient,
    CorrelatedColorTemperature,
    Count16,
    Count24,
    CountryCode,
    DateUtc,
    ElectricCurrent,
    ElectricCurrentRange,
    ElectricCurrentSpecification,
    ElectricCurrentStatistics,
    Energy,
    EnergyInAPeriodOfDay,
    EventStatistics,
    FixedString16,
    FixedString24,
    FixedString36,
    FixedString8,
    GenericLevel,
    GlobalTradeItemNumber,
    Illuminance,
    LuminousEfficacy,
    LuminousEnergy,
    LuminousExposure,
    LuminousFlux,
    LuminousFluxRange,
    LuminousIntensity,
    MassFlow,
    PerceivedLightness,
    Percentage8,
    Power,
    PowerSpecification,
    RelativeRuntimeInACurrentRange,
    RelativeRuntimeInAGenericLevelRange,
    RelativeValueInAVoltageRange,
    RelativeValueInAnIlluminanceRange,
    RelativeValueInAPeriodOfDay,
    RelativeValueInATemperatureRange,
    Temperature8,
    Temperature8InAPeriodOfDay,
    Temperature8Statistics,
    TemperatureRange,
    TemperatureStatistics,
    TimeDecihour8,
    TimeExponential8,
    TimeHour24,
    TimeMillisecond24,
    TimeSecond16,
    TimeSecond8,
    Voltage,
    VoltageSpecification,
    VoltageStatistics,
    VolumeFlow,
    ChromaticityCoordinate,
    RcFeature,
    RcSettings,
    ReconnectionConfigurationControlPoint,
    IddStatusChanged,
    IddStatus,
    IddAnnunciationStatus,
    IddFeatures,
    IddStatusReaderControlPoint,
    IddCommandControlPoint,
    IddCommandData,
    IddRecordAccessControlPoint,
    IddHistoryData,
    ClientSupportedFeatures,
    DatabaseHash,
    BssControlPoint,
    BssResponse,
    EmergencyId,
    EmergencyText,
    AcsStatus,
    AcsDataIn,
    AcsDataOutNotify,
    AcsDataOutIndicate,
    AcsControlPoint,
    EnhancedBloodPressureMeasurement,
    EnhancedIntermediateCuffPressure,
    BloodPressureRecord,
    RegisteredUser,
    BredrHandoverData,
    BluetoothSigData,
    ServerSupportedFeatures,
    PhysicalActivityMonitorFeatures,
    GeneralActivityInstantaneousData,
    GeneralActivitySummaryData,
    CardioRespiratoryActivityInstantaneousData,
    CardioRespiratoryActivitySummaryData,
    StepCounterActivitySummaryData,
    SleepActivityInstantaneousData,
    SleepActivitySummaryData,
    PhysicalActivityMonitorControlPoint,
    ActivityCurrentSession,
    PhysicalActivitySessionDescriptor,
    PreferredUnits,
    HighResolutionHeight,
    MiddleName,
    StrideLength,
    Handedness,
    DeviceWearingPosition,
    FourZoneHeartRateLimits,
    HighIntensityExerciseThreshold,
    ActivityGoal,
    SedentaryIntervalNotification,
    CaloricIntake,
    TmapRole,
    AudioInputState,
    GainSettingsAttribute,
    AudioInputType,
    AudioInputStatus,
    AudioInputControlPoint,
    AudioInputDescription,
    VolumeState,
    VolumeControlPoint,
    VolumeFlags,
    VolumeOffsetState,
    AudioLocation,
    VolumeOffsetControlPoint,
    AudioOutputDescription,
    SetIdentityResolvingKey,
    CoordinatedSetSize,
    SetMemberLock,
    SetMemberRank,
    ApparentEnergy32,
    ApparentPower,
    Co2Concentration,
    CosineOfTheAngle,
    DeviceTimeFeature,
    DeviceTimeParameters,
    DeviceTime,
    DeviceTimeControlPoint,
    TimeChangeLogData,
    MediaPlayerName,
    MediaPlayerIconObjectId,
    MediaPlayerIconUrl,
    TrackChanged,
    TrackTitle,
    TrackDuration,
    TrackPosition,
    PlaybackSpeed,
    SeekingSpeed,
    CurrentTrackSegmentsObjectId,
    CurrentTrackObjectId,
    NextTrackObjectId,
    ParentGroupObjectId,
    CurrentGroupObjectId,
    PlayingOrder,
    PlayingOrdersSupported,
    MediaState,
    MediaControlPoint,
    MediaControlPointOpcodesSupported,
    SearchResultsObjectId,
    SearchControlPoint,
    Energy32,
    MediaPlayerIconObjectType,
    TrackSegmentsObjectType,
    TrackObjectType,
    GroupObjectType,
    ConstantToneExtensionEnable,
    AdvertisingConstantToneExtensionMinimumLength,
    AdvertisingConstantToneExtensionMinimumTransmitCount,
    AdvertisingConstantToneExtensionTransmitDuration,
    AdvertisingConstantToneExtensionInterval,
    AdvertisingConstantToneExtensionPhy,
    BearerProviderName,
    BearerUci,
    BearerTechnology,
    BearerUriSchemesSupportedList,
    BearerSignalStrength,
    BearerSignalStrengthReportingInterval,
    BearerListCurrentCalls,
    ContentControlId,
    StatusFlags,
    IncomingCallTargetBearerUri,
    CallState,
    CallControlPoint,
    CallControlPointOptionalOpcodes,
    TerminationReason,
    IncomingCall,
    CallFriendlyName,
    Mute,
    SinkAse,
    SourceAse,
    AseControlPoint,
    BroadcastAudioScanControlPoint,
    BroadcastReceiveState,
    SinkPac,
    SinkAudioLocations,
    SourcePac,
    SourceAudioLocations,
    AvailableAudioContexts,
    SupportedAudioContexts,
    AmmoniaConcentration,
    CarbonMonoxideConcentration,
    MethaneConcentration,
    NitrogenDioxideConcentration,
    NonMethaneVolatileOrganicCompoundsConcentration,
    OzoneConcentration,
    ParticulateMatterPm1Concentration,
    ParticulateMatterPm25Concentration,
    ParticulateMatterPm10Concentration,
    SulfurDioxideConcentration,
    SulfurHexafluorideConcentration,
    HearingAidFeatures,
    HearingAidPresetControlPoint,
    ActivePresetIndex,
    FixedString64,
    HighTemperature,
    HighVoltage,
    LightDistribution,
    LightOutput,
    LightSourceType,
    Noise,
    RelativeRuntimeInACorrelatedColorTemperatureRange,
    TimeSecond32,
    VocConcentration,
    VoltageFrequency,
}

impl CharacteristicId {
    /// The 16-bit value that the Bluetooth SIG assigned.
    pub open spec fn spec_raw(self) -> u16 {
        match self {
            CharacteristicId::DeviceName => 0x2A00,
            CharacteristicId::Appearance => 0x2A01,
            CharacteristicId::PeripheralPrivacyFlag => 0x2A02,
            CharacteristicId::ReconnectionAddress => 0x2A03,
            CharacteristicId::PeripheralPreferredConnectionParameters => 0x2A04,
            CharacteristicId::ServiceChanged => 0x2A05,
            CharacteristicId::AlertLevel => 0x2A06,
            CharacteristicId::TxPowerLevel => 0x2A07,
            CharacteristicId::DateTime => 0x2A08,
            CharacteristicId::DayOfWeek => 0x2A09,
            CharacteristicId::DayDateTime => 0x2A0A,
            CharacteristicId::ExactTime256 => 0x2A0C,
            CharacteristicId::DstOffset => 0x2A0D,
            CharacteristicId::TimeZone => 0x2A0E,
            CharacteristicId::LocalTimeInformation => 0x2A0F,
            CharacteristicId::TimeWithDst => 0x2A11,
            CharacteristicId::TimeAccuracy => 0x2A12,
            CharacteristicId::TimeSource => 0x2A13,
            CharacteristicId::ReferenceTimeInformation => 0x2A14,
            CharacteristicId::TimeUpdateControlPoint => 0x2A16,
            CharacteristicId::TimeUpdateState => 0x2A17,
            CharacteristicId::GlucoseMeasurement => 0x2A18,
            CharacteristicId::BatteryLevel => 0x2A19,
            CharacteristicId::TemperatureMeasurement => 0x2A1C,
            CharacteristicId::TemperatureType => 0x2A1D,
            CharacteristicId::IntermediateTemperature => 0x2A1E,
            CharacteristicId::MeasurementInterval => 0x2A21,
            CharacteristicId::BootKeyboardInputReport => 0x2A22,
            CharacteristicId::SystemId => 0x2A23,
            CharacteristicId::ModelNumberString => 0x2A24,
            CharacteristicId::SerialNumberString => 0x2A25,
            CharacteristicId::FirmwareRevisionString => 0x2A26,
            CharacteristicId::HardwareRevisionString => 0x2A27,
            CharacteristicId::SoftwareRevisionString => 0x2A28,
            CharacteristicId::ManufacturerNameString => 0x2A29,
            CharacteristicId::IeeeRegulatoryCertificationDataList => 0x2A2A,
            CharacteristicId::CurrentTime => 0x2A2B,
            CharacteristicId::MagneticDeclination => 0x2A2C,
            CharacteristicId::ScanRefresh => 0x2A31,
            CharacteristicId::BootKeyboardOutputReport => 0x2A32,
            CharacteristicId::BootMouseInputReport => 0x2A33,
            CharacteristicId::GlucoseMeasurementContext => 0x2A34,
            CharacteristicId::BloodPressureMeasurement => 0x2A35,
            CharacteristicId::IntermediateCuffPressure => 0x2A36,
            CharacteristicId::HeartRateMeasurement => 0x2A37,
            CharacteristicId::BodySensorLocation => 0x2A38,
            CharacteristicId::HeartRateControlPoint => 0x2A39,
            CharacteristicId::AlertStatus => 0x2A3F,
            CharacteristicId::RingerControlPoint => 0x2A40,
            CharacteristicId::RingerSetting => 0x2A41,
            CharacteristicId::AlertCategoryIdBitMask => 0x2A42,
            CharacteristicId::AlertCategoryId => 0x2A43,
            CharacteristicId::AlertNotificationControlPoint => 0x2A44,
            CharacteristicId::UnreadAlertStatus => 0x2A45,
            CharacteristicId::NewAlert => 0x2A46,
            CharacteristicId::SupportedNewAlertCategory => 0x2A47,
            CharacteristicId::SupportedUnreadAlertCategory => 0x2A48,
            CharacteristicId::BloodPressureFeature => 0x2A49,
            CharacteristicId::HidInformation => 0x2A4A,
            CharacteristicId::ReportMap => 0x2A4B,
            CharacteristicId::HidControlPoint => 0x2A4C,
            CharacteristicId::Report => 0x2A4D,
            CharacteristicId::ProtocolMode => 0x2A4E,
            CharacteristicId::ScanIntervalWindow => 0x2A4F,
            CharacteristicId::PnpId => 0x2A50,
            CharacteristicId::GlucoseFeature => 0x2A51,
            CharacteristicId::RecordAccessControlPoint => 0x2A52,
            CharacteristicId::RscMeasurement => 0x2A53,
            CharacteristicId::RscFeature => 0x2A54,
            CharacteristicId::ScControlPoint => 0x2A55,
            CharacteristicId::Aggregate => 0x2A5A,
            CharacteristicId::CscMeasurement => 0x2A5B,
            CharacteristicId::CscFeature => 0x2A5C,
            CharacteristicId::SensorLocation => 0x2A5D,
            CharacteristicId::PlxSpotCheckMeasurement => 0x2A5E,
            CharacteristicId::PlxContinuousMeasurement => 0x2A5F,
            CharacteristicId::PlxFeatures => 0x2A60,
            CharacteristicId::CyclingPowerMeasurement => 0x2A63,
            CharacteristicId::CyclingPowerVector => 0x2A64,
            CharacteristicId::CyclingPowerFeature => 0x2A65,
            CharacteristicId::CyclingPowerControlPoint => 0x2A66,
            CharacteristicId::LocationAndSpeed => 0x2A67,
            CharacteristicId::Navigation => 0x2A68,
            CharacteristicId::PositionQuality => 0x2A69,
            CharacteristicId::LnFeature => 0x2A6A,
            CharacteristicId::LnControlPoint => 0x2A6B,
            CharacteristicId::Elevation => 0x2A6C,
            CharacteristicId::Pressure => 0x2A6D,
            CharacteristicId::Temperature => 0x2A6E,
            CharacteristicId::Humidity => 0x2A6F,
            CharacteristicId::TrueWindSpeed => 0x2A70,
            CharacteristicId::TrueWindDirection => 0x2A71,
            CharacteristicId::ApparentWindSpeed => 0x2A72,
            CharacteristicId::ApparentWindDirection => 0x2A73,
            CharacteristicId::GustFactor => 0x2A74,
            CharacteristicId::PollenConcentration => 0x2A75,
            CharacteristicId::UvIndex => 0x2A76,
            CharacteristicId::Irradiance => 0x2A77,
            CharacteristicId::Rainfall => 0x2A78,
            CharacteristicId::WindChill => 0x2A79,
            CharacteristicId::HeatIndex => 0x2A7A,
            CharacteristicId::DewPoint => 0x2A7B,
            CharacteristicId::DescriptorValueChanged => 0x2A7D,
            CharacteristicId::AerobicHeartRateLowerLimit => 0x2A7E,
            CharacteristicId::AerobicThreshold => 0x2A7F,
            CharacteristicId::Age => 0x2A80,
            CharacteristicId::AnaerobicHeartRateLowerLimit => 0x2A81,
            CharacteristicId::AnaerobicHeartRateUpperLimit => 0x2A82,
            CharacteristicId::AnaerobicThreshold => 0x2A83,
            CharacteristicId::AerobicHeartRateUpperLimit => 0x2A84,
            CharacteristicId::DateOfBirth => 0x2A85,
            CharacteristicId::DateOfThresholdAssessment => 0x2A86,
            CharacteristicId::EmailAddress => 0x2A87,
            CharacteristicId::FatBurnHeartRateLowerLimit => 0x2A88,
            CharacteristicId::FatBurnHeartRateUpperLimit => 0x2A89,
            CharacteristicId::FirstName => 0x2A8A,
            CharacteristicId::FiveZoneHeartRateLimits => 0x2A8B,
            CharacteristicId::Gender => 0x2A8C,
            CharacteristicId::HeartRateMax => 0x2A8D,
            CharacteristicId::Height => 0x2A8E,
            CharacteristicId::HipCircumference => 0x2A8F,
            CharacteristicId::LastName => 0x2A90,
            CharacteristicId::MaximumRecommendedHeartRate => 0x2A91,
            CharacteristicId::RestingHeartRate => 0x2A92,
            CharacteristicId::SportTypeForAerobicAndAnaerobicThresholds => 0x2A93,
            CharacteristicId::ThreeZoneHeartRateLimits => 0x2A94,
            CharacteristicId::TwoZoneHeartRateLimits => 0x2A95,
            CharacteristicId::Vo2Max => 0x2A96,
            CharacteristicId::WaistCircumference => 0x2A97,
            CharacteristicId::Weight => 0x2A98,
            CharacteristicId::DatabaseChangeIncrement => 0x2A99,
            CharacteristicId::UserIndex => 0x2A9A,
            CharacteristicId::BodyCompositionFeature => 0x2A9B,
            CharacteristicId::BodyCompositionMeasurement => 0x2A9C,
            CharacteristicId::WeightMeasurement => 0x2A9D,
            CharacteristicId::WeightScaleFeature => 0x2A9E,
            CharacteristicId::UserControlPoint => 0x2A9F,
            CharacteristicId::MagneticFluxDensity2D => 0x2AA0,
            CharacteristicId::MagneticFluxDensity3D => 0x2AA1,
            CharacteristicId::Language => 0x2AA2,
            CharacteristicId::BarometricPressureTrend => 0x2AA3,
            CharacteristicId::BondManagementControlPoint => 0x2AA4,
            CharacteristicId::BondManagementFeature => 0x2AA5,
            CharacteristicId::CentralAddressResolution => 0x2AA6,
            CharacteristicId::CgmMeasurement => 0x2AA7,
            CharacteristicId::CgmFeature => 0x2AA8,
            CharacteristicId::CgmStatus => 0x2AA9,
            CharacteristicId::CgmSessionStartTime => 0x2AAA,
            CharacteristicId::CgmSessionRunTime => 0x2AAB,
            CharacteristicId::CgmSpecificOpsControlPoint => 0x2AAC,
            CharacteristicId::IndoorPositioningConfiguration => 0x2AAD,
            CharacteristicId::Latitude => 0x2AAE,
            CharacteristicId::Longitude => 0x2AAF,
            CharacteristicId::LocalNorthCoordinate => 0x2AB0,
            CharacteristicId::LocalEastCoordinate => 0x2AB1,
            CharacteristicId::FloorNumber => 0x2AB2,
            CharacteristicId::Altitude => 0x2AB3,
            CharacteristicId::Uncertainty => 0x2AB4,
            CharacteristicId::LocationName => 0x2AB5,
            CharacteristicId::Uri => 0x2AB6,
            CharacteristicId::HttpHeaders => 0x2AB7,
            CharacteristicId::HttpStatusCode => 0x2AB8,
            CharacteristicId::HttpEntityBody => 0x2AB9,
            CharacteristicId::HttpControlPoint => 0x2ABA,
            CharacteristicId::HttpsSecurity => 0x2ABB,
            CharacteristicId::TdsControlPoint => 0x2ABC,
            CharacteristicId::OtsFeature => 0x2ABD,
            CharacteristicId::ObjectName => 0x2ABE,
            CharacteristicId::ObjectType => 0x2ABF,
            CharacteristicId::ObjectSize => 0x2AC0,
            CharacteristicId::ObjectFirstCreated => 0x2AC1,
            CharacteristicId::ObjectLastModified => 0x2AC2,
            CharacteristicId::ObjectId => 0x2AC3,
            CharacteristicId::ObjectProperties => 0x2AC4,
            CharacteristicId::ObjectActionControlPoint => 0x2AC5,
            CharacteristicId::ObjectListControlPoint => 0x2AC6,
            CharacteristicId::ObjectListFilter => 0x2AC7,
            CharacteristicId::ObjectChanged => 0x2AC8,
            CharacteristicId::ResolvablePrivateAddressOnly => 0x2AC9,
            CharacteristicId::FitnessMachineFeature => 0x2ACC,
            CharacteristicId::TreadmillData => 0x2ACD,
            CharacteristicId::CrossTrainerData => 0x2ACE,
            CharacteristicId::StepClimberData => 0x2ACF,
            CharacteristicId::StairClimberData => 0x2AD0,
            CharacteristicId::RowerData => 0x2AD1,
            CharacteristicId::IndoorBikeData => 0x2AD2,
            CharacteristicId::TrainingStatus => 0x2AD3,
            CharacteristicId::SupportedSpeedRange => 0x2AD4,
            CharacteristicId::SupportedInclinationRange => 0x2AD5,
            CharacteristicId::SupportedResistanceLevelRange => 0x2AD6,
            CharacteristicId::SupportedHeartRateRange => 0x2AD7,
            CharacteristicId::SupportedPowerRange => 0x2AD8,
            CharacteristicId::FitnessMachineControlPoint => 0x2AD9,
            CharacteristicId::FitnessMachineStatus => 0x2ADA,
            CharacteristicId::MeshProvisioningDataIn => 0x2ADB,
            CharacteristicId::MeshProvisioningDataOut => 0x2ADC,
            CharacteristicId::MeshProxyDataIn => 0x2ADD,
            CharacteristicId::MeshProxyDataOut => 0x2ADE,
            CharacteristicId::AverageCurrent => 0x2AE0,
            CharacteristicId::AverageVoltage => 0x2AE1,
            CharacteristicId::Boolean => 0x2AE2,
            CharacteristicId::ChromaticDistanceFromPlanckian => 0x2AE3,
            CharacteristicId::ChromaticityCoordinates => 0x2AE4,
            CharacteristicId::ChromaticityInCctAndDuvValues => 0x2AE5,
            CharacteristicId::ChromaticityTolerance => 0x2AE6,
            CharacteristicId::CieColorRenderingIndex => 0x2AE7,
            CharacteristicId::Coefficient => 0x2AE8,
            CharacteristicId::CorrelatedColorTemperature => 0x2AE9,
            CharacteristicId::Count16 => 0x2AEA,
            CharacteristicId::Count24 => 0x2AEB,
            CharacteristicId::CountryCode => 0x2AEC,
            CharacteristicId::DateUtc => 0x2AED,
            CharacteristicId::ElectricCurrent => 0x2AEE,
            CharacteristicId::ElectricCurrentRange => 0x2AEF,
            CharacteristicId::ElectricCurrentSpecification => 0x2AF0,
            CharacteristicId::ElectricCurrentStatistics => 0x2AF1,
            CharacteristicId::Energy => 0x2AF2,
            CharacteristicId::EnergyInAPeriodOfDay => 0x2AF3,
            CharacteristicId::EventStatistics => 0x2AF4,
            CharacteristicId::FixedString16 => 0x2AF5,
            CharacteristicId::FixedString24 => 0x2AF6,
            CharacteristicId::FixedString36 => 0x2AF7,
            CharacteristicId::FixedString8 => 0x2AF8,
            CharacteristicId::GenericLevel => 0x2AF9,
            CharacteristicId::GlobalTradeItemNumber => 0x2AFA,
            CharacteristicId::Illuminance => 0x2AFB,
            CharacteristicId::LuminousEfficacy => 0x2AFC,
            CharacteristicId::LuminousEnergy => 0x2AFD,
            CharacteristicId::LuminousExposure => 0x2AFE,
            CharacteristicId::LuminousFlux => 0x2AFF,
            CharacteristicId::LuminousFluxRange => 0x2B00,
            CharacteristicId::LuminousIntensity => 0x2B01,
            CharacteristicId::MassFlow => 0x2B02,
            CharacteristicId::PerceivedLightness => 0x2B03,
            CharacteristicId::Percentage8 => 0x2B04,
            CharacteristicId::Power => 0x2B05,
            CharacteristicId::PowerSpecification => 0x2B06,
            CharacteristicId::RelativeRuntimeInACurrentRange => 0x2B07,
            CharacteristicId::RelativeRuntimeInAGenericLevelRange => 0x2B08,
            CharacteristicId::RelativeValueInAVoltageRange => 0x2B09,
            CharacteristicId::RelativeValueInAnIlluminanceRange => 0x2B0A,
            CharacteristicId::RelativeValueInAPeriodOfDay => 0x2B0B,
            CharacteristicId::RelativeValueInATemperatureRange => 0x2B0C,
            CharacteristicId::Temperature8 => 0x2B0D,
            CharacteristicId::Temperature8InAPeriodOfDay => 0x2B0E,
            CharacteristicId::Temperature8Statistics => 0x2B0F,
            CharacteristicId::TemperatureRange => 0x2B10,
            CharacteristicId::TemperatureStatistics => 0x2B11,
            CharacteristicId::TimeDecihour8 => 0x2B12,
            CharacteristicId::TimeExponential8 => 0x2B13,
            CharacteristicId::TimeHour24 => 0x2B14,
            CharacteristicId::TimeMillisecond24 => 0x2B15,
            CharacteristicId::TimeSecond16 => 0x2B16,
            CharacteristicId::TimeSecond8 => 0x2B17,
            CharacteristicId::Voltage => 0x2B18,
            CharacteristicId::VoltageSpecification => 0x2B19,
            CharacteristicId::VoltageStatistics => 0x2B1A,
            CharacteristicId::VolumeFlow => 0x2B1B,
            CharacteristicId::ChromaticityCoordinate => 0x2B1C,
            CharacteristicId::RcFeature => 0x2B1D,
            CharacteristicId::RcSettings => 0x2B1E,
            CharacteristicId::ReconnectionConfigurationControlPoint => 0x2B1F,
            CharacteristicId::IddStatusChanged => 0x2B20,
            CharacteristicId::IddStatus => 0x2B21,
            CharacteristicId::IddAnnunciationStatus => 0x2B22,
            CharacteristicId::IddFeatures => 0x2B23,
            CharacteristicId::IddStatusReaderControlPoint => 0x2B24,
            CharacteristicId::IddCommandControlPoint => 0x2B25,
            CharacteristicId::IddCommandData => 0x2B26,
            CharacteristicId::IddRecordAccessControlPoint => 0x2B27,
            CharacteristicId::IddHistoryData => 0x2B28,
            CharacteristicId::ClientSupportedFeatures => 0x2B29,
            CharacteristicId::DatabaseHash => 0x2B2A,
            CharacteristicId::BssControlPoint => 0x2B2B,
            CharacteristicId::BssResponse => 0x2B2C,
            CharacteristicId::EmergencyId => 0x2B2D,
            CharacteristicId::EmergencyText => 0x2B2E,
            CharacteristicId::AcsStatus => 0x2B2F,
            CharacteristicId::AcsDataIn => 0x2B30,
            CharacteristicId::AcsDataOutNotify => 0x2B31,
            CharacteristicId::AcsDataOutIndicate => 0x2B32,
            CharacteristicId::AcsControlPoint => 0x2B33,
            CharacteristicId::EnhancedBloodPressureMeasurement => 0x2B34,
            CharacteristicId::EnhancedIntermediateCuffPressure => 0x2B35,
            CharacteristicId::BloodPressureRecord => 0x2B36,
            CharacteristicId::RegisteredUser => 0x2B37,
            CharacteristicId::BredrHandoverData => 0x2B38,
            CharacteristicId::BluetoothSigData => 0x2B39,
            CharacteristicId::ServerSupportedFeatures => 0x2B3A,
            CharacteristicId::PhysicalActivityMonitorFeatures => 0x2B3B,
            CharacteristicId::GeneralActivityInstantaneousData => 0x2B3C,
            CharacteristicId::GeneralActivitySummaryData => 0x2B3D,
            CharacteristicId::CardioRespiratoryActivityInstantaneousData => 0x2B3E,
            CharacteristicId::CardioRespiratoryActivitySummaryData => 0x2B3F,
            CharacteristicId::StepCounterActivitySummaryData => 0x2B40,
            CharacteristicId::SleepActivityInstantaneousData => 0x2B41,
            CharacteristicId::SleepActivitySummaryData => 0x2B42,
            CharacteristicId::PhysicalActivityMonitorControlPoint => 0x2B43,
            CharacteristicId::ActivityCurrentSession => 0x2B44,
            CharacteristicId::PhysicalActivitySessionDescriptor => 0x2B45,
            CharacteristicId::PreferredUnits => 0x2B46,
            CharacteristicId::HighResolutionHeight => 0x2B47,
            CharacteristicId::MiddleName => 0x2B48,
            CharacteristicId::StrideLength => 0x2B49,
            CharacteristicId::Handedness => 0x2B4A,
            CharacteristicId::DeviceWearingPosition => 0x2B4B,
            CharacteristicId::FourZoneHeartRateLimits => 0x2B4C,
            CharacteristicId::HighIntensityExerciseThreshold => 0x2B4D,
            CharacteristicId::ActivityGoal => 0x2B4E,
            CharacteristicId::SedentaryIntervalNotification => 0x2B4F,
            CharacteristicId::CaloricIntake => 0x2B50,
            CharacteristicId::TmapRole => 0x2B51,
            CharacteristicId::AudioInputState => 0x2B77,
            CharacteristicId::GainSettingsAttribute => 0x2B78,
            CharacteristicId::AudioInputType => 0x2B79,
            CharacteristicId::AudioInputStatus => 0x2B7A,
            CharacteristicId::AudioInputControlPoint => 0x2B7B,
            CharacteristicId::AudioInputDescription => 0x2B7C,
            CharacteristicId::VolumeState => 0x2B7D,
            CharacteristicId::VolumeControlPoint => 0x2B7E,
            CharacteristicId::VolumeFlags => 0x2B7F,
            CharacteristicId::VolumeOffsetState => 0x2B80,
            CharacteristicId::AudioLocation => 0x2B81,
            CharacteristicId::VolumeOffsetControlPoint => 0x2B82,
            CharacteristicId::AudioOutputDescription => 0x2B83,
            CharacteristicId::SetIdentityResolvingKey => 0x2B84,
            CharacteristicId::CoordinatedSetSize => 0x2B85,
            CharacteristicId::SetMemberLock => 0x2B86,
            CharacteristicId::SetMemberRank => 0x2B87,
            CharacteristicId::ApparentEnergy32 => 0x2B89,
            CharacteristicId::ApparentPower => 0x2B8A,
            CharacteristicId::Co2Concentration => 0x2B8C,
            CharacteristicId::CosineOfTheAngle => 0x2B8D,
            CharacteristicId::DeviceTimeFeature => 0x2B8E,
            CharacteristicId::DeviceTimeParameters => 0x2B8F,
            CharacteristicId::DeviceTime => 0x2B90,
            CharacteristicId::DeviceTimeControlPoint => 0x2B91,
            CharacteristicId::TimeChangeLogData => 0x2B92,
            CharacteristicId::MediaPlayerName => 0x2B93,
            CharacteristicId::MediaPlayerIconObjectId => 0x2B94,
            CharacteristicId::MediaPlayerIconUrl => 0x2B95,
            CharacteristicId::TrackChanged => 0x2B96,
            CharacteristicId::TrackTitle => 0x2B97,
            CharacteristicId::TrackDuration => 0x2B98,
            CharacteristicId::TrackPosition => 0x2B99,
            CharacteristicId::PlaybackSpeed => 0x2B9A,
            CharacteristicId::SeekingSpeed => 0x2B9B,
            CharacteristicId::CurrentTrackSegmentsObjectId => 0x2B9C,
            CharacteristicId::CurrentTrackObjectId => 0x2B9D,
            CharacteristicId::NextTrackObjectId => 0x2B9E,
            CharacteristicId::ParentGroupObjectId => 0x2B9F,
            CharacteristicId::CurrentGroupObjectId => 0x2BA0,
            CharacteristicId::PlayingOrder => 0x2BA1,
            CharacteristicId::PlayingOrdersSupported => 0x2BA2,
            CharacteristicId::MediaState => 0x2BA3,
            CharacteristicId::MediaControlPoint => 0x2BA4,
            CharacteristicId::MediaControlPointOpcodesSupported => 0x2BA5,
            CharacteristicId::SearchResultsObjectId => 0x2BA6,
            CharacteristicId::SearchControlPoint => 0x2BA7,
            CharacteristicId::Energy32 => 0x2BA8,
            CharacteristicId::MediaPlayerIconObjectType => 0x2BA9,
            CharacteristicId::TrackSegmentsObjectType => 0x2BAA,
            CharacteristicId::TrackObjectType => 0x2BAB,
            CharacteristicId::GroupObjectType => 0x2BAC,
            CharacteristicId::ConstantToneExtensionEnable => 0x2BAD,
            CharacteristicId::AdvertisingConstantToneExtensionMinimumLength => 0x2BAE,
            CharacteristicId::AdvertisingConstantToneExtensionMinimumTransmitCount => 0x2BAF,
            CharacteristicId::AdvertisingConstantToneExtensionTransmitDuration => 0x2BB0,
            CharacteristicId::AdvertisingConstantToneExtensionInterval => 0x2BB1,
            CharacteristicId::AdvertisingConstantToneExtensionPhy => 0x2BB2,
            CharacteristicId::BearerProviderName => 0x2BB3,
            CharacteristicId::BearerUci => 0x2BB4,
            CharacteristicId::BearerTechnology => 0x2BB5,
            CharacteristicId::BearerUriSchemesSupportedList => 0x2BB6,
            CharacteristicId::BearerSignalStrength => 0x2BB7,
            CharacteristicId::BearerSignalStrengthReportingInterval => 0x2BB8,
            CharacteristicId::BearerListCurrentCalls => 0x2BB9,
            CharacteristicId::ContentControlId => 0x2BBA,
            CharacteristicId::StatusFlags => 0x2BBB,
            CharacteristicId::IncomingCallTargetBearerUri => 0x2BBC,
            CharacteristicId::CallState => 0x2BBD,
            CharacteristicId::CallControlPoint => 0x2BBE,
            CharacteristicId::CallControlPointOptionalOpcodes => 0x2BBF,
            CharacteristicId::TerminationReason => 0x2BC0,
            CharacteristicId::IncomingCall => 0x2BC1,
            CharacteristicId::CallFriendlyName => 0x2BC2,
            CharacteristicId::Mute => 0x2BC3,
            CharacteristicId::SinkAse => 0x2BC4,
            CharacteristicId::SourceAse => 0x2BC5,
            CharacteristicId::AseControlPoint => 0x2BC6,
            CharacteristicId::BroadcastAudioScanControlPoint => 0x2BC7,
            CharacteristicId::BroadcastReceiveState => 0x2BC8,
            CharacteristicId::SinkPac => 0x2BC9,
            CharacteristicId::SinkAudioLocations => 0x2BCA,
            CharacteristicId::SourcePac => 0x2BCB,
            CharacteristicId::SourceAudioLocations => 0x2BCC,
            CharacteristicId::AvailableAudioContexts => 0x2BCD,
            CharacteristicId::SupportedAudioContexts => 0x2BCE,
            CharacteristicId::AmmoniaConcentration => 0x2BCF,
            CharacteristicId::CarbonMonoxideConcentration => 0x2BD0,
            CharacteristicId::MethaneConcentration => 0x2BD1,
            CharacteristicId::NitrogenDioxideConcentration => 0x2BD2,
            CharacteristicId::NonMethaneVolatileOrganicCompoundsConcentration => 0x2BD3,
            CharacteristicId::OzoneConcentration => 0x2BD4,
            CharacteristicId::ParticulateMatterPm1Concentration => 0x2BD5,
            CharacteristicId::ParticulateMatterPm25Concentration => 0x2BD6,
            CharacteristicId::ParticulateMatterPm10Concentration => 0x2BD7,
            CharacteristicId::SulfurDioxideConcentration => 0x2BD8,
            CharacteristicId::SulfurHexafluorideConcentration => 0x2BD9,
            CharacteristicId::HearingAidFeatures => 0x2BDA,
            CharacteristicId::HearingAidPresetControlPoint => 0x2BDB,
            CharacteristicId::ActivePresetIndex => 0x2BDC,
            CharacteristicId::FixedString64 => 0x2BDE,
            CharacteristicId::HighTemperature => 0x2BDF,
            CharacteristicId::HighVoltage => 0x2BE0,
            CharacteristicId::LightDistribution => 0x2BE1,
            CharacteristicId::LightOutput => 0x2BE2,
            CharacteristicId::LightSourceType => 0x2BE3,
            CharacteristicId::Noise => 0x2BE4,
            CharacteristicId::RelativeRuntimeInACorrelatedColorTemperatureRange => 0x2BE5,
            CharacteristicId::TimeSecond32 => 0x2BE6,
            CharacteristicId::VocConcentration => 0x2BE7,
            CharacteristicId::VoltageFrequency => 0x2BE8,
        }
    }

    /// Returns the 16-bit value that the Bluetooth SIG assigned.
    #[verifier::when_used_as_spec(spec_raw)]
    pub fn raw(self) -> (r: u16)
        ensures
            r == self.spec_raw(),
            r != 0,
    {
        match self {
            CharacteristicId::DeviceName => 0x2A00,
            CharacteristicId::Appearance => 0x2A01,
            CharacteristicId::PeripheralPrivacyFlag => 0x2A02,
            CharacteristicId::ReconnectionAddress => 0x2A03,
            CharacteristicId::PeripheralPreferredConnectionParameters => 0x2A04,
            CharacteristicId::ServiceChanged => 0x2A05,
            CharacteristicId::AlertLevel => 0x2A06,
            CharacteristicId::TxPowerLevel => 0x2A07,
            CharacteristicId::DateTime => 0x2A08,
            CharacteristicId::DayOfWeek => 0x2A09,
            CharacteristicId::DayDateTime => 0x2A0A,
            CharacteristicId::ExactTime256 => 0x2A0C,
            CharacteristicId::DstOffset => 0x2A0D,
            CharacteristicId::TimeZone => 0x2A0E,
            CharacteristicId::LocalTimeInformation => 0x2A0F,
            CharacteristicId::TimeWithDst => 0x2A11,
            CharacteristicId::TimeAccuracy => 0x2A12,
            CharacteristicId::TimeSource => 0x2A13,
            CharacteristicId::ReferenceTimeInformation => 0x2A14,
            CharacteristicId::TimeUpdateControlPoint => 0x2A16,
            CharacteristicId::TimeUpdateState => 0x2A17,
            CharacteristicId::GlucoseMeasurement => 0x2A18,
            CharacteristicId::BatteryLevel => 0x2A19,
            CharacteristicId::TemperatureMeasurement => 0x2A1C,
            CharacteristicId::TemperatureType => 0x2A1D,
            CharacteristicId::IntermediateTemperature => 0x2A1E,
            CharacteristicId::MeasurementInterval => 0x2A21,
            CharacteristicId::BootKeyboardInputReport => 0x2A22,
            CharacteristicId::SystemId => 0x2A23,
            CharacteristicId::ModelNumberString => 0x2A24,
            CharacteristicId::SerialNumberString => 0x2A25,
            CharacteristicId::FirmwareRevisionString => 0x2A26,
            CharacteristicId::HardwareRevisionString => 0x2A27,
            CharacteristicId::SoftwareRevisionString => 0x2A28,
            CharacteristicId::ManufacturerNameString => 0x2A29,
            CharacteristicId::IeeeRegulatoryCertificationDataList => 0x2A2A,
            CharacteristicId::CurrentTime => 0x2A2B,
            CharacteristicId::MagneticDeclination => 0x2A2C,
            CharacteristicId::ScanRefresh => 0x2A31,
            CharacteristicId::BootKeyboardOutputReport => 0x2A32,
            CharacteristicId::BootMouseInputReport => 0x2A33,
            CharacteristicId::GlucoseMeasurementContext => 0x2A34,
            CharacteristicId::BloodPressureMeasurement => 0x2A35,
            CharacteristicId::IntermediateCuffPressure => 0x2A36,
            CharacteristicId::HeartRateMeasurement => 0x2A37,
            CharacteristicId::BodySensorLocation => 0x2A38,
            CharacteristicId::HeartRateControlPoint => 0x2A39,
            CharacteristicId::AlertStatus => 0x2A3F,
            CharacteristicId::RingerControlPoint => 0x2A40,
            CharacteristicId::RingerSetting => 0x2A41,
            CharacteristicId::AlertCategoryIdBitMask => 0x2A42,
            CharacteristicId::AlertCategoryId => 0x2A43,
            CharacteristicId::AlertNotificationControlPoint => 0x2A44,
            CharacteristicId::UnreadAlertStatus => 0x2A45,
            CharacteristicId::NewAlert => 0x2A46,
            CharacteristicId::SupportedNewAlertCategory => 0x2A47,
            CharacteristicId::SupportedUnreadAlertCategory => 0x2A48,
            CharacteristicId::BloodPressureFeature => 0x2A49,
            CharacteristicId::HidInformation => 0x2A4A,
            CharacteristicId::ReportMap => 0x2A4B,
            CharacteristicId::HidControlPoint => 0x2A4C,
            CharacteristicId::Report => 0x2A4D,
            CharacteristicId::ProtocolMode => 0x2A4E,
            CharacteristicId::ScanIntervalWindow => 0x2A4F,
            CharacteristicId::PnpId => 0x2A50,
            CharacteristicId::GlucoseFeature => 0x2A51,
            CharacteristicId::RecordAccessControlPoint => 0x2A52,
            CharacteristicId::RscMeasurement => 0x2A53,
            CharacteristicId::RscFeature => 0x2A54,
            CharacteristicId::ScControlPoint => 0x2A55,
            CharacteristicId::Aggregate => 0x2A5A,
            CharacteristicId::CscMeasurement => 0x2A5B,
            CharacteristicId::CscFeature => 0x2A5C,
            CharacteristicId::SensorLocation => 0x2A5D,
            CharacteristicId::PlxSpotCheckMeasurement => 0x2A5E,
            CharacteristicId::PlxContinuousMeasurement => 0x2A5F,
            CharacteristicId::PlxFeatures => 0x2A60,
            CharacteristicId::CyclingPowerMeasurement => 0x2A63,
            CharacteristicId::CyclingPowerVector => 0x2A64,
            CharacteristicId::CyclingPowerFeature => 0x2A65,
            CharacteristicId::CyclingPowerControlPoint => 0x2A66,
            CharacteristicId::LocationAndSpeed => 0x2A67,
            CharacteristicId::Navigation => 0x2A68,
            CharacteristicId::PositionQuality => 0x2A69,
            CharacteristicId::LnFeature => 0x2A6A,
            CharacteristicId::LnControlPoint => 0x2A6B,
            CharacteristicId::Elevation => 0x2A6C,
            CharacteristicId::Pressure => 0x2A6D,
            CharacteristicId::Temperature => 0x2A6E,
            CharacteristicId::Humidity => 0x2A6F,
            CharacteristicId::TrueWindSpeed => 0x2A70,
            CharacteristicId::TrueWindDirection => 0x2A71,
            CharacteristicId::ApparentWindSpeed => 0x2A72,
            CharacteristicId::ApparentWindDirection => 0x2A73,
            CharacteristicId::GustFactor => 0x2A74,
            CharacteristicId::PollenConcentration => 0x2A75,
            CharacteristicId::UvIndex => 0x2A76,
            CharacteristicId::Irradiance => 0x2A77,
            CharacteristicId::Rainfall => 0x2A78,
            CharacteristicId::WindChill => 0x2A79,
            CharacteristicId::HeatIndex => 0x2A7A,
            CharacteristicId::DewPoint => 0x2A7B,
            CharacteristicId::DescriptorValueChanged => 0x2A7D,
            CharacteristicId::AerobicHeartRateLowerLimit => 0x2A7E,
            CharacteristicId::AerobicThreshold => 0x2A7F,
            CharacteristicId::Age => 0x2A80,
            CharacteristicId::AnaerobicHeartRateLowerLimit => 0x2A81,
            CharacteristicId::AnaerobicHeartRateUpperLimit => 0x2A82,
            CharacteristicId::AnaerobicThreshold => 0x2A83,
            CharacteristicId::AerobicHeartRateUpperLimit => 0x2A84,
            CharacteristicId::DateOfBirth => 0x2A85,
            CharacteristicId::DateOfThresholdAssessment => 0x2A86,
            CharacteristicId::EmailAddress => 0x2A87,
            CharacteristicId::FatBurnHeartRateLowerLimit => 0x2A88,
            CharacteristicId::FatBurnHeartRateUpperLimit => 0x2A89,
            CharacteristicId::FirstName => 0x2A8A,
            CharacteristicId::FiveZoneHeartRateLimits => 0x2A8B,
            CharacteristicId::Gender => 0x2A8C,
            CharacteristicId::HeartRateMax => 0x2A8D,
            CharacteristicId::Height => 0x2A8E,
            CharacteristicId::HipCircumference => 0x2A8F,
            CharacteristicId::LastName => 0x2A90,
            CharacteristicId::MaximumRecommendedHeartRate => 0x2A91,
            CharacteristicId::RestingHeartRate => 0x2A92,
            CharacteristicId::SportTypeForAerobicAndAnaerobicThresholds => 0x2A93,
            CharacteristicId::ThreeZoneHeartRateLimits => 0x2A94,
            CharacteristicId::TwoZoneHeartRateLimits => 0x2A95,
            CharacteristicId::Vo2Max => 0x2A96,
            CharacteristicId::WaistCircumference => 0x2A97,
            CharacteristicId::Weight => 0x2A98,
            CharacteristicId::DatabaseChangeIncrement => 0x2A99,
            CharacteristicId::UserIndex => 0x2A9A,
            CharacteristicId::BodyCompositionFeature => 0x2A9B,
            CharacteristicId::BodyCompositionMeasurement => 0x2A9C,
            CharacteristicId::WeightMeasurement => 0x2A9D,
            CharacteristicId::WeightScaleFeature => 0x2A9E,
            CharacteristicId::UserControlPoint => 0x2A9F,
            CharacteristicId::MagneticFluxDensity2D => 0x2AA0,
            CharacteristicId::MagneticFluxDensity3D => 0x2AA1,
            CharacteristicId::Language => 0x2AA2,
            CharacteristicId::BarometricPressureTrend => 0x2AA3,
            CharacteristicId::BondManagementControlPoint => 0x2AA4,
            CharacteristicId::BondManagementFeature => 0x2AA5,
            CharacteristicId::CentralAddressResolution => 0x2AA6,
            CharacteristicId::CgmMeasurement => 0x2AA7,
            CharacteristicId::CgmFeature => 0x2AA8,
            CharacteristicId::CgmStatus => 0x2AA9,
            CharacteristicId::CgmSessionStartTime => 0x2AAA,
            CharacteristicId::CgmSessionRunTime => 0x2AAB,
            CharacteristicId::CgmSpecificOpsControlPoint => 0x2AAC,
            CharacteristicId::IndoorPositioningConfiguration => 0x2AAD,
            CharacteristicId::Latitude => 0x2AAE,
            CharacteristicId::Longitude => 0x2AAF,
            CharacteristicId::LocalNorthCoordinate => 0x2AB0,
            CharacteristicId::LocalEastCoordinate => 0x2AB1,
            CharacteristicId::FloorNumber => 0x2AB2,
            CharacteristicId::Altitude => 0x2AB3,
            CharacteristicId::Uncertainty => 0x2AB4,
            CharacteristicId::LocationName => 0x2AB5,
            CharacteristicId::Uri => 0x2AB6,
            CharacteristicId::HttpHeaders => 0x2AB7,
            CharacteristicId::HttpStatusCode => 0x2AB8,
            CharacteristicId::HttpEntityBody => 0x2AB9,
            CharacteristicId::HttpControlPoint => 0x2ABA,
            CharacteristicId::HttpsSecurity => 0x2ABB,
            CharacteristicId::TdsControlPoint => 0x2ABC,
            CharacteristicId::OtsFeature => 0x2ABD,
            CharacteristicId::ObjectName => 0x2ABE,
            CharacteristicId::ObjectType => 0x2ABF,
            CharacteristicId::ObjectSize => 0x2AC0,
            CharacteristicId::ObjectFirstCreated => 0x2AC1,
            CharacteristicId::ObjectLastModified => 0x2AC2,
            CharacteristicId::ObjectId => 0x2AC3,
            CharacteristicId::ObjectProperties => 0x2AC4,
            CharacteristicId::ObjectActionControlPoint => 0x2AC5,
            CharacteristicId::ObjectListControlPoint => 0x2AC6,
            CharacteristicId::ObjectListFilter => 0x2AC7,
            CharacteristicId::ObjectChanged => 0x2AC8,
            CharacteristicId::ResolvablePrivateAddressOnly => 0x2AC9,
            CharacteristicId::FitnessMachineFeature => 0x2ACC,
            CharacteristicId::TreadmillData => 0x2ACD,
            CharacteristicId::CrossTrainerData => 0x2ACE,
            CharacteristicId::StepClimberData => 0x2ACF,
            CharacteristicId::StairClimberData => 0x2AD0,
            CharacteristicId::RowerData => 0x2AD1,
            CharacteristicId::IndoorBikeData => 0x2AD2,
            CharacteristicId::TrainingStatus => 0x2AD3,
            CharacteristicId::SupportedSpeedRange => 0x2AD4,
            CharacteristicId::SupportedInclinationRange => 0x2AD5,
            CharacteristicId::SupportedResistanceLevelRange => 0x2AD6,
            CharacteristicId::SupportedHeartRateRange => 0x2AD7,
            CharacteristicId::SupportedPowerRange => 0x2AD8,
            CharacteristicId::FitnessMachineControlPoint => 0x2AD9,
            CharacteristicId::FitnessMachineStatus => 0x2ADA,
            CharacteristicId::MeshProvisioningDataIn => 0x2ADB,
            CharacteristicId::MeshProvisioningDataOut => 0x2ADC,
            CharacteristicId::MeshProxyDataIn => 0x2ADD,
            CharacteristicId::MeshProxyDataOut => 0x2ADE,
            CharacteristicId::AverageCurrent => 0x2AE0,
            CharacteristicId::AverageVoltage => 0x2AE1,
            CharacteristicId::Boolean => 0x2AE2,
            CharacteristicId::ChromaticDistanceFromPlanckian => 0x2AE3,
            CharacteristicId::ChromaticityCoordinates => 0x2AE4,
            CharacteristicId::ChromaticityInCctAndDuvValues => 0x2AE5,
            CharacteristicId::ChromaticityTolerance => 0x2AE6,
            CharacteristicId::CieColorRenderingIndex => 0x2AE7,
            CharacteristicId::Coefficient => 0x2AE8,
            CharacteristicId::CorrelatedColorTemperature => 0x2AE9,
            CharacteristicId::Count16 => 0x2AEA,
            CharacteristicId::Count24 => 0x2AEB,
            CharacteristicId::CountryCode => 0x2AEC,
            CharacteristicId::DateUtc => 0x2AED,
            CharacteristicId::ElectricCurrent => 0x2AEE,
            CharacteristicId::ElectricCurrentRange => 0x2AEF,
            CharacteristicId::ElectricCurrentSpecification => 0x2AF0,
            CharacteristicId::ElectricCurrentStatistics => 0x2AF1,
            CharacteristicId::Energy => 0x2AF2,
            CharacteristicId::EnergyInAPeriodOfDay => 0x2AF3,
            CharacteristicId::EventStatistics => 0x2AF4,
            CharacteristicId::FixedString16 => 0x2AF5,
            CharacteristicId::FixedString24 => 0x2AF6,
            CharacteristicId::FixedString36 => 0x2AF7,
            CharacteristicId::FixedString8 => 0x2AF8,
            CharacteristicId::GenericLevel => 0x2AF9,
            CharacteristicId::GlobalTradeItemNumber => 0x2AFA,
            CharacteristicId::Illuminance => 0x2AFB,
            CharacteristicId::LuminousEfficacy => 0x2AFC,
            CharacteristicId::LuminousEnergy => 0x2AFD,
            CharacteristicId::LuminousExposure => 0x2AFE,
            CharacteristicId::LuminousFlux => 0x2AFF,
            CharacteristicId::LuminousFluxRange => 0x2B00,
            CharacteristicId::LuminousIntensity => 0x2B01,
            CharacteristicId::MassFlow => 0x2B02,
            CharacteristicId::PerceivedLightness => 0x2B03,
            CharacteristicId::Percentage8 => 0x2B04,
            CharacteristicId::Power => 0x2B05,
            CharacteristicId::PowerSpecification => 0x2B06,
            CharacteristicId::RelativeRuntimeInACurrentRange => 0x2B07,
            CharacteristicId::RelativeRuntimeInAGenericLevelRange => 0x2B08,
            CharacteristicId::RelativeValueInAVoltageRange => 0x2B09,
            CharacteristicId::RelativeValueInAnIlluminanceRange => 0x2B0A,
            CharacteristicId::RelativeValueInAPeriodOfDay => 0x2B0B,
            CharacteristicId::RelativeValueInATemperatureRange => 0x2B0C,
            CharacteristicId::Temperature8 => 0x2B0D,
            CharacteristicId::Temperature8InAPeriodOfDay => 0x2B0E,
            CharacteristicId::Temperature8Statistics => 0x2B0F,
            CharacteristicId::TemperatureRange => 0x2B10,
            CharacteristicId::TemperatureStatistics => 0x2B11,
            CharacteristicId::TimeDecihour8 => 0x2B12,
            CharacteristicId::TimeExponential8 => 0x2B13,
            CharacteristicId::TimeHour24 => 0x2B14,
            CharacteristicId::TimeMillisecond24 => 0x2B15,
            CharacteristicId::TimeSecond16 => 0x2B16,
            CharacteristicId::TimeSecond8 => 0x2B17,
            CharacteristicId::Voltage => 0x2B18,
            CharacteristicId::VoltageSpecification => 0x2B19,
            CharacteristicId::VoltageStatistics => 0x2B1A,
            CharacteristicId::VolumeFlow => 0x2B1B,
            CharacteristicId::ChromaticityCoordinate => 0x2B1C,
            CharacteristicId::RcFeature => 0x2B1D,
            CharacteristicId::RcSettings => 0x2B1E,
            CharacteristicId::ReconnectionConfigurationControlPoint => 0x2B1F,
            CharacteristicId::IddStatusChanged => 0x2B20,
            CharacteristicId::IddStatus => 0x2B21,
            CharacteristicId::IddAnnunciationStatus => 0x2B22,
            CharacteristicId::IddFeatures => 0x2B23,
            CharacteristicId::IddStatusReaderControlPoint => 0x2B24,
            CharacteristicId::IddCommandControlPoint => 0x2B25,
            CharacteristicId::IddCommandData => 0x2B26,
            CharacteristicId::IddRecordAccessControlPoint => 0x2B27,
            CharacteristicId::IddHistoryData => 0x2B28,
            CharacteristicId::ClientSupportedFeatures => 0x2B29,
            CharacteristicId::DatabaseHash => 0x2B2A,
            CharacteristicId::BssControlPoint => 0x2B2B,
            CharacteristicId::BssResponse => 0x2B2C,
            CharacteristicId::EmergencyId => 0x2B2D,
            CharacteristicId::EmergencyText => 0x2B2E,
            CharacteristicId::AcsStatus => 0x2B2F,
            CharacteristicId::AcsDataIn => 0x2B30,
            CharacteristicId::AcsDataOutNotify => 0x2B31,
            CharacteristicId::AcsDataOutIndicate => 0x2B32,
            CharacteristicId::AcsControlPoint => 0x2B33,
            CharacteristicId::EnhancedBloodPressureMeasurement => 0x2B34,
            CharacteristicId::EnhancedIntermediateCuffPressure => 0x2B35,
            CharacteristicId::BloodPressureRecord => 0x2B36,
            CharacteristicId::RegisteredUser => 0x2B37,
            CharacteristicId::BredrHandoverData => 0x2B38,
            CharacteristicId::BluetoothSigData => 0x2B39,
            CharacteristicId::ServerSupportedFeatures => 0x2B3A,
            CharacteristicId::PhysicalActivityMonitorFeatures => 0x2B3B,
            CharacteristicId::GeneralActivityInstantaneousData => 0x2B3C,
            CharacteristicId::GeneralActivitySummaryData => 0x2B3D,
            CharacteristicId::CardioRespiratoryActivityInstantaneousData => 0x2B3E,
            CharacteristicId::CardioRespiratoryActivitySummaryData => 0x2B3F,
            CharacteristicId::StepCounterActivitySummaryData => 0x2B40,
            CharacteristicId::SleepActivityInstantaneousData => 0x2B41,
            CharacteristicId::SleepActivitySummaryData => 0x2B42,
            CharacteristicId::PhysicalActivityMonitorControlPoint => 0x2B43,
            CharacteristicId::ActivityCurrentSession => 0x2B44,
            CharacteristicId::PhysicalActivitySessionDescriptor => 0x2B45,
            CharacteristicId::PreferredUnits => 0x2B46,
            CharacteristicId::HighResolutionHeight => 0x2B47,
            CharacteristicId::MiddleName => 0x2B48,
            CharacteristicId::StrideLength => 0x2B49,
            CharacteristicId::Handedness => 0x2B4A,
            CharacteristicId::DeviceWearingPosition => 0x2B4B,
            CharacteristicId::FourZoneHeartRateLimits => 0x2B4C,
            CharacteristicId::HighIntensityExerciseThreshold => 0x2B4D,
            CharacteristicId::ActivityGoal => 0x2B4E,
            CharacteristicId::SedentaryIntervalNotification => 0x2B4F,
            CharacteristicId::CaloricIntake => 0x2B50,
            CharacteristicId::TmapRole => 0x2B51,
            CharacteristicId::AudioInputState => 0x2B77,
            CharacteristicId::GainSettingsAttribute => 0x2B78,
            CharacteristicId::AudioInputType => 0x2B79,
            CharacteristicId::AudioInputStatus => 0x2B7A,
            CharacteristicId::AudioInputControlPoint => 0x2B7B,
            CharacteristicId::AudioInputDescription => 0x2B7C,
            CharacteristicId::VolumeState => 0x2B7D,
            CharacteristicId::VolumeControlPoint => 0x2B7E,
            CharacteristicId::VolumeFlags => 0x2B7F,
            CharacteristicId::VolumeOffsetState => 0x2B80,
            CharacteristicId::AudioLocation => 0x2B81,
            CharacteristicId::VolumeOffsetControlPoint => 0x2B82,
            CharacteristicId::AudioOutputDescription => 0x2B83,
            CharacteristicId::SetIdentityResolvingKey => 0x2B84,
            CharacteristicId::CoordinatedSetSize => 0x2B85,
            CharacteristicId::SetMemberLock => 0x2B86,
            CharacteristicId::SetMemberRank => 0x2B87,
            CharacteristicId::ApparentEnergy32 => 0x2B89,
            CharacteristicId::ApparentPower => 0x2B8A,
            CharacteristicId::Co2Concentration => 0x2B8C,
            CharacteristicId::CosineOfTheAngle => 0x2B8D,
            CharacteristicId::DeviceTimeFeature => 0x2B8E,
            CharacteristicId::DeviceTimeParameters => 0x2B8F,
            CharacteristicId::DeviceTime => 0x2B90,
            CharacteristicId::DeviceTimeControlPoint => 0x2B91,
            CharacteristicId::TimeChangeLogData => 0x2B92,
            CharacteristicId::MediaPlayerName => 0x2B93,
            CharacteristicId::MediaPlayerIconObjectId => 0x2B94,
            CharacteristicId::MediaPlayerIconUrl => 0x2B95,
            CharacteristicId::TrackChanged => 0x2B96,
            CharacteristicId::TrackTitle => 0x2B97,
            CharacteristicId::TrackDuration => 0x2B98,
            CharacteristicId::TrackPosition => 0x2B99,
            CharacteristicId::PlaybackSpeed => 0x2B9A,
            CharacteristicId::SeekingSpeed => 0x2B9B,
            CharacteristicId::CurrentTrackSegmentsObjectId => 0x2B9C,
            CharacteristicId::CurrentTrackObjectId => 0x2B9D,
            CharacteristicId::NextTrackObjectId => 0x2B9E,
            CharacteristicId::ParentGroupObjectId => 0x2B9F,
            CharacteristicId::CurrentGroupObjectId => 0x2BA0,
            CharacteristicId::PlayingOrder => 0x2BA1,
            CharacteristicId::PlayingOrdersSupported => 0x2BA2,
            CharacteristicId::MediaState => 0x2BA3,
            CharacteristicId::MediaControlPoint => 0x2BA4,
            CharacteristicId::MediaControlPointOpcodesSupported => 0x2BA5,
            CharacteristicId::SearchResultsObjectId => 0x2BA6,
            CharacteristicId::SearchControlPoint => 0x2BA7,
            CharacteristicId::Energy32 => 0x2BA8,
            CharacteristicId::MediaPlayerIconObjectType => 0x2BA9,
            CharacteristicId::TrackSegmentsObjectType => 0x2BAA,
            CharacteristicId::TrackObjectType => 0x2BAB,
            CharacteristicId::GroupObjectType => 0x2BAC,
            CharacteristicId::ConstantToneExtensionEnable => 0x2BAD,
            CharacteristicId::AdvertisingConstantToneExtensionMinimumLength => 0x2BAE,
            CharacteristicId::AdvertisingConstantToneExtensionMinimumTransmitCount => 0x2BAF,
            CharacteristicId::AdvertisingConstantToneExtensionTransmitDuration => 0x2BB0,
            CharacteristicId::AdvertisingConstantToneExtensionInterval => 0x2BB1,
            CharacteristicId::AdvertisingConstantToneExtensionPhy => 0x2BB2,
            CharacteristicId::BearerProviderName => 0x2BB3,
            CharacteristicId::BearerUci => 0x2BB4,
            CharacteristicId::BearerTechnology => 0x2BB5,
            CharacteristicId::BearerUriSchemesSupportedList => 0x2BB6,
            CharacteristicId::BearerSignalStrength => 0x2BB7,
            CharacteristicId::BearerSignalStrengthReportingInterval => 0x2BB8,
            CharacteristicId::BearerListCurrentCalls => 0x2BB9,
            CharacteristicId::ContentControlId => 0x2BBA,
            CharacteristicId::StatusFlags => 0x2BBB,
            CharacteristicId::IncomingCallTargetBearerUri => 0x2BBC,
            CharacteristicId::CallState => 0x2BBD,
            CharacteristicId::CallControlPoint => 0x2BBE,
            CharacteristicId::CallControlPointOptionalOpcodes => 0x2BBF,
            CharacteristicId::TerminationReason => 0x2BC0,
            CharacteristicId::IncomingCall => 0x2BC1,
            CharacteristicId::CallFriendlyName => 0x2BC2,
            CharacteristicId::Mute => 0x2BC3,
            CharacteristicId::SinkAse => 0x2BC4,
            CharacteristicId::SourceAse => 0x2BC5,
            CharacteristicId::AseControlPoint => 0x2BC6,
            CharacteristicId::BroadcastAudioScanControlPoint => 0x2BC7,
            CharacteristicId::BroadcastReceiveState => 0x2BC8,
            CharacteristicId::SinkPac => 0x2BC9,
            CharacteristicId::SinkAudioLocations => 0x2BCA,
            CharacteristicId::SourcePac => 0x2BCB,
            CharacteristicId::SourceAudioLocations => 0x2BCC,
            CharacteristicId::AvailableAudioContexts => 0x2BCD,
            CharacteristicId::SupportedAudioContexts => 0x2BCE,
            CharacteristicId::AmmoniaConcentration => 0x2BCF,
            CharacteristicId::CarbonMonoxideConcentration => 0x2BD0,
            CharacteristicId::MethaneConcentration => 0x2BD1,
            CharacteristicId::NitrogenDioxideConcentration => 0x2BD2,
            CharacteristicId::NonMethaneVolatileOrganicCompoundsConcentration => 0x2BD3,
            CharacteristicId::OzoneConcentration => 0x2BD4,
            CharacteristicId::ParticulateMatterPm1Concentration => 0x2BD5,
            CharacteristicId::ParticulateMatterPm25Concentration => 0x2BD6,
            CharacteristicId::ParticulateMatterPm10Concentration => 0x2BD7,
            CharacteristicId::SulfurDioxideConcentration => 0x2BD8,
            CharacteristicId::SulfurHexafluorideConcentration => 0x2BD9,
            CharacteristicId::HearingAidFeatures => 0x2BDA,
            CharacteristicId::HearingAidPresetControlPoint => 0x2BDB,
            CharacteristicId::ActivePresetIndex => 0x2BDC,
            CharacteristicId::FixedString64 => 0x2BDE,
            CharacteristicId::HighTemperature => 0x2BDF,
            CharacteristicId::HighVoltage => 0x2BE0,
            CharacteristicId::LightDistribution => 0x2BE1,
            CharacteristicId::LightOutput => 0x2BE2,
            CharacteristicId::LightSourceType => 0x2BE3,
            CharacteristicId::Noise => 0x2BE4,
            CharacteristicId::RelativeRuntimeInACorrelatedColorTemperatureRange => 0x2BE5,
            CharacteristicId::TimeSecond32 => 0x2BE6,
            CharacteristicId::VocConcentration => 0x2BE7,
            CharacteristicId::VoltageFrequency => 0x2BE8,
        }
    }

    /// Returns the `Uuid16` representation of the variant.
    pub fn uuid16(self) -> (r: Uuid16)
        ensures
            r.raw() == self.raw(),
    {
        Uuid16::sig(self.raw())
    }

    /// Returns the 128-bit UUID of the variant.
    pub fn uuid(self) -> (r: Uuid)
        ensures
            r.raw() == sig_uuid(self.raw() as u32),
    {
        self.uuid16().as_uuid()
    }

    /// Distinct variants have distinct values.
    pub proof fn lemma_raw_injective(a: CharacteristicId, b: CharacteristicId)
        requires
            a.raw() == b.raw(),
        ensures
            a == b,
    {
    }
}

} // verus!
