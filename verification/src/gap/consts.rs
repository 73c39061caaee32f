//! Assigned numbers of the Generic Access Profile.

use vstd::prelude::*;

verus! {

/// Response data types.
#[derive(Clone, Copy, Debug, PartialEq, Eq, Structural)]
pub enum ResponseDataType {
    Flags,
    IncompleteServiceClass16,
    CompleteServiceClass16,
    IncompleteServiceClass32,
    CompleteServiceClass32,
    IncompleteServiceClass128,
    CompleteServiceClass128,
    ShortLocalName,
    CompleteLocalName,
    TxPower,
    ClassOfDevice,
    SspHashC192,
    SspRandR192,
    SmTkValue,
    SmOobFlags,
    PeripheralConnectionIntervalRange,
    ServiceSolicitation16,
    ServiceSolicitation128,
    ServiceData16,
    PublicTargetAddress,
    RandomTargetAddress,
    Appearance,
    AdvInterval,
    LeDeviceAddr,
    LeRole,
    SspHashC256,
    SspRandR256,
    ServiceSolicitation32,
    ServiceData32,
    ServiceData128,
    LeScConfirmValue,
    LeScRandValue,
    Uri,
    LeSupportedFeatures,
    ChannelMapUpdateIndication,
    BigInfo,
    BroadcastCode,
    AdvIntervalLong,
    ManufacturerData,
}

impl ResponseDataType {
    /// The data type code on the wire.
    pub open spec fn spec_raw(self) -> u8 {
        match self {
            ResponseDataType::Flags => 0x01,
            ResponseDataType::IncompleteServiceClass16 => 0x02,
            ResponseDataType::CompleteServiceClass16 => 0x03,
            ResponseDataType::IncompleteServiceClass32 => 0x04,
            ResponseDataType::CompleteServiceClass32 => 0x05,
            ResponseDataType::IncompleteServiceClass128 => 0x06,
            ResponseDataType::CompleteServiceClass128 => 0x07,
            ResponseDataType::ShortLocalName => 0x08,
            ResponseDataType::CompleteLocalName => 0x09,
            ResponseDataType::TxPower => 0x0A,
            ResponseDataType::ClassOfDevice => 0x0D,
            ResponseDataType::SspHashC192 => 0x0E,
            ResponseDataType::SspRandR192 => 0x0F,
            ResponseDataType::SmTkValue => 0x10,
            ResponseDataType::SmOobFlags => 0x11,
            ResponseDataType::PeripheralConnectionIntervalRange => 0x12,
            ResponseDataType::ServiceSolicitation16 => 0x14,
            ResponseDataType::ServiceSolicitation128 => 0x15,
            ResponseDataType::ServiceData16 => 0x16,
            ResponseDataType::PublicTargetAddress => 0x17,
            ResponseDataType::RandomTargetAddress => 0x18,
            ResponseDataType::Appearance => 0x19,
            ResponseDataType::AdvInterval => 0x1A,
            ResponseDataType::LeDeviceAddr => 0x1B,
            ResponseDataType::LeRole => 0x1C,
            ResponseDataType::SspHashC256 => 0x1D,
            ResponseDataType::SspRandR256 => 0x1E,
            ResponseDataType::ServiceSolicitation32 => 0x1F,
            ResponseDataType::ServiceData32 => 0x20,
            ResponseDataType::ServiceData128 => 0x21,
            ResponseDataType::LeScConfirmValue => 0x22,
            ResponseDataType::LeScRandValue => 0x23,
            ResponseDataType::Uri => 0x24,
            ResponseDataType::LeSupportedFeatures => 0x27,
            ResponseDataType::ChannelMapUpdateIndication => 0x28,
            ResponseDataType::BigInfo => 0x2C,
            ResponseDataType::BroadcastCode => 0x2D,
            ResponseDataType::AdvIntervalLong => 0x2F,
            ResponseDataType::ManufacturerData => 0xFF,
        }
    }

    /// Returns the data type code on the wire.
    #[verifier::when_used_as_spec(spec_raw)]
    pub fn raw(self) -> (r: u8)
        ensures
            r == self.spec_raw(),
    {
        match self {
            ResponseDataType::Flags => 0x01,
            ResponseDataType::IncompleteServiceClass16 => 0x02,
            ResponseDataType::CompleteServiceClass16 => 0x03,
            ResponseDataType::IncompleteServiceClass32 => 0x04,
            ResponseDataType::CompleteServiceClass32 => 0x05,
            ResponseDataType::IncompleteServiceClass128 => 0x06,
            ResponseDataType::CompleteServiceClass128 => 0x07,
            ResponseDataType::ShortLocalName => 0x08,
            ResponseDataType::CompleteLocalName => 0x09,
            ResponseDataType::TxPower => 0x0A,
            ResponseDataType::ClassOfDevice => 0x0D,
            ResponseDataType::SspHashC192 => 0x0E,
            ResponseDataType::SspRandR192 => 0x0F,
            ResponseDataType::SmTkValue => 0x10,
            ResponseDataType::SmOobFlags => 0x11,
            ResponseDataType::PeripheralConnectionIntervalRange => 0x12,
            ResponseDataType::ServiceSolicitation16 => 0x14,
            ResponseDataType::ServiceSolicitation128 => 0x15,
            ResponseDataType::ServiceData16 => 0x16,
            ResponseDataType::PublicTargetAddress => 0x17,
            ResponseDataType::RandomTargetAddress => 0x18,
            ResponseDataType::Appearance => 0x19,
            ResponseDataType::AdvInterval => 0x1A,
            ResponseDataType::LeDeviceAddr => 0x1B,
            ResponseDataType::LeRole => 0x1C,
            ResponseDataType::SspHashC256 => 0x1D,
            ResponseDataType::SspRandR256 => 0x1E,
            ResponseDataType::ServiceSolicitation32 => 0x1F,
            ResponseDataType::ServiceData32 => 0x20,
            ResponseDataType::ServiceData128 => 0x21,
            ResponseDataType::LeScConfirmValue => 0x22,
            ResponseDataType::LeScRandValue => 0x23,
            ResponseDataType::Uri => 0x24,
            ResponseDataType::LeSupportedFeatures => 0x27,
            ResponseDataType::ChannelMapUpdateIndication => 0x28,
            ResponseDataType::BigInfo => 0x2C,
            ResponseDataType::BroadcastCode => 0x2D,
            ResponseDataType::AdvIntervalLong => 0x2F,
            ResponseDataType::ManufacturerData => 0xFF,
        }
    }

    /// The value whose data type code is `v`, if there is one.
    pub open spec fn spec_from_raw(v: u8) -> Option<ResponseDataType> {
        if exists|c: ResponseDataType| c.raw() == v {
            Some(choose|c: ResponseDataType| c.raw() == v)
        } else {
            None
        }
    }

    /// Returns the value whose data type code is `v`, if there is one.
    #[verifier::when_used_as_spec(spec_from_raw)]
    pub fn from_raw(v: u8) -> (r: Option<ResponseDataType>)
        ensures
            r == ResponseDataType::spec_from_raw(v),
            match r {
                Some(c) => c.raw() == v,
                None => forall|c: ResponseDataType| c.raw() != v,
            },
    {
        let r = match v {
            0x01 => Some(ResponseDataType::Flags),
            0x02 => Some(ResponseDataType::IncompleteServiceClass16),
            0x03 => Some(ResponseDataType::CompleteServiceClass16),
            0x04 => Some(ResponseDataType::IncompleteServiceClass32),
            0x05 => Some(ResponseDataType::CompleteServiceClass32),
            0x06 => Some(ResponseDataType::IncompleteServiceClass128),
            0x07 => Some(ResponseDataType::CompleteServiceClass128),
            0x08 => Some(ResponseDataType::ShortLocalName),
            0x09 => Some(ResponseDataType::CompleteLocalName),
            0x0A => Some(ResponseDataType::TxPower),
            0x0D => Some(ResponseDataType::ClassOfDevice),
            0x0E => Some(ResponseDataType::SspHashC192),
            0x0F => Some(ResponseDataType::SspRandR192),
            0x10 => Some(ResponseDataType::SmTkValue),
            0x11 => Some(ResponseDataType::SmOobFlags),
            0x12 => Some(ResponseDataType::PeripheralConnectionIntervalRange),
            0x14 => Some(ResponseDataType::ServiceSolicitation16),
            0x15 => Some(ResponseDataType::ServiceSolicitation128),
            0x16 => Some(ResponseDataType::ServiceData16),
            0x17 => Some(ResponseDataType::PublicTargetAddress),
            0x18 => Some(ResponseDataType::RandomTargetAddress),
            0x19 => Some(ResponseDataType::Appearance),
            0x1A => Some(ResponseDataType::AdvInterval),
            0x1B => Some(ResponseDataType::LeDeviceAddr),
            0x1C => Some(ResponseDataType::LeRole),
            0x1D => Some(ResponseDataType::SspHashC256),
            0x1E => Some(ResponseDataType::SspRandR256),
            0x1F => Some(ResponseDataType::ServiceSolicitation32),
            0x20 => Some(ResponseDataType::ServiceData32),
            0x21 => Some(ResponseDataType::ServiceData128),
            0x22 => Some(ResponseDataType::LeScConfirmValue),
            0x23 => Some(ResponseDataType::LeScRandValue),
            0x24 => Some(ResponseDataType::Uri),
            0x27 => Some(ResponseDataType::LeSupportedFeatures),
            0x28 => Some(ResponseDataType::ChannelMapUpdateIndication),
            0x2C => Some(ResponseDataType::BigInfo),
            0x2D => Some(ResponseDataType::BroadcastCode),
            0x2F => Some(ResponseDataType::AdvIntervalLong),
            0xFF => Some(ResponseDataType::ManufacturerData),
            _ => None,
        };
        proof {
            if let Some(c) = r {
                assert(c.raw() == v);
                ResponseDataType::lemma_raw_injective(c, choose|c: ResponseDataType| c.raw() == v);
            } else {
                assert(forall|c: ResponseDataType| c.raw() != v);
            }
        }
        r
    }

    /// A code decodes to the value that encodes to it.
    pub proof fn lemma_from_raw(v: u8)
        ensures
            match ResponseDataType::from_raw(v) {
                Some(c) => c.raw() == v,
                None => forall|c: ResponseDataType| c.raw() != v,
            },
    {
    }

    /// Every value decodes from its own code.
    pub proof fn lemma_from_raw_of_raw(self)
        ensures
            ResponseDataType::from_raw(self.raw()) == Some(self),
    {
        ResponseDataType::lemma_raw_injective(self, choose|c: ResponseDataType| c.raw() == self.raw());
    }

    /// Distinct values have distinct codes.
    pub proof fn lemma_raw_injective(a: ResponseDataType, b: ResponseDataType)
        requires
            a.raw() == b.raw(),
        ensures
            a == b,
    {
    }
}

/// Advertising response data flags.
#[derive(Clone, Copy, Debug, PartialEq, Eq, Structural)]
pub struct AdvFlag {
    /// The flags as a bit set.
    pub bits: u8,
}

impl AdvFlag {
    /// LE Limited Discoverable Mode.
    pub const LE_LIMITED: u8 = 0x01;

    /// LE General Discoverable Mode.
    pub const LE_GENERAL: u8 = 0x02;

    /// BR/EDR Not Supported.
    pub const NO_BREDR: u8 = 0x04;

    /// Simultaneous LE and BR/EDR to Same Device Capable (Controller).
    pub const LE_BREDR_CONTROLLER: u8 = 0x08;

    /// Simultaneous LE and BR/EDR to Same Device Capable (Host).
    pub const LE_BREDR_HOST: u8 = 0x10;

    /// Every defined flag.
    pub const ALL: u8 = 0x1F;

    /// Whether every flag of `mask` is set.
    pub open spec fn spec_contains(self, mask: u8) -> bool {
        self.bits & mask == mask
    }

    /// Whether some flag of `mask` is set.
    pub open spec fn spec_intersects(self, mask: u8) -> bool {
        self.bits & mask != 0
    }

    /// Returns the empty set of flags.
    pub fn empty() -> (r: AdvFlag)
        ensures
            r.bits == 0,
    {
        AdvFlag { bits: 0 }
    }

    /// Returns the flags as a bit set.
    pub fn bits(self) -> (r: u8)
        ensures
            r == self.bits,
    {
        self.bits
    }

    /// Returns the flags with the bit set `v`, unless it holds a bit that is
    /// no flag.
    pub fn from_bits(v: u8) -> (r: Option<AdvFlag>)
        ensures
            r == if v & !AdvFlag::ALL == 0 {
                Some(AdvFlag { bits: v })
            } else {
                None
            },
    {
        if v & !Self::ALL == 0 {
            Some(AdvFlag { bits: v })
        } else {
            None
        }
    }

    /// Returns the flags among the bits of `v`, dropping any bit that is no
    /// flag.
    pub fn from_bits_truncate(v: u8) -> (r: AdvFlag)
        ensures
            r.bits == v & AdvFlag::ALL,
    {
        AdvFlag { bits: v & Self::ALL }
    }

    /// Returns whether no flag is set.
    pub fn is_empty(self) -> (r: bool)
        ensures
            r == (self.bits == 0),
    {
        self.bits == 0
    }

    /// Returns whether every flag of `mask` is set.
    #[verifier::when_used_as_spec(spec_contains)]
    pub fn contains(self, mask: u8) -> (r: bool)
        ensures
            r == self.spec_contains(mask),
    {
        self.bits & mask == mask
    }

    /// Returns whether some flag of `mask` is set.
    #[verifier::when_used_as_spec(spec_intersects)]
    pub fn intersects(self, mask: u8) -> (r: bool)
        ensures
            r == self.spec_intersects(mask),
    {
        self.bits & mask != 0
    }

    /// Returns the flags of `self` together with those of `mask`.
    pub fn union(self, mask: u8) -> (r: AdvFlag)
        ensures
            r.bits == self.bits | mask,
    {
        AdvFlag { bits: self.bits | mask }
    }
}

impl Default for AdvFlag {
    fn default() -> (r: AdvFlag)
        ensures
            r.bits == 0,
    {
        AdvFlag::empty()
    }
}

/// Device appearance. The low six bits tell the kind of device within its
/// category, which the bits above them name.
#[derive(Clone, Copy, Debug, PartialEq, Eq, Structural, PartialOrd, Ord)]
pub enum Appearance {
    GenericUnknown,
    GenericPhone,
    GenericComputer,
    DesktopWorkstation,
    ServerclassComputer,
    Laptop,
    HandheldPcPdaClamshell,
    PalmsizePcPda,
    WearableComputer,
    Tablet,
    DockingStation,
    AllInOne,
    BladeServer,
    Convertible,
    Detachable,
    IoTGateway,
    MiniPc,
    StickPc,
    GenericWatch,
    SportsWatch,
    Smartwatch,
    GenericClock,
    GenericDisplay,
    GenericRemoteControl,
    GenericEyeglasses,
    GenericTag,
    GenericKeyring,
    GenericMediaPlayer,
    GenericBarcodeScanner,
    GenericThermometer,
    EarThermometer,
    GenericHeartRateSensor,
    HeartRateBelt,
    GenericBloodPressure,
    ArmBloodPressure,
    WristBloodPressure,
    GenericHumanInterfaceDevice,
    Keyboard,
    Mouse,
    Joystick,
    Gamepad,
    DigitizerTablet,
    CardReader,
    DigitalPen,
    BarcodeScanner,
    Touchpad,
    PresentationRemote,
    GenericGlucoseMeter,
    GenericRunningWalkingSensor,
    InShoeRunningWalkingSensor,
    OnShoeRunningWalkingSensor,
    OnHipRunningWalkingSensor,
    GenericCycling,
    CyclingComputer,
    SpeedSensor,
    CadenceSensor,
    PowerSensor,
    SpeedAndCadenceSensor,
    GenericControlDevice,
    Switch,
    Multiswitch,
    Button,
    Slider,
    RotarySwitch,
    TouchPanel,
    SingleSwitch,
    DoubleSwitch,
    TripleSwitch,
    BatterySwitch,
    EnergyHarvestingSwitch,
    PushButton,
    GenericNetworkDevice,
    AccessPoint,
    MeshDevice,
    MeshNetworkProxy,
    GenericSensor,
    MotionSensor,
    AirQualitySensor,
    TemperatureSensor,
    HumiditySensor,
    LeakSensor,
    SmokeSensor,
    OccupancySensor,
    ContactSensor,
    CarbonMonoxideSensor,
    CarbonDioxideSensor,
    AmbientLightSensor,
    EnergySensor,
    ColorLightSensor,
    RainSensor,
    FireSensor,
    WindSensor,
    ProximitySensor,
    MultiSensor,
    FlushMountedSensor,
    CeilingMountedSensor,
    WallMountedSensor,
    Multisensor,
    EnergyMeter,
    FlameDetector,
    VehicleTirePressureSensor,
    GenericLightFixtures,
    WallLight,
    CeilingLight,
    FloorLight,
    CabinetLight,
    DeskLight,
    TrofferLight,
    PendantLight,
    IngroundLight,
    FloodLight,
    UnderwaterLight,
    BollardWithLight,
    PathwayLight,
    GardenLight,
    PoletopLight,
    Spotlight,
    LinearLight,
    StreetLight,
    ShelvesLight,
    BayLight,
    EmergencyExitLight,
    LightController,
    LightDriver,
    Bulb,
    LowbayLight,
    HighbayLight,
    GenericFan,
    CeilingFan,
    AxialFan,
    ExhaustFan,
    PedestalFan,
    DeskFan,
    WallFan,
    GenericHvac,
    HvacThermostat,
    HvacHumidifier,
    HvacDehumidifier,
    HvacHeater,
    HvacRadiator,
    HvacBoiler,
    HvacHeatPump,
    HvacInfraredHeater,
    HvacRadiantPanelHeater,
    HvacFanHeater,
    HvacAirCurtain,
    GenericAirConditioning,
    GenericHumidifier,
    GenericHeating,
    HeatingRadiator,
    HeatingBoiler,
    HeatingHeatPump,
    HeatingInfraredHeater,
    HeatingRadiantPanelHeater,
    HeatingFanHeater,
    HeatingAirCurtain,
    GenericAccessControl,
    AccessDoor,
    GarageDoor,
    EmergencyExitDoor,
    AccessLock,
    Elevator,
    Window,
    EntranceGate,
    DoorLock,
    Locker,
    GenericMotorizedDevice,
    MotorizedGate,
    Awning,
    BlindsOrShades,
    Curtains,
    Screen,
    GenericPowerDevice,
    PowerOutlet,
    PowerStrip,
    Plug,
    PowerSupply,
    LedDriver,
    FluorescentLampGear,
    HidLampGear,
    ChargeCase,
    PowerBank,
    GenericLightSource,
    IncandescentLightBulb,
    LedLamp,
    HidLamp,
    FluorescentLamp,
    LedArray,
    MultiColorLedArray,
    LowVoltageHalogen,
    Oled,
    GenericWindowCovering,
    WindowShades,
    WindowBlinds,
    WindowAwning,
    WindowCurtain,
    ExteriorShutter,
    ExteriorScreen,
    GenericAudioSink,
    StandaloneSpeaker,
    Soundbar,
    BookshelfSpeaker,
    StandmountedSpeaker,
    Speakerphone,
    GenericAudioSource,
    Microphone,
    Alarm,
    Bell,
    Horn,
    BroadcastingDevice,
    ServiceDesk,
    Kiosk,
    BroadcastingRoom,
    Auditorium,
    GenericMotorizedVehicle,
    Car,
    LargeGoodsVehicle,
    TwoWheeledVehicle,
    Motorbike,
    Scooter,
    Moped,
    ThreeWheeledVehicle,
    LightVehicle,
    QuadBike,
    Minibus,
    Bus,
    Trolley,
    AgriculturalVehicle,
    CamperOrCaravan,
    RecreationalVehicleOrMotorHome,
    GenericDomesticAppliance,
    Refrigerator,
    Freezer,
    Oven,
    Microwave,
    Toaster,
    WashingMachine,
    Dryer,
    CoffeeMaker,
    ClothesIron,
    CurlingIron,
    HairDryer,
    VacuumCleaner,
    RoboticVacuumCleaner,
    RiceCooker,
    ClothesSteamer,
    GenericWearableAudioDevice,
    Earbud,
    Headset,
    Headphones,
    NeckBand,
    GenericAircraft,
    LightAircraft,
    Microlight,
    Paraglider,
    LargePassengerAircraft,
    GenericAvEquipment,
    Amplifier,
    Receiver,
    Radio,
    Tuner,
    Turntable,
    CdPlayer,
    DvdPlayer,
    BlurayPlayer,
    OpticalDiscPlayer,
    SetTopBox,
    GenericDisplayEquipment,
    Television,
    Monitor,
    Projector,
    GenericHearingAid,
    InearHearingAid,
    BehindearHearingAid,
    CochlearImplant,
    GenericGaming,
    HomeVideoGameConsole,
    PortableHandheldConsole,
    GenericSignage,
    DigitalSignage,
    ElectronicLabel,
    GenericPulseOximeter,
    FingertipPulseOximeter,
    WristWornPulseOximeter,
    GenericWeightScale,
    GenericPersonalMobilityDevice,
    PoweredWheelchair,
    MobilityScooter,
    GenericContinuousGlucoseMonitor,
    GenericInsulinPump,
    DurableInsulinPump,
    PatchInsulinPump,
    InsulinPen,
    GenericMedicationDelivery,
    GenericOutdoorSportsActivity,
    LocationDisplay,
    LocationAndNavigationDisplay,
    LocationPod,
    LocationAndNavigationPod,
}

impl Appearance {
    /// The appearance value on the wire.
    pub open spec fn spec_raw(self) -> u16 {
        match self {
            Appearance::GenericUnknown => 0x0000,
            Appearance::GenericPhone => 0x0040,
            Appearance::GenericComputer => 0x0080,
            Appearance::DesktopWorkstation => 0x0081,
            Appearance::ServerclassComputer => 0x0082,
            Appearance::Laptop => 0x0083,
            Appearance::HandheldPcPdaClamshell => 0x0084,
            Appearance::PalmsizePcPda => 0x0085,
            Appearance::WearableComputer => 0x0086,
            Appearance::Tablet => 0x0087,
            Appearance::DockingStation => 0x0088,
            Appearance::AllInOne => 0x0089,
            Appearance::BladeServer => 0x008A,
            Appearance::Convertible => 0x008B,
            Appearance::Detachable => 0x008C,
            Appearance::IoTGateway => 0x008D,
            Appearance::MiniPc => 0x008E,
            Appearance::StickPc => 0x008F,
            Appearance::GenericWatch => 0x00C0,
            Appearance::SportsWatch => 0x00C1,
            Appearance::Smartwatch => 0x00C2,
            Appearance::GenericClock => 0x0100,
            Appearance::GenericDisplay => 0x0140,
            Appearance::GenericRemoteControl => 0x0180,
            Appearance::GenericEyeglasses => 0x01C0,
            Appearance::GenericTag => 0x0200,
            Appearance::GenericKeyring => 0x0240,
            Appearance::GenericMediaPlayer => 0x0280,
            Appearance::GenericBarcodeScanner => 0x02C0,
            Appearance::GenericThermometer => 0x0300,
            Appearance::EarThermometer => 0x0301,
            Appearance::GenericHeartRateSensor => 0x0340,
            Appearance::HeartRateBelt => 0x0341,
            Appearance::GenericBloodPressure => 0x0380,
            Appearance::ArmBloodPressure => 0x0381,
            Appearance::WristBloodPressure => 0x0382,
            Appearance::GenericHumanInterfaceDevice => 0x03C0,
            Appearance::Keyboard => 0x03C1,
            Appearance::Mouse => 0x03C2,
            Appearance::Joystick => 0x03C3,
            Appearance::Gamepad => 0x03C4,
            Appearance::DigitizerTablet => 0x03C5,
            Appearance::CardReader => 0x03C6,
            Appearance::DigitalPen => 0x03C7,
            Appearance::BarcodeScanner => 0x03C8,
            Appearance::Touchpad => 0x03C9,
            Appearance::PresentationRemote => 0x03CA,
            Appearance::GenericGlucoseMeter => 0x0400,
            Appearance::GenericRunningWalkingSensor => 0x0440,
            Appearance::InShoeRunningWalkingSensor => 0x0441,
            Appearance::OnShoeRunningWalkingSensor => 0x0442,
            Appearance::OnHipRunningWalkingSensor => 0x0443,
            Appearance::GenericCycling => 0x0480,
            Appearance::CyclingComputer => 0x0481,
            Appearance::SpeedSensor => 0x0482,
            Appearance::CadenceSensor => 0x0483,
            Appearance::PowerSensor => 0x0484,
            Appearance::SpeedAndCadenceSensor => 0x0485,
            Appearance::GenericControlDevice => 0x04C0,
            Appearance::Switch => 0x04C1,
            Appearance::Multiswitch => 0x04C2,
            Appearance::Button => 0x04C3,
            Appearance::Slider => 0x04C4,
            Appearance::RotarySwitch => 0x04C5,
            Appearance::TouchPanel => 0x04C6,
            Appearance::SingleSwitch => 0x04C7,
            Appearance::DoubleSwitch => 0x04C8,
            Appearance::TripleSwitch => 0x04C9,
            Appearance::BatterySwitch => 0x04CA,
            Appearance::EnergyHarvestingSwitch => 0x04CB,
            Appearance::PushButton => 0x04CC,
            Appearance::GenericNetworkDevice => 0x0500,
            Appearance::AccessPoint => 0x0501,
            Appearance::MeshDevice => 0x0502,
            Appearance::MeshNetworkProxy => 0x0503,
            Appearance::GenericSensor => 0x0540,
            Appearance::MotionSensor => 0x0541,
            Appearance::AirQualitySensor => 0x0542,
            Appearance::TemperatureSensor => 0x0543,
            Appearance::HumiditySensor => 0x0544,
            Appearance::LeakSensor => 0x0545,
            Appearance::SmokeSensor => 0x0546,
            Appearance::OccupancySensor => 0x0547,
            Appearance::ContactSensor => 0x0548,
            Appearance::CarbonMonoxideSensor => 0x0549,
            Appearance::CarbonDioxideSensor => 0x054A,
            Appearance::AmbientLightSensor => 0x054B,
            Appearance::EnergySensor => 0x054C,
            Appearance::ColorLightSensor => 0x054D,
            Appearance::RainSensor => 0x054E,
            Appearance::FireSensor => 0x054F,
            Appearance::WindSensor => 0x0550,
            Appearance::ProximitySensor => 0x0551,
            Appearance::MultiSensor => 0x0552,
            Appearance::FlushMountedSensor => 0x0553,
            Appearance::CeilingMountedSensor => 0x0554,
            Appearance::WallMountedSensor => 0x0555,
            Appearance::Multisensor => 0x0556,
            Appearance::EnergyMeter => 0x0557,
            Appearance::FlameDetector => 0x0558,
            Appearance::VehicleTirePressureSensor => 0x0559,
            Appearance::GenericLightFixtures => 0x0580,
            Appearance::WallLight => 0x0581,
            Appearance::CeilingLight => 0x0582,
            Appearance::FloorLight => 0x0583,
            Appearance::CabinetLight => 0x0584,
            Appearance::DeskLight => 0x0585,
            Appearance::TrofferLight => 0x0586,
            Appearance::PendantLight => 0x0587,
            Appearance::IngroundLight => 0x0588,
            Appearance::FloodLight => 0x0589,
            Appearance::UnderwaterLight => 0x058A,
            Appearance::BollardWithLight => 0x058B,
            Appearance::PathwayLight => 0x058C,
            Appearance::GardenLight => 0x058D,
            Appearance::PoletopLight => 0x058E,
            Appearance::Spotlight => 0x058F,
            Appearance::LinearLight => 0x0590,
            Appearance::StreetLight => 0x0591,
            Appearance::ShelvesLight => 0x0592,
            Appearance::BayLight => 0x0593,
            Appearance::EmergencyExitLight => 0x0594,
            Appearance::LightController => 0x0595,
            Appearance::LightDriver => 0x0596,
            Appearance::Bulb => 0x0597,
            Appearance::LowbayLight => 0x0598,
            Appearance::HighbayLight => 0x0599,
            Appearance::GenericFan => 0x05C0,
            Appearance::CeilingFan => 0x05C1,
            Appearance::AxialFan => 0x05C2,
            Appearance::ExhaustFan => 0x05C3,
            Appearance::PedestalFan => 0x05C4,
            Appearance::DeskFan => 0x05C5,
            Appearance::WallFan => 0x05C6,
            Appearance::GenericHvac => 0x0600,
            Appearance::HvacThermostat => 0x0601,
            Appearance::HvacHumidifier => 0x0602,
            Appearance::HvacDehumidifier => 0x0603,
            Appearance::HvacHeater => 0x0604,
            Appearance::HvacRadiator => 0x0605,
            Appearance::HvacBoiler => 0x0606,
            Appearance::HvacHeatPump => 0x0607,
            Appearance::HvacInfraredHeater => 0x0608,
            Appearance::HvacRadiantPanelHeater => 0x0609,
            Appearance::HvacFanHeater => 0x060A,
            Appearance::HvacAirCurtain => 0x060B,
            Appearance::GenericAirConditioning => 0x0640,
            Appearance::GenericHumidifier => 0x0680,
            Appearance::GenericHeating => 0x06C0,
            Appearance::HeatingRadiator => 0x06C1,
            Appearance::HeatingBoiler => 0x06C2,
            Appearance::HeatingHeatPump => 0x06C3,
            Appearance::HeatingInfraredHeater => 0x06C4,
            Appearance::HeatingRadiantPanelHeater => 0x06C5,
            Appearance::HeatingFanHeater => 0x06C6,
            Appearance::HeatingAirCurtain => 0x06C7,
            Appearance::GenericAccessControl => 0x0700,
            Appearance::AccessDoor => 0x0701,
            Appearance::GarageDoor => 0x0702,
            Appearance::EmergencyExitDoor => 0x0703,
            Appearance::AccessLock => 0x0704,
            Appearance::Elevator => 0x0705,
            Appearance::Window => 0x0706,
            Appearance::EntranceGate => 0x0707,
            Appearance::DoorLock => 0x0708,
            Appearance::Locker => 0x0709,
            Appearance::GenericMotorizedDevice => 0x0740,
            Appearance::MotorizedGate => 0x0741,
            Appearance::Awning => 0x0742,
            Appearance::BlindsOrShades => 0x0743,
            Appearance::Curtains => 0x0744,
            Appearance::Screen => 0x0745,
            Appearance::GenericPowerDevice => 0x0780,
            Appearance::PowerOutlet => 0x0781,
            Appearance::PowerStrip => 0x0782,
            Appearance::Plug => 0x0783,
            Appearance::PowerSupply => 0x0784,
            Appearance::LedDriver => 0x0785,
            Appearance::FluorescentLampGear => 0x0786,
            Appearance::HidLampGear => 0x0787,
            Appearance::ChargeCase => 0x0788,
            Appearance::PowerBank => 0x0789,
            Appearance::GenericLightSource => 0x07C0,
            Appearance::IncandescentLightBulb => 0x07C1,
            Appearance::LedLamp => 0x07C2,
            Appearance::HidLamp => 0x07C3,
            Appearance::FluorescentLamp => 0x07C4,
            Appearance::LedArray => 0x07C5,
            Appearance::MultiColorLedArray => 0x07C6,
            Appearance::LowVoltageHalogen => 0x07C7,
            Appearance::Oled => 0x07C8,
            Appearance::GenericWindowCovering => 0x0800,
            Appearance::WindowShades => 0x0801,
            Appearance::WindowBlinds => 0x0802,
            Appearance::WindowAwning => 0x0803,
            Appearance::WindowCurtain => 0x0804,
            Appearance::ExteriorShutter => 0x0805,
            Appearance::ExteriorScreen => 0x0806,
            Appearance::GenericAudioSink => 0x0840,
            Appearance::StandaloneSpeaker => 0x0841,
            Appearance::Soundbar => 0x0842,
            Appearance::BookshelfSpeaker => 0x0843,
            Appearance::StandmountedSpeaker => 0x0844,
            Appearance::Speakerphone => 0x0845,
            Appearance::GenericAudioSource => 0x0880,
            Appearance::Microphone => 0x0881,
            Appearance::Alarm => 0x0882,
            Appearance::Bell => 0x0883,
            Appearance::Horn => 0x0884,
            Appearance::BroadcastingDevice => 0x0885,
            Appearance::ServiceDesk => 0x0886,
            Appearance::Kiosk => 0x0887,
            Appearance::BroadcastingRoom => 0x0888,
            Appearance::Auditorium => 0x0889,
            Appearance::GenericMotorizedVehicle => 0x08C0,
            Appearance::Car => 0x08C1,
            Appearance::LargeGoodsVehicle => 0x08C2,
            Appearance::TwoWheeledVehicle => 0x08C3,
            Appearance::Motorbike => 0x08C4,
            Appearance::Scooter => 0x08C5,
            Appearance::Moped => 0x08C6,
            Appearance::ThreeWheeledVehicle => 0x08C7,
            Appearance::LightVehicle => 0x08C8,
            Appearance::QuadBike => 0x08C9,
            Appearance::Minibus => 0x08CA,
            Appearance::Bus => 0x08CB,
            Appearance::Trolley => 0x08CC,
            Appearance::AgriculturalVehicle => 0x08CD,
            Appearance::CamperOrCaravan => 0x08CE,
            Appearance::RecreationalVehicleOrMotorHome => 0x08CF,
            Appearance::GenericDomesticAppliance => 0x0900,
            Appearance::Refrigerator => 0x0901,
            Appearance::Freezer => 0x0902,
            Appearance::Oven => 0x0903,
            Appearance::Microwave => 0x0904,
            Appearance::Toaster => 0x0905,
            Appearance::WashingMachine => 0x0906,
            Appearance::Dryer => 0x0907,
            Appearance::CoffeeMaker => 0x0908,
            Appearance::ClothesIron => 0x0909,
            Appearance::CurlingIron => 0x090A,
            Appearance::HairDryer => 0x090B,
            Appearance::VacuumCleaner => 0x090C,
            Appearance::RoboticVacuumCleaner => 0x090D,
            Appearance::RiceCooker => 0x090E,
            Appearance::ClothesSteamer => 0x090F,
            Appearance::GenericWearableAudioDevice => 0x0940,
            Appearance::Earbud => 0x0941,
            Appearance::Headset => 0x0942,
            Appearance::Headphones => 0x0943,
            Appearance::NeckBand => 0x0944,
            Appearance::GenericAircraft => 0x0980,
            Appearance::LightAircraft => 0x0981,
            Appearance::Microlight => 0x0982,
            Appearance::Paraglider => 0x0983,
            Appearance::LargePassengerAircraft => 0x0984,
            Appearance::GenericAvEquipment => 0x09C0,
            Appearance::Amplifier => 0x09C1,
            Appearance::Receiver => 0x09C2,
            Appearance::Radio => 0x09C3,
            Appearance::Tuner => 0x09C4,
            Appearance::Turntable => 0x09C5,
            Appearance::CdPlayer => 0x09C6,
            Appearance::DvdPlayer => 0x09C7,
            Appearance::BlurayPlayer => 0x09C8,
            Appearance::OpticalDiscPlayer => 0x09C9,
            Appearance::SetTopBox => 0x09CA,
            Appearance::GenericDisplayEquipment => 0x0A00,
            Appearance::Television => 0x0A01,
            Appearance::Monitor => 0x0A02,
            Appearance::Projector => 0x0A03,
            Appearance::GenericHearingAid => 0x0A40,
            Appearance::InearHearingAid => 0x0A41,
            Appearance::BehindearHearingAid => 0x0A42,
            Appearance::CochlearImplant => 0x0A43,
            Appearance::GenericGaming => 0x0A80,
            Appearance::HomeVideoGameConsole => 0x0A81,
            Appearance::PortableHandheldConsole => 0x0A82,
            Appearance::GenericSignage => 0x0AC0,
            Appearance::DigitalSignage => 0x0AC1,
            Appearance::ElectronicLabel => 0x0AC2,
            Appearance::GenericPulseOximeter => 0x0C40,
            Appearance::FingertipPulseOximeter => 0x0C41,
            Appearance::WristWornPulseOximeter => 0x0C42,
            Appearance::GenericWeightScale => 0x0C80,
            Appearance::GenericPersonalMobilityDevice => 0x0CC0,
            Appearance::PoweredWheelchair => 0x0CC1,
            Appearance::MobilityScooter => 0x0CC2,
            Appearance::GenericContinuousGlucoseMonitor => 0x0D00,
            Appearance::GenericInsulinPump => 0x0D40,
            Appearance::DurableInsulinPump => 0x0D41,
            Appearance::PatchInsulinPump => 0x0D44,
            Appearance::InsulinPen => 0x0D48,
            Appearance::GenericMedicationDelivery => 0x0D80,
            Appearance::GenericOutdoorSportsActivity => 0x1440,
            Appearance::LocationDisplay => 0x1441,
            Appearance::LocationAndNavigationDisplay => 0x1442,
            Appearance::LocationPod => 0x1443,
            Appearance::LocationAndNavigationPod => 0x1444,
        }
    }

    /// Returns the appearance value on the wire.
    #[verifier::when_used_as_spec(spec_raw)]
    pub fn raw(self) -> (r: u16)
        ensures
            r == self.spec_raw(),
    {
        match self {
            Appearance::GenericUnknown => 0x0000,
            Appearance::GenericPhone => 0x0040,
            Appearance::GenericComputer => 0x0080,
            Appearance::DesktopWorkstation => 0x0081,
            Appearance::ServerclassComputer => 0x0082,
            Appearance::Laptop => 0x0083,
            Appearance::HandheldPcPdaClamshell => 0x0084,
            Appearance::PalmsizePcPda => 0x0085,
            Appearance::WearableComputer => 0x0086,
            Appearance::Tablet => 0x0087,
            Appearance::DockingStation => 0x0088,
            Appearance::AllInOne => 0x0089,
            Appearance::BladeServer => 0x008A,
            Appearance::Convertible => 0x008B,
            Appearance::Detachable => 0x008C,
            Appearance::IoTGateway => 0x008D,
            Appearance::MiniPc => 0x008E,
            Appearance::StickPc => 0x008F,
            Appearance::GenericWatch => 0x00C0,
            Appearance::SportsWatch => 0x00C1,
            Appearance::Smartwatch => 0x00C2,
            Appearance::GenericClock => 0x0100,
            Appearance::GenericDisplay => 0x0140,
            Appearance::GenericRemoteControl => 0x0180,
            Appearance::GenericEyeglasses => 0x01C0,
            Appearance::GenericTag => 0x0200,
            Appearance::GenericKeyring => 0x0240,
            Appearance::GenericMediaPlayer => 0x0280,
            Appearance::GenericBarcodeScanner => 0x02C0,
            Appearance::GenericThermometer => 0x0300,
            Appearance::EarThermometer => 0x0301,
            Appearance::GenericHeartRateSensor => 0x0340,
            Appearance::HeartRateBelt => 0x0341,
            Appearance::GenericBloodPressure => 0x0380,
            Appearance::ArmBloodPressure => 0x0381,
            Appearance::WristBloodPressure => 0x0382,
            Appearance::GenericHumanInterfaceDevice => 0x03C0,
            Appearance::Keyboard => 0x03C1,
            Appearance::Mouse => 0x03C2,
            Appearance::Joystick => 0x03C3,
            Appearance::Gamepad => 0x03C4,
            Appearance::DigitizerTablet => 0x03C5,
            Appearance::CardReader => 0x03C6,
            Appearance::DigitalPen => 0x03C7,
            Appearance::BarcodeScanner => 0x03C8,
            Appearance::Touchpad => 0x03C9,
            Appearance::PresentationRemote => 0x03CA,
            Appearance::GenericGlucoseMeter => 0x0400,
            Appearance::GenericRunningWalkingSensor => 0x0440,
            Appearance::InShoeRunningWalkingSensor => 0x0441,
            Appearance::OnShoeRunningWalkingSensor => 0x0442,
            Appearance::OnHipRunningWalkingSensor => 0x0443,
            Appearance::GenericCycling => 0x0480,
            Appearance::CyclingComputer => 0x0481,
            Appearance::SpeedSensor => 0x0482,
            Appearance::CadenceSensor => 0x0483,
            Appearance::PowerSensor => 0x0484,
            Appearance::SpeedAndCadenceSensor => 0x0485,
            Appearance::GenericControlDevice => 0x04C0,
            Appearance::Switch => 0x04C1,
            Appearance::Multiswitch => 0x04C2,
            Appearance::Button => 0x04C3,
            Appearance::Slider => 0x04C4,
            Appearance::RotarySwitch => 0x04C5,
            Appearance::TouchPanel => 0x04C6,
            Appearance::SingleSwitch => 0x04C7,
            Appearance::DoubleSwitch => 0x04C8,
            Appearance::TripleSwitch => 0x04C9,
            Appearance::BatterySwitch => 0x04CA,
            Appearance::EnergyHarvestingSwitch => 0x04CB,
            Appearance::PushButton => 0x04CC,
            Appearance::GenericNetworkDevice => 0x0500,
            Appearance::AccessPoint => 0x0501,
            Appearance::MeshDevice => 0x0502,
            Appearance::MeshNetworkProxy => 0x0503,
            Appearance::GenericSensor => 0x0540,
            Appearance::MotionSensor => 0x0541,
            Appearance::AirQualitySensor => 0x0542,
            Appearance::TemperatureSensor => 0x0543,
            Appearance::HumiditySensor => 0x0544,
            Appearance::LeakSensor => 0x0545,
            Appearance::SmokeSensor => 0x0546,
            Appearance::OccupancySensor => 0x0547,
            Appearance::ContactSensor => 0x0548,
            Appearance::CarbonMonoxideSensor => 0x0549,
            Appearance::CarbonDioxideSensor => 0x054A,
            Appearance::AmbientLightSensor => 0x054B,
            Appearance::EnergySensor => 0x054C,
            Appearance::ColorLightSensor => 0x054D,
            Appearance::RainSensor => 0x054E,
            Appearance::FireSensor => 0x054F,
            Appearance::WindSensor => 0x0550,
            Appearance::ProximitySensor => 0x0551,
            Appearance::MultiSensor => 0x0552,
            Appearance::FlushMountedSensor => 0x0553,
            Appearance::CeilingMountedSensor => 0x0554,
            Appearance::WallMountedSensor => 0x0555,
            Appearance::Multisensor => 0x0556,
            Appearance::EnergyMeter => 0x0557,
            Appearance::FlameDetector => 0x0558,
            Appearance::VehicleTirePressureSensor => 0x0559,
            Appearance::GenericLightFixtures => 0x0580,
            Appearance::WallLight => 0x0581,
            Appearance::CeilingLight => 0x0582,
            Appearance::FloorLight => 0x0583,
            Appearance::CabinetLight => 0x0584,
            Appearance::DeskLight => 0x0585,
            Appearance::TrofferLight => 0x0586,
            Appearance::PendantLight => 0x0587,
            Appearance::IngroundLight => 0x0588,
            Appearance::FloodLight => 0x0589,
            Appearance::UnderwaterLight => 0x058A,
            Appearance::BollardWithLight => 0x058B,
            Appearance::PathwayLight => 0x058C,
            Appearance::GardenLight => 0x058D,
            Appearance::PoletopLight => 0x058E,
            Appearance::Spotlight => 0x058F,
            Appearance::LinearLight => 0x0590,
            Appearance::StreetLight => 0x0591,
            Appearance::ShelvesLight => 0x0592,
            Appearance::BayLight => 0x0593,
            Appearance::EmergencyExitLight => 0x0594,
            Appearance::LightController => 0x0595,
            Appearance::LightDriver => 0x0596,
            Appearance::Bulb => 0x0597,
            Appearance::LowbayLight => 0x0598,
            Appearance::HighbayLight => 0x0599,
            Appearance::GenericFan => 0x05C0,
            Appearance::CeilingFan => 0x05C1,
            Appearance::AxialFan => 0x05C2,
            Appearance::ExhaustFan => 0x05C3,
            Appearance::PedestalFan => 0x05C4,
            Appearance::DeskFan => 0x05C5,
            Appearance::WallFan => 0x05C6,
            Appearance::GenericHvac => 0x0600,
            Appearance::HvacThermostat => 0x0601,
            Appearance::HvacHumidifier => 0x0602,
            Appearance::HvacDehumidifier => 0x0603,
            Appearance::HvacHeater => 0x0604,
            Appearance::HvacRadiator => 0x0605,
            Appearance::HvacBoiler => 0x0606,
            Appearance::HvacHeatPump => 0x0607,
            Appearance::HvacInfraredHeater => 0x0608,
            Appearance::HvacRadiantPanelHeater => 0x0609,
            Appearance::HvacFanHeater => 0x060A,
            Appearance::HvacAirCurtain => 0x060B,
            Appearance::GenericAirConditioning => 0x0640,
            Appearance::GenericHumidifier => 0x0680,
            Appearance::GenericHeating => 0x06C0,
            Appearance::HeatingRadiator => 0x06C1,
            Appearance::HeatingBoiler => 0x06C2,
            Appearance::HeatingHeatPump => 0x06C3,
            Appearance::HeatingInfraredHeater => 0x06C4,
            Appearance::HeatingRadiantPanelHeater => 0x06C5,
            Appearance::HeatingFanHeater => 0x06C6,
            Appearance::HeatingAirCurtain => 0x06C7,
            Appearance::GenericAccessControl => 0x0700,
            Appearance::AccessDoor => 0x0701,
            Appearance::GarageDoor => 0x0702,
            Appearance::EmergencyExitDoor => 0x0703,
            Appearance::AccessLock => 0x0704,
            Appearance::Elevator => 0x0705,
            Appearance::Window => 0x0706,
            Appearance::EntranceGate => 0x0707,
            Appearance::DoorLock => 0x0708,
            Appearance::Locker => 0x0709,
            Appearance::GenericMotorizedDevice => 0x0740,
            Appearance::MotorizedGate => 0x0741,
            Appearance::Awning => 0x0742,
            Appearance::BlindsOrShades => 0x0743,
            Appearance::Curtains => 0x0744,
            Appearance::Screen => 0x0745,
            Appearance::GenericPowerDevice => 0x0780,
            Appearance::PowerOutlet => 0x0781,
            Appearance::PowerStrip => 0x0782,
            Appearance::Plug => 0x0783,
            Appearance::PowerSupply => 0x0784,
            Appearance::LedDriver => 0x0785,
            Appearance::FluorescentLampGear => 0x0786,
            Appearance::HidLampGear => 0x0787,
            Appearance::ChargeCase => 0x0788,
            Appearance::PowerBank => 0x0789,
            Appearance::GenericLightSource => 0x07C0,
            Appearance::IncandescentLightBulb => 0x07C1,
            Appearance::LedLamp => 0x07C2,
            Appearance::HidLamp => 0x07C3,
            Appearance::FluorescentLamp => 0x07C4,
            Appearance::LedArray => 0x07C5,
            Appearance::MultiColorLedArray => 0x07C6,
            Appearance::LowVoltageHalogen => 0x07C7,
            Appearance::Oled => 0x07C8,
            Appearance::GenericWindowCovering => 0x0800,
            Appearance::WindowShades => 0x0801,
            Appearance::WindowBlinds => 0x0802,
            Appearance::WindowAwning => 0x0803,
            Appearance::WindowCurtain => 0x0804,
            Appearance::ExteriorShutter => 0x0805,
            Appearance::ExteriorScreen => 0x0806,
            Appearance::GenericAudioSink => 0x0840,
            Appearance::StandaloneSpeaker => 0x0841,
            Appearance::Soundbar => 0x0842,
            Appearance::BookshelfSpeaker => 0x0843,
            Appearance::StandmountedSpeaker => 0x0844,
            Appearance::Speakerphone => 0x0845,
            Appearance::GenericAudioSource => 0x0880,
            Appearance::Microphone => 0x0881,
            Appearance::Alarm => 0x0882,
            Appearance::Bell => 0x0883,
            Appearance::Horn => 0x0884,
            Appearance::BroadcastingDevice => 0x0885,
            Appearance::ServiceDesk => 0x0886,
            Appearance::Kiosk => 0x0887,
            Appearance::BroadcastingRoom => 0x0888,
            Appearance::Auditorium => 0x0889,
            Appearance::GenericMotorizedVehicle => 0x08C0,
            Appearance::Car => 0x08C1,
            Appearance::LargeGoodsVehicle => 0x08C2,
            Appearance::TwoWheeledVehicle => 0x08C3,
            Appearance::Motorbike => 0x08C4,
            Appearance::Scooter => 0x08C5,
            Appearance::Moped => 0x08C6,
            Appearance::ThreeWheeledVehicle => 0x08C7,
            Appearance::LightVehicle => 0x08C8,
            Appearance::QuadBike => 0x08C9,
            Appearance::Minibus => 0x08CA,
            Appearance::Bus => 0x08CB,
            Appearance::Trolley => 0x08CC,
            Appearance::AgriculturalVehicle => 0x08CD,
            Appearance::CamperOrCaravan => 0x08CE,
            Appearance::RecreationalVehicleOrMotorHome => 0x08CF,
            Appearance::GenericDomesticAppliance => 0x0900,
            Appearance::Refrigerator => 0x0901,
            Appearance::Freezer => 0x0902,
            Appearance::Oven => 0x0903,
            Appearance::Microwave => 0x0904,
            Appearance::Toaster => 0x0905,
            Appearance::WashingMachine => 0x0906,
            Appearance::Dryer => 0x0907,
            Appearance::CoffeeMaker => 0x0908,
            Appearance::ClothesIron => 0x0909,
            Appearance::CurlingIron => 0x090A,
            Appearance::HairDryer => 0x090B,
            Appearance::VacuumCleaner => 0x090C,
            Appearance::RoboticVacuumCleaner => 0x090D,
            Appearance::RiceCooker => 0x090E,
            Appearance::ClothesSteamer => 0x090F,
            Appearance::GenericWearableAudioDevice => 0x0940,
            Appearance::Earbud => 0x0941,
            Appearance::Headset => 0x0942,
            Appearance::Headphones => 0x0943,
            Appearance::NeckBand => 0x0944,
            Appearance::GenericAircraft => 0x0980,
            Appearance::LightAircraft => 0x0981,
            Appearance::Microlight => 0x0982,
            Appearance::Paraglider => 0x0983,
            Appearance::LargePassengerAircraft => 0x0984,
            Appearance::GenericAvEquipment => 0x09C0,
            Appearance::Amplifier => 0x09C1,
            Appearance::Receiver => 0x09C2,
            Appearance::Radio => 0x09C3,
            Appearance::Tuner => 0x09C4,
            Appearance::Turntable => 0x09C5,
            Appearance::CdPlayer => 0x09C6,
            Appearance::DvdPlayer => 0x09C7,
            Appearance::BlurayPlayer => 0x09C8,
            Appearance::OpticalDiscPlayer => 0x09C9,
            Appearance::SetTopBox => 0x09CA,
            Appearance::GenericDisplayEquipment => 0x0A00,
            Appearance::Television => 0x0A01,
            Appearance::Monitor => 0x0A02,
            Appearance::Projector => 0x0A03,
            Appearance::GenericHearingAid => 0x0A40,
            Appearance::InearHearingAid => 0x0A41,
            Appearance::BehindearHearingAid => 0x0A42,
            Appearance::CochlearImplant => 0x0A43,
            Appearance::GenericGaming => 0x0A80,
            Appearance::HomeVideoGameConsole => 0x0A81,
            Appearance::PortableHandheldConsole => 0x0A82,
            Appearance::GenericSignage => 0x0AC0,
            Appearance::DigitalSignage => 0x0AC1,
            Appearance::ElectronicLabel => 0x0AC2,
            Appearance::GenericPulseOximeter => 0x0C40,
            Appearance::FingertipPulseOximeter => 0x0C41,
            Appearance::WristWornPulseOximeter => 0x0C42,
            Appearance::GenericWeightScale => 0x0C80,
            Appearance::GenericPersonalMobilityDevice => 0x0CC0,
            Appearance::PoweredWheelchair => 0x0CC1,
            Appearance::MobilityScooter => 0x0CC2,
            Appearance::GenericContinuousGlucoseMonitor => 0x0D00,
            Appearance::GenericInsulinPump => 0x0D40,
            Appearance::DurableInsulinPump => 0x0D41,
            Appearance::PatchInsulinPump => 0x0D44,
            Appearance::InsulinPen => 0x0D48,
            Appearance::GenericMedicationDelivery => 0x0D80,
            Appearance::GenericOutdoorSportsActivity => 0x1440,
            Appearance::LocationDisplay => 0x1441,
            Appearance::LocationAndNavigationDisplay => 0x1442,
            Appearance::LocationPod => 0x1443,
            Appearance::LocationAndNavigationPod => 0x1444,
        }
    }

    /// The value whose appearance value is `v`, or [`Appearance::GenericUnknown`] if there is none.
    pub open spec fn spec_from_raw(v: u16) -> Appearance {
        if exists|c: Appearance| c.raw() == v {
            choose|c: Appearance| c.raw() == v
        } else {
            Appearance::GenericUnknown
        }
    }

    /// Returns the value whose appearance value is `v`, or [`Appearance::GenericUnknown`] if there is
    /// none.
    #[verifier::when_used_as_spec(spec_from_raw)]
    #[verifier::spinoff_prover]
    #[verifier::rlimit(100)]
    pub fn from_raw(v: u16) -> (r: Appearance)
        ensures
            r == Appearance::spec_from_raw(v),
            r.raw() == v || (r == Appearance::GenericUnknown && forall|c: Appearance| c.raw() != v),
    {
        let r = match v {
            0x0000 => Appearance::GenericUnknown,
            0x0040 => Appearance::GenericPhone,
            0x0080 => Appearance::GenericComputer,
            0x0081 => Appearance::DesktopWorkstation,
            0x0082 => Appearance::ServerclassComputer,
            0x0083 => Appearance::Laptop,
            0x0084 => Appearance::HandheldPcPdaClamshell,
            0x0085 => Appearance::PalmsizePcPda,
            0x0086 => Appearance::WearableComputer,
            0x0087 => Appearance::Tablet,
            0x0088 => Appearance::DockingStation,
            0x0089 => Appearance::AllInOne,
            0x008A => Appearance::BladeServer,
            0x008B => Appearance::Convertible,
            0x008C => Appearance::Detachable,
            0x008D => Appearance::IoTGateway,
            0x008E => Appearance::MiniPc,
            0x008F => Appearance::StickPc,
            0x00C0 => Appearance::GenericWatch,
            0x00C1 => Appearance::SportsWatch,
            0x00C2 => Appearance::Smartwatch,
            0x0100 => Appearance::GenericClock,
            0x0140 => Appearance::GenericDisplay,
            0x0180 => Appearance::GenericRemoteControl,
            0x01C0 => Appearance::GenericEyeglasses,
            0x0200 => Appearance::GenericTag,
            0x0240 => Appearance::GenericKeyring,
            0x0280 => Appearance::GenericMediaPlayer,
            0x02C0 => Appearance::GenericBarcodeScanner,
            0x0300 => Appearance::GenericThermometer,
            0x0301 => Appearance::EarThermometer,
            0x0340 => Appearance::GenericHeartRateSensor,
            0x0341 => Appearance::HeartRateBelt,
            0x0380 => Appearance::GenericBloodPressure,
            0x0381 => Appearance::ArmBloodPressure,
            0x0382 => Appearance::WristBloodPressure,
            0x03C0 => Appearance::GenericHumanInterfaceDevice,
            0x03C1 => Appearance::Keyboard,
            0x03C2 => Appearance::Mouse,
            0x03C3 => Appearance::Joystick,
            0x03C4 => Appearance::Gamepad,
            0x03C5 => Appearance::DigitizerTablet,
            0x03C6 => Appearance::CardReader,
            0x03C7 => Appearance::DigitalPen,
            0x03C8 => Appearance::BarcodeScanner,
            0x03C9 => Appearance::Touchpad,
            0x03CA => Appearance::PresentationRemote,
            0x0400 => Appearance::GenericGlucoseMeter,
            0x0440 => Appearance::GenericRunningWalkingSensor,
            0x0441 => Appearance::InShoeRunningWalkingSensor,
            0x0442 => Appearance::OnShoeRunningWalkingSensor,
            0x0443 => Appearance::OnHipRunningWalkingSensor,
            0x0480 => Appearance::GenericCycling,
            0x0481 => Appearance::CyclingComputer,
            0x0482 => Appearance::SpeedSensor,
            0x0483 => Appearance::CadenceSensor,
            0x0484 => Appearance::PowerSensor,
            0x0485 => Appearance::SpeedAndCadenceSensor,
            0x04C0 => Appearance::GenericControlDevice,
            0x04C1 => Appearance::Switch,
            0x04C2 => Appearance::Multiswitch,
            0x04C3 => Appearance::Button,
            0x04C4 => Appearance::Slider,
            0x04C5 => Appearance::RotarySwitch,
            0x04C6 => Appearance::TouchPanel,
            0x04C7 => Appearance::SingleSwitch,
            0x04C8 => Appearance::DoubleSwitch,
            0x04C9 => Appearance::TripleSwitch,
            0x04CA => Appearance::BatterySwitch,
            0x04CB => Appearance::EnergyHarvestingSwitch,
            0x04CC => Appearance::PushButton,
            0x0500 => Appearance::GenericNetworkDevice,
            0x0501 => Appearance::AccessPoint,
            0x0502 => Appearance::MeshDevice,
            0x0503 => Appearance::MeshNetworkProxy,
            0x0540 => Appearance::GenericSensor,
            0x0541 => Appearance::MotionSensor,
            0x0542 => Appearance::AirQualitySensor,
            0x0543 => Appearance::TemperatureSensor,
            0x0544 => Appearance::HumiditySensor,
            0x0545 => Appearance::LeakSensor,
            0x0546 => Appearance::SmokeSensor,
            0x0547 => Appearance::OccupancySensor,
            0x0548 => Appearance::ContactSensor,
            0x0549 => Appearance::CarbonMonoxideSensor,
            0x054A => Appearance::CarbonDioxideSensor,
            0x054B => Appearance::AmbientLightSensor,
            0x054C => Appearance::EnergySensor,
            0x054D => Appearance::ColorLightSensor,
            0x054E => Appearance::RainSensor,
            0x054F => Appearance::FireSensor,
            0x0550 => Appearance::WindSensor,
            0x0551 => Appearance::ProximitySensor,
            0x0552 => Appearance::MultiSensor,
            0x0553 => Appearance::FlushMountedSensor,
            0x0554 => Appearance::CeilingMountedSensor,
            0x0555 => Appearance::WallMountedSensor,
            0x0556 => Appearance::Multisensor,
            0x0557 => Appearance::EnergyMeter,
            0x0558 => Appearance::FlameDetector,
            0x0559 => Appearance::VehicleTirePressureSensor,
            0x0580 => Appearance::GenericLightFixtures,
            0x0581 => Appearance::WallLight,
            0x0582 => Appearance::CeilingLight,
            0x0583 => Appearance::FloorLight,
            0x0584 => Appearance::CabinetLight,
            0x0585 => Appearance::DeskLight,
            0x0586 => Appearance::TrofferLight,
            0x0587 => Appearance::PendantLight,
            0x0588 => Appearance::IngroundLight,
            0x0589 => Appearance::FloodLight,
            0x058A => Appearance::UnderwaterLight,
            0x058B => Appearance::BollardWithLight,
            0x058C => Appearance::PathwayLight,
            0x058D => Appearance::GardenLight,
            0x058E => Appearance::PoletopLight,
            0x058F => Appearance::Spotlight,
            0x0590 => Appearance::LinearLight,
            0x0591 => Appearance::StreetLight,
            0x0592 => Appearance::ShelvesLight,
            0x0593 => Appearance::BayLight,
            0x0594 => Appearance::EmergencyExitLight,
            0x0595 => Appearance::LightController,
            0x0596 => Appearance::LightDriver,
            0x0597 => Appearance::Bulb,
            0x0598 => Appearance::LowbayLight,
            0x0599 => Appearance::HighbayLight,
            0x05C0 => Appearance::GenericFan,
            0x05C1 => Appearance::CeilingFan,
            0x05C2 => Appearance::AxialFan,
            0x05C3 => Appearance::ExhaustFan,
            0x05C4 => Appearance::PedestalFan,
            0x05C5 => Appearance::DeskFan,
            0x05C6 => Appearance::WallFan,
            0x0600 => Appearance::GenericHvac,
            0x0601 => Appearance::HvacThermostat,
            0x0602 => Appearance::HvacHumidifier,
            0x0603 => Appearance::HvacDehumidifier,
            0x0604 => Appearance::HvacHeater,
            0x0605 => Appearance::HvacRadiator,
            0x0606 => Appearance::HvacBoiler,
            0x0607 => Appearance::HvacHeatPump,
            0x0608 => Appearance::HvacInfraredHeater,
            0x0609 => Appearance::HvacRadiantPanelHeater,
            0x060A => Appearance::HvacFanHeater,
            0x060B => Appearance::HvacAirCurtain,
            0x0640 => Appearance::GenericAirConditioning,
            0x0680 => Appearance::GenericHumidifier,
            0x06C0 => Appearance::GenericHeating,
            0x06C1 => Appearance::HeatingRadiator,
            0x06C2 => Appearance::HeatingBoiler,
            0x06C3 => Appearance::HeatingHeatPump,
            0x06C4 => Appearance::HeatingInfraredHeater,
            0x06C5 => Appearance::HeatingRadiantPanelHeater,
            0x06C6 => Appearance::HeatingFanHeater,
            0x06C7 => Appearance::HeatingAirCurtain,
            0x0700 => Appearance::GenericAccessControl,
            0x0701 => Appearance::AccessDoor,
            0x0702 => Appearance::GarageDoor,
            0x0703 => Appearance::EmergencyExitDoor,
            0x0704 => Appearance::AccessLock,
            0x0705 => Appearance::Elevator,
            0x0706 => Appearance::Window,
            0x0707 => Appearance::EntranceGate,
            0x0708 => Appearance::DoorLock,
            0x0709 => Appearance::Locker,
            0x0740 => Appearance::GenericMotorizedDevice,
            0x0741 => Appearance::MotorizedGate,
            0x0742 => Appearance::Awning,
            0x0743 => Appearance::BlindsOrShades,
            0x0744 => Appearance::Curtains,
            0x0745 => Appearance::Screen,
            0x0780 => Appearance::GenericPowerDevice,
            0x0781 => Appearance::PowerOutlet,
            0x0782 => Appearance::PowerStrip,
            0x0783 => Appearance::Plug,
            0x0784 => Appearance::PowerSupply,
            0x0785 => Appearance::LedDriver,
            0x0786 => Appearance::FluorescentLampGear,
            0x0787 => Appearance::HidLampGear,
            0x0788 => Appearance::ChargeCase,
            0x0789 => Appearance::PowerBank,
            0x07C0 => Appearance::GenericLightSource,
            0x07C1 => Appearance::IncandescentLightBulb,
            0x07C2 => Appearance::LedLamp,
            0x07C3 => Appearance::HidLamp,
            0x07C4 => Appearance::FluorescentLamp,
            0x07C5 => Appearance::LedArray,
            0x07C6 => Appearance::MultiColorLedArray,
            0x07C7 => Appearance::LowVoltageHalogen,
            0x07C8 => Appearance::Oled,
            0x0800 => Appearance::GenericWindowCovering,
            0x0801 => Appearance::WindowShades,
            0x0802 => Appearance::WindowBlinds,
            0x0803 => Appearance::WindowAwning,
            0x0804 => Appearance::WindowCurtain,
            0x0805 => Appearance::ExteriorShutter,
            0x0806 => Appearance::ExteriorScreen,
            0x0840 => Appearance::GenericAudioSink,
            0x0841 => Appearance::StandaloneSpeaker,
            0x0842 => Appearance::Soundbar,
            0x0843 => Appearance::BookshelfSpeaker,
            0x0844 => Appearance::StandmountedSpeaker,
            0x0845 => Appearance::Speakerphone,
            0x0880 => Appearance::GenericAudioSource,
            0x0881 => Appearance::Microphone,
            0x0882 => Appearance::Alarm,
            0x0883 => Appearance::Bell,
            0x0884 => Appearance::Horn,
            0x0885 => Appearance::BroadcastingDevice,
            0x0886 => Appearance::ServiceDesk,
            0x0887 => Appearance::Kiosk,
            0x0888 => Appearance::BroadcastingRoom,
            0x0889 => Appearance::Auditorium,
            0x08C0 => Appearance::GenericMotorizedVehicle,
            0x08C1 => Appearance::Car,
            0x08C2 => Appearance::LargeGoodsVehicle,
            0x08C3 => Appearance::TwoWheeledVehicle,
            0x08C4 => Appearance::Motorbike,
            0x08C5 => Appearance::Scooter,
            0x08C6 => Appearance::Moped,
            0x08C7 => Appearance::ThreeWheeledVehicle,
            0x08C8 => Appearance::LightVehicle,
            0x08C9 => Appearance::QuadBike,
            0x08CA => Appearance::Minibus,
            0x08CB => Appearance::Bus,
            0x08CC => Appearance::Trolley,
            0x08CD => Appearance::AgriculturalVehicle,
            0x08CE => Appearance::CamperOrCaravan,
            0x08CF => Appearance::RecreationalVehicleOrMotorHome,
            0x0900 => Appearance::GenericDomesticAppliance,
            0x0901 => Appearance::Refrigerator,
            0x0902 => Appearance::Freezer,
            0x0903 => Appearance::Oven,
            0x0904 => Appearance::Microwave,
            0x0905 => Appearance::Toaster,
            0x0906 => Appearance::WashingMachine,
            0x0907 => Appearance::Dryer,
            0x0908 => Appearance::CoffeeMaker,
            0x0909 => Appearance::ClothesIron,
            0x090A => Appearance::CurlingIron,
            0x090B => Appearance::HairDryer,
            0x090C => Appearance::VacuumCleaner,
            0x090D => Appearance::RoboticVacuumCleaner,
            0x090E => Appearance::RiceCooker,
            0x090F => Appearance::ClothesSteamer,
            0x0940 => Appearance::GenericWearableAudioDevice,
            0x0941 => Appearance::Earbud,
            0x0942 => Appearance::Headset,
            0x0943 => Appearance::Headphones,
            0x0944 => Appearance::NeckBand,
            0x0980 => Appearance::GenericAircraft,
            0x0981 => Appearance::LightAircraft,
            0x0982 => Appearance::Microlight,
            0x0983 => Appearance::Paraglider,
            0x0984 => Appearance::LargePassengerAircraft,
            0x09C0 => Appearance::GenericAvEquipment,
            0x09C1 => Appearance::Amplifier,
            0x09C2 => Appearance::Receiver,
            0x09C3 => Appearance::Radio,
            0x09C4 => Appearance::Tuner,
            0x09C5 => Appearance::Turntable,
            0x09C6 => Appearance::CdPlayer,
            0x09C7 => Appearance::DvdPlayer,
            0x09C8 => Appearance::BlurayPlayer,
            0x09C9 => Appearance::OpticalDiscPlayer,
            0x09CA => Appearance::SetTopBox,
            0x0A00 => Appearance::GenericDisplayEquipment,
            0x0A01 => Appearance::Television,
            0x0A02 => Appearance::Monitor,
            0x0A03 => Appearance::Projector,
            0x0A40 => Appearance::GenericHearingAid,
            0x0A41 => Appearance::InearHearingAid,
            0x0A42 => Appearance::BehindearHearingAid,
            0x0A43 => Appearance::CochlearImplant,
            0x0A80 => Appearance::GenericGaming,
            0x0A81 => Appearance::HomeVideoGameConsole,
            0x0A82 => Appearance::PortableHandheldConsole,
            0x0AC0 => Appearance::GenericSignage,
            0x0AC1 => Appearance::DigitalSignage,
            0x0AC2 => Appearance::ElectronicLabel,
            0x0C40 => Appearance::GenericPulseOximeter,
            0x0C41 => Appearance::FingertipPulseOximeter,
            0x0C42 => Appearance::WristWornPulseOximeter,
            0x0C80 => Appearance::GenericWeightScale,
            0x0CC0 => Appearance::GenericPersonalMobilityDevice,
            0x0CC1 => Appearance::PoweredWheelchair,
            0x0CC2 => Appearance::MobilityScooter,
            0x0D00 => Appearance::GenericContinuousGlucoseMonitor,
            0x0D40 => Appearance::GenericInsulinPump,
            0x0D41 => Appearance::DurableInsulinPump,
            0x0D44 => Appearance::PatchInsulinPump,
            0x0D48 => Appearance::InsulinPen,
            0x0D80 => Appearance::GenericMedicationDelivery,
            0x1440 => Appearance::GenericOutdoorSportsActivity,
            0x1441 => Appearance::LocationDisplay,
            0x1442 => Appearance::LocationAndNavigationDisplay,
            0x1443 => Appearance::LocationPod,
            0x1444 => Appearance::LocationAndNavigationPod,
            _ => Appearance::GenericUnknown,
        };
        proof {
            if r.raw() == v {
                Appearance::lemma_raw_injective(r, choose|c: Appearance| c.raw() == v);
            } else {
                assert(forall|c: Appearance| c.raw() != v);
            }
        }
        r
    }

    /// Every value decodes from its own code.
    pub proof fn lemma_from_raw_of_raw(self)
        ensures
            Appearance::from_raw(self.raw()) == self,
    {
        Appearance::lemma_raw_injective(self, choose|c: Appearance| c.raw() == self.raw());
    }

    /// Distinct values have distinct codes.
    pub proof fn lemma_raw_injective(a: Appearance, b: Appearance)
        requires
            a.raw() == b.raw(),
        ensures
            a == b,
    {
    }

    /// Returns the generic appearance category: the appearance whose value is
    /// this one with the bits of the kind cleared, or
    /// [`Appearance::GenericUnknown`] if the category has no appearance of its
    /// own.
    pub fn category(self) -> (r: Appearance)
        ensures
            r == Appearance::spec_from_raw(self.raw() & 0xFFC0),
    {
        Appearance::from_raw(self.raw() & 0xFFC0)
    }
}

impl Default for Appearance {
    fn default() -> (r: Appearance)
        ensures
            r == Appearance::GenericUnknown,
    {
        Appearance::GenericUnknown
    }
}

} // verus!
