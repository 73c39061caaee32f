use burble::gap::consts::{AdvFlag, Appearance, ResponseDataType};
use burble::gap::uuid::{
    CharacteristicId, DescriptorId, GattServiceId, ServiceClassId, Uuid, Uuid16, BASE,
};
use burble::gatt::consts::{Declaration, ExtProp, Prop};

#[test]
fn uuid_projections() {
    assert_eq!(Uuid::new(0), None);
    assert_eq!(Uuid16::new(0), None);
    let u = Uuid16::new(0x180F).unwrap();
    assert_eq!(u.raw(), 0x180F);
    assert_eq!(u.as_uuid().raw(), 0x0000180F_0000_1000_8000_00805F9B34FB);
    assert_eq!(u.as_uuid().as_u16(), Some(0x180F));
    assert_eq!(u.as_uuid().as_uuid16(), Some(u));
    assert_eq!(u.as_uuid().as_u32(), None);
    assert_eq!(u.as_uuid().as_u128(), None);
    let u = Uuid::new(0x12345678_0000_1000_8000_00805F9B34FB).unwrap();
    assert_eq!((u.as_u16(), u.as_u32(), u.as_u128()), (None, Some(0x12345678), None));
    assert_eq!(u.as_uuid16(), None);
    let u = Uuid::new(0x00010000_0000_1000_8000_00805F9B34FB).unwrap();
    assert_eq!((u.as_u16(), u.as_u32(), u.as_u128()), (None, Some(0x10000), None));
    let v = 0x12345678_9ABC_DEF0_1234_56789ABCDEF0;
    let u = Uuid::new(v).unwrap();
    assert_eq!((u.as_u16(), u.as_u32(), u.as_u128()), (None, None, Some(v)));
    assert_eq!(u.raw(), v);
    // The base itself stands for no value
    let u = Uuid::new(BASE).unwrap();
    assert_eq!((u.as_u16(), u.as_u32(), u.as_u128()), (None, None, None));
    assert_eq!(Uuid::nonzero(5).raw(), 5);
    assert_eq!(Uuid16::sig(5).raw(), 5);
}

#[test]
fn uuid_round_trips() {
    for v in [1_u16, 0x1800, 0x2A00, 0x2902, 0xFFFF] {
        let u = Uuid16::new(v).unwrap().as_uuid();
        assert_eq!(u.as_u16(), Some(v));
        assert_eq!(Uuid::new(u.raw()), Some(u));
        assert_eq!(u.to_le_vec(), v.to_le_bytes());
        assert_eq!(Uuid::from_le_slice(&v.to_le_bytes()), Some(u));
        let n = [u.as_u16().is_some(), u.as_u32().is_some(), u.as_u128().is_some()];
        assert_eq!(n.iter().filter(|&&b| b).count(), 1);
    }
    for v in [0x1_0000_u32, 0x12345678, u32::MAX] {
        let u = Uuid::new(u128::from(v) << 96 | BASE).unwrap();
        assert_eq!(u.as_u32(), Some(v));
        assert_eq!(u.to_le_vec(), u.raw().to_le_bytes());
        assert_eq!(Uuid::from_le_slice(&u.to_le_vec()), Some(u));
    }
    let u = Uuid::new(0x0102_0304_0506_0708_090A_0B0C_0D0E_0F10).unwrap();
    assert_eq!(u.to_le_vec(), [16, 15, 14, 13, 12, 11, 10, 9, 8, 7, 6, 5, 4, 3, 2, 1]);
    assert_eq!(Uuid::from_le_slice(&u.to_le_vec()), Some(u));
    assert_eq!(Uuid::from_le_slice(&[]), None);
    assert_eq!(Uuid::from_le_slice(&[1]), None);
    assert_eq!(Uuid::from_le_slice(&[0, 0]), None);
    assert_eq!(Uuid::from_le_slice(&[0; 16]), None);
    assert_eq!(Uuid::from_le_slice(&[1, 2, 3, 4]), None);
}

#[test]
fn assigned_numbers() {
    assert_eq!(ServiceClassId::ServiceDiscoveryServer.raw(), 0x1000);
    assert_eq!(ServiceClassId::HdpSink.raw(), 0x1402);
    assert_eq!(GattServiceId::GenericAccess.raw(), 0x1800);
    assert_eq!(GattServiceId::Tmas.raw(), 0x1855);
    assert_eq!(DescriptorId::CharacteristicExtendedProperties.raw(), 0x2900);
    assert_eq!(DescriptorId::ClientCharacteristicConfiguration.raw(), 0x2902);
    assert_eq!(DescriptorId::CharacteristicAggregateFormat.raw(), 0x2905);
    assert_eq!(DescriptorId::CompleteBredrTransportBlockData.raw(), 0x290F);
    assert_eq!(CharacteristicId::DeviceName.raw(), 0x2A00);
    assert_eq!(CharacteristicId::DatabaseHash.raw(), 0x2B2A);
    assert_eq!(CharacteristicId::VoltageFrequency.raw(), 0x2BE8);
    assert_eq!(GattServiceId::Battery.uuid16().raw(), 0x180F);
    assert_eq!(GattServiceId::Battery.uuid().as_u16(), Some(0x180F));
    assert_eq!(CharacteristicId::BatteryLevel.uuid(), Uuid16::sig(0x2A19).as_uuid());
    assert_eq!(Declaration::PrimaryService.raw(), 0x2800);
    assert_eq!(Declaration::Characteristic.uuid16().raw(), 0x2803);
    assert_eq!(Prop::from_bits(0xFF).unwrap().bits(), 0xFF);
    assert!(Prop { bits: 0x0A }.contains(Prop::READ | Prop::WRITE));
    assert!(!Prop { bits: 0x0A }.contains(Prop::READ | Prop::NOTIFY));
    assert!(Prop { bits: 0x0A }.intersects(Prop::READ | Prop::NOTIFY));
    assert_eq!(ExtProp::from_bits_truncate(0xFFFE).bits(), ExtProp::WRITABLE_AUX);
    assert_eq!(ExtProp::from_bits(4), None);
}

#[test]
fn appearance_category() {
    assert_eq!(Appearance::GenericUnknown.raw(), 0);
    assert_eq!(Appearance::DesktopWorkstation.category(), Appearance::GenericComputer);
    assert_eq!(Appearance::GenericComputer.category(), Appearance::GenericComputer);
    assert_eq!(Appearance::InsulinPen.category(), Appearance::GenericInsulinPump);
    assert_eq!(Appearance::LocationAndNavigationPod.category().raw(), 0x1440);
    assert_eq!(Appearance::GenericUnknown.category(), Appearance::GenericUnknown);
    assert_eq!(Appearance::from_raw(0x0081), Appearance::DesktopWorkstation);
    assert_eq!(Appearance::from_raw(0x003F), Appearance::GenericUnknown);
    assert_eq!(Appearance::default(), Appearance::GenericUnknown);
    for v in 0..=u16::MAX {
        let a = Appearance::from_raw(v);
        assert!(a.raw() == v || a == Appearance::GenericUnknown);
        assert_eq!(a.category().raw() & 0x3F, 0);
        assert!(a.category().raw() == a.raw() & 0xFFC0 || a.category() == Appearance::GenericUnknown);
    }
}

#[test]
fn advertising_data_types() {
    assert_eq!(ResponseDataType::Flags.raw(), 0x01);
    assert_eq!(ResponseDataType::ManufacturerData.raw(), 0xFF);
    assert_eq!(ResponseDataType::from_raw(0x19), Some(ResponseDataType::Appearance));
    assert_eq!(ResponseDataType::from_raw(0x0B), None);
    assert_eq!(AdvFlag::default().bits(), 0);
    assert_eq!(AdvFlag::from_bits_truncate(0xFF).bits(), 0x1F);
    assert!(AdvFlag { bits: 6 }.contains(AdvFlag::LE_GENERAL | AdvFlag::NO_BREDR));
}
