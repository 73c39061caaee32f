use burble::att::{
    Access, AccessType, ErrorCode, Handle, HandleRange, Opcode, Perms, Request, Security,
};
use burble::crypto::{f4_message, Nonce, PublicKeyX};
use burble::gap::uuid::{CharacteristicId, DescriptorId, GattServiceId, Uuid, Uuid16};
use burble::gatt::builder::{Builder, SchemaInvalid};
use burble::gatt::consts::{ExtProp, Prop};
use burble::gatt::schema::{db_hash, value_handle, Schema};

fn h(v: u16) -> Handle {
    Handle::new(v).unwrap()
}

fn range(a: u16, b: u16) -> HandleRange {
    HandleRange::new(h(a), h(b))
}

fn authn() -> Perms {
    Perms::new(Security { encrypt: false, authn: true, authz: false, lesc: false, key_len: 0 })
}

fn vendor() -> Uuid {
    Uuid::new(0x12345678_9ABC_DEF0_1234_56789ABCDEF0).unwrap()
}

fn read_req() -> Request {
    Request::new(Opcode::ReadReq, Security::none()).unwrap()
}

/// Generic Access, Generic Attribute, and a vendor service with one readable
/// and one notify characteristic with a client configuration.
fn three_services() -> Schema {
    let mut b = Schema::build();
    assert_eq!(b.primary_service(GattServiceId::GenericAccess.uuid()), Some(h(1)));
    assert_eq!(
        b.characteristic(CharacteristicId::DeviceName.uuid(), Prop { bits: Prop::READ }, Perms::open()),
        Some(h(3))
    );
    assert_eq!(
        b.characteristic(CharacteristicId::Appearance.uuid(), Prop { bits: Prop::READ }, Perms::open()),
        Some(h(5))
    );
    assert_eq!(b.primary_service(GattServiceId::GenericAttribute.uuid()), Some(h(6)));
    assert_eq!(
        b.characteristic(
            CharacteristicId::DatabaseHash.uuid(),
            Prop { bits: Prop::READ },
            Perms::open()
        ),
        Some(h(8))
    );
    assert_eq!(b.primary_service(vendor()), Some(h(9)));
    assert_eq!(b.characteristic(vendor(), Prop { bits: Prop::READ }, Perms::open()), Some(h(11)));
    assert_eq!(
        b.characteristic(
            Uuid::new(0x12345678_9ABC_DEF0_1234_56789ABCDEF1).unwrap(),
            Prop { bits: Prop::NOTIFY },
            Perms::open()
        ),
        Some(h(13))
    );
    assert_eq!(
        b.descriptor(DescriptorId::ClientCharacteristicConfiguration.uuid(), &[], Perms::open()),
        Some(h(14))
    );
    b.freeze().unwrap()
}

#[test]
fn handle_zero_rejected() {
    assert_eq!(Handle::new(0), None);
    assert_eq!(Handle::new(1).unwrap().raw(), 1);
    assert_eq!(Handle::new(0xFFFF).unwrap().raw(), 0xFFFF);
    assert_eq!(Handle::max().raw(), 0xFFFF);
    assert_eq!(HandleRange::all().end(), h(0xFFFF));
    assert_eq!(HandleRange::checked(h(2), h(1)), None);
    assert_eq!(HandleRange::checked(h(2), h(2)).unwrap().start(), h(2));
}

#[test]
fn get_finds_each_handle() {
    let s = three_services();
    assert_eq!(s.len(), 14);
    for v in 1..=14 {
        let at = s.get(h(v)).unwrap();
        assert_eq!(at.hdl, h(v));
        assert_eq!(s.find(h(v)), Ok(usize::from(v) - 1));
    }
    assert_eq!(s.get(h(15)).unwrap_err(), 14);
    assert_eq!(s.get(h(0xFFFF)).unwrap_err(), 14);
}

#[test]
fn get_with_handle_gaps() {
    let mut b = Builder::new();
    b.at(h(10));
    b.primary_service(GattServiceId::Battery.uuid()).unwrap();
    b.characteristic(CharacteristicId::BatteryLevel.uuid(), Prop { bits: Prop::READ }, Perms::open())
        .unwrap();
    b.at(h(100));
    b.primary_service(GattServiceId::TxPower.uuid()).unwrap();
    b.characteristic(CharacteristicId::TxPowerLevel.uuid(), Prop { bits: Prop::READ }, Perms::open())
        .unwrap();
    let s = b.freeze().unwrap();
    assert_eq!(s.len(), 6);
    assert_eq!(s.find(h(1)), Err(0));
    assert_eq!(s.find(h(10)), Ok(0));
    assert_eq!(s.find(h(12)), Ok(2));
    assert_eq!(s.find(h(13)), Err(3));
    assert_eq!(s.find(h(100)), Ok(3));
    assert_eq!(s.find(h(102)), Ok(5));
    assert_eq!(s.find(h(103)), Err(6));
    assert_eq!(s.get(h(101)).unwrap().hdl, h(101));
    assert_eq!(s.subset_range(range(1, 9)), None);
    assert_eq!(s.subset_range(range(13, 99)), None);
    assert_eq!(s.subset_range(range(11, 100)), Some((1, 4)));
    assert_eq!(s.subset_range(range(1, 0xFFFF)), Some((0, 6)));
    let sub = s.subset(range(12, 101)).unwrap();
    assert_eq!(sub.off(), 2);
    assert_eq!(sub.attr().len(), 3);
    assert_eq!(sub.first().hdl, h(12));
    assert_eq!(sub.last().hdl, h(101));
}

#[test]
fn duplicate_handles_are_invalid() {
    let mut b = Builder::new();
    b.primary_service(GattServiceId::Battery.uuid()).unwrap();
    b.at(h(1));
    b.characteristic(CharacteristicId::BatteryLevel.uuid(), Prop { bits: Prop::READ }, Perms::open())
        .unwrap();
    assert_eq!(b.freeze().unwrap_err(), SchemaInvalid { at: 1 });
}

#[test]
fn empty_service_is_invalid() {
    let mut b = Builder::new();
    b.primary_service(GattServiceId::Battery.uuid()).unwrap();
    b.primary_service(GattServiceId::TxPower.uuid()).unwrap();
    b.characteristic(CharacteristicId::TxPowerLevel.uuid(), Prop { bits: Prop::READ }, Perms::open())
        .unwrap();
    assert_eq!(b.freeze().unwrap_err(), SchemaInvalid { at: 0 });
    let mut b = Builder::new();
    b.primary_service(GattServiceId::Battery.uuid()).unwrap();
    assert_eq!(b.freeze().unwrap_err(), SchemaInvalid { at: 0 });
}

#[test]
fn characteristic_without_value_is_invalid() {
    let mut b = Builder::new();
    b.primary_service(GattServiceId::Battery.uuid()).unwrap();
    // A declaration that names handle 3 for its value, with no attribute after it
    b.attribute(Uuid16::new(0x2803).unwrap().as_uuid(), &[0x02, 3, 0, 0x19, 0x2A], Perms::open())
        .unwrap();
    assert_eq!(b.freeze().unwrap_err(), SchemaInvalid { at: 1 });
    let mut b = Builder::new();
    b.primary_service(GattServiceId::Battery.uuid()).unwrap();
    // The value attribute does not have the handle that the declaration names
    b.attribute(Uuid16::new(0x2803).unwrap().as_uuid(), &[0x02, 4, 0, 0x19, 0x2A], Perms::open())
        .unwrap();
    b.attribute(CharacteristicId::BatteryLevel.uuid(), &[], Perms::open()).unwrap();
    assert_eq!(b.freeze().unwrap_err(), SchemaInvalid { at: 1 });
}

#[test]
fn ext_props_without_descriptor_is_invalid() {
    let mut b = Builder::new();
    b.primary_service(GattServiceId::Battery.uuid()).unwrap();
    b.characteristic(
        CharacteristicId::BatteryLevel.uuid(),
        Prop { bits: Prop::READ | Prop::EXT_PROPS },
        Perms::open(),
    )
    .unwrap();
    assert_eq!(b.freeze().unwrap_err(), SchemaInvalid { at: 1 });
}

#[test]
fn ext_props_descriptor_without_property_is_invalid() {
    let mut b = Builder::new();
    b.primary_service(GattServiceId::Battery.uuid()).unwrap();
    b.characteristic(CharacteristicId::BatteryLevel.uuid(), Prop { bits: Prop::READ }, Perms::open())
        .unwrap();
    b.ext_props(ExtProp { bits: ExtProp::WRITABLE_AUX }).unwrap();
    assert_eq!(b.freeze().unwrap_err(), SchemaInvalid { at: 1 });
}

#[test]
fn descriptor_outside_characteristic_is_invalid() {
    let mut b = Builder::new();
    b.primary_service(GattServiceId::Battery.uuid()).unwrap();
    b.descriptor(DescriptorId::ClientCharacteristicConfiguration.uuid(), &[], Perms::open())
        .unwrap();
    assert_eq!(b.freeze().unwrap_err(), SchemaInvalid { at: 1 });
    let mut b = Builder::new();
    b.descriptor(DescriptorId::ClientCharacteristicConfiguration.uuid(), &[], Perms::open())
        .unwrap();
    assert_eq!(b.freeze().unwrap_err(), SchemaInvalid { at: 0 });
}

#[test]
fn empty_schema() {
    let s = Builder::new().freeze().unwrap();
    assert_eq!(s.len(), 0);
    assert_eq!(s.hash(), db_hash(&[]));
    assert_eq!(s.hash(), Schema::empty().hash());
    assert!(s.get(h(1)).is_err());
    assert!(s.primary_services(h(1), None).collect().is_empty());
}

#[test]
fn builder_runs_out_of_handles() {
    let mut b = Builder::new();
    b.at(h(0xFFFF));
    assert_eq!(
        b.characteristic(CharacteristicId::BatteryLevel.uuid(), Prop { bits: Prop::READ }, Perms::open()),
        None
    );
    assert_eq!(b.len(), 0);
    assert_eq!(b.primary_service(GattServiceId::Battery.uuid()), Some(h(0xFFFF)));
    assert_eq!(b.next_handle(), None);
    assert_eq!(b.primary_service(GattServiceId::Battery.uuid()), None);
    assert_eq!(b.len(), 1);
}

#[test]
fn data_holds_values_then_types() {
    let s = three_services();
    // Three services: 2 + 2 + 16 bytes; five characteristics: three of 5 bytes
    // and two of 19; then the two 128-bit types of the vendor values
    assert_eq!(s.data().len(), 20 + 15 + 38 + 32);
    assert_eq!(&s.data()[..2], &[0x00, 0x18]);
    assert_eq!(&s.data()[73..89], &vendor().raw().to_le_bytes());
    assert_eq!(s.typ(10).raw(), vendor().raw());
    assert_eq!(s.typ(2).raw(), CharacteristicId::DeviceName.uuid().raw());
    assert_eq!(s.value(1), &[0x02, 3, 0, 0x00, 0x2A]);
    assert!(s.value(10).is_empty());
}

#[test]
fn hash_is_recomputed_from_the_hashable_form() {
    let s = three_services();
    assert_eq!(s.recompute_hash(), s.hash());
    assert_eq!(db_hash(&s.hashable()), s.hash());
    assert_eq!(three_services().hash(), s.hash());
    let mut want = Vec::new();
    want.extend([1, 0, 0x00, 0x28, 0x00, 0x18]);
    want.extend([2, 0, 0x03, 0x28, 0x02, 3, 0, 0x00, 0x2A]);
    want.extend([4, 0, 0x03, 0x28, 0x02, 5, 0, 0x01, 0x2A]);
    want.extend([6, 0, 0x00, 0x28, 0x01, 0x18]);
    want.extend([7, 0, 0x03, 0x28, 0x02, 8, 0, 0x2A, 0x2B]);
    want.extend([9, 0, 0x00, 0x28]);
    want.extend(vendor().raw().to_le_bytes());
    want.extend([10, 0, 0x03, 0x28, 0x02, 11, 0]);
    want.extend(vendor().raw().to_le_bytes());
    want.extend([12, 0, 0x03, 0x28, 0x10, 13, 0]);
    want.extend((vendor().raw() + 1).to_le_bytes());
    want.extend([14, 0, 0x02, 0x29]);
    assert_eq!(s.hashable(), want);
}

#[test]
fn hash_is_the_cmac_under_the_zero_key() {
    // The confirm value under a zero nonce is the AES-CMAC under the zero key
    let u = PublicKeyX::from_be_bytes([7; 32]);
    let v = PublicKeyX::from_be_bytes([9; 32]);
    let m = f4_message(&u, &v, 3);
    assert_eq!(db_hash(&m), Nonce::from_raw(0).f4(&u, &v, 3).raw());
    assert_ne!(db_hash(&m), db_hash(&m[1..]));
}

#[test]
fn hash_changes_with_the_order_of_attributes() {
    let mut b = Builder::new();
    b.primary_service(GattServiceId::GenericAccess.uuid()).unwrap();
    b.characteristic(CharacteristicId::Appearance.uuid(), Prop { bits: Prop::READ }, Perms::open())
        .unwrap();
    b.characteristic(CharacteristicId::DeviceName.uuid(), Prop { bits: Prop::READ }, Perms::open())
        .unwrap();
    let a = b.freeze().unwrap();
    let mut b = Builder::new();
    b.primary_service(GattServiceId::GenericAccess.uuid()).unwrap();
    b.characteristic(CharacteristicId::DeviceName.uuid(), Prop { bits: Prop::READ }, Perms::open())
        .unwrap();
    b.characteristic(CharacteristicId::Appearance.uuid(), Prop { bits: Prop::READ }, Perms::open())
        .unwrap();
    let c = b.freeze().unwrap();
    assert_ne!(a.hash(), c.hash());
}

#[test]
fn primary_services_by_uuid() {
    let mut b = Builder::new();
    for (i, id) in [GattServiceId::Battery, GattServiceId::TxPower, GattServiceId::Battery]
        .into_iter()
        .enumerate()
    {
        if i == 1 {
            b.secondary_service(GattServiceId::TxPower.uuid()).unwrap();
            b.characteristic(
                CharacteristicId::TxPowerLevel.uuid(),
                Prop { bits: Prop::READ },
                Perms::open(),
            )
            .unwrap();
        }
        b.primary_service(id.uuid()).unwrap();
        b.characteristic(CharacteristicId::BatteryLevel.uuid(), Prop { bits: Prop::READ }, Perms::open())
            .unwrap();
    }
    let s = b.freeze().unwrap();
    let all = s.primary_services(h(1), None).collect();
    let got: Vec<(u16, u16)> =
        all.iter().map(|e| (e.handle_range().start().raw(), e.handle_range().end().raw())).collect();
    assert_eq!(got, [(1, 3), (7, 9), (10, 12)]);
    assert_eq!(all[1].uuid(), GattServiceId::TxPower.uuid());
    assert_eq!(all[0].handle(), h(1));
    assert_eq!(all[0].value(), &[0x0F, 0x18]);
    let bat = s.primary_services(h(1), Some(GattServiceId::Battery.uuid())).collect();
    let got: Vec<(u16, u16)> =
        bat.iter().map(|e| (e.handle_range().start().raw(), e.handle_range().end().raw())).collect();
    assert_eq!(got, [(1, 3), (10, 12)]);
    let bat = s.primary_services(h(2), Some(GattServiceId::Battery.uuid())).collect();
    assert_eq!(bat.len(), 1);
    assert_eq!(bat[0].handle(), h(10));
    assert!(s.primary_services(h(1), Some(GattServiceId::HeartRate.uuid())).collect().is_empty());
    let mut it = s.primary_services(h(8), None);
    assert_eq!(it.next().unwrap().handle(), h(10));
    assert!(it.next().is_none());
    assert!(it.next().is_none());
}

#[test]
fn service_groups() {
    let s = three_services();
    assert_eq!(s.service_range(h(1)), Some((0, 5)));
    assert_eq!(s.service_range(h(6)), Some((5, 8)));
    assert_eq!(s.service_range(h(9)), Some((8, 14)));
    assert_eq!(s.service_range(h(2)), None);
    assert_eq!(s.service_range(h(15)), None);
    let g = s.service_group(h(6)).unwrap();
    assert_eq!(g.off(), 5);
    assert_eq!(g.attr().len(), 3);
    assert!(g.first().is_service() && g.first().is_primary_service());
    assert_eq!(s.service_attrs(range(1, 5)), (1, 5));
    assert_eq!(s.service_attrs(range(2, 5)), (1, 5));
    assert_eq!(s.service_attrs(range(1, 6)), (0, 0));
    assert_eq!(s.service_attrs(range(9, 0xFFFF)), (9, 14));
}

#[test]
fn includes_and_characteristics() {
    let mut b = Builder::new();
    b.secondary_service(GattServiceId::Battery.uuid()).unwrap();
    b.characteristic(CharacteristicId::BatteryLevel.uuid(), Prop { bits: Prop::READ }, Perms::open())
        .unwrap();
    b.primary_service(vendor()).unwrap();
    b.include_service(range(1, 3), Some(GattServiceId::Battery.uuid16())).unwrap();
    b.include_service(range(20, 30), None).unwrap();
    b.characteristic(vendor(), Prop { bits: Prop::READ | Prop::WRITE }, Perms::open()).unwrap();
    b.descriptor(DescriptorId::CharacteristicUserDescription.uuid(), &[], Perms::open()).unwrap();
    b.characteristic(
        CharacteristicId::Appearance.uuid(),
        Prop { bits: Prop::NOTIFY | Prop::EXT_PROPS },
        Perms::open(),
    )
    .unwrap();
    b.ext_props(ExtProp { bits: ExtProp::RELIABLE_WRITE }).unwrap();
    let s = b.freeze().unwrap();
    let inc = s.includes(range(4, 0xFFFF));
    assert_eq!(inc.len(), 2);
    assert_eq!(inc[0].handle(), h(5));
    assert_eq!(inc[0].value(), &[1, 0, 3, 0, 0x0F, 0x18]);
    assert_eq!(inc[1].value(), &[20, 0, 30, 0]);
    assert!(s.includes(range(1, 3)).is_empty());
    assert!(s.includes(range(1, 0xFFFF)).is_empty());
    let chars = s.characteristics(range(4, 0xFFFF)).collect();
    assert_eq!(chars.len(), 2);
    assert_eq!(chars[0].handle_range().start(), h(7));
    assert_eq!(chars[0].handle_range().end(), h(9));
    assert_eq!(chars[0].uuid(), vendor());
    assert_eq!(chars[0].value_handle(), h(8));
    assert_eq!(chars[0].properties().bits(), Prop::READ | Prop::WRITE);
    assert_eq!(chars[1].handle_range().start(), h(10));
    assert_eq!(chars[1].handle_range().end(), h(12));
    assert_eq!(chars[1].uuid(), CharacteristicId::Appearance.uuid());
    assert!(chars[1].properties().contains(Prop::EXT_PROPS));
    assert_eq!(s.characteristics(range(1, 3)).collect().len(), 1);
    assert!(s.characteristics(range(1, 4)).collect().is_empty());
    let d = s.descriptors(range(9, 9));
    assert_eq!(d.len(), 1);
    assert_eq!(d[0].uuid(), DescriptorId::CharacteristicUserDescription.uuid());
    assert_eq!(d[0].handle(), h(9));
    let d = s.descriptors(range(12, 0xFFFF));
    assert_eq!(d.len(), 1);
    assert_eq!(d[0].uuid(), DescriptorId::CharacteristicExtendedProperties.uuid());
    assert_eq!(d[0].value(), &[1, 0]);
    // The range may not start at the value, nor cross into the next characteristic
    assert!(s.descriptors(range(8, 9)).is_empty());
    assert!(s.descriptors(range(9, 10)).is_empty());
    assert!(s.descriptors(range(4, 4)).is_empty());
    let ch = s.characteristic_at(8).unwrap();
    assert_eq!((ch.decl, ch.val, ch.end), (6, 7, 9));
    assert_eq!(ch.ext_props, None);
    let ch = s.characteristic_for_attr(s.get(h(12)).unwrap()).unwrap();
    assert_eq!((ch.decl, ch.val, ch.end), (9, 10, 12));
    assert_eq!(ch.ext_props, Some(ExtProp { bits: ExtProp::RELIABLE_WRITE }));
    assert!(s.characteristic_at(3).is_none());
    assert!(s.characteristic_at(4).is_none());
}

#[test]
fn value_handle_of_declaration() {
    assert_eq!(value_handle(&[0x02, 0x34, 0x12, 0x00, 0x2A]), h(0x1234));
    assert_eq!(value_handle(&[0x02, 0x34, 0x12]), h(0x1234));
    assert_eq!(value_handle(&[0x02, 0, 0, 0x00, 0x2A]), h(0xFFFF));
    assert_eq!(value_handle(&[0x02, 0x34]), h(0xFFFF));
    assert_eq!(value_handle(&[]), h(0xFFFF));
}

#[test]
fn read_on_write_only_characteristic() {
    let mut b = Builder::new();
    b.primary_service(vendor()).unwrap();
    let v = b.characteristic(vendor(), Prop { bits: Prop::WRITE }, Perms::open()).unwrap();
    let s = b.freeze().unwrap();
    let e = s.try_access(read_req(), v).unwrap_err();
    assert_eq!(e.err, ErrorCode::ReadNotPermitted);
    assert_eq!(e.hdl, Some(v));
    assert_eq!(e.req, 0x0A);
    assert_eq!(e.pdu(), [0x01, 0x0A, 3, 0, 0x02]);
    let w = Request::new(Opcode::WriteReq, Security::none()).unwrap();
    assert_eq!(s.try_access(w, v), Ok(v));
    // The declaration is open to a read
    assert_eq!(s.try_access(read_req(), h(2)), Ok(h(2)));
}

#[test]
fn signed_write_without_the_property() {
    let mut b = Builder::new();
    b.primary_service(vendor()).unwrap();
    let v = b
        .characteristic(vendor(), Prop { bits: Prop::WRITE | Prop::WRITE_CMD }, Perms::open())
        .unwrap();
    let w = b
        .characteristic(
            CharacteristicId::Appearance.uuid(),
            Prop { bits: Prop::SIGNED_WRITE_CMD },
            Perms::open(),
        )
        .unwrap();
    let s = b.freeze().unwrap();
    let req = Request::new(Opcode::SignedWriteCmd, Security::none()).unwrap();
    assert_eq!(s.try_access(req, v).unwrap_err().err, ErrorCode::WriteNotPermitted);
    assert_eq!(s.try_access(req, w), Ok(w));
    let req = Request::new(Opcode::WriteCmd, Security::none()).unwrap();
    assert_eq!(s.try_access(req, v), Ok(v));
    assert_eq!(s.try_access(req, w).unwrap_err().err, ErrorCode::WriteNotPermitted);
}

#[test]
fn request_without_a_property() {
    let mut b = Builder::new();
    b.primary_service(vendor()).unwrap();
    let v = b.characteristic(vendor(), Prop { bits: Prop::ALL }, Perms::open()).unwrap();
    b.ext_props(ExtProp::empty()).unwrap();
    let s = b.freeze().unwrap();
    let req = Request::new(Opcode::ReadByGroupTypeReq, Security::none()).unwrap();
    assert_eq!(s.try_access(req, v).unwrap_err().err, ErrorCode::RequestNotSupported);
    assert_eq!(s.try_access(req, h(1)), Ok(h(1)));
    assert_eq!(s.try_access(req, h(9)).unwrap_err().err, ErrorCode::InvalidHandle);
    assert!(Request::new(Opcode::ExchangeMtuReq, Security::none()).is_none());
    assert!(Request::new(Opcode::ReadRsp, Security::none()).is_none());
}

#[test]
fn user_description_needs_writable_aux() {
    let build = |ext: u16| {
        let mut b = Builder::new();
        b.primary_service(vendor()).unwrap();
        b.characteristic(vendor(), Prop { bits: Prop::READ | Prop::EXT_PROPS }, Perms::open())
            .unwrap();
        b.ext_props(ExtProp { bits: ext }).unwrap();
        b.descriptor(DescriptorId::CharacteristicUserDescription.uuid(), &[], Perms::open())
            .unwrap();
        b.freeze().unwrap()
    };
    let w = Request::new(Opcode::WriteReq, Security::none()).unwrap();
    let s = build(ExtProp::RELIABLE_WRITE);
    assert_eq!(s.try_access(w, h(5)).unwrap_err().err, ErrorCode::WriteNotPermitted);
    assert_eq!(s.try_access(read_req(), h(5)), Ok(h(5)));
    assert_eq!(s.try_access(w, h(4)), Ok(h(4)));
    let s = build(ExtProp::WRITABLE_AUX);
    assert_eq!(s.try_access(w, h(5)), Ok(h(5)));
}

#[test]
fn permissions_name_what_the_link_lacks() {
    let need = Security { encrypt: true, authn: true, authz: true, lesc: true, key_len: 16 };
    let mut have = Security::none();
    assert_eq!(need.missing(have), Some(ErrorCode::InsufficientAuthentication));
    have.authn = true;
    assert_eq!(need.missing(have), Some(ErrorCode::InsufficientAuthentication));
    have.lesc = true;
    assert_eq!(need.missing(have), Some(ErrorCode::InsufficientAuthorization));
    have.authz = true;
    assert_eq!(need.missing(have), Some(ErrorCode::InsufficientEncryption));
    have.encrypt = true;
    have.key_len = 7;
    assert_eq!(need.missing(have), Some(ErrorCode::InsufficientEncryptionKeySize));
    have.key_len = 16;
    assert_eq!(need.missing(have), None);
    assert_eq!(Security::none().missing(Security::none()), None);
    let p = Perms { read: Security::none(), write: need };
    assert_eq!(p.test(Access { typ: AccessType::Read, sec: Security::none() }), Ok(()));
    assert_eq!(
        p.test(Access { typ: AccessType::Write, sec: Security::none() }),
        Err(ErrorCode::InsufficientAuthentication)
    );
}

fn five_names(first_needs_authn: bool) -> Schema {
    let mut b = Builder::new();
    b.primary_service(GattServiceId::GenericAccess.uuid()).unwrap();
    for i in 1..=5 {
        let perms = if i == 2 || i == 4 || (i == 1 && first_needs_authn) {
            authn()
        } else {
            Perms::open()
        };
        b.characteristic(CharacteristicId::DeviceName.uuid(), Prop { bits: Prop::READ }, perms)
            .unwrap();
    }
    b.freeze().unwrap()
}

#[test]
fn read_by_type_permission_slice() {
    let req = Request::new(Opcode::ReadByTypeReq, Security::none()).unwrap();
    let name = CharacteristicId::DeviceName.uuid();
    let s = five_names(false);
    // The list ends before the first characteristic that needs authentication
    assert_eq!(s.try_range_access(req, range(1, 0xFFFF), name), Ok(vec![h(3)]));
    assert_eq!(s.try_range_access(req, range(6, 0xFFFF), name), Ok(vec![h(7)]));
    assert_eq!(s.try_range_access(req, range(10, 0xFFFF), name), Ok(vec![h(11)]));
    let e = s.try_range_access(req, range(4, 0xFFFF), name).unwrap_err();
    assert_eq!((e.err, e.hdl), (ErrorCode::InsufficientAuthentication, Some(h(5))));
    let s = five_names(true);
    let e = s.try_range_access(req, range(1, 0xFFFF), name).unwrap_err();
    assert_eq!((e.err, e.hdl, e.req), (ErrorCode::InsufficientAuthentication, Some(h(3)), 0x08));
    let sec = Security { authn: true, ..Security::none() };
    let req = Request::new(Opcode::ReadByTypeReq, sec).unwrap();
    assert_eq!(
        s.try_range_access(req, range(1, 0xFFFF), name),
        Ok(vec![h(3), h(5), h(7), h(9), h(11)])
    );
    assert_eq!(s.try_range_access(req, range(4, 8), name), Ok(vec![h(5), h(7)]));
    let e = s.try_range_access(req, range(12, 0xFFFF), name).unwrap_err();
    assert_eq!((e.err, e.hdl), (ErrorCode::AttributeNotFound, Some(h(12))));
    let e = s.try_range_access(req, range(1, 0xFFFF), vendor()).unwrap_err();
    assert_eq!((e.err, e.hdl), (ErrorCode::AttributeNotFound, Some(h(1))));
}

#[test]
fn multi_access() {
    let s = five_names(false);
    let req = read_req();
    let e = s.try_multi_access(req, &[]).unwrap_err();
    assert_eq!((e.err, e.hdl), (ErrorCode::InvalidPdu, None));
    assert_eq!(e.pdu(), [0x01, 0x0A, 0, 0, 0x04]);
    let hdls = [h(3), h(7), h(1)];
    assert_eq!(s.try_multi_access(req, &hdls), Ok(&hdls[..]));
    let e = s.try_multi_access(req, &[h(3), h(5), h(20)]).unwrap_err();
    assert_eq!((e.err, e.hdl), (ErrorCode::InsufficientAuthentication, Some(h(5))));
    let e = s.try_multi_access(req, &[h(3), h(20), h(5)]).unwrap_err();
    assert_eq!((e.err, e.hdl), (ErrorCode::InvalidHandle, Some(h(20))));
}
