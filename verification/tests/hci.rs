use burble::codec::Unpacker;
use burble::crypto::LTK;
use burble::hci::cmd::{self, AdvEnableParams, AdvParams, BufferSize, LeBufferSize, LeEventMask};
use burble::hci::conn::{
    duration_10ms, duration_1250us, ticks_10ms, ticks_1250us, ticks_625us, AdvHandle, ConnHandle,
};
use burble::hci::consts::{
    le, with_bit, AdvAddrType, AdvChanMap, AdvDataOp, AdvFilterPolicy, AdvPhy, AdvProp,
    CoreVersion, EventCode, EventFmt, EventMask, MaskPage, Opcode, OpcodeGroup, Role, Status,
};
use burble::hci::event::{Error, Event, EventFilter, EventType, SubeventCode};
use burble::hci::params::{
    clock_accuracy, DisconnectionComplete, LeConnectionComplete, NumberOfCompletedPackets,
};
use burble::hci::router::Waiters;
use burble::le::{Addr, RawAddr, TxPower};

#[test]
fn opcode_values() {
    assert_eq!(Opcode::Nop.raw(), 0x0000);
    assert_eq!(Opcode::Reset.raw(), 0x0C03);
    assert_eq!(Opcode::ReadBdAddr.raw(), 0x1009);
    assert_eq!(Opcode::LeSetExtendedAdvertisingEnable.raw(), 0x2039);
    assert_eq!(Opcode::LeReadBufferSizeV2.raw(), 0x2060);
    assert_eq!(Opcode::from_raw(0x0C03), Opcode::Reset);
    assert_eq!(Opcode::from_raw(0x2001), Opcode::LeSetEventMask);
    assert_eq!(Opcode::from_raw(0x1234), Opcode::Nop);
    assert_eq!(Opcode::default(), Opcode::Nop);
    assert!(Opcode::Nop.is_none() && !Opcode::Nop.is_some());
    assert!(Opcode::Reset.is_some() && !Opcode::Reset.is_none());
}

#[test]
fn opcode_groups() {
    assert_eq!(OpcodeGroup::HciControl.ocf(0x0003), 0x0C03);
    assert_eq!(OpcodeGroup::InfoParams.ocf(0x0001), 0x1001);
    assert_eq!(OpcodeGroup::Le.ocf(0x0036), 0x2036);
    assert_eq!(OpcodeGroup::Vendor.ocf(0x03FF), 0xFFFF);
    assert_eq!(Opcode::Nop.group(), None);
    assert_eq!(Opcode::SetEventMaskPage2.group(), Some(OpcodeGroup::HciControl));
    assert_eq!(Opcode::ReadBufferSize.group(), Some(OpcodeGroup::InfoParams));
    assert_eq!(Opcode::LeClearAdvertisingSets.group(), Some(OpcodeGroup::Le));
    for v in 0..=u16::MAX {
        let op = Opcode::from_raw(v);
        if op.is_some() {
            assert_eq!(op.raw(), v);
            assert_eq!(op.group().unwrap().ocf(v & 0x03FF), v);
        }
    }
}

#[test]
fn event_code_values() {
    assert_eq!(le(0x01), 0x013E);
    assert_eq!(le(0x23), 0x233E);
    assert_eq!(EventCode::CommandComplete.raw(), 0x0E);
    assert_eq!(EventCode::LeMetaEvent.raw(), 0x3E);
    assert_eq!(EventCode::LeConnectionComplete.raw(), le(0x01));
    assert_eq!(EventCode::LeSubrateChange.raw(), le(0x23));
    assert_eq!(EventCode::Vendor.raw(), 0xFF);
    assert_eq!(EventCode::from_raw(0x13), Some(EventCode::NumberOfCompletedPackets));
    assert_eq!(EventCode::from_raw(0x0A3E), Some(EventCode::LeEnhancedConnectionComplete));
    assert_eq!(EventCode::from_raw(0x00), None);
    assert_eq!(EventCode::from_raw(0x243E), None);
    let mut n = 0;
    for v in 0..=u16::MAX {
        if let Some(c) = EventCode::from_raw(v) {
            assert_eq!(c.raw(), v);
            assert_eq!(c.is_le(), v > 0xFF);
            n += 1;
        }
    }
    assert_eq!(n, 100);
    assert!(EventCode::CommandComplete.is_cmd() && EventCode::CommandStatus.is_cmd());
    assert!(!EventCode::QosViolation.is_cmd() && !EventCode::LeMetaEvent.is_cmd());
}

#[test]
fn event_param_formats() {
    let fmt = EventCode::DisconnectionComplete.param_fmt();
    assert_eq!(fmt.bits(), EventFmt::STATUS | EventFmt::CONN_HANDLE);
    assert!(fmt.contains(EventFmt::STATUS) && fmt.contains(EventFmt::CONN_HANDLE));
    assert!(fmt.intersects(EventFmt::HANDLE) && !fmt.contains(EventFmt::HANDLE));
    assert_eq!(EventCode::CommandComplete.param_fmt().bits(), EventFmt::STATUS);
    assert_eq!(EventCode::NumberOfCompletedPackets.param_fmt(), EventFmt::empty());
    assert_eq!(EventCode::FlushOccurred.param_fmt().bits(), EventFmt::CONN_HANDLE);
    assert_eq!(
        EventCode::LeAdvertisingSetTerminated.param_fmt().bits(),
        EventFmt::STATUS | EventFmt::ADV_HANDLE
    );
    assert_eq!(EventCode::LePeriodicAdvertisingReport.param_fmt().bits(), EventFmt::SYNC_HANDLE);
    assert_eq!(
        EventCode::LeCreateBigComplete.param_fmt().bits(),
        EventFmt::STATUS | EventFmt::BIG_HANDLE
    );
    assert_eq!(
        SubeventCode::LongTermKeyRequest.param_fmt(),
        EventCode::LeLongTermKeyRequest.param_fmt()
    );
    assert_eq!(
        EventType::Le(SubeventCode::ConnectionComplete).param_fmt().bits(),
        EventFmt::STATUS | EventFmt::CONN_HANDLE
    );
    assert_eq!(EventFmt::from_bits(0x20), None);
    assert_eq!(EventFmt::from_bits(0x11), Some(EventFmt { bits: 0x11 }));
    assert_eq!(EventFmt::from_bits_truncate(0xF3).bits(), 0x13);
    assert_eq!(EventFmt::empty().union(EventFmt::ADV_HANDLE).bits(), 8);
    assert!(EventFmt::empty().is_empty());
}

#[test]
fn event_mask_bits() {
    let mut m = EventMask::default();
    EventCode::InquiryComplete.set(&mut m, true);
    EventCode::LeMetaEvent.set(&mut m, true);
    EventCode::DisconnectionComplete.set(&mut m, true);
    assert_eq!(m, EventMask { p1: 1 | 1 << 4 | 1 << 61, p2: 0, le: 0 });
    EventCode::DisconnectionComplete.set(&mut m, false);
    EventCode::EncryptionChangeV2.set(&mut m, true);
    EventCode::NumberOfCompletedDataBlocks.set(&mut m, true);
    EventCode::LeConnectionComplete.set(&mut m, true);
    EventCode::LeSubrateChange.set(&mut m, true);
    assert_eq!(m, EventMask { p1: 1 | 1 << 61, p2: 1 << 8 | 1 << 25, le: 1 | 1 << 34 });
    let before = m;
    for c in [
        EventCode::CommandComplete,
        EventCode::CommandStatus,
        EventCode::NumberOfCompletedPackets,
        EventCode::Vendor,
    ] {
        c.set(&mut m, true);
        c.set(&mut m, false);
        assert_eq!(c.mask_bit(), None);
    }
    assert_eq!(m, before);
    assert_eq!(EventCode::LeScanTimeout.mask_bit(), Some((MaskPage::Le, 16)));
    assert_eq!(EventCode::SamStatusChange.mask_bit(), Some((MaskPage::Page2, 24)));
    assert_eq!(with_bit(0xFF, 3, false), 0xF7);
    assert_eq!(with_bit(0, 63, true), 1 << 63);
}

#[test]
fn event_mask_from_codes() {
    let m = EventMask::from_iter(&[
        EventCode::DisconnectionComplete,
        EventCode::HardwareError,
        EventCode::LeMetaEvent,
        EventCode::CommandComplete,
        EventCode::AuthenticatedPayloadTimeoutExpired,
        EventCode::LeLongTermKeyRequest,
        EventCode::DisconnectionComplete,
    ]);
    assert_eq!(m, EventMask { p1: 1 << 4 | 1 << 15 | 1 << 61, p2: 1 << 23, le: 1 << 4 });
    assert_eq!(EventMask::from_iter(&[]), EventMask::new());
    // Each code that can be masked has a bit of its own
    let mut seen = Vec::new();
    for v in 0..=u16::MAX {
        if let Some(at) = EventCode::from_raw(v).and_then(EventCode::mask_bit) {
            assert!(!seen.contains(&at) && at.1 < 64);
            seen.push(at);
        }
    }
    assert_eq!(seen.len(), 96);
}

#[test]
fn le_event_mask() {
    let m = LeEventMask::enable(&[
        SubeventCode::ConnectionComplete,
        SubeventCode::LongTermKeyRequest,
        SubeventCode::EnhancedConnectionComplete,
        SubeventCode::AdvertisingSetTerminated,
        SubeventCode::LongTermKeyRequest,
    ]);
    assert_eq!(m.mask, 1 | 1 << 4 | 1 << 9 | 1 << 17);
    assert_eq!(LeEventMask::enable(&[]).mask, 0);
    assert_eq!(SubeventCode::SubrateChange.mask(), 1 << 34);
    for v in 0..=u8::MAX {
        if let Some(s) = SubeventCode::from_raw(v) {
            assert_eq!(s.raw(), v);
            assert_eq!(s.code().raw(), le(v));
            assert_eq!(s.code().mask_bit(), Some((MaskPage::Le, v - 1)));
            assert_eq!(EventMask::from_iter(&[s.code()]).le, s.mask());
        } else {
            assert!(v == 0 || v > 0x23);
        }
    }
}

#[test]
fn status_codes() {
    assert_eq!(Status::from_raw(0x00), Status::Success);
    assert_eq!(Status::from_raw(0x0C), Status::CommandDisallowed);
    assert_eq!(Status::from_raw(0x45), Status::PacketTooLong);
    assert_eq!(Status::from_raw(0x2B), Status::UnspecifiedError);
    assert_eq!(Status::from_raw(0x46), Status::UnspecifiedError);
    assert_eq!(Status::from_raw(0xFF), Status::UnspecifiedError);
    assert_eq!(Status::UnspecifiedError.raw(), 0x1F);
    assert!(Status::Success.is_ok());
    assert!(!Status::UnknownCommand.is_ok());
    assert_eq!(Role::from_raw(0), Some(Role::Central));
    assert_eq!(Role::from_raw(1), Some(Role::Peripheral));
    assert_eq!(Role::from_raw(2), None);
    assert_eq!(CoreVersion::from_raw(0x0C), CoreVersion::V5_3);
    assert_eq!(CoreVersion::from_raw(0x0D), CoreVersion::Unknown);
    assert_eq!(CoreVersion::default().raw(), 0xFF);
}

#[test]
fn advertising_constants() {
    assert_eq!(AdvChanMap::default().bits(), 7);
    assert_eq!(AdvProp::default().bits(), 0);
    assert_eq!(AdvProp::from_bits(0x80), None);
    assert_eq!(AdvProp::from_bits_truncate(0xFFFF).bits(), 0x7F);
    assert_eq!(AdvAddrType::default(), AdvAddrType::Public);
    assert_eq!(AdvAddrType::PrivateOrRandom.raw(), 3);
    assert_eq!(AdvFilterPolicy::default().raw(), 0);
    assert_eq!(AdvFilterPolicy::FilterAll.raw(), 3);
    assert_eq!(AdvPhy::default().raw(), 1);
    assert_eq!(AdvPhy::LeCoded.raw(), 3);
    assert_eq!(AdvDataOp::Unchanged.raw(), 4);
}

#[test]
fn handles_and_ticks() {
    assert_eq!(ConnHandle::invalid().raw(), 0xFFFF);
    assert_eq!(ConnHandle::default(), ConnHandle::invalid());
    assert!(!ConnHandle::invalid().is_valid());
    assert!(ConnHandle::new(0).is_valid() && ConnHandle::new(0x0FFF).is_valid());
    assert!(!ConnHandle::new(0x1000).is_valid());
    assert_eq!(AdvHandle::new(0xEF).unwrap().raw(), 0xEF);
    assert_eq!(AdvHandle::new(0xF0), None);
    assert_eq!(ticks_625us(20_000), Some(32));
    assert_eq!(ticks_625us(624), Some(0));
    assert_eq!(ticks_625us(0xFF_FFFF * 625 + 624), Some(0xFF_FFFF));
    assert_eq!(ticks_625us(0x100_0000 * 625), None);
    assert_eq!(ticks_1250us(7_500), Some(6));
    assert_eq!(ticks_1250us(0x1_0000 * 1250), None);
    assert_eq!(ticks_10ms(655_350_000), Some(0xFFFF));
    assert_eq!(ticks_10ms(655_360_000), None);
    assert_eq!(duration_1250us(6), 7_500);
    assert_eq!(duration_1250us(0xFFFF), 81_918_750);
    assert_eq!(duration_10ms(0xFFFF), 655_350_000);
    assert_eq!(clock_accuracy(0), 500);
    assert_eq!(clock_accuracy(7), 20);
    assert_eq!(clock_accuracy(8), 0);
}

#[test]
fn addresses() {
    let raw = RawAddr::from_le_bytes([1, 2, 3, 4, 5, 6]);
    assert_eq!(raw.as_le_bytes(), [1, 2, 3, 4, 5, 6]);
    assert!(raw.same(&RawAddr::from_le_bytes([1, 2, 3, 4, 5, 6])));
    assert!(!raw.same(&RawAddr::from_le_bytes([1, 2, 3, 4, 5, 7])));
    assert_eq!(RawAddr::default().as_le_bytes(), [0; 6]);
    for t in [0, 2] {
        let a = Addr::peer(t, raw).unwrap();
        assert!(!a.is_random() && a.raw().same(&raw));
    }
    for t in [1, 3] {
        assert!(Addr::peer(t, raw).unwrap().is_random());
    }
    assert!(Addr::peer(4, raw).is_none());
    assert_eq!(TxPower::new(-20).dbm(), -20);
    assert_eq!(TxPower::NONE, 127);
}

#[test]
fn parse_command_complete() {
    let b = [0x0E, 4, 1, 0x03, 0x0C, 0x00];
    let e = Event::try_from(&b).unwrap();
    assert_eq!(e.typ(), EventType::Hci(EventCode::CommandComplete));
    assert!(e.typ().is_cmd());
    assert_eq!(e.opcode(), Opcode::Reset);
    assert_eq!(e.status(), Status::Success);
    assert_eq!(e.cmd_quota, 1);
    assert!(e.params.is_ok() && e.params.is_empty());
    assert!(e.conn_handle().is_none() && e.adv_handle().is_none());
    assert!(e.ok().is_ok());
    // Without a status, and with return parameters after the status
    let b = [0x0E, 3, 2, 0x00, 0x00];
    let e = Event::try_from(&b).unwrap();
    assert_eq!((e.cmd_quota, e.opcode(), e.status()), (2, Opcode::Nop, Status::Success));
    assert!(e.params.is_ok());
    let b = [0x0E, 7, 1, 0x02, 0x20, 0x0C, 0xFB, 0x00, 0x0F];
    let mut e = Event::try_from(&b).unwrap();
    assert_eq!((e.opcode(), e.status()), (Opcode::LeReadBufferSize, Status::CommandDisallowed));
    assert_eq!(e.params.len(), 3);
    match e.ok() {
        Err(Error::CommandFailed { opcode, status }) => {
            assert_eq!((opcode, status), (Opcode::LeReadBufferSize, Status::CommandDisallowed));
        }
        r => panic!("{r:?}"),
    }
    let bs = LeBufferSize::from(&mut e);
    assert_eq!(
        bs,
        LeBufferSize { acl_data_len: 251, acl_num_pkts: 15, iso_data_len: 0, iso_num_pkts: 0 }
    );
    assert!(e.params.is_ok() && e.params.is_empty());
}

#[test]
fn parse_command_status() {
    let b = [0x0F, 4, 0x01, 3, 0x36, 0x20];
    let e = Event::try_from(&b).unwrap();
    assert_eq!(e.typ(), EventType::Hci(EventCode::CommandStatus));
    assert_eq!(e.status(), Status::UnknownCommand);
    assert_eq!(e.cmd_quota, 3);
    assert_eq!(e.opcode(), Opcode::LeSetExtendedAdvertisingParameters);
    assert!(LeBufferSize::retry_v1(e.status()));
    assert!(!LeBufferSize::retry_v1(Status::Success));
}

#[test]
fn parse_status_and_handles() {
    let b = [0x05, 4, 0x00, 0x40, 0x00, 0x13];
    let mut e = Event::try_from(&b).unwrap();
    assert_eq!(e.typ(), EventType::Hci(EventCode::DisconnectionComplete));
    assert_eq!(e.conn_handle(), Some(ConnHandle::new(0x0040)));
    assert_eq!(e.adv_handle(), None);
    assert!(DisconnectionComplete::matches(EventCode::DisconnectionComplete));
    let d = DisconnectionComplete::unpack(&mut e).unwrap();
    assert_eq!(d.status, Status::Success);
    assert_eq!(d.handle.raw(), 0x0040);
    assert_eq!(d.reason, Status::RemoteUserTerminatedConnection);
    assert!(e.params.is_empty());
    match e.ok() {
        Err(Error::NonCommandEvent { typ }) => assert_eq!(typ, e.typ()),
        r => panic!("{r:?}"),
    }
    // An invalid connection handle
    let b = [0x05, 4, 0x00, 0x00, 0x10, 0x13];
    let mut e = Event::try_from(&b).unwrap();
    assert_eq!(e.handle, 0x1000);
    assert_eq!(e.conn_handle(), None);
    assert!(DisconnectionComplete::unpack(&mut e).is_none());
    assert_eq!(e.params.len(), 1);
    // Advertising set terminated: status, advertising handle, and the rest
    let b = [0x3E, 6, 0x12, 0x00, 0x02, 0x40, 0x00, 0x05];
    let e = Event::try_from(&b).unwrap();
    assert_eq!(e.typ(), EventType::Le(SubeventCode::AdvertisingSetTerminated));
    assert_eq!(e.adv_handle(), AdvHandle::new(2));
    assert_eq!(e.conn_handle(), None);
    assert_eq!(e.params.as_slice(), &[0x40, 0x00, 0x05]);
    // A handle without status
    let b = [0x3E, 3, 0x05, 0x01, 0x0F];
    let e = Event::try_from(&b).unwrap();
    assert_eq!(e.typ(), EventType::Le(SubeventCode::LongTermKeyRequest));
    assert_eq!(e.conn_handle().unwrap().raw(), 0x0F01);
    assert_eq!(e.status(), Status::Success);
    // Neither status nor handle
    let b = [0x13, 5, 1, 0x01, 0x00, 0x02, 0x00];
    let e = Event::try_from(&b).unwrap();
    assert_eq!(e.params.len(), 5);
}

#[test]
fn parse_short_parameters() {
    // The status is there, the handle is cut short
    let b = [0x05, 2, 0x16, 0x40];
    let e = Event::try_from(&b).unwrap();
    assert_eq!(e.status(), Status::ConnectionTerminatedByLocalHost);
    assert_eq!(e.handle, 0);
    assert!(!e.params.is_ok());
    assert!(e.params.is_empty());
}

#[test]
fn parse_invalid_events() {
    for b in [&[][..], &[0x0E], &[0x0E, 1], &[0x0E, 0, 0], &[0x0E, 2, 0]] {
        match Event::try_from(b) {
            Err(Error::InvalidEvent(v)) => assert_eq!(v, b),
            r => panic!("{r:?}"),
        }
    }
    match Event::try_from(&[0x00, 1, 7]) {
        Err(Error::UnknownEvent { code, subevent, params }) => {
            assert_eq!((code, subevent, params), (0x00, 0, vec![7]));
        }
        r => panic!("{r:?}"),
    }
    match Event::try_from(&[0x3E, 3, 0x24, 8, 9]) {
        Err(Error::UnknownEvent { code, subevent, params }) => {
            assert_eq!((code, subevent, params), (0x3E, 0x24, vec![8, 9]));
        }
        r => panic!("{r:?}"),
    }
    match Event::try_from(&[0x3E, 0]) {
        Err(Error::UnknownEvent { code, subevent, params }) => {
            assert_eq!((code, subevent, params), (0x3E, 0, vec![]));
        }
        r => panic!("{r:?}"),
    }
    assert_eq!(EventType::default(), EventType::Hci(EventCode::LeMetaEvent));
}

fn conn_complete(enhanced: bool, role: u8, addr_type: u8) -> Vec<u8> {
    let mut b = vec![0x3E, 0, if enhanced { 0x0A } else { 0x01 }, 0x00, 0x40, 0x00, role, addr_type];
    b.extend([1, 2, 3, 4, 5, 6]);
    if enhanced {
        b.extend([11, 12, 13, 14, 15, 16]);
        b.extend([21, 22, 23, 24, 25, 26]);
    }
    b.extend([0x06, 0x00, 0x02, 0x00, 0xC8, 0x00, 0x05]);
    b[1] = (b.len() - 2) as u8;
    b
}

#[test]
fn le_connection_complete() {
    let b = conn_complete(false, 1, 1);
    let mut e = Event::try_from(&b).unwrap();
    assert!(LeConnectionComplete::matches(e.typ()));
    let c = LeConnectionComplete::from(&mut e).unwrap();
    assert_eq!(c.status, Status::Success);
    assert_eq!(c.handle.raw(), 0x0040);
    assert_eq!(c.role, Role::Peripheral);
    assert!(c.peer_addr.is_random());
    assert_eq!(c.peer_addr.raw().as_le_bytes(), [1, 2, 3, 4, 5, 6]);
    assert_eq!(c.local_rpa.as_le_bytes(), [0; 6]);
    assert_eq!(c.peer_rpa.as_le_bytes(), [0; 6]);
    assert_eq!(c.conn_interval, 7_500);
    assert_eq!(c.peripheral_latency, 2);
    assert_eq!(c.supervision_timeout, 2_000_000);
    assert_eq!(c.central_clock_accuracy, 50);
    assert!(e.params.is_ok() && e.params.is_empty());
    let b = conn_complete(true, 0, 2);
    let mut e = Event::try_from(&b).unwrap();
    let c = LeConnectionComplete::from(&mut e).unwrap();
    assert_eq!(c.role, Role::Central);
    assert!(!c.peer_addr.is_random());
    assert_eq!(c.local_rpa.as_le_bytes(), [11, 12, 13, 14, 15, 16]);
    assert_eq!(c.peer_rpa.as_le_bytes(), [21, 22, 23, 24, 25, 26]);
    assert_eq!(c.conn_interval, 7_500);
    assert!(e.params.is_ok() && e.params.is_empty());
    // An unknown role, an unknown address type, and another event
    let b = conn_complete(false, 2, 0);
    assert!(LeConnectionComplete::from(&mut Event::try_from(&b).unwrap()).is_none());
    let b = conn_complete(true, 1, 4);
    assert!(LeConnectionComplete::from(&mut Event::try_from(&b).unwrap()).is_none());
    let b = [0x3E, 3, 0x05, 0x01, 0x0F];
    let mut e = Event::try_from(&b).unwrap();
    assert!(LeConnectionComplete::from(&mut e).is_none());
    assert!(e.params.is_ok());
}

#[test]
fn number_of_completed_packets() {
    let b = [0x13, 13, 3, 0x01, 0x00, 0x02, 0x00, 0x00, 0x10, 0x09, 0x00, 0xFF, 0x0F, 0x34, 0x12];
    let mut e = Event::try_from(&b).unwrap();
    assert!(NumberOfCompletedPackets::matches(EventCode::NumberOfCompletedPackets));
    assert!(!NumberOfCompletedPackets::matches(EventCode::DisconnectionComplete));
    let n = NumberOfCompletedPackets::unpack(&mut e);
    assert_eq!(n.len(), 2);
    assert_eq!(n.get(0), Some((ConnHandle::new(1), 2)));
    assert_eq!(n.get(1), Some((ConnHandle::new(0x0FFF), 0x1234)));
    assert_eq!(n.get(2), None);
    assert!(e.params.is_ok() && e.params.is_empty());
    let b = [0x13, 1, 0];
    let n = NumberOfCompletedPackets::unpack(&mut Event::try_from(&b).unwrap());
    assert_eq!((n.len(), n.get(0)), (0, None));
    // More pairs are announced than are there: handle zero is valid
    let b = [0x13, 3, 2, 0x05, 0x00];
    let mut e = Event::try_from(&b).unwrap();
    let n = NumberOfCompletedPackets::unpack(&mut e);
    assert_eq!(n.len(), 2);
    assert_eq!(n.get(0), Some((ConnHandle::new(5), 0)));
    assert_eq!(n.get(1), Some((ConnHandle::new(0), 0)));
    assert!(!e.params.is_ok());
}

#[test]
fn event_matching_rules() {
    let filters = [
        EventFilter::Command(Opcode::Reset),
        EventFilter::Command(Opcode::Nop),
        EventFilter::AdvManager,
        EventFilter::ChanManager,
        EventFilter::SecDb,
    ];
    let matched = |b: &[u8]| -> Vec<bool> {
        let e = Event::try_from(b).unwrap();
        filters.iter().map(|f| e.matches(f)).collect()
    };
    assert_eq!(matched(&[0x05, 4, 0, 0x40, 0, 0x13]), [false, false, false, true, false]);
    assert_eq!(matched(&[0x13, 1, 0]), [false, false, false, true, false]);
    assert_eq!(matched(&[0x0E, 4, 1, 0x03, 0x0C, 0]), [true, false, false, false, false]);
    assert_eq!(matched(&[0x0F, 4, 0, 1, 0x03, 0x0C]), [true, false, false, false, false]);
    assert_eq!(matched(&[0x0E, 3, 1, 0, 0]), [false, true, false, false, false]);
    assert_eq!(matched(&[0x0F, 4, 0, 1, 0x01, 0x20]), [false; 5]);
    assert_eq!(matched(&conn_complete(false, 1, 0)), [false, false, true, true, true]);
    assert_eq!(matched(&conn_complete(true, 1, 0)), [false, false, true, true, true]);
    assert_eq!(matched(&conn_complete(false, 0, 0)), [false, false, false, true, true]);
    assert_eq!(matched(&conn_complete(true, 9, 0)), [false, false, false, true, true]);
    assert_eq!(matched(&[0x3E, 3, 0x05, 0x01, 0x0F]), [false, false, false, false, true]);
    assert_eq!(matched(&[0x3E, 3, 0x12, 0, 2]), [false, false, true, false, false]);
    assert_eq!(matched(&[0x3E, 1, 0x02]), [false; 5]);
    assert_eq!(matched(&[0x10, 1, 0]), [false; 5]);
    assert!(EventFilter::SecDb.conflicts_with(&EventFilter::SecDb));
    assert!(!EventFilter::SecDb.conflicts_with(&EventFilter::ChanManager));
    assert!(EventFilter::Command(Opcode::Reset).conflicts_with(&EventFilter::Command(Opcode::Reset)));
    assert!(!EventFilter::Command(Opcode::Reset).conflicts_with(&EventFilter::Command(Opcode::Nop)));
}

#[test]
fn router_reset_holds_the_quota() {
    let mut ws = Waiters::new();
    assert_eq!((ws.len(), ws.cmd_quota()), (0, 1));
    let id = ws.register(EventFilter::Command(Opcode::Reset)).unwrap();
    assert_eq!(ws.cmd_quota(), 0);
    match ws.register(EventFilter::Command(Opcode::LeSetEventMask)) {
        Err(Error::CommandQuotaExceeded) => {}
        r => panic!("{r:?}"),
    }
    assert_eq!(ws.len(), 1);
    assert!(matches!(ws.take(id), Ok(false)));
    // An event for nobody, then the response with a quota of two
    assert!(!ws.deliver(&Event::try_from(&[0x10, 1, 0]).unwrap()));
    assert_eq!(ws.cmd_quota(), 0);
    assert!(ws.deliver(&Event::try_from(&[0x0E, 4, 2, 0x03, 0x0C, 0]).unwrap()));
    assert_eq!(ws.cmd_quota(), 2);
    assert!(matches!(ws.take(id), Ok(true)));
    assert!(matches!(ws.take(id), Ok(false)));
    ws.unregister(id);
    assert_eq!(ws.len(), 0);
    match ws.take(id) {
        Err(Error::Hci { status }) => assert_eq!(status, Status::UnspecifiedError),
        r => panic!("{r:?}"),
    }
    let a = ws.register(EventFilter::Command(Opcode::LeSetEventMask)).unwrap();
    let b = ws.register(EventFilter::Command(Opcode::SetEventMask)).unwrap();
    assert_eq!(ws.cmd_quota(), 0);
    assert_ne!(a, b);
    assert!(matches!(ws.register(EventFilter::SecDb), Ok(_)));
    assert_eq!(ws.cmd_quota(), 0);
}

#[test]
fn router_pairs_commands_with_responses() {
    let mut ws = Waiters::new();
    assert!(ws.deliver(&Event::try_from(&[0x0E, 3, 4, 0, 0]).unwrap()) == false);
    assert_eq!(ws.cmd_quota(), 4);
    let ops = [Opcode::SetEventMask, Opcode::LeSetEventMask, Opcode::ReadBdAddr];
    let ids: Vec<u64> =
        ops.iter().map(|&op| ws.register(EventFilter::Command(op)).unwrap()).collect();
    let chan = ws.register(EventFilter::ChanManager).unwrap();
    assert_eq!(ws.cmd_quota(), 1);
    match ws.register(EventFilter::Command(Opcode::LeSetEventMask)) {
        Err(Error::FilterConflict) => {}
        r => panic!("{r:?}"),
    }
    assert!(matches!(ws.register(EventFilter::ChanManager), Err(Error::FilterConflict)));
    assert_eq!((ws.len(), ws.cmd_quota()), (4, 1));
    // The responses come in another order than the commands went
    for (k, raw) in [(1, 0x2001_u16), (2, 0x1009), (0, 0x0C01)] {
        let b = [0x0E, 4, 1, raw as u8, (raw >> 8) as u8, 0];
        assert!(ws.deliver(&Event::try_from(&b).unwrap()));
        for (j, &id) in ids.iter().enumerate() {
            assert_eq!(ws.take(id).unwrap(), j == k);
        }
        assert!(!ws.take(chan).unwrap());
    }
    assert!(ws.deliver(&Event::try_from(&[0x13, 1, 0]).unwrap()));
    assert!(ws.take(chan).unwrap());
    // Dropping every waiter leaves the queue empty
    ws.unregister(ids[1]);
    ws.unregister(chan);
    ws.unregister(ids[1]);
    assert_eq!(ws.len(), 2);
    assert!(ws.take(ids[0]).is_ok() && ws.take(ids[2]).is_ok());
    ws.unregister(ids[0]);
    ws.unregister(ids[2]);
    assert_eq!(ws.len(), 0);
    assert!(ws.can_register());
}

#[test]
fn command_packets() {
    let c = cmd::reset();
    assert_eq!(c.opcode(), Opcode::Reset);
    assert_eq!(c.params(), &[] as &[u8]);
    assert_eq!(c.packet(), [0x03, 0x0C, 0]);
    let m = EventMask { p1: 0x0807_0605_0403_0201, p2: 0x1817_1615_1413_1211, le: 7 };
    let c = cmd::set_event_mask(&m);
    assert_eq!(c.packet(), [0x01, 0x0C, 8, 1, 2, 3, 4, 5, 6, 7, 8]);
    let c = cmd::set_event_mask_page_2(&m);
    assert_eq!(c.packet(), [0x63, 0x0C, 8, 0x11, 0x12, 0x13, 0x14, 0x15, 0x16, 0x17, 0x18]);
    assert_eq!(cmd::le_set_event_mask(LeEventMask { mask: 0x0201 }).params(), [1, 2, 0, 0, 0, 0, 0, 0]);
    assert_eq!(cmd::set_controller_to_host_flow_control(true).packet(), [0x31, 0x0C, 1, 1]);
    assert_eq!(cmd::set_controller_to_host_flow_control(false).params(), [0]);
    let c = cmd::host_buffer_size(BufferSize { acl_data_len: 0x0102, acl_num_pkts: 0x0304 });
    assert_eq!(c.packet(), [0x33, 0x0C, 7, 2, 1, 0, 4, 3, 0, 0]);
    assert_eq!(cmd::write_le_host_support(true).packet(), [0x6D, 0x0C, 2, 1, 0]);
    assert_eq!(cmd::le_read_buffer_size(true).packet(), [0x60, 0x20, 0]);
    assert_eq!(cmd::le_read_buffer_size(false).packet(), [0x02, 0x20, 0]);
    assert_eq!(cmd::le_read_maximum_advertising_data_length().packet(), [0x3A, 0x20, 0]);
    assert_eq!(cmd::le_read_number_of_supported_advertising_sets().packet(), [0x3B, 0x20, 0]);
    assert_eq!(cmd::le_clear_advertising_sets().packet(), [0x3D, 0x20, 0]);
    let h = AdvHandle::new(5).unwrap();
    assert_eq!(cmd::le_remove_advertising_set(h).packet(), [0x3C, 0x20, 1, 5]);
    let a = RawAddr::from_le_bytes([1, 2, 3, 4, 5, 6]);
    assert_eq!(
        cmd::le_set_advertising_set_random_address(h, a).packet(),
        [0x35, 0x20, 7, 5, 1, 2, 3, 4, 5, 6]
    );
    assert_eq!(cmd::le_set_periodic_advertising_enable(true, true, h).packet(), [0x40, 0x20, 2, 3, 5]);
    assert_eq!(cmd::le_set_periodic_advertising_enable(false, true, h).params(), [2, 5]);
    assert_eq!(cmd::le_set_periodic_advertising_enable(true, false, h).params(), [1, 5]);
    let c = cmd::le_set_periodic_advertising_parameters(
        h,
        7_500,
        0x1_0000 * 1250,
        AdvProp { bits: AdvProp::INCLUDE_TX_POWER },
    );
    assert_eq!(c.packet(), [0x3E, 0x20, 7, 5, 6, 0, 0, 0, 0x40, 0]);
    let c = cmd::le_set_periodic_advertising_data(h, AdvDataOp::Complete, &[9, 8]);
    assert_eq!(c.packet(), [0x3F, 0x20, 5, 5, 3, 2, 9, 8]);
    let c = cmd::le_set_extended_advertising_data(h, AdvDataOp::First, true, &[7; 3]);
    assert_eq!(c.packet(), [0x37, 0x20, 7, 5, 1, 1, 3, 7, 7, 7]);
    let c = cmd::le_set_extended_scan_response_data(h, AdvDataOp::Last, false, &[]);
    assert_eq!(c.packet(), [0x38, 0x20, 4, 5, 2, 0, 0]);
    let c = cmd::le_set_extended_advertising_data(h, AdvDataOp::Complete, false, &[1; 251]);
    assert_eq!(c.params().len(), 255);
    assert_eq!(c.packet().len(), 258);
    assert_eq!(c.packet()[2], 255);
}

#[test]
fn long_term_key_reply() {
    let cn = ConnHandle::new(0x0040);
    let k = LTK::from_raw(0x100F_0E0D_0C0B_0A09_0807_0605_0403_0201);
    let c = cmd::le_long_term_key_request_reply(cn, Some(&k));
    assert_eq!(c.opcode(), Opcode::LeLongTermKeyRequestReply);
    let mut want = vec![0x1A, 0x20, 18, 0x40, 0x00];
    want.extend(1..=16);
    assert_eq!(c.packet(), want);
    let c = cmd::le_long_term_key_request_reply(cn, None);
    assert_eq!(c.packet(), [0x1B, 0x20, 2, 0x40, 0x00]);
    let b = [0x0E, 6, 1, 0x1A, 0x20, 0, 0x40, 0x00];
    assert!(cmd::le_long_term_key_request_replied(&mut Event::try_from(&b).unwrap(), cn));
    let b = [0x0E, 6, 1, 0x1A, 0x20, 0, 0x41, 0x00];
    assert!(!cmd::le_long_term_key_request_replied(&mut Event::try_from(&b).unwrap(), cn));
}

#[test]
fn extended_advertising_parameters() {
    let h = AdvHandle::new(1).unwrap();
    let p = AdvParams {
        props: AdvProp { bits: AdvProp::CONNECTABLE | AdvProp::INCLUDE_TX_POWER },
        pri_interval: (20_000, 0x100_0000 * 625),
        pri_chan_map: AdvChanMap { bits: AdvChanMap::CH37 | AdvChanMap::CH39 },
        addr_type: AdvAddrType::Random,
        peer_addr: Addr::Random(RawAddr::from_le_bytes([1, 2, 3, 4, 5, 6])),
        filter_policy: AdvFilterPolicy::FilterConnect,
        tx_power: Some(TxPower::new(-4)),
        pri_phy: AdvPhy::Le1M,
        sec_max_skip: 9,
        sec_phy: AdvPhy::Le2M,
        sid: 3,
        scan_request_notify: true,
    };
    let c = cmd::le_set_extended_advertising_parameters(h, p);
    assert_eq!(c.opcode(), Opcode::LeSetExtendedAdvertisingParameters);
    assert_eq!(
        c.params(),
        [1, 0x41, 0, 32, 0, 0, 0, 0, 0, 5, 1, 1, 1, 2, 3, 4, 5, 6, 2, 0xFC, 1, 9, 2, 3, 1]
    );
    // What was packed is read back
    let mut u = Unpacker::new(c.params());
    assert_eq!(u.u8(), h.raw());
    assert_eq!(u.u16(), p.props.bits());
    assert_eq!(u.u24(), 32);
    assert_eq!(u.u24(), 0);
    assert_eq!(u.u8(), 5);
    assert_eq!(u.u8(), AdvAddrType::Random.raw());
    assert!(u.bool());
    assert_eq!(u.bytes::<6>(), [1, 2, 3, 4, 5, 6]);
    assert_eq!(u.u8(), 2);
    assert_eq!(u.i8(), -4);
    assert_eq!((u.u8(), u.u8(), u.u8(), u.u8()), (1, 9, 2, 3));
    assert!(u.bool());
    assert!(u.is_ok() && u.is_empty());
    let c = cmd::le_set_extended_advertising_parameters(h, AdvParams::default());
    assert_eq!(
        c.params(),
        [1, 0, 0, 0, 0, 0, 0, 0, 0, 7, 0, 0, 0, 0, 0, 0, 0, 0, 0, 0x7F, 1, 0, 1, 0, 0]
    );
    let b = [0x0E, 5, 1, 0x36, 0x20, 0, 0xF8];
    assert_eq!(cmd::selected_tx_power(&mut Event::try_from(&b).unwrap()).dbm(), -8);
    let b = [0x0E, 6, 1, 0x3A, 0x20, 0, 0x72, 0x06];
    assert_eq!(cmd::maximum_advertising_data_length(&mut Event::try_from(&b).unwrap()), 1650);
    let b = [0x0E, 5, 1, 0x3B, 0x20, 0, 4];
    assert_eq!(cmd::number_of_supported_advertising_sets(&mut Event::try_from(&b).unwrap()), 4);
}

#[test]
fn extended_advertising_enable() {
    let a = AdvEnableParams::from(AdvHandle::new(1).unwrap());
    assert_eq!((a.duration, a.max_events), (0, 0));
    assert!(a.ok());
    let b = AdvEnableParams { handle: AdvHandle::new(2).unwrap(), duration: 2_560_000, max_events: 7 };
    let c = cmd::le_set_extended_advertising_enable(true, &[a, b]);
    assert_eq!(c.packet(), [0x39, 0x20, 10, 1, 2, 1, 0, 0, 0, 2, 0, 1, 7]);
    assert_eq!(cmd::le_set_extended_advertising_enable(false, &[]).packet(), [0x39, 0x20, 2, 0, 0]);
    assert!(!AdvEnableParams { duration: 655_360_000, ..a }.ok());
    let c = cmd::le_set_extended_advertising_enable(true, &[a; 63]);
    assert_eq!(c.params().len(), 254);
}

#[test]
fn le_buffer_size_versions() {
    let b = [0x0E, 10, 1, 0x60, 0x20, 0, 0xFB, 0x00, 0x0F, 0x40, 0x01, 0x08];
    let mut e = Event::try_from(&b).unwrap();
    assert_eq!(
        LeBufferSize::from(&mut e),
        LeBufferSize { acl_data_len: 251, acl_num_pkts: 15, iso_data_len: 320, iso_num_pkts: 8 }
    );
    assert!(e.params.is_ok() && e.params.is_empty());
    let b = [0x0E, 7, 1, 0x02, 0x20, 0, 0xFB, 0x00, 0x0F];
    let mut e = Event::try_from(&b).unwrap();
    assert_eq!(
        LeBufferSize::from(&mut e),
        LeBufferSize { acl_data_len: 251, acl_num_pkts: 15, iso_data_len: 0, iso_num_pkts: 0 }
    );
    assert_eq!(LeBufferSize::default().acl_data_len, 0);
}
