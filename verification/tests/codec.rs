use burble::codec::{Packer, Unpacker};

#[test]
fn pack_little_endian() {
    let p = Packer::new(32)
        .u8(0x01)
        .u16(0x0302)
        .u24(0x06_0504)
        .u32(0x0A09_0807)
        .bool(true)
        .i8(-1);
    assert_eq!(p.len(), 12);
    assert_eq!(p.remaining(), 20);
    assert_eq!(p.as_slice(), &[1, 2, 3, 4, 5, 6, 7, 8, 9, 10, 1, 0xFF]);
}

#[test]
fn pack_wide_values() {
    let p = Packer::hci()
        .u64(0x0807_0605_0403_0201)
        .u128(0x100F_0E0D_0C0B_0A09_0807_0605_0403_0201)
        .put(&[0xAA, 0xBB]);
    let mut want: Vec<u8> = (1..=8).collect();
    want.extend(1..=16);
    want.extend([0xAA, 0xBB]);
    assert_eq!(p.into_vec(), want);
}

#[test]
fn pack_limit() {
    let p = Packer::new(3).u16(7);
    assert!(p.can_put(1));
    assert!(!p.can_put(2));
    assert_eq!(Packer::hci().remaining(), 255);
}

#[test]
fn unpack_little_endian() {
    let b = [1, 2, 3, 4, 5, 6, 7, 8, 9, 10, 1, 0xFF];
    let mut p = Unpacker::new(&b);
    assert_eq!(p.u8(), 0x01);
    assert_eq!(p.u16(), 0x0302);
    assert_eq!(p.u24(), 0x06_0504);
    assert_eq!(p.u32(), 0x0A09_0807);
    assert!(p.bool());
    assert_eq!(p.i8(), -1);
    assert!(p.is_ok());
    assert!(p.is_empty());
}

#[test]
fn unpack_past_end_fails_with_zero() {
    let b = [1, 2, 3];
    let mut p = Unpacker::new(&b);
    assert_eq!(p.u8(), 1);
    assert_eq!(p.u32(), 0);
    assert!(!p.is_ok());
    assert_eq!(p.len(), 0);
    assert_eq!(p.u8(), 0);
    assert!(!p.is_ok());
}

#[test]
fn unpack_empty_is_ok() {
    let p = Unpacker::new(&[]);
    assert!(p.is_ok());
    assert!(p.is_empty());
    assert!(!Unpacker::invalid().is_ok());
}

#[test]
fn unpack_skip_and_bytes() {
    let b = [1, 2, 3, 4, 5, 6, 7, 8];
    let mut p = Unpacker::new(&b);
    let mut hdr = p.skip(2).unwrap();
    assert_eq!(hdr.u16(), 0x0201);
    assert!(hdr.is_ok() && hdr.is_empty());
    assert_eq!(p.bytes::<3>(), [3, 4, 5]);
    assert_eq!(p.as_slice(), &[6, 7, 8]);
    assert_eq!(p.bytes::<4>(), [0; 4]);
    assert!(!p.is_ok());
    assert!(p.skip(0).is_none());
}

#[test]
fn unpack_skip_too_far() {
    let b = [1, 2];
    let mut p = Unpacker::new(&b);
    assert!(p.skip(3).is_none());
    assert!(!p.is_ok());
    assert!(p.is_empty());
}

#[test]
fn pack_then_unpack() {
    let p = Packer::hci().u16(0xBEEF).u64(u64::MAX - 5).u128(u128::MAX / 3).u24(0xABCDEF);
    let v = p.into_vec();
    let mut u = Unpacker::new(&v);
    assert_eq!(u.u16(), 0xBEEF);
    assert_eq!(u.u64(), u64::MAX - 5);
    assert_eq!(u.u128(), u128::MAX / 3);
    assert_eq!(u.u24(), 0xABCDEF);
    assert!(u.is_ok() && u.is_empty());
}
