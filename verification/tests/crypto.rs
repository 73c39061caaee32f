use burble::codec::{Packer, Unpacker};
use burble::crypto::{
    f4_message, f5_message, f6_message, g2_message, Addr, Check, Codec, Confirm, DHKey, IoCap,
    MacKey, Nonce, NumCompare, PublicKeyX, LTK,
};
use burble::ecdh::{InvalidPublicKey, PublicKey, SecretKey};

fn u256(hi: u128, lo: u128) -> [u8; 32] {
    let mut b = [0; 32];
    b[..16].copy_from_slice(&hi.to_be_bytes());
    b[16..].copy_from_slice(&lo.to_be_bytes());
    b
}

fn key_u() -> PublicKeyX {
    PublicKeyX::from_be_bytes(u256(
        0x20b003d2_f297be2c_5e2c83a7_e9f9a5b9,
        0xeff49111_acf4fddb_cc030148_0e359de6,
    ))
}

fn key_v() -> PublicKeyX {
    PublicKeyX::from_be_bytes(u256(
        0x55188b3d_32f6bb9a_900afcfb_eed4e72a,
        0x59cb9ac2_f19d7cfb_6b4fdd49_f47fc5fd,
    ))
}

#[test]
fn nonce() {
    // No fair dice rolls for us!
    assert!(Nonce::new().is_some());
    assert_ne!(Nonce::new(), Nonce::new());
}

/// Confirm value generation function.
#[test]
fn nonce_f4() {
    let u = key_u();
    let v = key_v();
    let x = Nonce::from_raw(0xd5cb8454_d177733e_ffffb2ec_712baeab);
    assert_eq!(x.f4(&u, &v, 0).raw(), 0xf2c916f1_07a9bd1c_f1eda1be_a974872d);
}

/// Numeric comparison generation function.
#[test]
fn nonce_g2() {
    let u = key_u();
    let v = key_v();
    let x = Nonce::from_raw(0xd5cb8454_d177733e_ffffb2ec_712baeab);
    let y = Nonce::from_raw(0xa6e8e7cc_25a75f6e_216583f7_ff3dc4cf);
    assert_eq!(x.g2(&u, &v, &y), NumCompare::from_mac(0x2f9ed5ba % 1_000_000));
    assert_eq!(x.g2(&u, &v, &y).value(), 0x2f9ed5ba % 1_000_000);
}

/// Check value generation function.
#[test]
fn mac_key_f6() {
    let k = MacKey::from_raw(0x2965f176_a1084a02_fd3f6a20_ce636e20);
    let n1 = Nonce::from_raw(0xd5cb8454_d177733e_ffffb2ec_712baeab);
    let n2 = Nonce::from_raw(0xa6e8e7cc_25a75f6e_216583f7_ff3dc4cf);
    let r = 0x12a3343b_b453bb54_08da42d2_0c2d0fc8;
    let io_cap = IoCap::new(0x01, true, 0x02);
    let a1 = Addr::from_be_bytes([0x00, 0x56, 0x12, 0x37, 0x37, 0xbf, 0xce]);
    let a2 = Addr::from_be_bytes([0x00, 0xa7, 0x13, 0x70, 0x2d, 0xcf, 0xc1]);
    let c = k.f6(n1, n2, r, io_cap, a1, a2);
    assert_eq!(c.raw(), 0xe3c47398_9cd0e8c5_d26c0b09_da958f61);
}

/// Key generation function.
#[test]
fn dh_key_f5() {
    let w = DHKey::from_be_bytes(u256(
        0xec0234a3_57c8ad05_341010a6_0a397d9b,
        0x99796b13_b4f866f1_868d34f3_73bfa698,
    ));
    let n1 = Nonce::from_raw(0xd5cb8454_d177733e_ffffb2ec_712baeab);
    let n2 = Nonce::from_raw(0xa6e8e7cc_25a75f6e_216583f7_ff3dc4cf);
    let a1 = Addr::from_be_bytes([0x00, 0x56, 0x12, 0x37, 0x37, 0xbf, 0xce]);
    let a2 = Addr::from_be_bytes([0x00, 0xa7, 0x13, 0x70, 0x2d, 0xcf, 0xc1]);
    let (mk, ltk) = w.f5(n1, n2, a1, a2);
    assert_eq!(ltk.raw(), 0x69867911_69d7cd23_980522b5_94750a38);
    assert!(ltk == LTK::from_raw(0x69867911_69d7cd23_980522b5_94750a38));
    let io_cap = IoCap::new(0x01, true, 0x02);
    let r = 0x12a3343b_b453bb54_08da42d2_0c2d0fc8;
    assert_eq!(
        mk.f6(n1, n2, r, io_cap, a1, a2).raw(),
        0xe3c47398_9cd0e8c5_d26c0b09_da958f61
    );
}

#[test]
fn addr_from_le_bytes() {
    let a = Addr::from_le_bytes(false, [0xce, 0xbf, 0x37, 0x37, 0x12, 0x56]);
    assert_eq!(a.as_be_bytes(), &[0x00, 0x56, 0x12, 0x37, 0x37, 0xbf, 0xce]);
    let a = Addr::from_le_bytes(true, [1, 2, 3, 4, 5, 6]);
    assert_eq!(a.as_be_bytes(), &[1, 6, 5, 4, 3, 2, 1]);
}

#[test]
fn f4_message_layout() {
    let m = f4_message(&key_u(), &key_v(), 0x81);
    assert_eq!(m.len(), 65);
    assert_eq!(&m[..32], key_u().as_be_bytes());
    assert_eq!(&m[32..64], key_v().as_be_bytes());
    assert_eq!(m[64], 0x81);
}

#[test]
fn g2_message_layout() {
    let y = Nonce::from_raw(0xa6e8e7cc_25a75f6e_216583f7_ff3dc4cf);
    let m = g2_message(&key_u(), &key_v(), &y);
    assert_eq!(m.len(), 80);
    assert_eq!(&m[64..], &0xa6e8e7cc_25a75f6e_216583f7_ff3dc4cf_u128.to_be_bytes());
}

#[test]
fn f6_message_layout() {
    let n1 = Nonce::from_raw(1);
    let n2 = Nonce::from_raw(2);
    let m = f6_message(
        n1,
        n2,
        3,
        IoCap::new(7, false, 9),
        Addr::from_be_bytes([1; 7]),
        Addr::from_be_bytes([2; 7]),
    );
    let mut want = Vec::new();
    want.extend(1_u128.to_be_bytes());
    want.extend(2_u128.to_be_bytes());
    want.extend(3_u128.to_be_bytes());
    want.extend([7, 0, 9]);
    want.extend([1; 7]);
    want.extend([2; 7]);
    assert_eq!(m, want);
}

#[test]
fn f5_message_layout() {
    let m = f5_message(
        1,
        Nonce::from_raw(0x0102),
        Nonce::from_raw(0x0304),
        Addr::from_be_bytes([5; 7]),
        Addr::from_be_bytes([6; 7]),
    );
    let mut want = vec![1];
    want.extend(b"btle");
    want.extend(0x0102_u128.to_be_bytes());
    want.extend(0x0304_u128.to_be_bytes());
    want.extend([5; 7]);
    want.extend([6; 7]);
    want.extend([0x01, 0x00]);
    assert_eq!(m, want);
}

#[test]
fn num_compare_from_mac() {
    assert_eq!(NumCompare::from_mac(0x2f9ed5ba).value(), 938_554);
    assert_eq!(NumCompare::from_mac(u128::MAX).value(), 967_295);
    assert_eq!(NumCompare::from_mac(1 << 32).value(), 0);
}

#[test]
fn nonce_from_random() {
    assert_eq!(Nonce::from_random(None), None);
    assert_eq!(Nonce::from_random(Some(0)), None);
    assert_eq!(Nonce::from_random(Some(7)), Some(Nonce::from_raw(7)));
}

#[test]
fn confirm_and_check_equality() {
    assert!(Confirm::from_raw(5) == Confirm::from_raw(5));
    assert!(Confirm::from_raw(5) != Confirm::from_raw(5 | 1 << 127));
    assert!(Check::from_raw(u128::MAX) == Check::from_raw(u128::MAX));
    assert!(Check::from_raw(u128::MAX) != Check::from_raw(u128::MAX - 1));
}

const SECRET_A: (u128, u128) =
    (0x3f49f6d4_a3c55f38_74c9b3e3_d2103f50, 0x4aff607b_eb40b799_5899b8a6_cd3c1abd);
const SECRET_B: (u128, u128) =
    (0x55188b3d_32f6bb9a_900afcfb_eed4e72a, 0x59cb9ac2_f19d7cfb_6b4fdd49_f47fc5fd);
const SHARED: (u128, u128) =
    (0xec0234a3_57c8ad05_341010a6_0a397d9b, 0x99796b13_b4f866f1_868d34f3_73bfa698);

#[test]
fn p256_public_key() {
    let a = SecretKey::from_be_bytes(u256(SECRET_A.0, SECRET_A.1)).unwrap();
    let pk = a.public_key();
    assert_eq!(pk.x().as_be_bytes(), key_u().as_be_bytes());
    assert_eq!(
        pk.y(),
        &u256(0xdc809c49_652aeb6d_63329abf_5a52155c, 0x766345c2_8fed3024_741c8ed0_1589d28b)
    );
    assert!(SecretKey::from_be_bytes([0; 32]).is_none());
    assert!(SecretKey::from_be_bytes([0xFF; 32]).is_none());
}

#[test]
fn p256_shared_secret() {
    let a = SecretKey::from_be_bytes(u256(SECRET_A.0, SECRET_A.1)).unwrap();
    let b = SecretKey::from_be_bytes(u256(SECRET_B.0, SECRET_B.1)).unwrap();
    let (pa, pb) = (a.public_key(), b.public_key());
    let ab = a.dh_key(&pb).unwrap();
    let ba = b.dh_key(&pa).unwrap();
    assert_eq!(ab.as_be_bytes(), &u256(SHARED.0, SHARED.1));
    assert_eq!(ba.as_be_bytes(), &u256(SHARED.0, SHARED.1));
}

#[test]
fn p256_invalid_public_key() {
    let a = SecretKey::from_be_bytes(u256(SECRET_A.0, SECRET_A.1)).unwrap();
    let pa = a.public_key();
    let mut y = *pa.y();
    y[31] ^= 1;
    let bad = PublicKey::from_be_bytes(*pa.x().as_be_bytes(), y);
    assert_eq!(a.dh_key(&bad).err(), Some(InvalidPublicKey));
    let a = SecretKey::from_be_bytes(u256(SECRET_A.0, SECRET_A.1)).unwrap();
    assert_eq!(a.dh_key(&PublicKey::from_be_bytes([0; 32], [0; 32])).err(), Some(InvalidPublicKey));
}

#[test]
fn p256_random_keys() {
    let a = SecretKey::new().unwrap();
    let b = SecretKey::new().unwrap();
    let (pa, pb) = (a.public_key(), b.public_key());
    assert_ne!(pa.x().as_be_bytes(), pb.x().as_be_bytes());
    let ab = a.dh_key(&pb).unwrap();
    let ba = b.dh_key(&pa).unwrap();
    assert_eq!(ab.as_be_bytes(), ba.as_be_bytes());
}

#[test]
fn codec_of_values() {
    let n = Nonce::from_raw(0x100F_0E0D_0C0B_0A09_0807_0605_0403_0201);
    let p = n.pack(Packer::new(48));
    let p = Confirm::from_raw(7).pack(p);
    let p = Check::from_raw(u128::MAX).pack(p);
    let v = p.into_vec();
    assert_eq!(&v[..16], &(1..=16).collect::<Vec<u8>>()[..]);
    let mut u = Unpacker::new(&v);
    assert_eq!(Nonce::unpack(&mut u), Some(n));
    assert!(Confirm::unpack(&mut u) == Some(Confirm::from_raw(7)));
    assert!(Check::unpack(&mut u) == Some(Check::from_raw(u128::MAX)));
    assert!(u.is_ok() && u.is_empty());
    assert_eq!(Nonce::unpack(&mut u), Some(Nonce::from_raw(0)));
    assert!(!u.is_ok());
}

#[test]
fn nonce_from_random_bytes() {
    assert_eq!(Nonce::from_random_bytes(None), None);
    assert_eq!(Nonce::from_random_bytes(Some([0; 16])), None);
    let mut b = [0; 16];
    b[0] = 0x01;
    b[1] = 0x02;
    b[15] = 0x80;
    assert_eq!(
        Nonce::from_random_bytes(Some(b)),
        Some(Nonce::from_raw(0x8000_0000_0000_0000_0000_0000_0000_0201))
    );
}

#[test]
fn secret_key_from_random() {
    assert!(SecretKey::from_random(None).is_none());
    assert!(SecretKey::from_random(Some([0; 32])).is_none());
    assert!(SecretKey::from_random(Some([0xFF; 32])).is_none());
    let k = SecretKey::from_random(Some(u256(SECRET_A.0, SECRET_A.1))).unwrap();
    assert_eq!(k.public_key().x().as_be_bytes(), key_u().as_be_bytes());
}
