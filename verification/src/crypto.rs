//! LE Secure Connections cryptographic toolbox: the functions f4, f5, f6, and
//! g2, built on AES-CMAC.

use vstd::prelude::*;
use vstd::std_specs::cmp::PartialEqSpecImpl;
use crate::codec::{
    le_nat, le_seq, lemma_le_seq_len, lemma_pow256_values, Packer, Unpacker, UnpackerView,
};

verus! {

/// The AES-CMAC of the message `msg` under the 128-bit key `key`, the key and
/// the result read as big-endian numbers.
pub uninterp spec fn aes_cmac(key: u128, msg: Seq<u8>) -> u128;

/// Computes AES-CMAC with the `cmac` and `aes` crates: `Mac::new` with the
/// big-endian bytes of `key`, one `Mac::update` with `msg`, and
/// `Mac::finalize`, whose sixteen bytes are read as a big-endian number. The
/// result is the function [`aes_cmac`] of the key and the message.
#[verifier::external_body]
pub(crate) fn cmac(key: u128, msg: &[u8]) -> (mac: u128)
    ensures
        mac == aes_cmac(key, msg@),
{
    let mut m = <cmac::Cmac<aes::Aes128> as cmac::Mac>::new(&key.to_be_bytes().into());
    cmac::Mac::update(&mut m, msg);
    u128::from_be_bytes(cmac::Mac::finalize(m).into_bytes().into())
}

/// Compares two values with `subtle::ConstantTimeEq::ct_eq`, which looks at
/// every bit of both whatever they hold, and tells whether they are equal.
#[verifier::external_body]
fn ct_eq(a: u128, b: u128) -> (r: bool)
    ensures
        r == (a == b),
{
    bool::from(subtle::ConstantTimeEq::ct_eq(&a, &b))
}

/// Asks the operating system for `N` random bytes with `rand_core::OsRng`.
/// Nothing is known of the bytes; `None` means that the operating system gave
/// none.
#[verifier::external_body]
pub(crate) fn os_random<const N: usize>() -> (r: Option<[u8; N]>) {
    let mut b = [0u8; N];
    match rand_core::RngCore::try_fill_bytes(&mut rand_core::OsRng, &mut b) {
        Ok(()) => Some(b),
        Err(_) => None,
    }
}

/// Codec for packing and unpacking SMP command parameters.
pub trait Codec: Sized {
    /// The bytes of the parameters in an SMP PDU.
    spec fn spec_packed(&self) -> Seq<u8>;

    /// The parameters that `p` begins with, if it begins with any.
    spec fn spec_unpacked(p: UnpackerView) -> Option<Self>;

    /// What is left of `p` after the parameters.
    spec fn spec_rest(p: UnpackerView) -> UnpackerView;

    /// Packs command parameters into an SMP PDU.
    fn pack(&self, p: Packer) -> (r: Packer)
        requires
            p.fits(self.spec_packed().len()),
        ensures
            r@ == p@ + self.spec_packed(),
            r.lim() == p.lim(),
    ;

    /// Unpacks command parameters from an SMP PDU.
    ///
    /// Implementations should only return [`None`] if one of the unpacked
    /// values cannot be decoded. The final [`Unpacker`] status is checked by
    /// the caller.
    fn unpack(p: &mut Unpacker) -> (r: Option<Self>)
        ensures
            r == Self::spec_unpacked(old(p)@),
            final(p)@ == Self::spec_rest(old(p)@),
    ;
}

/// A 128-bit value that is read from its own sixteen bytes is the value,
/// and what follows the bytes is left.
pub proof fn lemma_u128_round_trip(v: u128, rest: Seq<u8>, ok: bool)
    ensures
        (UnpackerView { bytes: le_seq(v as nat, 16) + rest, ok }).value(16) == v,
        (UnpackerView { bytes: le_seq(v as nat, 16) + rest, ok }).advance(16) == (UnpackerView {
            bytes: rest,
            ok,
        }),
{
    lemma_pow256_values();
    crate::codec::lemma_unpack_packed(v as nat, 16, rest, ok);
}

/// Big-endian encoding of the low `n` bytes of `v`.
pub open spec fn be_seq(v: nat, n: nat) -> Seq<u8> {
    le_seq(v, n).reverse()
}

/// Appends the sixteen big-endian bytes of `v` to `out`.
fn put_be(out: &mut Vec<u8>, v: u128)
    ensures
        final(out)@ == old(out)@ + be_seq(v as nat, 16),
{
    let le = Packer::new(16).u128(v).into_vec();
    let mut i: usize = 0;
    assert(le@ =~= le_seq(v as nat, 16));
    assert(out@ =~= old(out)@ + le@.reverse().take(0));
    while i < 16
        invariant
            i <= 16,
            le@.len() == 16,
            out@ == old(out)@ + le@.reverse().take(i as int),
        decreases 16 - i,
    {
        out.push(le[15 - i]);
        i += 1;
        assert(out@ =~= old(out)@ + le@.reverse().take(i as int));
    }
    assert(le@.reverse().take(16) =~= le@.reverse());
}

/// Appends the bytes of `v` to `out`.
fn put(out: &mut Vec<u8>, v: &[u8])
    ensures
        final(out)@ == old(out)@ + v@,
{
    let mut i: usize = 0;
    assert(out@ =~= old(out)@ + v@.take(0));
    while i < v.len()
        invariant
            i <= v@.len(),
            out@ == old(out)@ + v@.take(i as int),
        decreases v@.len() - i,
    {
        out.push(v[i]);
        i += 1;
        assert(out@ =~= old(out)@ + v@.take(i as int));
    }
    assert(v@.take(v@.len() as int) =~= v@);
}

/// 56-bit device address in big-endian byte order used by [`DHKey::f5`] and
/// [`MacKey::f6`] functions: one byte that is `1` for a random address and
/// `0` for a public one, then the six bytes of the address.
#[derive(Clone, Copy, Debug)]
pub struct Addr {
    b: [u8; 7],
}

impl View for Addr {
    type V = Seq<u8>;

    closed spec fn view(&self) -> Seq<u8> {
        self.b@
    }
}

impl Addr {
    /// The 56-bit address of the device with the little-endian address `v`.
    pub open spec fn spec_from_le_bytes(is_random: bool, v: Seq<u8>) -> Seq<u8> {
        seq![if is_random { 1u8 } else { 0u8 }] + v.reverse()
    }

    /// Creates a device address from a little-endian byte array.
    pub fn from_le_bytes(is_random: bool, v: [u8; 6]) -> (r: Addr)
        ensures
            r@ == Addr::spec_from_le_bytes(is_random, v@),
    {
        let mut a = [0u8; 7];
        a[0] = if is_random { 1 } else { 0 };
        let mut i: usize = 0;
        while i < 6
            invariant
                i <= 6,
                a@[0] == (if is_random { 1u8 } else { 0u8 }),
                forall|j: int| 1 <= j < 1 + i ==> #[trigger] a@[j] == v@[6 - j],
            decreases 6 - i,
        {
            a[1 + i] = v[5 - i];
            i += 1;
        }
        assert(a@ =~= Addr::spec_from_le_bytes(is_random, v@));
        Addr { b: a }
    }

    /// Creates a device address from its seven bytes.
    pub fn from_be_bytes(b: [u8; 7]) -> (r: Addr)
        ensures
            r@ == b@,
    {
        Addr { b }
    }

    /// Returns the seven bytes of the address.
    pub fn as_be_bytes(&self) -> (r: &[u8; 7])
        ensures
            r@ == self@,
    {
        &self.b
    }
}

/// Concatenated `AuthReq`, OOB data flag, and IO capability parameters used by
/// [`MacKey::f6`] function.
#[derive(Clone, Copy, Debug)]
pub struct IoCap {
    b: [u8; 3],
}

impl View for IoCap {
    type V = Seq<u8>;

    closed spec fn view(&self) -> Seq<u8> {
        self.b@
    }
}

impl IoCap {
    /// Creates new `IoCap` parameter.
    pub fn new(auth_req: u8, oob_data: bool, io_cap: u8) -> (r: IoCap)
        ensures
            r@ == seq![auth_req, if oob_data { 1u8 } else { 0u8 }, io_cap],
    {
        let b = [auth_req, if oob_data { 1 } else { 0 }, io_cap];
        assert(b@ =~= seq![auth_req, if oob_data { 1u8 } else { 0u8 }, io_cap]);
        IoCap { b }
    }
}

/// X coordinate of a P-256 public key in big-endian byte order.
#[derive(Clone, Copy, Debug)]
pub struct PublicKeyX {
    b: [u8; 32],
}

impl View for PublicKeyX {
    type V = Seq<u8>;

    closed spec fn view(&self) -> Seq<u8> {
        self.b@
    }
}

impl PublicKeyX {
    /// Creates the coordinate from a big-endian byte array.
    pub fn from_be_bytes(b: [u8; 32]) -> (r: PublicKeyX)
        ensures
            r@ == b@,
    {
        PublicKeyX { b }
    }

    /// Returns the coordinate in big-endian byte order.
    pub fn as_be_bytes(&self) -> (r: &[u8; 32])
        ensures
            r@ == self@,
    {
        &self.b
    }
}

/// The message that f4 authenticates: the two coordinates and the byte `z`.
pub open spec fn spec_f4_message(u: Seq<u8>, v: Seq<u8>, z: u8) -> Seq<u8> {
    u + v + seq![z]
}

/// The message that g2 authenticates: the two coordinates and the nonce `y`.
pub open spec fn spec_g2_message(u: Seq<u8>, v: Seq<u8>, y: u128) -> Seq<u8> {
    u + v + be_seq(y as nat, 16)
}

/// The message that f6 authenticates: the two nonces, the value `r`, the IO
/// capabilities, and the two addresses.
pub open spec fn spec_f6_message(
    n1: u128,
    n2: u128,
    r: u128,
    io_cap: Seq<u8>,
    a1: Seq<u8>,
    a2: Seq<u8>,
) -> Seq<u8> {
    be_seq(n1 as nat, 16) + be_seq(n2 as nat, 16) + be_seq(r as nat, 16) + io_cap + a1 + a2
}

/// The key identifier `btle` of f5.
pub open spec fn spec_f5_key_id() -> Seq<u8> {
    seq![0x62u8, 0x74, 0x6C, 0x65]
}

/// The message that f5 authenticates for the key with counter `counter`: the
/// counter, the key identifier, the two nonces, the two addresses, and the
/// length of the key in bits, which is 256.
pub open spec fn spec_f5_message(
    counter: u8,
    n1: u128,
    n2: u128,
    a1: Seq<u8>,
    a2: Seq<u8>,
) -> Seq<u8> {
    seq![counter] + spec_f5_key_id() + be_seq(n1 as nat, 16) + be_seq(n2 as nat, 16) + a1 + a2
        + seq![0x01u8, 0x00]
}

/// Returns the message that f4 authenticates.
pub fn f4_message(u: &PublicKeyX, v: &PublicKeyX, z: u8) -> (m: Vec<u8>)
    ensures
        m@ == spec_f4_message(u@, v@, z),
{
    let mut m: Vec<u8> = Vec::new();
    put(&mut m, u.as_be_bytes());
    put(&mut m, v.as_be_bytes());
    m.push(z);
    assert(m@ =~= spec_f4_message(u@, v@, z));
    m
}

/// Returns the message that g2 authenticates.
pub fn g2_message(u: &PublicKeyX, v: &PublicKeyX, y: &Nonce) -> (m: Vec<u8>)
    ensures
        m@ == spec_g2_message(u@, v@, y.raw()),
{
    let mut m: Vec<u8> = Vec::new();
    put(&mut m, u.as_be_bytes());
    put(&mut m, v.as_be_bytes());
    put_be(&mut m, y.v);
    assert(m@ =~= spec_g2_message(u@, v@, y.raw()));
    m
}

/// Returns the message that f6 authenticates.
pub fn f6_message(n1: Nonce, n2: Nonce, r: u128, io_cap: IoCap, a1: Addr, a2: Addr) -> (m: Vec<u8>)
    ensures
        m@ == spec_f6_message(n1.raw(), n2.raw(), r, io_cap@, a1@, a2@),
{
    let mut m: Vec<u8> = Vec::new();
    put_be(&mut m, n1.v);
    put_be(&mut m, n2.v);
    put_be(&mut m, r);
    put(&mut m, &io_cap.b);
    put(&mut m, &a1.b);
    put(&mut m, &a2.b);
    assert(m@ =~= spec_f6_message(n1.raw(), n2.raw(), r, io_cap@, a1@, a2@));
    m
}

/// Returns the message that f5 authenticates for the key with counter
/// `counter`.
pub fn f5_message(counter: u8, n1: Nonce, n2: Nonce, a1: Addr, a2: Addr) -> (m: Vec<u8>)
    ensures
        m@ == spec_f5_message(counter, n1.raw(), n2.raw(), a1@, a2@),
{
    let mut m: Vec<u8> = Vec::new();
    m.push(counter);
    m.push(0x62);
    m.push(0x74);
    m.push(0x6C);
    m.push(0x65);
    put_be(&mut m, n1.v);
    put_be(&mut m, n2.v);
    put(&mut m, &a1.b);
    put(&mut m, &a2.b);
    m.push(0x01);
    m.push(0x00);
    assert(m@ =~= spec_f5_message(counter, n1.raw(), n2.raw(), a1@, a2@));
    m
}

/// 128-bit random nonce value.
#[derive(Clone, Copy, Debug, PartialEq, Eq, Structural)]
pub struct Nonce {
    v: u128,
}

impl Nonce {
    /// The nonce as a number.
    pub closed spec fn spec_raw(self) -> u128 {
        self.v
    }

    /// The nonce with the value `v`.
    pub closed spec fn spec_of(v: u128) -> Nonce {
        Nonce { v: v }
    }

    /// The nonce with the value `v` has the value `v`.
    pub proof fn lemma_spec_of(v: u128)
        ensures
            Nonce::spec_of(v).raw() == v,
    {
    }

    /// Generates a new non-zero random nonce value from the OS CSPRNG. It
    /// returns `None` if the CSPRNG gave no value, or gave zero.
    pub fn new() -> (r: Option<Nonce>)
        ensures
            r.is_some() ==> r.unwrap().raw() != 0,
    {
        Nonce::from_random_bytes(os_random::<16>())
    }

    /// Returns the nonce that holds the sixteen random bytes `b`, read as a
    /// little-endian number, or `None` where there are no bytes or the number
    /// is zero.
    pub fn from_random_bytes(b: Option<[u8; 16]>) -> (r: Option<Nonce>)
        ensures
            r.is_some() == (b.is_some() && le_nat(b.unwrap()@) != 0),
            r.is_some() ==> r.unwrap().raw() == le_nat(b.unwrap()@),
    {
        match b {
            Some(b) => {
                let mut p = Unpacker::new(&b);
                proof {
                    assert(b@.take(16) =~= b@);
                }
                Nonce::from_random(Some(p.u128()))
            },
            None => None,
        }
    }

    /// Returns the nonce that holds the random value `v`, or `None` where
    /// there is no value or the value is zero.
    pub fn from_random(v: Option<u128>) -> (r: Option<Nonce>)
        ensures
            r.is_some() == (v.is_some() && v.unwrap() != 0),
            r.is_some() ==> r.unwrap().raw() == v.unwrap(),
    {
        match v {
            Some(n) if n != 0 => Some(Nonce { v: n }),
            _ => None,
        }
    }

    /// Returns the nonce with the value `v`, as a peer sent it.
    pub fn from_raw(v: u128) -> (r: Nonce)
        ensures
            r.raw() == v,
    {
        Nonce { v }
    }

    /// Returns the nonce as a number.
    #[verifier::when_used_as_spec(spec_raw)]
    pub fn raw(self) -> (r: u128)
        ensures
            r == self.spec_raw(),
    {
        self.v
    }

    /// Generates LE Secure Connections confirm value: the AES-CMAC, under the
    /// nonce, of the two coordinates and the byte `z`.
    pub fn f4(&self, u: &PublicKeyX, v: &PublicKeyX, z: u8) -> (r: Confirm)
        ensures
            r.raw() == aes_cmac(self.raw(), spec_f4_message(u@, v@, z)),
    {
        let m = f4_message(u, v, z);
        Confirm { v: cmac(self.v, m.as_slice()) }
    }

    /// Generates LE Secure Connections numeric comparison value: the low 32
    /// bits of the AES-CMAC, under the nonce, of the two coordinates and the
    /// nonce `y`, reduced to six decimal digits.
    pub fn g2(&self, u: &PublicKeyX, v: &PublicKeyX, y: &Nonce) -> (r: NumCompare)
        ensures
            r.value() == spec_num_compare(aes_cmac(self.raw(), spec_g2_message(u@, v@, y.raw()))),
    {
        let m = g2_message(u, v, y);
        NumCompare::from_mac(cmac(self.v, m.as_slice()))
    }
}

impl Codec for Nonce {
    open spec fn spec_packed(&self) -> Seq<u8> {
        le_seq(self.raw() as nat, 16)
    }

    open spec fn spec_unpacked(p: UnpackerView) -> Option<Nonce> {
        Some(Nonce::spec_of(p.value(16) as u128))
    }

    open spec fn spec_rest(p: UnpackerView) -> UnpackerView {
        p.advance(16)
    }

    fn pack(&self, p: Packer) -> (r: Packer) {
        proof {
            lemma_le_seq_len(self.raw() as nat, 16);
        }
        p.u128(self.v)
    }

    fn unpack(p: &mut Unpacker) -> (r: Option<Nonce>) {
        Some(Nonce { v: p.u128() })
    }
}

/// LE Secure Connections confirm value generated by [`Nonce::f4`].
#[derive(Clone, Copy, Debug, Eq)]
pub struct Confirm {
    v: u128,
}

impl Confirm {
    /// The confirm value as a number.
    pub closed spec fn spec_raw(self) -> u128 {
        self.v
    }

    /// The confirm value with the value `v`.
    pub closed spec fn spec_of(v: u128) -> Confirm {
        Confirm { v: v }
    }

    /// The confirm value with the value `v` has the value `v`.
    pub proof fn lemma_spec_of(v: u128)
        ensures
            Confirm::spec_of(v).raw() == v,
    {
    }

    /// Returns the confirm value `v`, as a peer sent it.
    pub fn from_raw(v: u128) -> (r: Confirm)
        ensures
            r.raw() == v,
    {
        Confirm { v }
    }

    /// Returns the confirm value as a number.
    #[verifier::when_used_as_spec(spec_raw)]
    pub fn raw(self) -> (r: u128)
        ensures
            r == self.spec_raw(),
    {
        self.v
    }
}

impl PartialEq for Confirm {
    /// Compares two confirm values in constant time.
    fn eq(&self, other: &Confirm) -> (r: bool) {
        ct_eq(self.v, other.v)
    }
}

impl PartialEqSpecImpl for Confirm {
    open spec fn obeys_eq_spec() -> bool {
        true
    }

    open spec fn eq_spec(&self, other: &Confirm) -> bool {
        self.raw() == other.raw()
    }
}

impl Codec for Confirm {
    open spec fn spec_packed(&self) -> Seq<u8> {
        le_seq(self.raw() as nat, 16)
    }

    open spec fn spec_unpacked(p: UnpackerView) -> Option<Confirm> {
        Some(Confirm::spec_of(p.value(16) as u128))
    }

    open spec fn spec_rest(p: UnpackerView) -> UnpackerView {
        p.advance(16)
    }

    fn pack(&self, p: Packer) -> (r: Packer) {
        proof {
            lemma_le_seq_len(self.raw() as nat, 16);
        }
        p.u128(self.v)
    }

    fn unpack(p: &mut Unpacker) -> (r: Option<Confirm>) {
        Some(Confirm { v: p.u128() })
    }
}

/// The numeric comparison value of the AES-CMAC `mac`.
pub open spec fn spec_num_compare(mac: u128) -> u32 {
    ((mac % 0x1_0000_0000) % 1_000_000) as u32
}

/// LE Secure Connections numeric comparison value generated by [`Nonce::g2`]:
/// a number of six decimal digits.
#[derive(Clone, Copy, Debug, PartialEq, Eq, Structural)]
pub struct NumCompare {
    v: u32,
}

impl NumCompare {
    #[verifier::type_invariant]
    spec fn inv(self) -> bool {
        self.v < 1_000_000
    }

    /// The value as a number.
    pub closed spec fn spec_value(self) -> u32 {
        self.v
    }

    /// Returns the numeric comparison value of the AES-CMAC `mac`: its low 32
    /// bits, reduced to six decimal digits.
    pub fn from_mac(mac: u128) -> (r: NumCompare)
        ensures
            r.value() == spec_num_compare(mac),
    {
        assert(mac as u32 == mac % 0x1_0000_0000) by (bit_vector);
        NumCompare { v: (mac as u32) % 1_000_000 }
    }

    /// Returns the value as a number below one million.
    #[verifier::when_used_as_spec(spec_value)]
    pub fn value(self) -> (r: u32)
        ensures
            r == self.spec_value(),
            r < 1_000_000,
    {
        proof {
            use_type_invariant(&self);
        }
        self.v
    }
}

/// 128-bit key used to compute LE Secure Connections check value.
#[derive(Clone, Copy)]
pub struct MacKey {
    k: u128,
}

impl MacKey {
    /// The key as a number.
    pub closed spec fn spec_raw(self) -> u128 {
        self.k
    }

    /// Returns the key `k`.
    pub fn from_raw(k: u128) -> (r: MacKey)
        ensures
            r.spec_raw() == k,
    {
        MacKey { k }
    }

    /// Generates LE Secure Connections check value: the AES-CMAC, under the
    /// key, of the two nonces, the value `r`, the IO capabilities, and the
    /// two addresses.
    pub fn f6(&self, n1: Nonce, n2: Nonce, r: u128, io_cap: IoCap, a1: Addr, a2: Addr) -> (c: Check)
        ensures
            c.raw() == aes_cmac(
                self.spec_raw(),
                spec_f6_message(n1.raw(), n2.raw(), r, io_cap@, a1@, a2@),
            ),
    {
        let m = f6_message(n1, n2, r, io_cap, a1, a2);
        Check { v: cmac(self.k, m.as_slice()) }
    }
}

/// LE Secure Connections check value generated by [`MacKey::f6`].
#[derive(Clone, Copy, Debug, Eq)]
pub struct Check {
    v: u128,
}

impl Check {
    /// The check value as a number.
    pub closed spec fn spec_raw(self) -> u128 {
        self.v
    }

    /// The check value with the value `v`.
    pub closed spec fn spec_of(v: u128) -> Check {
        Check { v: v }
    }

    /// The check value with the value `v` has the value `v`.
    pub proof fn lemma_spec_of(v: u128)
        ensures
            Check::spec_of(v).raw() == v,
    {
    }

    /// Returns the check value `v`, as a peer sent it.
    pub fn from_raw(v: u128) -> (r: Check)
        ensures
            r.raw() == v,
    {
        Check { v }
    }

    /// Returns the check value as a number.
    #[verifier::when_used_as_spec(spec_raw)]
    pub fn raw(self) -> (r: u128)
        ensures
            r == self.spec_raw(),
    {
        self.v
    }
}

impl PartialEq for Check {
    /// Compares two check values in constant time.
    fn eq(&self, other: &Check) -> (r: bool) {
        ct_eq(self.v, other.v)
    }
}

impl PartialEqSpecImpl for Check {
    open spec fn obeys_eq_spec() -> bool {
        true
    }

    open spec fn eq_spec(&self, other: &Check) -> bool {
        self.raw() == other.raw()
    }
}

impl Codec for Check {
    open spec fn spec_packed(&self) -> Seq<u8> {
        le_seq(self.raw() as nat, 16)
    }

    open spec fn spec_unpacked(p: UnpackerView) -> Option<Check> {
        Some(Check::spec_of(p.value(16) as u128))
    }

    open spec fn spec_rest(p: UnpackerView) -> UnpackerView {
        p.advance(16)
    }

    fn pack(&self, p: Packer) -> (r: Packer) {
        proof {
            lemma_le_seq_len(self.raw() as nat, 16);
        }
        p.u128(self.v)
    }

    fn unpack(p: &mut Unpacker) -> (r: Option<Check>) {
        Some(Check { v: p.u128() })
    }
}

/// LE Secure Connections long term key generated by [`DHKey::f5`].
#[derive(Clone, Copy, Eq)]
pub struct LTK {
    k: u128,
}

impl LTK {
    /// The key as a number.
    pub closed spec fn spec_raw(self) -> u128 {
        self.k
    }

    /// Returns the key `k`.
    pub fn from_raw(k: u128) -> (r: LTK)
        ensures
            r.raw() == k,
    {
        LTK { k }
    }

    /// Returns the key as a number.
    #[verifier::when_used_as_spec(spec_raw)]
    pub fn raw(self) -> (r: u128)
        ensures
            r == self.spec_raw(),
    {
        self.k
    }
}

impl PartialEq for LTK {
    /// Compares two keys in constant time.
    fn eq(&self, other: &LTK) -> (r: bool) {
        ct_eq(self.k, other.k)
    }
}

impl PartialEqSpecImpl for LTK {
    open spec fn obeys_eq_spec() -> bool {
        true
    }

    open spec fn eq_spec(&self, other: &LTK) -> bool {
        self.raw() == other.raw()
    }
}

/// The salt of f5.
pub const F5_SALT: u128 = 0x6C88_8391_AAF5_A538_6037_0BDB_5A60_83BE;

/// P-256 elliptic curve shared secret: the X coordinate of the shared point
/// in big-endian byte order.
#[derive(Clone, Copy)]
pub struct DHKey {
    b: [u8; 32],
}

impl View for DHKey {
    type V = Seq<u8>;

    closed spec fn view(&self) -> Seq<u8> {
        self.b@
    }
}

impl DHKey {
    /// The key under which f5 derives its two keys: the AES-CMAC of the
    /// shared secret under the salt.
    pub open spec fn spec_f5_key(self) -> u128 {
        aes_cmac(F5_SALT, self@)
    }

    /// Creates the shared secret from a big-endian byte array.
    pub fn from_be_bytes(b: [u8; 32]) -> (r: DHKey)
        ensures
            r@ == b@,
    {
        DHKey { b }
    }

    /// Returns the shared secret in big-endian byte order.
    pub fn as_be_bytes(&self) -> (r: &[u8; 32])
        ensures
            r@ == self@,
    {
        &self.b
    }

    /// Generates LE Secure Connections `MacKey` and `LTK`. Both are
    /// AES-CMACs, under a key derived from the shared secret, of the two
    /// nonces and the two addresses, the `MacKey` with counter 0 and the
    /// `LTK` with counter 1.
    pub fn f5(&self, n1: Nonce, n2: Nonce, a1: Addr, a2: Addr) -> (r: (MacKey, LTK))
        ensures
            r.0.spec_raw() == aes_cmac(
                self.spec_f5_key(),
                spec_f5_message(0, n1.raw(), n2.raw(), a1@, a2@),
            ),
            r.1.raw() == aes_cmac(
                self.spec_f5_key(),
                spec_f5_message(1, n1.raw(), n2.raw(), a1@, a2@),
            ),
    {
        let t = cmac(F5_SALT, &self.b);
        let m0 = f5_message(0, n1, n2, a1, a2);
        let m1 = f5_message(1, n1, n2, a1, a2);
        (MacKey { k: cmac(t, m0.as_slice()) }, LTK { k: cmac(t, m1.as_slice()) })
    }
}

} // verus!
