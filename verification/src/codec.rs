//! Little-endian packing and unpacking of HCI, ATT, and SMP parameters.

use vstd::prelude::*;

verus! {

/// Value of a byte sequence read as a little-endian unsigned integer.
pub open spec fn le_nat(s: Seq<u8>) -> nat
    decreases s.len(),
{
    if s.len() == 0 {
        0
    } else {
        s[0] as nat + 256 * le_nat(s.drop_first())
    }
}

/// Little-endian encoding of the low `n` bytes of `v`.
pub open spec fn le_seq(v: nat, n: nat) -> Seq<u8>
    decreases n,
{
    if n == 0 {
        Seq::empty()
    } else {
        seq![(v % 256) as u8] + le_seq(v / 256, (n - 1) as nat)
    }
}

/// `256^n`, the number of values that `n` bytes can hold.
pub open spec fn pow256(n: nat) -> nat
    decreases n,
{
    if n == 0 {
        1
    } else {
        256 * pow256((n - 1) as nat)
    }
}

/// An encoding in `n` bytes has `n` bytes.
pub proof fn lemma_le_seq_len(v: nat, n: nat)
    ensures
        le_seq(v, n).len() == n,
    decreases n,
{
    if n > 0 {
        lemma_le_seq_len(v / 256, (n - 1) as nat);
    }
}

/// The value of `n` bytes is below `256^n`.
pub proof fn lemma_le_nat_bound(s: Seq<u8>)
    ensures
        le_nat(s) < pow256(s.len()),
    decreases s.len(),
{
    if s.len() > 0 {
        lemma_le_nat_bound(s.drop_first());
    }
}

/// The value of a single byte is the byte.
pub proof fn lemma_le_nat_one(b: u8)
    ensures
        le_nat(seq![b]) == b,
{
    assert(seq![b].drop_first() =~= Seq::<u8>::empty());
    assert(le_nat(seq![b].drop_first()) == 0);
}

/// Decoding an encoded value gives the value back when it fits in `n` bytes.
pub proof fn lemma_le_nat_of_le_seq(v: nat, n: nat)
    requires
        v < pow256(n),
    ensures
        le_nat(le_seq(v, n)) == v,
    decreases n,
{
    if n > 0 {
        let rest = le_seq(v / 256, (n - 1) as nat);
        lemma_le_nat_of_le_seq(v / 256, (n - 1) as nat);
        assert(le_seq(v, n).drop_first() =~= rest);
    }
}

/// Encoding a decoded byte sequence gives the same bytes back.
pub proof fn lemma_le_seq_of_le_nat(s: Seq<u8>)
    ensures
        le_seq(le_nat(s), s.len()) == s,
    decreases s.len(),
{
    if s.len() > 0 {
        let t = s.drop_first();
        lemma_le_seq_of_le_nat(t);
        assert((s[0] as nat + 256 * le_nat(t)) % 256 == s[0] as nat);
        assert((s[0] as nat + 256 * le_nat(t)) / 256 == le_nat(t));
        assert(le_seq(le_nat(s), s.len()) =~= s);
    } else {
        assert(le_seq(le_nat(s), s.len()) =~= s);
    }
}


/// The values of `pow256` at the widths that the codec reads and writes.
pub proof fn lemma_pow256_values()
    ensures
        pow256(0) == 1,
        pow256(1) == 0x100,
        pow256(2) == 0x1_0000,
        pow256(3) == 0x100_0000,
        pow256(4) == 0x1_0000_0000,
        pow256(6) == 0x1_0000_0000_0000,
        pow256(8) == 0x1_0000_0000_0000_0000,
        pow256(16) == 0x1_0000_0000_0000_0000_0000_0000_0000_0000,
{
    assert(pow256(0) == 1);
    assert(pow256(1) == 0x100);
    assert(pow256(2) == 0x1_0000);
    assert(pow256(3) == 0x100_0000);
    assert(pow256(4) == 0x1_0000_0000);
    assert(pow256(5) == 0x100_0000_0000);
    assert(pow256(6) == 0x1_0000_0000_0000);
    assert(pow256(7) == 0x100_0000_0000_0000);
    assert(pow256(8) == 0x1_0000_0000_0000_0000);
    assert(pow256(9) == 0x100_0000_0000_0000_0000);
    assert(pow256(10) == 0x1_0000_0000_0000_0000_0000);
    assert(pow256(11) == 0x100_0000_0000_0000_0000_0000);
    assert(pow256(12) == 0x1_0000_0000_0000_0000_0000_0000);
    assert(pow256(13) == 0x100_0000_0000_0000_0000_0000_0000);
    assert(pow256(14) == 0x1_0000_0000_0000_0000_0000_0000_0000);
    assert(pow256(15) == 0x100_0000_0000_0000_0000_0000_0000_0000);
    assert(pow256(16) == 0x1_0000_0000_0000_0000_0000_0000_0000_0000);
}

/// `256^n` is positive and grows with `n`.
pub proof fn lemma_pow256_monotonic(a: nat, b: nat)
    requires
        a <= b,
    ensures
        pow256(a) <= pow256(b),
        pow256(a) > 0,
    decreases b,
{
    if a < b {
        lemma_pow256_monotonic(a, (b - 1) as nat);
    } else if a > 0 {
        lemma_pow256_monotonic((a - 1) as nat, (b - 1) as nat);
    }
}

/// Appending the next byte of a little-endian encoding.
pub proof fn lemma_le_seq_push(v: nat, n: nat)
    ensures
        le_seq(v, n + 1) == le_seq(v, n).push(((v / pow256(n)) % 256) as u8),
    decreases n,
{
    if n == 0 {
        assert(le_seq(v / 256, 0) =~= Seq::<u8>::empty());
        assert(le_seq(v, 1) =~= le_seq(v, 0).push((v % 256) as u8));
    } else {
        lemma_le_seq_push(v / 256, (n - 1) as nat);
        let p = pow256((n - 1) as nat);
        lemma_pow256_monotonic(0, (n - 1) as nat);
        assert((v / 256) / p == v / (256 * p)) by (nonlinear_arith)
            requires
                p > 0,
        ;
        assert(le_seq(v, n + 1) =~= le_seq(v, n).push(((v / pow256(n)) % 256) as u8));
    }
}

/// What an unpacker still holds: the unread bytes, and whether every read so
/// far was within the bounds of the original slice.
pub struct UnpackerView {
    pub bytes: Seq<u8>,
    pub ok: bool,
}

impl UnpackerView {
    /// The view of an unpacker after a read past the end.
    pub open spec fn failed() -> Self {
        UnpackerView { bytes: Seq::empty(), ok: false }
    }

    /// A failed unpacker holds no bytes.
    pub open spec fn wf(self) -> bool {
        !self.ok ==> self.bytes.len() == 0
    }

    /// Whether `n` more bytes can be read.
    pub open spec fn has(self, n: nat) -> bool {
        n <= self.bytes.len()
    }

    /// The little-endian value of the next `n` bytes, or zero if fewer remain.
    pub open spec fn value(self, n: nat) -> nat {
        if self.has(n) {
            le_nat(self.bytes.take(n as int))
        } else {
            0
        }
    }

    /// The state after reading `n` bytes: advanced, or failed and empty if
    /// fewer remain.
    pub open spec fn advance(self, n: nat) -> Self {
        if self.has(n) {
            UnpackerView { bytes: self.bytes.skip(n as int), ok: self.ok }
        } else {
            Self::failed()
        }
    }
}

/// Unpacker of little-endian values from a byte slice.
///
/// A read past the end of the slice returns zero, discards the remaining
/// bytes, and leaves the unpacker in a failed state that [`Self::is_ok`]
/// reports.
#[derive(Clone, Copy, Debug)]
pub struct Unpacker<'a> {
    b: &'a [u8],
    i: usize,
    ok: bool,
}

impl<'a> View for Unpacker<'a> {
    type V = UnpackerView;

    closed spec fn view(&self) -> UnpackerView {
        UnpackerView { bytes: self.b@.skip(self.i as int), ok: self.ok }
    }
}

impl<'a> Unpacker<'a> {
    #[verifier::type_invariant]
    spec fn inv(self) -> bool {
        self.i <= self.b@.len() && (!self.ok ==> self.i == self.b@.len())
    }

    /// Creates an unpacker over `b`.
    pub fn new(b: &'a [u8]) -> (r: Self)
        ensures
            r@ == (UnpackerView { bytes: b@, ok: true }),
    {
        let r = Unpacker { b, i: 0, ok: true };
        assert(b@.skip(0) =~= b@);
        r
    }

    /// Creates an unpacker in the failed state.
    pub fn invalid() -> (r: Unpacker<'static>)
        ensures
            r@ == UnpackerView::failed(),
    {
        let b: &'static [u8] = &[];
        let r = Unpacker { b, i: 0, ok: false };
        assert(b@.skip(0) =~= Seq::<u8>::empty());
        r
    }

    /// Returns the number of unread bytes.
    pub fn len(&self) -> (n: usize)
        ensures
            n == self@.bytes.len(),
            self@.wf(),
    {
        proof {
            use_type_invariant(self);
        }
        self.b.len() - self.i
    }

    /// Returns whether no unread bytes remain.
    pub fn is_empty(&self) -> (r: bool)
        ensures
            r == (self@.bytes.len() == 0),
    {
        self.len() == 0
    }

    /// Returns whether every read so far was within the bounds of the original
    /// slice.
    pub fn is_ok(&self) -> (r: bool)
        ensures
            r == self@.ok,
            self@.wf(),
    {
        proof {
            use_type_invariant(self);
        }
        self.ok
    }

    /// Returns the unread bytes.
    pub fn as_slice(&self) -> (r: &'a [u8])
        ensures
            r@ == self@.bytes,
    {
        proof {
            use_type_invariant(self);
        }
        let r = vstd::slice::slice_subrange(self.b, self.i, self.b.len());
        assert(r@ =~= self@.bytes);
        r
    }

    /// Splits off the next `n` bytes into an unpacker of their own. If fewer
    /// remain, or the unpacker has already failed, it returns [`None`] and
    /// leaves the unpacker failed and empty.
    pub fn skip(&mut self, n: usize) -> (r: Option<Unpacker<'a>>)
        ensures
            r.is_some() == (old(self)@.ok && old(self)@.has(n as nat)),
            r.is_some() ==> r.unwrap()@ == (UnpackerView {
                bytes: old(self)@.bytes.take(n as int),
                ok: true,
            }),
            r.is_some() ==> final(self)@ == old(self)@.advance(n as nat),
            r.is_none() ==> final(self)@ == UnpackerView::failed(),
    {
        proof {
            use_type_invariant(&*self);
        }
        if !self.ok || self.b.len() - self.i < n {
            self.i = self.b.len();
            self.ok = false;
            assert(self@.bytes =~= Seq::<u8>::empty());
            return None;
        }
        let head = vstd::slice::slice_subrange(self.b, self.i, self.i + n);
        let r = Unpacker { b: head, i: 0, ok: true };
        assert(r@.bytes =~= old(self)@.bytes.take(n as int));
        self.i += n;
        assert(self@.bytes =~= old(self)@.bytes.skip(n as int));
        Some(r)
    }

    /// Returns the next byte as a `bool`: any non-zero value is `true`.
    pub fn bool(&mut self) -> (v: bool)
        ensures
            v == (old(self)@.value(1) != 0),
            final(self)@ == old(self)@.advance(1),
    {
        self.read(1) != 0
    }

    /// Returns the next `u8`.
    pub fn u8(&mut self) -> (v: u8)
        ensures
            v == old(self)@.value(1),
            final(self)@ == old(self)@.advance(1),
    {
        proof {
            lemma_pow256_values();
        }
        self.read(1) as u8
    }

    /// Returns the next `i8`, the two's complement reading of the next byte.
    pub fn i8(&mut self) -> (v: i8)
        ensures
            v == (old(self)@.value(1) as u8) as i8,
            final(self)@ == old(self)@.advance(1),
    {
        self.u8() as i8
    }

    /// Returns the next `u16`.
    pub fn u16(&mut self) -> (v: u16)
        ensures
            v == old(self)@.value(2),
            final(self)@ == old(self)@.advance(2),
    {
        proof {
            lemma_pow256_values();
        }
        self.read(2) as u16
    }

    /// Returns the next three bytes as a `u32`.
    pub fn u24(&mut self) -> (v: u32)
        ensures
            v == old(self)@.value(3),
            final(self)@ == old(self)@.advance(3),
    {
        proof {
            lemma_pow256_values();
        }
        self.read(3) as u32
    }

    /// Returns the next `u32`.
    pub fn u32(&mut self) -> (v: u32)
        ensures
            v == old(self)@.value(4),
            final(self)@ == old(self)@.advance(4),
    {
        proof {
            lemma_pow256_values();
        }
        self.read(4) as u32
    }

    /// Returns the next `u64`.
    pub fn u64(&mut self) -> (v: u64)
        ensures
            v == old(self)@.value(8),
            final(self)@ == old(self)@.advance(8),
    {
        proof {
            lemma_pow256_values();
        }
        self.read(8) as u64
    }

    /// Returns the next `u128`.
    pub fn u128(&mut self) -> (v: u128)
        ensures
            v == old(self)@.value(16),
            final(self)@ == old(self)@.advance(16),
    {
        self.read(16)
    }

    /// Returns the next `N` bytes, or `N` zeros if fewer remain.
    pub fn bytes<const N: usize>(&mut self) -> (r: [u8; N])
        ensures
            r@ == if old(self)@.has(N as nat) {
                old(self)@.bytes.take(N as int)
            } else {
                Seq::new(N as nat, |i: int| 0u8)
            },
            final(self)@ == old(self)@.advance(N as nat),
    {
        proof {
            use_type_invariant(&*self);
        }
        let mut r: [u8; N] = [0u8; N];
        if self.b.len() - self.i < N {
            self.i = self.b.len();
            self.ok = false;
            assert(self@.bytes =~= Seq::<u8>::empty());
            assert(r@ =~= Seq::new(N as nat, |i: int| 0u8));
            return r;
        }
        let len: usize = self.b.len();
        let mut k: usize = 0;
        while k < N
            invariant
                k <= N,
                len == self.b@.len(),
                self.i + N <= len,
                self.i == old(self).i,
                self.b == old(self).b,
                self.ok == old(self).ok,
                forall|j: int| 0 <= j < k ==> r@[j] == self.b@[self.i + j],
            decreases N - k,
        {
            r[k] = self.b[self.i + k];
            k += 1;
        }
        assert(r@ =~= old(self)@.bytes.take(N as int));
        self.i += N;
        assert(self@.bytes =~= old(self)@.bytes.skip(N as int));
        r
    }

    /// Reads the next `n` bytes as a little-endian value.
    fn read(&mut self, n: usize) -> (v: u128)
        requires
            n <= 16,
        ensures
            v == old(self)@.value(n as nat),
            v < pow256(n as nat),
            final(self)@ == old(self)@.advance(n as nat),
    {
        proof {
            use_type_invariant(&*self);
            lemma_pow256_monotonic(0, n as nat);
        }
        if self.b.len() - self.i < n {
            self.i = self.b.len();
            self.ok = false;
            assert(self@.bytes =~= Seq::<u8>::empty());
            return 0;
        }
        let ghost s = self@.bytes.take(n as int);
        let mut v: u128 = 0;
        let mut k: usize = n;
        let len: usize = self.b.len();
        while k > 0
            invariant
                k <= n <= 16,
                len == self.b@.len(),
                self.i + n <= self.b@.len(),
                s == self.b@.subrange(self.i as int, self.i + n),
                v == le_nat(s.skip(k as int)),
            decreases k,
        {
            k -= 1;
            proof {
                let t = s.skip(k as int);
                assert(t.drop_first() =~= s.skip(k + 1));
                lemma_le_nat_bound(s.skip(k + 1));
                lemma_pow256_monotonic((n - k - 1) as nat, 15);
                lemma_pow256_values();
            }
            v = v * 256 + self.b[self.i + k] as u128;
        }
        proof {
            assert(s.skip(0) =~= s);
            assert(s =~= old(self)@.bytes.take(n as int));
            lemma_le_nat_bound(s);
        }
        self.i += n;
        assert(self@.bytes =~= old(self)@.bytes.skip(n as int));
        v
    }
}

/// Largest parameter block of an HCI command.
pub const HCI_PARAM_LIM: usize = 255;

/// Packer of little-endian values into a byte buffer of limited length.
#[derive(Debug)]
pub struct Packer {
    b: Vec<u8>,
    lim: usize,
}

impl View for Packer {
    type V = Seq<u8>;

    closed spec fn view(&self) -> Seq<u8> {
        self.b@
    }
}

impl Packer {
    #[verifier::type_invariant]
    spec fn inv(self) -> bool {
        self.b@.len() <= self.lim
    }

    /// The largest number of bytes that the buffer may hold.
    pub closed spec fn lim(&self) -> nat {
        self.lim as nat
    }

    /// Whether `n` more bytes fit under the limit.
    pub open spec fn fits(&self, n: nat) -> bool {
        self@.len() + n <= self.lim()
    }

    /// Creates an empty packer that holds at most `lim` bytes.
    pub fn new(lim: usize) -> (r: Self)
        ensures
            r@ == Seq::<u8>::empty(),
            r.lim() == lim,
    {
        Packer { b: Vec::new(), lim }
    }

    /// Creates an empty packer for the parameters of one HCI command.
    pub fn hci() -> (r: Self)
        ensures
            r@ == Seq::<u8>::empty(),
            r.lim() == HCI_PARAM_LIM,
    {
        Self::new(HCI_PARAM_LIM)
    }

    /// Returns the number of bytes written.
    pub fn len(&self) -> (n: usize)
        ensures
            n == self@.len(),
            n <= self.lim(),
    {
        proof {
            use_type_invariant(self);
        }
        self.b.len()
    }

    /// Returns the number of bytes that can still be written.
    pub fn remaining(&self) -> (n: usize)
        ensures
            n == self.lim() - self@.len(),
    {
        proof {
            use_type_invariant(self);
        }
        self.lim - self.b.len()
    }

    /// Returns whether `n` more bytes can be written.
    pub fn can_put(&self, n: usize) -> (r: bool)
        ensures
            r == self.fits(n as nat),
    {
        n <= self.remaining()
    }

    /// Returns the bytes written so far.
    pub fn as_slice(&self) -> (r: &[u8])
        ensures
            r@ == self@,
    {
        self.b.as_slice()
    }

    /// Returns the packed bytes.
    pub fn into_vec(self) -> (r: Vec<u8>)
        ensures
            r@ == self@,
            r@.len() <= self.lim(),
    {
        proof {
            use_type_invariant(&self);
        }
        self.b
    }

    /// Writes the low `n` bytes of `v`, least significant first.
    fn write(self, v: u128, n: usize) -> (r: Self)
        requires
            n <= 16,
            self.fits(n as nat),
        ensures
            r@ == self@ + le_seq(v as nat, n as nat),
            r@.len() == self@.len() + n,
            r.lim() == self.lim(),
    {
        proof {
            use_type_invariant(&self);
        }
        let Packer { mut b, lim } = self;
        let mut w: u128 = v;
        let mut k: usize = 0;
        assert(b@ =~= self@ + le_seq(v as nat, 0));
        assert(pow256(0) == 1);
        while k < n
            invariant
                k <= n <= 16,
                self@.len() + n <= lim,
                b@ == self@ + le_seq(v as nat, k as nat),
                w == v as nat / pow256(k as nat),
            decreases n - k,
        {
            proof {
                lemma_le_seq_push(v as nat, k as nat);
                lemma_pow256_monotonic(0, k as nat);
                let p = pow256(k as nat);
                assert((v as nat / p) / 256 == v as nat / (256 * p)) by (nonlinear_arith)
                    requires
                        p > 0,
                ;
            }
            b.push((w % 256) as u8);
            w = w / 256;
            k += 1;
            assert(b@ =~= self@ + le_seq(v as nat, k as nat));
        }
        proof {
            lemma_le_seq_len(v as nat, n as nat);
        }
        Packer { b, lim }
    }

    /// Writes a `bool` as one byte, `1` for `true`.
    pub fn bool(self, v: bool) -> (r: Self)
        requires
            self.fits(1),
        ensures
            r@ == self@.push(if v { 1u8 } else { 0u8 }),
            r.lim() == self.lim(),
    {
        self.u8(if v { 1 } else { 0 })
    }

    /// Writes a `u8`.
    pub fn u8(self, v: u8) -> (r: Self)
        requires
            self.fits(1),
        ensures
            r@ == self@.push(v),
            r.lim() == self.lim(),
    {
        proof {
            use_type_invariant(&self);
        }
        let Packer { mut b, lim } = self;
        b.push(v);
        Packer { b, lim }
    }

    /// Writes an `i8` in two's complement.
    pub fn i8(self, v: i8) -> (r: Self)
        requires
            self.fits(1),
        ensures
            r@ == self@.push(v as u8),
            r.lim() == self.lim(),
    {
        self.u8(v as u8)
    }

    /// Writes a `u16`.
    pub fn u16(self, v: u16) -> (r: Self)
        requires
            self.fits(2),
        ensures
            r@ == self@ + le_seq(v as nat, 2),
            r@.len() == self@.len() + 2,
            r.lim() == self.lim(),
    {
        self.write(v as u128, 2)
    }

    /// Writes a `u32` that fits in 24 bits as three bytes.
    pub fn u24(self, v: u32) -> (r: Self)
        requires
            self.fits(3),
            v < 0x100_0000,
        ensures
            r@ == self@ + le_seq(v as nat, 3),
            r@.len() == self@.len() + 3,
            r.lim() == self.lim(),
    {
        self.write(v as u128, 3)
    }

    /// Writes a `u32`.
    pub fn u32(self, v: u32) -> (r: Self)
        requires
            self.fits(4),
        ensures
            r@ == self@ + le_seq(v as nat, 4),
            r@.len() == self@.len() + 4,
            r.lim() == self.lim(),
    {
        self.write(v as u128, 4)
    }

    /// Writes a `u64`.
    pub fn u64(self, v: u64) -> (r: Self)
        requires
            self.fits(8),
        ensures
            r@ == self@ + le_seq(v as nat, 8),
            r@.len() == self@.len() + 8,
            r.lim() == self.lim(),
    {
        self.write(v as u128, 8)
    }

    /// Writes a `u128`.
    pub fn u128(self, v: u128) -> (r: Self)
        requires
            self.fits(16),
        ensures
            r@ == self@ + le_seq(v as nat, 16),
            r@.len() == self@.len() + 16,
            r.lim() == self.lim(),
    {
        self.write(v, 16)
    }

    /// Writes the bytes of `v` as they are.
    pub fn put(self, v: &[u8]) -> (r: Self)
        requires
            self.fits(v@.len()),
        ensures
            r@ == self@ + v@,
            r.lim() == self.lim(),
    {
        proof {
            use_type_invariant(&self);
        }
        let Packer { mut b, lim } = self;
        let mut k: usize = 0;
        assert(b@ =~= self@ + v@.take(0));
        while k < v.len()
            invariant
                k <= v@.len(),
                self@.len() + v@.len() <= lim,
                b@ == self@ + v@.take(k as int),
            decreases v@.len() - k,
        {
            b.push(v[k]);
            k += 1;
            assert(b@ =~= self@ + v@.take(k as int));
        }
        assert(v@.take(k as int) =~= v@);
        Packer { b, lim }
    }
}

/// Reading back a value of `n` bytes that was written in front of `rest`.
pub proof fn lemma_unpack_packed(v: nat, n: nat, rest: Seq<u8>, ok: bool)
    requires
        v < pow256(n),
    ensures
        (UnpackerView { bytes: le_seq(v, n) + rest, ok }).has(n),
        (UnpackerView { bytes: le_seq(v, n) + rest, ok }).value(n) == v,
        (UnpackerView { bytes: le_seq(v, n) + rest, ok }).advance(n) == (UnpackerView {
            bytes: rest,
            ok,
        }),
{
    let s = le_seq(v, n) + rest;
    lemma_le_seq_len(v, n);
    lemma_le_nat_of_le_seq(v, n);
    assert(s.take(n as int) =~= le_seq(v, n));
    assert(s.skip(n as int) =~= rest);
}

} // verus!
