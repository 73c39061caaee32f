//! LE device addresses and transmit power.

use vstd::prelude::*;

verus! {

/// 48-bit untyped device address stored in little-endian byte order, as it is
/// sent over the air.
#[derive(Clone, Copy, Debug)]
pub struct RawAddr {
    b: [u8; 6],
}

impl View for RawAddr {
    type V = Seq<u8>;

    closed spec fn view(&self) -> Seq<u8> {
        self.b@
    }
}

impl RawAddr {
    /// An address has six bytes.
    pub proof fn lemma_len(self)
        ensures
            self@.len() == 6,
    {
    }

    /// Creates an address from a little-endian byte array.
    pub fn from_le_bytes(b: [u8; 6]) -> (r: RawAddr)
        ensures
            r@ == b@,
    {
        RawAddr { b }
    }

    /// Returns the address in little-endian byte order.
    pub fn as_le_bytes(&self) -> (r: [u8; 6])
        ensures
            r@ == self@,
    {
        self.b
    }

    /// Returns whether two addresses are the same.
    pub fn same(&self, other: &RawAddr) -> (r: bool)
        ensures
            r == (self@ == other@),
    {
        let mut i: usize = 0;
        while i < 6
            invariant
                i <= 6,
                forall|j: int| 0 <= j < i ==> self.b@[j] == other.b@[j],
            decreases 6 - i,
        {
            if self.b[i] != other.b[i] {
                return false;
            }
            i += 1;
        }
        assert(self@ =~= other@);
        true
    }
}

impl Default for RawAddr {
    fn default() -> (r: RawAddr)
        ensures
            r@ == Seq::new(6, |i: int| 0u8),
    {
        let r = RawAddr { b: [0u8; 6] };
        assert(r@ =~= Seq::new(6, |i: int| 0u8));
        r
    }
}

/// LE device public or random address.
#[derive(Clone, Copy, Debug)]
pub enum Addr {
    Public(RawAddr),
    Random(RawAddr),
}

impl Addr {
    /// Whether the address is a random one.
    pub open spec fn spec_is_random(self) -> bool {
        self is Random
    }

    /// The untyped address.
    pub open spec fn spec_raw(self) -> RawAddr {
        match self {
            Addr::Public(a) => a,
            Addr::Random(a) => a,
        }
    }

    /// Creates a peer address from the address type of an LE connection
    /// event: an even type is a public or public identity address, an odd one
    /// a random or random identity address. Types above `0x03` name no
    /// address.
    pub fn peer(typ: u8, raw: RawAddr) -> (r: Option<Addr>)
        ensures
            r == match typ {
                0x00 | 0x02 => Some(Addr::Public(raw)),
                0x01 | 0x03 => Some(Addr::Random(raw)),
                _ => None,
            },
    {
        match typ {
            0x00 | 0x02 => Some(Addr::Public(raw)),
            0x01 | 0x03 => Some(Addr::Random(raw)),
            _ => None,
        }
    }

    /// Returns whether the address is a random one.
    #[verifier::when_used_as_spec(spec_is_random)]
    pub fn is_random(self) -> (r: bool)
        ensures
            r == self.spec_is_random(),
    {
        match self {
            Addr::Public(_) => false,
            Addr::Random(_) => true,
        }
    }

    /// Returns the untyped address.
    #[verifier::when_used_as_spec(spec_raw)]
    pub fn raw(self) -> (r: RawAddr)
        ensures
            r == self.spec_raw(),
    {
        match self {
            Addr::Public(a) => a,
            Addr::Random(a) => a,
        }
    }
}

impl Default for Addr {
    fn default() -> (r: Addr)
        ensures
            r is Public,
            r.raw()@ == Seq::new(6, |i: int| 0u8),
    {
        Addr::Public(RawAddr::default())
    }
}

/// Transmit power level in dBm.
#[derive(Clone, Copy, Debug, PartialEq, Eq, Structural)]
pub struct TxPower {
    dbm: i8,
}

impl TxPower {
    /// The value that tells the controller that the host has no preference.
    pub const NONE: i8 = 0x7F;

    /// The power level in dBm.
    pub closed spec fn spec_dbm(self) -> i8 {
        self.dbm
    }

    /// Creates a power level of `dbm` dBm.
    pub fn new(dbm: i8) -> (r: TxPower)
        ensures
            r.dbm() == dbm,
    {
        TxPower { dbm }
    }

    /// Returns the power level in dBm.
    #[verifier::when_used_as_spec(spec_dbm)]
    pub fn dbm(self) -> (r: i8)
        ensures
            r == self.spec_dbm(),
    {
        self.dbm
    }
}

} // verus!
