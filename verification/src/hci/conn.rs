//! Connection and advertising handles, and the units of time on the wire.

use vstd::prelude::*;

verus! {

/// Connection handle.
#[derive(Clone, Copy, Debug, PartialEq, Eq, Structural)]
pub struct ConnHandle {
    h: u16,
}

impl ConnHandle {
    /// The handle as it stands on the wire.
    pub closed spec fn spec_raw(self) -> u16 {
        self.h
    }

    /// Whether the handle is one that a controller can give to a connection:
    /// one that uses the low 12 bits only.
    pub open spec fn spec_is_valid(self) -> bool {
        self.raw() >> 12 == 0
    }

    /// Returns a new connection handle.
    pub fn new(h: u16) -> (r: ConnHandle)
        ensures
            r.raw() == h,
    {
        ConnHandle { h }
    }

    /// Returns an invalid connection handle.
    pub fn invalid() -> (r: ConnHandle)
        ensures
            r.raw() == 0xFFFF,
            !r.is_valid(),
    {
        assert(0xFFFFu16 >> 12 != 0) by (bit_vector);
        ConnHandle { h: 0xFFFF }
    }

    /// Returns whether the connection handle is valid.
    #[verifier::when_used_as_spec(spec_is_valid)]
    pub fn is_valid(self) -> (r: bool)
        ensures
            r == self.spec_is_valid(),
            r == (self.raw() <= 0x0FFF),
    {
        let h: u16 = self.h;
        assert((h >> 12 == 0) == (h <= 0x0FFF)) by (bit_vector);
        self.h >> 12 == 0
    }

    /// Returns the handle as it stands on the wire.
    #[verifier::when_used_as_spec(spec_raw)]
    pub fn raw(self) -> (r: u16)
        ensures
            r == self.spec_raw(),
    {
        self.h
    }
}

impl Default for ConnHandle {
    fn default() -> (r: ConnHandle)
        ensures
            r.raw() == 0xFFFF,
    {
        ConnHandle::invalid()
    }
}

/// Advertising set handle.
#[derive(Clone, Copy, Debug, PartialEq, Eq, Structural)]
pub struct AdvHandle {
    h: u8,
}

impl AdvHandle {
    /// The largest handle of an advertising set.
    pub const MAX: u8 = 0xEF;

    #[verifier::type_invariant]
    spec fn inv(self) -> bool {
        self.h <= AdvHandle::MAX
    }

    /// The handle as it stands on the wire.
    pub closed spec fn spec_raw(self) -> u8 {
        self.h
    }

    /// Returns the advertising handle `h`, or `None` if `h` is above
    /// [`AdvHandle::MAX`].
    pub fn new(h: u8) -> (r: Option<AdvHandle>)
        ensures
            r.is_some() == (h <= AdvHandle::MAX),
            r.is_some() ==> r.unwrap().raw() == h,
    {
        if h <= AdvHandle::MAX {
            Some(AdvHandle { h })
        } else {
            None
        }
    }

    /// Returns the handle as it stands on the wire.
    #[verifier::when_used_as_spec(spec_raw)]
    pub fn raw(self) -> (r: u8)
        ensures
            r == self.spec_raw(),
            r <= AdvHandle::MAX,
    {
        proof {
            use_type_invariant(&self);
        }
        self.h
    }
}

/// Returns the number of whole 625 µs ticks in `us` microseconds, or `None` if
/// it does not fit in 24 bits.
pub fn ticks_625us(us: u64) -> (r: Option<u32>)
    ensures
        r == if us / 625 <= 0xFF_FFFF {
            Some((us / 625) as u32)
        } else {
            None
        },
{
    let t: u64 = us / 625;
    if t <= 0xFF_FFFF {
        Some(t as u32)
    } else {
        None
    }
}

/// Returns the number of whole 1.25 ms ticks in `us` microseconds, or `None`
/// if it does not fit in 16 bits.
pub fn ticks_1250us(us: u64) -> (r: Option<u16>)
    ensures
        r == if us / 1250 <= 0xFFFF {
            Some((us / 1250) as u16)
        } else {
            None
        },
{
    let t: u64 = us / 1250;
    if t <= 0xFFFF {
        Some(t as u16)
    } else {
        None
    }
}

/// Returns the number of whole 10 ms ticks in `us` microseconds, or `None` if
/// it does not fit in 16 bits.
pub fn ticks_10ms(us: u64) -> (r: Option<u16>)
    ensures
        r == if us / 10_000 <= 0xFFFF {
            Some((us / 10_000) as u16)
        } else {
            None
        },
{
    let t: u64 = us / 10_000;
    if t <= 0xFFFF {
        Some(t as u16)
    } else {
        None
    }
}

/// Returns the length in microseconds of `ticks` ticks of 1.25 ms.
pub fn duration_1250us(ticks: u16) -> (us: u64)
    ensures
        us == ticks * 1250,
{
    ticks as u64 * 1250
}

/// Returns the length in microseconds of `ticks` ticks of 10 ms.
pub fn duration_10ms(ticks: u16) -> (us: u64)
    ensures
        us == ticks * 10_000,
{
    ticks as u64 * 10_000
}

} // verus!
