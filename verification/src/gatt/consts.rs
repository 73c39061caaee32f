//! Attribute types and characteristic properties of the Generic Attribute
//! Profile.

use vstd::prelude::*;
use crate::gap::uuid::Uuid16;

verus! {

/// Type of a primary service declaration.
pub const PRIMARY_SERVICE: u16 = 0x2800;

/// Type of a secondary service declaration.
pub const SECONDARY_SERVICE: u16 = 0x2801;

/// Type of an include declaration.
pub const INCLUDE: u16 = 0x2802;

/// Type of a characteristic declaration.
pub const CHARACTERISTIC: u16 = 0x2803;

/// Type of the characteristic extended properties descriptor.
pub const CHARACTERISTIC_EXTENDED_PROPERTIES: u16 = 0x2900;

/// Type of the characteristic user description descriptor.
pub const CHARACTERISTIC_USER_DESCRIPTION: u16 = 0x2901;

/// Type of the client characteristic configuration descriptor.
pub const CLIENT_CHARACTERISTIC_CONFIGURATION: u16 = 0x2902;

/// Type of the server characteristic configuration descriptor.
pub const SERVER_CHARACTERISTIC_CONFIGURATION: u16 = 0x2903;

/// Type of the characteristic presentation format descriptor.
pub const CHARACTERISTIC_PRESENTATION_FORMAT: u16 = 0x2904;

/// Type of the characteristic aggregate format descriptor.
pub const CHARACTERISTIC_AGGREGATE_FORMAT: u16 = 0x2905;

/// Declarations.
#[derive(Clone, Copy, Debug, PartialEq, Eq, Structural)]
pub enum Declaration {
    PrimaryService,
    SecondaryService,
    Include,
    Characteristic,
}

impl Declaration {
    /// The attribute type of the declaration.
    pub open spec fn spec_raw(self) -> u16 {
        match self {
            Declaration::PrimaryService => PRIMARY_SERVICE,
            Declaration::SecondaryService => SECONDARY_SERVICE,
            Declaration::Include => INCLUDE,
            Declaration::Characteristic => CHARACTERISTIC,
        }
    }

    /// Returns the attribute type of the declaration.
    #[verifier::when_used_as_spec(spec_raw)]
    pub fn raw(self) -> (r: u16)
        ensures
            r == self.spec_raw(),
            r != 0,
    {
        match self {
            Declaration::PrimaryService => PRIMARY_SERVICE,
            Declaration::SecondaryService => SECONDARY_SERVICE,
            Declaration::Include => INCLUDE,
            Declaration::Characteristic => CHARACTERISTIC,
        }
    }

    /// Returns the `Uuid16` representation of the variant.
    pub fn uuid16(self) -> (r: Uuid16)
        ensures
            r.raw() == self.raw(),
    {
        Uuid16::sig(self.raw())
    }
}

/// Marker of a schema entry that is a service definition.
#[derive(Clone, Copy, Debug)]
pub struct ServiceDef;

/// Marker of a schema entry that is an include definition.
#[derive(Clone, Copy, Debug)]
pub struct IncludeDef;

/// Marker of a schema entry that is a characteristic definition.
#[derive(Clone, Copy, Debug)]
pub struct CharacteristicDef;

/// Marker of a schema entry that is a descriptor definition.
#[derive(Clone, Copy, Debug)]
pub struct DescriptorDef;

/// Characteristic properties.
#[derive(Clone, Copy, Debug, PartialEq, Eq, Structural)]
pub struct Prop {
    /// The flags as a bit set.
    pub bits: u8,
}

impl Prop {
    /// The value may be broadcast.
    pub const BROADCAST: u8 = 0x01;

    /// The value may be read.
    pub const READ: u8 = 0x02;

    /// The value may be written without response.
    pub const WRITE_CMD: u8 = 0x04;

    /// The value may be written.
    pub const WRITE: u8 = 0x08;

    /// The value may be notified.
    pub const NOTIFY: u8 = 0x10;

    /// The value may be indicated.
    pub const INDICATE: u8 = 0x20;

    /// The value may be written with a signed command.
    pub const SIGNED_WRITE_CMD: u8 = 0x40;

    /// More properties stand in the extended properties descriptor.
    pub const EXT_PROPS: u8 = 0x80;

    /// Every defined flag.
    pub const ALL: u8 = 0xFF;

    /// Whether every flag of `mask` is set.
    pub open spec fn spec_contains(self, mask: u8) -> bool {
        self.bits & mask == mask
    }

    /// Whether some flag of `mask` is set.
    pub open spec fn spec_intersects(self, mask: u8) -> bool {
        self.bits & mask != 0
    }

    /// Returns the empty set of flags.
    pub fn empty() -> (r: Prop)
        ensures
            r.bits == 0,
    {
        Prop { bits: 0 }
    }

    /// Returns the flags as a bit set.
    pub fn bits(self) -> (r: u8)
        ensures
            r == self.bits,
    {
        self.bits
    }

    /// Returns the flags with the bit set `v`, unless it holds a bit that is
    /// no flag.
    pub fn from_bits(v: u8) -> (r: Option<Prop>)
        ensures
            r == if v & !Prop::ALL == 0 {
                Some(Prop { bits: v })
            } else {
                None
            },
    {
        if v & !Self::ALL == 0 {
            Some(Prop { bits: v })
        } else {
            None
        }
    }

    /// Returns the flags among the bits of `v`, dropping any bit that is no
    /// flag.
    pub fn from_bits_truncate(v: u8) -> (r: Prop)
        ensures
            r.bits == v & Prop::ALL,
    {
        Prop { bits: v & Self::ALL }
    }

    /// Returns whether no flag is set.
    pub fn is_empty(self) -> (r: bool)
        ensures
            r == (self.bits == 0),
    {
        self.bits == 0
    }

    /// Returns whether every flag of `mask` is set.
    #[verifier::when_used_as_spec(spec_contains)]
    pub fn contains(self, mask: u8) -> (r: bool)
        ensures
            r == self.spec_contains(mask),
    {
        self.bits & mask == mask
    }

    /// Returns whether some flag of `mask` is set.
    #[verifier::when_used_as_spec(spec_intersects)]
    pub fn intersects(self, mask: u8) -> (r: bool)
        ensures
            r == self.spec_intersects(mask),
    {
        self.bits & mask != 0
    }

    /// Returns the flags of `self` together with those of `mask`.
    pub fn union(self, mask: u8) -> (r: Prop)
        ensures
            r.bits == self.bits | mask,
    {
        Prop { bits: self.bits | mask }
    }
}

/// Characteristic extended properties.
#[derive(Clone, Copy, Debug, PartialEq, Eq, Structural)]
pub struct ExtProp {
    /// The flags as a bit set.
    pub bits: u16,
}

impl ExtProp {
    /// The value may be written reliably.
    pub const RELIABLE_WRITE: u16 = 0x0001;

    /// The user description descriptor may be written.
    pub const WRITABLE_AUX: u16 = 0x0002;

    /// Every defined flag.
    pub const ALL: u16 = 0x0003;

    /// Whether every flag of `mask` is set.
    pub open spec fn spec_contains(self, mask: u16) -> bool {
        self.bits & mask == mask
    }

    /// Whether some flag of `mask` is set.
    pub open spec fn spec_intersects(self, mask: u16) -> bool {
        self.bits & mask != 0
    }

    /// Returns the empty set of flags.
    pub fn empty() -> (r: ExtProp)
        ensures
            r.bits == 0,
    {
        ExtProp { bits: 0 }
    }

    /// Returns the flags as a bit set.
    pub fn bits(self) -> (r: u16)
        ensures
            r == self.bits,
    {
        self.bits
    }

    /// Returns the flags with the bit set `v`, unless it holds a bit that is
    /// no flag.
    pub fn from_bits(v: u16) -> (r: Option<ExtProp>)
        ensures
            r == if v & !ExtProp::ALL == 0 {
                Some(ExtProp { bits: v })
            } else {
                None
            },
    {
        if v & !Self::ALL == 0 {
            Some(ExtProp { bits: v })
        } else {
            None
        }
    }

    /// Returns the flags among the bits of `v`, dropping any bit that is no
    /// flag.
    pub fn from_bits_truncate(v: u16) -> (r: ExtProp)
        ensures
            r.bits == v & ExtProp::ALL,
    {
        ExtProp { bits: v & Self::ALL }
    }

    /// Returns whether no flag is set.
    pub fn is_empty(self) -> (r: bool)
        ensures
            r == (self.bits == 0),
    {
        self.bits == 0
    }

    /// Returns whether every flag of `mask` is set.
    #[verifier::when_used_as_spec(spec_contains)]
    pub fn contains(self, mask: u16) -> (r: bool)
        ensures
            r == self.spec_contains(mask),
    {
        self.bits & mask == mask
    }

    /// Returns whether some flag of `mask` is set.
    #[verifier::when_used_as_spec(spec_intersects)]
    pub fn intersects(self, mask: u16) -> (r: bool)
        ensures
            r == self.spec_intersects(mask),
    {
        self.bits & mask != 0
    }

    /// Returns the flags of `self` together with those of `mask`.
    pub fn union(self, mask: u16) -> (r: ExtProp)
        ensures
            r.bits == self.bits | mask,
    {
        ExtProp { bits: self.bits | mask }
    }
}

} // verus!
