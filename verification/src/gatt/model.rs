//! The attributes of a schema and what makes a schema valid.

use vstd::prelude::*;
use crate::att::{Access, AccessType, ErrorCode, Handle, Opcode, Perms};
use crate::codec::UnpackerView;
use crate::codec::{le_nat, le_seq};
use crate::crypto::aes_cmac;
use crate::gap::uuid::{sig_uuid, spec_from_le, spec_to_le, Uuid, Uuid16};
use crate::gatt::consts::{
    CharacteristicDef, ExtProp, Prop, ServiceDef, CHARACTERISTIC, CHARACTERISTIC_AGGREGATE_FORMAT,
    CHARACTERISTIC_EXTENDED_PROPERTIES, CHARACTERISTIC_PRESENTATION_FORMAT,
    CHARACTERISTIC_USER_DESCRIPTION, CLIENT_CHARACTERISTIC_CONFIGURATION, INCLUDE, PRIMARY_SERVICE,
    SECONDARY_SERVICE, SERVER_CHARACTERISTIC_CONFIGURATION,
};

verus! {

/// The 16-bit attribute type `typ`, or zero for a 128-bit type.
pub open spec fn sig(typ: Option<Uuid16>) -> u16 {
    match typ {
        Some(t) => t.raw(),
        None => 0,
    }
}

/// Whether `typ` is the type of a service declaration.
pub open spec fn spec_is_service_type(typ: Option<Uuid16>) -> bool {
    sig(typ) == PRIMARY_SERVICE || sig(typ) == SECONDARY_SERVICE
}

/// Whether `typ` is the type of a declaration: of a service, an include, or
/// a characteristic.
pub open spec fn spec_is_decl_type(typ: Option<Uuid16>) -> bool {
    sig(typ) == PRIMARY_SERVICE || sig(typ) == SECONDARY_SERVICE || sig(typ) == INCLUDE || sig(typ)
        == CHARACTERISTIC
}

/// Returns the 16-bit attribute type `typ`, or zero for a 128-bit type.
pub fn sig_of(typ: Option<Uuid16>) -> (r: u16)
    ensures
        r == sig(typ),
        (r == 0) == typ.is_none(),
{
    match typ {
        Some(t) => t.raw(),
        None => 0,
    }
}

/// Trait implemented by [`ServiceDef`] and [`CharacteristicDef`] markers: the
/// kinds of schema entry that stand for a group of attributes.
pub trait Group {
    /// Offset of the UUID in the declaration value.
    spec fn spec_uuid_off() -> usize;

    /// Whether an attribute of type `typ` is not part of the current group.
    spec fn spec_is_next_group(typ: Option<Uuid16>) -> bool;

    /// Returns the offset of the UUID in the declaration value.
    fn uuid_off() -> (r: usize)
        ensures
            r == Self::spec_uuid_off(),
    ;

    /// Returns whether the specified attribute type is not part of the
    /// current group.
    fn is_next_group(typ: Option<Uuid16>) -> (r: bool)
        ensures
            r == Self::spec_is_next_group(typ),
    ;
}

impl Group for ServiceDef {
    open spec fn spec_uuid_off() -> usize {
        0
    }

    open spec fn spec_is_next_group(typ: Option<Uuid16>) -> bool {
        spec_is_service_type(typ)
    }

    fn uuid_off() -> (r: usize) {
        0
    }

    fn is_next_group(typ: Option<Uuid16>) -> (r: bool) {
        let t = sig_of(typ);
        t == PRIMARY_SERVICE || t == SECONDARY_SERVICE
    }
}

impl Group for CharacteristicDef {
    open spec fn spec_uuid_off() -> usize {
        3
    }

    open spec fn spec_is_next_group(typ: Option<Uuid16>) -> bool {
        spec_is_decl_type(typ)
    }

    fn uuid_off() -> (r: usize) {
        3
    }

    fn is_next_group(typ: Option<Uuid16>) -> (r: bool) {
        let t = sig_of(typ);
        t == PRIMARY_SERVICE || t == SECONDARY_SERVICE || t == INCLUDE || t == CHARACTERISTIC
    }
}

/// Attribute entry: the handle, the type where it is a 16-bit one, the place
/// of the value in the data of the schema, and the permissions. For a
/// 128-bit type, the value is empty and stands where the data holds the type.
#[derive(Clone, Copy, Debug)]
pub struct Attr {
    pub hdl: Handle,
    pub typ: Option<Uuid16>,
    pub val: (u16, u16),
    pub perms: Perms,
}

impl Attr {
    /// Whether the attribute is a service declaration.
    pub open spec fn spec_is_service(&self) -> bool {
        spec_is_service_type(self.typ)
    }

    /// Whether the attribute is a primary service declaration.
    pub open spec fn spec_is_primary_service(&self) -> bool {
        sig(self.typ) == PRIMARY_SERVICE
    }

    /// Whether the attribute is an include declaration.
    pub open spec fn spec_is_include(&self) -> bool {
        sig(self.typ) == INCLUDE
    }

    /// Whether the attribute is a characteristic declaration.
    pub open spec fn spec_is_char(&self) -> bool {
        sig(self.typ) == CHARACTERISTIC
    }

    /// Whether the attribute is an extended properties descriptor.
    pub open spec fn spec_is_ext_props(&self) -> bool {
        sig(self.typ) == CHARACTERISTIC_EXTENDED_PROPERTIES
    }

    /// Whether the attribute is a declaration.
    pub open spec fn spec_is_decl(&self) -> bool {
        spec_is_decl_type(self.typ)
    }

    /// The attribute value length.
    pub open spec fn spec_len(&self) -> int {
        self.val.1 - self.val.0
    }

    /// Returns whether the attribute is a service declaration.
    #[verifier::when_used_as_spec(spec_is_service)]
    pub fn is_service(&self) -> (r: bool)
        ensures
            r == self.spec_is_service(),
    {
        let t = sig_of(self.typ);
        t == PRIMARY_SERVICE || t == SECONDARY_SERVICE
    }

    /// Returns whether the attribute is a primary service declaration.
    #[verifier::when_used_as_spec(spec_is_primary_service)]
    pub fn is_primary_service(&self) -> (r: bool)
        ensures
            r == self.spec_is_primary_service(),
    {
        sig_of(self.typ) == PRIMARY_SERVICE
    }

    /// Returns whether the attribute is an include declaration.
    #[verifier::when_used_as_spec(spec_is_include)]
    pub fn is_include(&self) -> (r: bool)
        ensures
            r == self.spec_is_include(),
    {
        sig_of(self.typ) == INCLUDE
    }

    /// Returns whether the attribute is a characteristic declaration.
    #[verifier::when_used_as_spec(spec_is_char)]
    pub fn is_char(&self) -> (r: bool)
        ensures
            r == self.spec_is_char(),
    {
        sig_of(self.typ) == CHARACTERISTIC
    }

    /// Returns whether the attribute is an extended properties descriptor.
    #[verifier::when_used_as_spec(spec_is_ext_props)]
    pub fn is_ext_props(&self) -> (r: bool)
        ensures
            r == self.spec_is_ext_props(),
    {
        sig_of(self.typ) == CHARACTERISTIC_EXTENDED_PROPERTIES
    }

    /// Returns whether the attribute is a declaration.
    #[verifier::when_used_as_spec(spec_is_decl)]
    pub fn is_decl(&self) -> (r: bool)
        ensures
            r == self.spec_is_decl(),
    {
        CharacteristicDef::is_next_group(self.typ)
    }

    /// Returns the attribute value length.
    pub fn len(&self) -> (r: usize)
        requires
            self.val.0 <= self.val.1,
        ensures
            r == self.spec_len(),
    {
        self.val.1 as usize - self.val.0 as usize
    }
}

/// What starts a group of attributes: a primary service declaration, of any
/// service or of the service with a given UUID, or a characteristic
/// declaration.
#[derive(Clone, Copy, Debug)]
pub enum Selector {
    PrimaryService(Option<Uuid>),
    Characteristic,
}

/// What a schema entry holds: the first and last handle of the group, or the
/// handle of the attribute twice, the type and the value of the attribute,
/// and the UUID of the service, characteristic or descriptor.
pub struct EntryView {
    pub start: u16,
    pub end: u16,
    pub typ: u128,
    pub val: Seq<u8>,
    pub uuid: u128,
}

/// The handle of the value attribute that the value `decl` of a
/// characteristic declaration names: the two bytes after the first, or the
/// highest handle where the value holds none.
pub open spec fn spec_value_handle(decl: Seq<u8>) -> u16 {
    if decl.len() >= 3 && le_nat(decl.subrange(1, 3)) != 0 {
        le_nat(decl.subrange(1, 3)) as u16
    } else {
        Handle::MAX
    }
}

/// The property that a characteristic must have for a request with opcode
/// `op` to access its value, or `None` for a request that accesses no value.
///
/// A read of any kind asks for `READ`, a write command for `WRITE_CMD`, a
/// write request and a prepared write for `WRITE`, and a signed write command
/// for `SIGNED_WRITE_CMD`.
pub open spec fn spec_prop_bit(op: Opcode) -> Option<u8> {
    match op {
        Opcode::ReadReq
        | Opcode::ReadByTypeReq
        | Opcode::ReadBlobReq
        | Opcode::ReadMultipleReq
        | Opcode::ReadMultipleVariableReq => Some(Prop::READ),
        Opcode::WriteCmd => Some(Prop::WRITE_CMD),
        Opcode::WriteReq | Opcode::PrepareWriteReq => Some(Prop::WRITE),
        Opcode::SignedWriteCmd => Some(Prop::SIGNED_WRITE_CMD),
        _ => None,
    }
}

/// Returns the property that a characteristic must have for a request with
/// opcode `op` to access its value.
#[verifier::when_used_as_spec(spec_prop_bit)]
pub fn prop_bit(op: Opcode) -> (r: Option<u8>)
    ensures
        r == spec_prop_bit(op),
{
    match op {
        Opcode::ReadReq
        | Opcode::ReadByTypeReq
        | Opcode::ReadBlobReq
        | Opcode::ReadMultipleReq
        | Opcode::ReadMultipleVariableReq => Some(Prop::READ),
        Opcode::WriteCmd => Some(Prop::WRITE_CMD),
        Opcode::WriteReq | Opcode::PrepareWriteReq => Some(Prop::WRITE),
        Opcode::SignedWriteCmd => Some(Prop::SIGNED_WRITE_CMD),
        _ => None,
    }
}

/// What a schema holds: its attributes, and the data that holds their values
/// and 128-bit types.
pub struct SchemaView {
    pub attrs: Seq<Attr>,
    pub data: Seq<u8>,
}

impl SchemaView {
    /// The number of attributes.
    pub open spec fn len(self) -> int {
        self.attrs.len() as int
    }

    /// The handle of the attribute at index `i`.
    pub open spec fn hdl(self, i: int) -> u16 {
        self.attrs[i].hdl.raw()
    }

    /// The value of the attribute at index `i`.
    pub open spec fn value(self, i: int) -> Seq<u8> {
        self.data.subrange(self.attrs[i].val.0 as int, self.attrs[i].val.1 as int)
    }

    /// The type of the attribute at index `i` as a 128-bit UUID.
    pub open spec fn typ(self, i: int) -> u128 {
        match self.attrs[i].typ {
            Some(t) => sig_uuid(t.raw() as u32),
            None => le_nat(
                self.data.subrange(self.attrs[i].val.0 as int, self.attrs[i].val.0 + 16),
            ) as u128,
        }
    }

    /// The least index from `from` on whose attribute is a service
    /// declaration, or the number of attributes if there is none.
    pub open spec fn next_service(self, from: int) -> int
        decreases self.len() - from,
    {
        if from >= self.len() {
            self.len()
        } else if from >= 0 && self.attrs[from].is_service() {
            from
        } else {
            self.next_service(from + 1)
        }
    }

    /// The least index from `from` on whose attribute is a declaration, or
    /// the number of attributes if there is none.
    pub open spec fn next_decl(self, from: int) -> int
        decreases self.len() - from,
    {
        if from >= self.len() {
            self.len()
        } else if from >= 0 && self.attrs[from].is_decl() {
            from
        } else {
            self.next_decl(from + 1)
        }
    }

    /// The least index whose attribute has a handle of at least `h`, or the
    /// number of attributes if there is none: the index at which an attribute
    /// with handle `h` stands, or would be inserted.
    pub open spec fn lower_bound(self, h: int) -> int {
        self.lower_bound_from(h, 0)
    }

    /// The least index from `from` on whose attribute has a handle of at
    /// least `h`.
    pub open spec fn lower_bound_from(self, h: int, from: int) -> int
        decreases self.len() - from,
    {
        if from >= self.len() {
            self.len()
        } else if from >= 0 && self.hdl(from) >= h {
            from
        } else {
            self.lower_bound_from(h, from + 1)
        }
    }

    /// The index of the attribute with handle `h`, if there is one.
    pub open spec fn index_of(self, h: u16) -> Option<int> {
        let i = self.lower_bound(h as int);
        if i < self.len() && self.hdl(i) == h {
            Some(i)
        } else {
            None
        }
    }

    /// The index of the declaration of the characteristic that the attribute
    /// at index `i` is a part of: the nearest characteristic declaration at
    /// or before `i` with no other declaration in between.
    pub open spec fn char_decl(self, i: int) -> Option<int>
        decreases i + 1,
    {
        if i < 0 || i >= self.len() {
            None
        } else if self.attrs[i].is_char() {
            Some(i)
        } else if self.attrs[i].is_decl() {
            None
        } else {
            self.char_decl(i - 1)
        }
    }

    /// Whether some attribute at an index from `from` up to, but not
    /// including, `to` is an extended properties descriptor.
    pub open spec fn has_ext_props(self, from: int, to: int) -> bool {
        exists|j: int| from <= j < to && 0 <= j < self.len() && (#[trigger] self.attrs[j]).is_ext_props()
    }

    /// The indices of the attributes with a handle from `start` up to `end`:
    /// the first of them, and one past the last. `None` if there is no such
    /// attribute.
    pub open spec fn subset(self, start: u16, end: u16) -> Option<(int, int)> {
        let lo = self.lower_bound(start as int);
        let hi = self.lower_bound(end + 1);
        if lo < hi {
            Some((lo, hi))
        } else {
            None
        }
    }

    /// The indices of the attributes of the service whose declaration has
    /// handle `h`: the declaration, and one past the last attribute before the
    /// next service declaration. `None` if `h` is not the handle of a service
    /// declaration.
    pub open spec fn service_group(self, h: u16) -> Option<(int, int)> {
        match self.index_of(h) {
            Some(i) => if self.attrs[i].is_service() {
                Some((i, self.next_service(i + 1)))
            } else {
                None
            },
            None => None,
        }
    }

    /// The indices of the attributes of one service with a handle from
    /// `start` up to `end`, the service declaration left out: the first of
    /// them, and one past the last. The range is empty if no attribute has
    /// such a handle, or if the handles go beyond the service.
    pub open spec fn service_attrs(self, start: u16, end: u16) -> (int, int) {
        match self.subset(start, end) {
            Some((lo, hi)) => {
                let from = if self.attrs[lo].is_service() {
                    lo + 1
                } else {
                    lo
                };
                if self.next_service(from) < hi {
                    (0, 0)
                } else {
                    (from, hi)
                }
            },
            None => (0, 0),
        }
    }

    /// The properties of the characteristic declared at index `d`: the
    /// first byte of the value of the declaration.
    pub open spec fn props(self, d: int) -> u8 {
        self.value(d)[0]
    }

    /// The least index from `from` up to `to` whose attribute is an extended
    /// properties descriptor, or `to` if there is none.
    pub open spec fn first_ext_props(self, from: int, to: int) -> int
        decreases to - from,
    {
        if from >= to {
            to
        } else if 0 <= from < self.len() && self.attrs[from].is_ext_props() {
            from
        } else {
            self.first_ext_props(from + 1, to)
        }
    }

    /// The extended properties of the characteristic declared at index `d`:
    /// `None` if its properties do not name any; else the flags among the
    /// first two bytes of the value of its extended properties descriptor.
    pub open spec fn ext_props(self, d: int) -> Option<u16> {
        let end = self.next_decl(d + 1);
        let j = self.first_ext_props(d + 2, end);
        if self.props(d) & Prop::EXT_PROPS != Prop::EXT_PROPS {
            None
        } else if j >= end {
            Some(0)
        } else {
            Some(
                (UnpackerView { bytes: self.value(j), ok: true }).value(2) as u16 & ExtProp::ALL,
            )
        }
    }

    /// Whether a request with opcode `op` may have the access `ac` to the
    /// attribute at index `i`, or the error code that tells why not.
    ///
    /// The link must have the security that the permissions of the attribute
    /// require. An attribute that is no part of a characteristic is then
    /// open. The value of a characteristic is open to the requests for which
    /// the characteristic has the property; any other request is not
    /// permitted, or not supported where it accesses no value. A user
    /// description is open to a write only where the extended properties
    /// have `WRITABLE_AUX`. The declaration and any other descriptor are
    /// open.
    pub open spec fn access_check(self, op: Opcode, ac: Access, i: int) -> Result<
        (),
        ErrorCode,
    > {
        match self.attrs[i].perms.test(ac) {
            Err(e) => Err(e),
            Ok(_) => match self.char_decl(i) {
                None => Ok(()),
                Some(d) => if i != d + 1 {
                    if ac.typ == AccessType::Write && sig(self.attrs[i].typ)
                        == CHARACTERISTIC_USER_DESCRIPTION && !(self.ext_props(d).is_some()
                        && self.ext_props(d).unwrap() & ExtProp::WRITABLE_AUX
                        == ExtProp::WRITABLE_AUX) {
                        Err(ErrorCode::WriteNotPermitted)
                    } else {
                        Ok(())
                    }
                } else {
                    match spec_prop_bit(op) {
                        None => Err(ErrorCode::RequestNotSupported),
                        Some(bit) => if self.props(d) & bit == bit {
                            Ok(())
                        } else if ac.typ == AccessType::Read {
                            Err(ErrorCode::ReadNotPermitted)
                        } else {
                            Err(ErrorCode::WriteNotPermitted)
                        },
                    }
                },
            },
        }
    }

    /// Whether a request with opcode `op` may have the access `ac` to the
    /// attribute with handle `h`, or the error code that tells why not: there
    /// may be no such attribute.
    pub open spec fn handle_check(self, op: Opcode, ac: Access, h: u16) -> Result<(), ErrorCode> {
        match self.index_of(h) {
            Some(i) => self.access_check(op, ac, i),
            None => Err(ErrorCode::InvalidHandle),
        }
    }

    /// The least index from `from` up to `to` whose attribute has the type
    /// `uuid`, or `to` if there is none.
    pub open spec fn first_of_type(self, uuid: u128, from: int, to: int) -> int
        decreases to - from,
    {
        if from >= to {
            to
        } else if self.typ(from) == uuid {
            from
        } else {
            self.first_of_type(uuid, from + 1, to)
        }
    }

    /// The handles of the attributes of type `uuid` at the indices from
    /// `from` up to `to`, as far as a request with opcode `op` may have the
    /// access `ac` to them: the handles up to the first attribute of that type
    /// to which it may not.
    pub open spec fn granted(self, op: Opcode, ac: Access, uuid: u128, from: int, to: int) -> Seq<
        u16,
    >
        decreases to - from,
    {
        if from >= to {
            Seq::empty()
        } else if self.typ(from) != uuid {
            self.granted(op, ac, uuid, from + 1, to)
        } else if self.access_check(op, ac, from).is_err() {
            Seq::empty()
        } else {
            seq![self.hdl(from)] + self.granted(op, ac, uuid, from + 1, to)
        }
    }

    /// What a request with opcode `op` and access `ac` for the attributes of
    /// type `uuid` with a handle from `start` up to `end` is answered with.
    ///
    /// If there is no such attribute, the answer is that none was found, with
    /// the handle `start`. If the request may not access the first of them,
    /// the answer is the error of that attribute. Else it is the handles of
    /// those attributes up to the first that the request may not access.
    pub open spec fn range_access(self, op: Opcode, ac: Access, start: u16, end: u16, uuid: u128)
        -> Result<Seq<u16>, (ErrorCode, u16)> {
        match self.subset(start, end) {
            None => Err((ErrorCode::AttributeNotFound, start)),
            Some((lo, hi)) => {
                let f = self.first_of_type(uuid, lo, hi);
                if f >= hi {
                    Err((ErrorCode::AttributeNotFound, start))
                } else {
                    match self.access_check(op, ac, f) {
                        Err(e) => Err((e, self.hdl(f))),
                        Ok(_) => Ok(self.granted(op, ac, uuid, lo, hi)),
                    }
                }
            },
        }
    }

    /// The schema entry of the attribute at index `i`, for a group that ends
    /// with the attribute at index `last`. Its UUID is the one that the value
    /// holds from the offset `off` on, or the type of the attribute where the
    /// value holds none there or `off` is `None`.
    pub open spec fn entry(self, i: int, last: int, off: Option<int>) -> EntryView {
        EntryView {
            start: self.hdl(i),
            end: self.hdl(last),
            typ: self.typ(i),
            val: self.value(i),
            uuid: match off {
                Some(o) => if 0 <= o <= self.value(i).len() && spec_from_le(
                    self.value(i).skip(o),
                ).is_some() {
                    spec_from_le(self.value(i).skip(o)).unwrap()
                } else {
                    self.typ(i)
                },
                None => self.typ(i),
            },
        }
    }

    /// Whether the attribute at index `i` starts a group that `sel` selects.
    pub open spec fn is_start(self, i: int, sel: Selector) -> bool {
        match sel {
            Selector::PrimaryService(None) => self.attrs[i].is_primary_service(),
            Selector::PrimaryService(Some(u)) => self.attrs[i].is_primary_service() && self.value(i)
                == spec_to_le(u.raw()),
            Selector::Characteristic => self.attrs[i].is_char(),
        }
    }

    /// The least index from `from` up to `end` whose attribute is not part of
    /// the group before it, or `end` if there is none.
    pub open spec fn group_end<T: Group>(self, from: int, end: int) -> int
        decreases end - from,
    {
        if from >= end {
            end
        } else if 0 <= from < self.len() && T::spec_is_next_group(self.attrs[from].typ) {
            from
        } else {
            self.group_end::<T>(from + 1, end)
        }
    }

    /// The entries of the groups that `sel` selects among the attributes at
    /// the indices from `pos` up to `end`, in the order of their handles. A
    /// group reaches from its first attribute to the last attribute that is
    /// part of it.
    pub open spec fn groups<T: Group>(self, pos: int, end: int, sel: Selector) -> Seq<EntryView>
        decreases end - pos,
    {
        if pos >= end {
            Seq::empty()
        } else if !self.is_start(pos, sel) {
            self.groups::<T>(pos + 1, end, sel)
        } else {
            let e = self.group_end::<T>(pos + 1, end);
            let next = if pos < e <= end {
                e
            } else {
                pos + 1
            };
            seq![self.entry(pos, next - 1, Some(T::spec_uuid_off() as int))] + self.groups::<T>(
                next,
                end,
                sel,
            )
        }
    }

    /// The entries of the include declarations that lead the attributes at
    /// the indices from `lo` up to `hi`.
    pub open spec fn includes(self, lo: int, hi: int) -> Seq<EntryView>
        decreases hi - lo,
    {
        if lo >= hi || !self.attrs[lo].is_include() {
            Seq::empty()
        } else {
            seq![self.entry(lo, lo, None)] + self.includes(lo + 1, hi)
        }
    }

    /// The entries of the attributes at the indices from `lo` up to `hi`,
    /// each by itself.
    pub open spec fn entries(self, lo: int, hi: int) -> Seq<EntryView> {
        Seq::new((hi - lo) as nat, |k: int| self.entry(lo + k, lo + k, None))
    }

    /// The greatest index up to `i` whose attribute is a characteristic
    /// declaration, if there is one.
    pub open spec fn last_char(self, i: int) -> Option<int>
        decreases i + 1,
    {
        if i < 0 || i >= self.len() {
            None
        } else if self.attrs[i].is_char() {
            Some(i)
        } else {
            self.last_char(i - 1)
        }
    }

    /// The indices of the descriptors with a handle from `start` up to `end`:
    /// the first, and one past the last. The attributes with such a handle
    /// are descriptors if a characteristic is declared before them, they come
    /// after its value attribute, and none of them is a declaration; else the
    /// range is empty.
    pub open spec fn descriptor_range(self, start: u16, end: u16) -> (int, int) {
        match self.subset(start, end) {
            Some((lo, hi)) => match self.last_char(lo - 1) {
                Some(d) => if spec_value_handle(self.value(d)) < self.hdl(lo) && self.next_decl(lo)
                    >= hi {
                    (lo, hi)
                } else {
                    (0, 0)
                },
                None => (0, 0),
            },
            None => (0, 0),
        }
    }

    /// Whether the value of the attribute at index `i` lies within the data,
    /// and, for a 128-bit type, the data holds a type there.
    pub open spec fn bounded(self, i: int) -> bool {
        let a = self.attrs[i];
        &&& a.val.0 <= a.val.1 <= self.data.len()
        &&& a.typ.is_none() ==> a.val.0 + 16 <= self.data.len() && self.typ(i) != 0
    }

    /// Whether the characteristic declaration at index `i` has a value that
    /// holds the properties, the handle of the value attribute, and the UUID,
    /// and the next attribute is that value attribute.
    pub open spec fn char_ok(self, i: int) -> bool {
        let v = self.value(i);
        &&& v.len() >= 3
        &&& spec_from_le(v.skip(3)).is_some()
        &&& i + 1 < self.len()
        &&& !self.attrs[i + 1].is_decl()
        &&& self.hdl(i + 1) == le_nat(v.subrange(1, 3))
        &&& self.bounded(i + 1)
        &&& Some(self.typ(i + 1)) == spec_from_le(v.skip(3))
        &&& (v[0] & Prop::EXT_PROPS == Prop::EXT_PROPS) == self.has_ext_props(
            i + 2,
            self.next_decl(i + 1),
        )
    }

    /// Whether the attribute at index `i` is in its place.
    ///
    /// Its handle is above that of the attribute before it, and its value
    /// lies within the data. The first attribute is a service declaration. A
    /// service declaration holds the UUID of the service and is followed by
    /// an attribute of the service. An include declaration holds a range of
    /// handles and perhaps a 16-bit UUID. A characteristic declaration is as
    /// [`Self::char_ok`] says, and has the extended properties descriptor if
    /// and only if its properties say so. Any other attribute is a part of a
    /// characteristic.
    pub open spec fn attr_ok(self, i: int) -> bool {
        let a = self.attrs[i];
        &&& a.hdl.raw() != 0
        &&& i > 0 ==> self.hdl(i - 1) < self.hdl(i)
        &&& i == 0 ==> a.is_service()
        &&& self.bounded(i)
        &&& if a.is_service() {
            &&& i + 1 < self.len()
            &&& !self.attrs[i + 1].is_service()
            &&& spec_from_le(self.value(i)).is_some()
        } else if a.is_include() {
            self.value(i).len() == 4 || self.value(i).len() == 6
        } else if a.is_char() {
            self.char_ok(i)
        } else {
            i > 0 && !self.attrs[i - 1].is_service() && !self.attrs[i - 1].is_include()
        }
    }

    /// Whether every attribute is in its place.
    pub open spec fn valid(self) -> bool {
        forall|i: int| 0 <= i < self.len() ==> self.attr_ok(i)
    }

    /// The bytes by which the attribute at index `i` enters the database
    /// hash: handle, type and value for a declaration and for the extended
    /// properties descriptor; handle and type for the user description, the
    /// client and server configuration, and the presentation and aggregate
    /// format descriptors; nothing for any other attribute.
    pub open spec fn hash_entry(self, i: int) -> Seq<u8> {
        let t = sig(self.attrs[i].typ);
        let head = le_seq(self.hdl(i) as nat, 2) + le_seq(t as nat, 2);
        if t == PRIMARY_SERVICE || t == SECONDARY_SERVICE || t == INCLUDE || t == CHARACTERISTIC
            || t == CHARACTERISTIC_EXTENDED_PROPERTIES {
            head + self.value(i)
        } else if t == CHARACTERISTIC_USER_DESCRIPTION || t == CLIENT_CHARACTERISTIC_CONFIGURATION
            || t == SERVER_CHARACTERISTIC_CONFIGURATION || t == CHARACTERISTIC_PRESENTATION_FORMAT
            || t == CHARACTERISTIC_AGGREGATE_FORMAT {
            head
        } else {
            Seq::empty()
        }
    }

    /// The bytes by which the first `n` attributes enter the database hash.
    pub open spec fn hashable_to(self, n: int) -> Seq<u8>
        decreases n,
    {
        if n <= 0 {
            Seq::empty()
        } else {
            self.hashable_to(n - 1) + self.hash_entry(n - 1)
        }
    }

    /// The bytes that the database hash is computed over.
    pub open spec fn hashable(self) -> Seq<u8> {
        self.hashable_to(self.len())
    }

    /// The database hash of the attributes: the AES-CMAC of
    /// [`Self::hashable`] under the key of all zeros.
    pub open spec fn db_hash(self) -> u128 {
        aes_cmac(0, self.hashable())
    }

    /// In a valid schema, handles grow with the index.
    pub proof fn lemma_sorted(self, i: int, j: int)
        requires
            self.valid(),
            0 <= i < j < self.len(),
        ensures
            self.hdl(i) < self.hdl(j),
        decreases j - i,
    {
        assert(self.attr_ok(j));
        if i + 1 < j {
            self.lemma_sorted(i, j - 1);
        }
    }

    /// In a valid schema, a handle is above its index.
    pub proof fn lemma_hdl_above_index(self, i: int)
        requires
            self.valid(),
            0 <= i < self.len(),
        ensures
            self.hdl(i) > i,
        decreases i,
    {
        assert(self.attr_ok(i));
        if i > 0 {
            self.lemma_hdl_above_index(i - 1);
        }
    }

    /// What `lower_bound_from` finds: an index from `from` on, before which
    /// every handle from `from` on is below `h`, and at which the handle is
    /// not.
    pub proof fn lemma_lower_bound_from(self, h: int, from: int)
        requires
            0 <= from <= self.len(),
        ensures
            from <= self.lower_bound_from(h, from) <= self.len(),
            forall|k: int| from <= k < self.lower_bound_from(h, from) ==> self.hdl(k) < h,
            self.lower_bound_from(h, from) < self.len() ==> self.hdl(
                self.lower_bound_from(h, from),
            ) >= h,
        decreases self.len() - from,
    {
        if from < self.len() && self.hdl(from) < h {
            self.lemma_lower_bound_from(h, from + 1);
        }
    }

    /// In a valid schema, the lower bound of `h` splits the attributes into
    /// those with a handle below `h` and those with a handle of at least `h`.
    pub proof fn lemma_lower_bound(self, h: int)
        requires
            self.valid(),
        ensures
            0 <= self.lower_bound(h) <= self.len(),
            forall|k: int| 0 <= k < self.lower_bound(h) ==> self.hdl(k) < h,
            forall|k: int| self.lower_bound(h) <= k < self.len() ==> self.hdl(k) >= h,
    {
        self.lemma_lower_bound_from(h, 0);
        let r = self.lower_bound(h);
        assert forall|k: int| r <= k < self.len() implies self.hdl(k) >= h by {
            if r < k {
                self.lemma_sorted(r, k);
            }
        }
    }

    /// An index that splits the attributes as the lower bound of `h` does is
    /// the lower bound of `h`.
    pub proof fn lemma_lower_bound_unique(self, h: int, r: int)
        requires
            self.valid(),
            0 <= r <= self.len(),
            forall|k: int| 0 <= k < r ==> self.hdl(k) < h,
            forall|k: int| r <= k < self.len() ==> self.hdl(k) >= h,
        ensures
            self.lower_bound(h) == r,
    {
        self.lemma_lower_bound(h);
        let l = self.lower_bound(h);
        if l < r {
            assert(self.hdl(l) < h);
        } else if r < l {
            assert(self.hdl(r) < h);
        }
    }

    /// In a valid schema, the attribute with handle `h` is found at its
    /// index and at no other.
    pub proof fn lemma_index_of(self, h: u16, i: int)
        requires
            self.valid(),
            0 <= i < self.len(),
        ensures
            (self.hdl(i) == h) == (self.index_of(h) == Some(i)),
    {
        self.lemma_lower_bound(h as int);
        let l = self.lower_bound(h as int);
        if self.hdl(i) == h {
            if l < i {
                self.lemma_sorted(l, i);
            }
        }
    }

    /// What `next_service` finds: an index from `from` on, before which no
    /// attribute from `from` on is a service declaration, and at which there
    /// is one.
    pub proof fn lemma_next_service(self, from: int)
        requires
            0 <= from <= self.len(),
        ensures
            from <= self.next_service(from) <= self.len(),
            forall|k: int| from <= k < self.next_service(from) ==> !self.attrs[k].is_service(),
            self.next_service(from) < self.len() ==> self.attrs[self.next_service(
                from,
            )].is_service(),
        decreases self.len() - from,
    {
        if from < self.len() && !self.attrs[from].is_service() {
            self.lemma_next_service(from + 1);
        }
    }

    /// What `next_decl` finds: an index from `from` on, before which no
    /// attribute from `from` on is a declaration, and at which there is one.
    pub proof fn lemma_next_decl(self, from: int)
        requires
            0 <= from <= self.len(),
        ensures
            from <= self.next_decl(from) <= self.len(),
            forall|k: int| from <= k < self.next_decl(from) ==> !self.attrs[k].is_decl(),
            self.next_decl(from) < self.len() ==> self.attrs[self.next_decl(from)].is_decl(),
        decreases self.len() - from,
    {
        if from < self.len() && !self.attrs[from].is_decl() {
            self.lemma_next_decl(from + 1);
        }
    }

    /// What `char_decl` finds: a characteristic declaration at or before `i`
    /// with no declaration after it up to `i`.
    pub proof fn lemma_char_decl(self, i: int)
        requires
            0 <= i < self.len(),
        ensures
            self.char_decl(i) matches Some(d) ==> 0 <= d <= i && self.attrs[d].is_char() && (
            forall|k: int| d < k <= i ==> !self.attrs[k].is_decl()) && self.next_decl(d + 1) > i,
        decreases i + 1,
    {
        if self.attrs[i].is_char() {
            self.lemma_next_decl(i + 1);
        } else if self.attrs[i].is_decl() {
        } else if i > 0 {
            self.lemma_char_decl(i - 1);
            match self.char_decl(i - 1) {
                Some(d) => {
                    self.lemma_next_decl(d + 1);
                    self.lemma_next_decl_skip(d + 1, i);
                    self.lemma_next_decl(i + 1);
                },
                None => {},
            }
        }
    }

    /// The next declaration from `from` on lies beyond `to` where no
    /// attribute from `from` up to `to` is a declaration.
    pub proof fn lemma_next_decl_skip(self, from: int, to: int)
        requires
            0 <= from <= to + 1 <= self.len(),
            forall|k: int| from <= k <= to ==> !self.attrs[k].is_decl(),
        ensures
            self.next_decl(from) == self.next_decl(to + 1),
        decreases to + 1 - from,
    {
        if from <= to {
            self.lemma_next_decl_skip(from + 1, to);
        }
    }

    /// The next service declaration from `from` on lies beyond `to` where no
    /// attribute from `from` up to `to` is a service declaration.
    pub proof fn lemma_next_service_skip(self, from: int, to: int)
        requires
            0 <= from <= to + 1 <= self.len(),
            forall|k: int| from <= k <= to ==> !self.attrs[k].is_service(),
        ensures
            self.next_service(from) == self.next_service(to + 1),
        decreases to + 1 - from,
    {
        if from <= to {
            self.lemma_next_service_skip(from + 1, to);
        }
    }
}

} // verus!
