//! Builder of a schema: it takes services, includes, characteristics and
//! descriptors in the order of their declaration, and checks the whole when
//! the schema is made.

use vstd::prelude::*;
use vstd::slice::slice_subrange;
use crate::att::{Handle, HandleRange, Perms};
use crate::codec::{
    le_seq, lemma_le_nat_bound, lemma_le_seq_len, lemma_pow256_values, Packer, Unpacker,
};
use crate::gap::uuid::{lemma_u16_lossless, sig_uuid, spec_as_u16, spec_to_le, Uuid, Uuid16};
use crate::gatt::consts::{
    ExtProp, Prop, CHARACTERISTIC, CHARACTERISTIC_EXTENDED_PROPERTIES, INCLUDE, PRIMARY_SERVICE,
    SECONDARY_SERVICE,
};
use crate::gatt::model::{Attr, SchemaView};
use crate::gatt::schema::Schema;

verus! {

/// Largest number of bytes that the data of a schema can hold.
pub const DATA_LIM: usize = 0xFFFF;

/// The attributes are no schema.
#[derive(Clone, Copy, Debug, PartialEq, Eq, Structural)]
pub struct SchemaInvalid {
    /// The index of the first attribute that is out of place.
    pub at: usize,
}

/// What a builder holds: the attributes declared so far, their values, the
/// 128-bit types, and the handle of the next attribute, which is zero when no
/// handle is left. An attribute with a 128-bit type has an empty value, which
/// stands where the types hold its type.
pub struct BuilderView {
    pub attrs: Seq<Attr>,
    pub vals: Seq<u8>,
    pub uuids: Seq<u8>,
    pub next: u16,
}

impl BuilderView {
    /// The builder that holds nothing yet.
    pub open spec fn empty() -> BuilderView {
        BuilderView { attrs: Seq::empty(), vals: Seq::empty(), uuids: Seq::empty(), next: 1 }
    }

    /// Whether there is a handle left, and room for an attribute of type
    /// `typ` with a value of `n` bytes. A 16-bit type takes no room, and a
    /// 128-bit type leaves none for a value.
    pub open spec fn room(self, typ: u128, n: nat) -> bool {
        &&& self.next != 0
        &&& match spec_as_u16(typ) {
            Some(_) => self.vals.len() + self.uuids.len() + n <= DATA_LIM,
            None => n == 0 && self.vals.len() + self.uuids.len() + 16 <= DATA_LIM,
        }
    }

    /// The handle that follows the next one, or zero when the next one is
    /// the last.
    pub open spec fn after_next(self) -> u16 {
        if self.next == Handle::MAX {
            0
        } else {
            (self.next + 1) as u16
        }
    }

    /// The builder with one more attribute: it has the next handle, the type
    /// `typ`, the value `val`, and the permissions `perms`.
    pub open spec fn pushed(self, typ: u128, val: Seq<u8>, perms: Perms) -> BuilderView {
        match spec_as_u16(typ) {
            Some(t) => BuilderView {
                attrs: self.attrs.push(
                    Attr {
                        hdl: Handle::spec_of(self.next),
                        typ: Some(Uuid16::spec_of(t)),
                        val: (self.vals.len() as u16, (self.vals.len() + val.len()) as u16),
                        perms,
                    },
                ),
                vals: self.vals + val,
                uuids: self.uuids,
                next: self.after_next(),
            },
            None => BuilderView {
                attrs: self.attrs.push(
                    Attr {
                        hdl: Handle::spec_of(self.next),
                        typ: None,
                        val: (self.uuids.len() as u16, self.uuids.len() as u16),
                        perms,
                    },
                ),
                vals: self.vals,
                uuids: self.uuids + le_seq(typ as nat, 16),
                next: self.after_next(),
            },
        }
    }

    /// The value of the declaration of a characteristic with the properties
    /// `props` and the UUID `uuid` whose value attribute has the handle
    /// `hdl`.
    pub open spec fn char_value(props: u8, hdl: u16, uuid: u128) -> Seq<u8> {
        seq![props] + le_seq(hdl as nat, 2) + spec_to_le(uuid)
    }

    /// The value of an include declaration for the service with the handles
    /// from `start` up to `end` and, if it has a 16-bit one, the UUID `uuid`.
    pub open spec fn include_value(start: u16, end: u16, uuid: Option<u16>) -> Seq<u8> {
        le_seq(start as nat, 2) + le_seq(end as nat, 2) + match uuid {
            Some(u) => le_seq(u as nat, 2),
            None => Seq::empty(),
        }
    }

    /// The attribute `a` as it stands in the schema: the place of a 128-bit
    /// type is counted from the start of the data, in which the types follow
    /// the values. A type that comes to stand beyond the places that can be
    /// counted has no place, which the attribute tells by a value that ends
    /// before it starts.
    pub open spec fn frozen_attr(self, a: Attr) -> Attr {
        if a.typ.is_some() {
            a
        } else if a.val.0 + self.vals.len() <= DATA_LIM && a.val.1 + self.vals.len() <= DATA_LIM {
            Attr {
                val: ((a.val.0 + self.vals.len()) as u16, (a.val.1 + self.vals.len()) as u16),
                ..a
            }
        } else {
            Attr { val: (0xFFFF, 0), ..a }
        }
    }

    /// What the schema of the attributes holds.
    pub open spec fn frozen(self) -> SchemaView {
        SchemaView {
            attrs: Seq::new(self.attrs.len(), |i: int| self.frozen_attr(self.attrs[i])),
            data: self.vals + self.uuids,
        }
    }

    /// Whether the attributes are a schema.
    pub open spec fn freezable(self) -> bool {
        self.frozen().valid()
    }
}

/// Builder of a schema.
#[derive(Debug)]
pub struct Builder {
    attr: Vec<Attr>,
    vals: Vec<u8>,
    uuids: Vec<u8>,
    next: u16,
}

impl View for Builder {
    type V = BuilderView;

    closed spec fn view(&self) -> BuilderView {
        BuilderView { attrs: self.attr@, vals: self.vals@, uuids: self.uuids@, next: self.next }
    }
}

/// Appends the bytes of `v` to `out`.
fn extend(out: &mut Vec<u8>, v: &[u8])
    ensures
        final(out)@ == old(out)@ + v@,
{
    let mut i: usize = 0;
    assert(out@ =~= old(out)@ + v@.take(0));
    while i < v.len()
        invariant
            i <= v@.len(),
            out@ == old(out)@ + v@.take(i as int),
        decreases v@.len() - i,
    {
        out.push(v[i]);
        i += 1;
        assert(out@ =~= old(out)@ + v@.take(i as int));
    }
    assert(v@.take(v@.len() as int) =~= v@);
}

impl Builder {
    /// Creates a builder that holds nothing yet. The first attribute will
    /// have the handle 1.
    pub fn new() -> (r: Builder)
        ensures
            r@ == BuilderView::empty(),
    {
        Builder { attr: Vec::new(), vals: Vec::new(), uuids: Vec::new(), next: 1 }
    }

    /// Returns the number of attributes declared so far.
    pub fn len(&self) -> (r: usize)
        ensures
            r == self@.attrs.len(),
    {
        self.attr.len()
    }

    /// Returns the handle that the next attribute will have, or `None` when
    /// no handle is left.
    pub fn next_handle(&self) -> (r: Option<Handle>)
        ensures
            r.is_some() == (self@.next != 0),
            r.is_some() ==> r.unwrap().raw() == self@.next,
    {
        Handle::new(self.next)
    }

    /// Sets the handle of the next attribute, which leaves the handles before
    /// it out. A handle that is not above those in use makes the attributes
    /// no schema.
    pub fn at(&mut self, hdl: Handle)
        ensures
            final(self)@ == (BuilderView { next: hdl.raw(), ..old(self)@ }),
    {
        self.next = hdl.raw();
    }

    /// Declares an attribute of type `typ` with the value `val` and the
    /// permissions `perms`, and returns its handle. It returns `None`, and
    /// declares nothing, when no handle is left or the data has no room.
    pub fn attribute(&mut self, typ: Uuid, val: &[u8], perms: Perms) -> (r: Option<Handle>)
        ensures
            r.is_some() == old(self)@.room(typ.raw(), val@.len()),
            r matches Some(h) ==> h.raw() == old(self)@.next && final(self)@ == old(self)@.pushed(
                typ.raw(),
                val@,
                perms,
            ),
            r.is_none() ==> final(self)@ == old(self)@,
    {
        let hdl = match Handle::new(self.next) {
            Some(h) => h,
            None => {
                return None;
            },
        };
        if self.vals.len() > DATA_LIM || self.uuids.len() > DATA_LIM {
            return None;
        }
        let used = self.vals.len() + self.uuids.len();
        if used > DATA_LIM {
            return None;
        }
        let at = match typ.as_uuid16() {
            Some(t) => {
                if val.len() > DATA_LIM - used {
                    return None;
                }
                let off = self.vals.len();
                extend(&mut self.vals, val);
                proof {
                    Uuid16::lemma_spec_of(t.raw());
                    Uuid16::lemma_eq(t, Uuid16::spec_of(t.raw()));
                }
                Attr { hdl, typ: Some(t), val: (off as u16, (off + val.len()) as u16), perms }
            },
            None => {
                if val.len() != 0 || 16 > DATA_LIM - used {
                    return None;
                }
                let off = self.uuids.len();
                let b = Packer::new(16).u128(typ.raw()).into_vec();
                extend(&mut self.uuids, b.as_slice());
                Attr { hdl, typ: None, val: (off as u16, off as u16), perms }
            },
        };
        proof {
            Handle::lemma_spec_of(self.next);
            Handle::lemma_eq(hdl, Handle::spec_of(self.next));
        }
        self.attr.push(at);
        self.next = if self.next == Handle::MAX {
            0
        } else {
            self.next + 1
        };
        Some(hdl)
    }

    /// Declares a primary service with the UUID `uuid`, and returns the
    /// handle of the declaration.
    pub fn primary_service(&mut self, uuid: Uuid) -> (r: Option<Handle>)
        ensures
            r.is_some() == old(self)@.room(
                sig_uuid(PRIMARY_SERVICE as u32),
                spec_to_le(uuid.raw()).len(),
            ),
            r matches Some(h) ==> h.raw() == old(self)@.next && final(self)@ == old(self)@.pushed(
                sig_uuid(PRIMARY_SERVICE as u32),
                spec_to_le(uuid.raw()),
                Perms::open(),
            ),
            r.is_none() ==> final(self)@ == old(self)@,
    {
        let v = uuid.to_le_vec();
        self.attribute(Uuid16::sig(PRIMARY_SERVICE).as_uuid(), v.as_slice(), Perms::open())
    }

    /// Declares a secondary service with the UUID `uuid`, and returns the
    /// handle of the declaration.
    pub fn secondary_service(&mut self, uuid: Uuid) -> (r: Option<Handle>)
        ensures
            r.is_some() == old(self)@.room(
                sig_uuid(SECONDARY_SERVICE as u32),
                spec_to_le(uuid.raw()).len(),
            ),
            r matches Some(h) ==> h.raw() == old(self)@.next && final(self)@ == old(self)@.pushed(
                sig_uuid(SECONDARY_SERVICE as u32),
                spec_to_le(uuid.raw()),
                Perms::open(),
            ),
            r.is_none() ==> final(self)@ == old(self)@,
    {
        let v = uuid.to_le_vec();
        self.attribute(Uuid16::sig(SECONDARY_SERVICE).as_uuid(), v.as_slice(), Perms::open())
    }

    /// Declares that the service includes the service with the handles
    /// `hdls` and, if it has a 16-bit one, the UUID `uuid`, and returns the
    /// handle of the declaration.
    pub fn include_service(&mut self, hdls: HandleRange, uuid: Option<Uuid16>) -> (r: Option<Handle>)
        ensures
            r.is_some() == old(self)@.room(
                sig_uuid(INCLUDE as u32),
                if uuid.is_some() {
                    6
                } else {
                    4
                },
            ),
            r matches Some(h) ==> h.raw() == old(self)@.next && final(self)@ == old(self)@.pushed(
                sig_uuid(INCLUDE as u32),
                BuilderView::include_value(
                    hdls.start().raw(),
                    hdls.end().raw(),
                    match uuid {
                        Some(u) => Some(u.raw()),
                        None => None,
                    },
                ),
                Perms::open(),
            ),
            r.is_none() ==> final(self)@ == old(self)@,
    {
        let p = Packer::new(6).u16(hdls.start().raw()).u16(hdls.end().raw());
        let p = match uuid {
            Some(u) => p.u16(u.raw()),
            None => p,
        };
        let v = p.into_vec();
        proof {
            lemma_le_seq_len(hdls.start().raw() as nat, 2);
            lemma_le_seq_len(hdls.end().raw() as nat, 2);
            assert(v@ =~= BuilderView::include_value(
                hdls.start().raw(),
                hdls.end().raw(),
                match uuid {
                    Some(u) => Some(u.raw()),
                    None => None,
                },
            ));
        }
        self.attribute(Uuid16::sig(INCLUDE).as_uuid(), v.as_slice(), Perms::open())
    }

    /// Declares a characteristic with the UUID `uuid` and the properties
    /// `props`, whose value has the permissions `perms`: the declaration and
    /// the value attribute, which has the next handle but one. It returns the
    /// handle of the value attribute. It returns `None`, and declares nothing,
    /// when fewer than two handles are left or the data has no room.
    pub fn characteristic(&mut self, uuid: Uuid, props: Prop, perms: Perms) -> (r: Option<Handle>)
        ensures
            r.is_some() == (old(self)@.room(
                sig_uuid(CHARACTERISTIC as u32),
                3 + spec_to_le(uuid.raw()).len(),
            ) && old(self)@.pushed(
                sig_uuid(CHARACTERISTIC as u32),
                BuilderView::char_value(props.bits, old(self)@.after_next(), uuid.raw()),
                Perms::open(),
            ).room(uuid.raw(), 0)),
            r matches Some(h) ==> h.raw() == old(self)@.after_next() && final(self)@ == old(
                self,
            )@.pushed(
                sig_uuid(CHARACTERISTIC as u32),
                BuilderView::char_value(props.bits, old(self)@.after_next(), uuid.raw()),
                Perms::open(),
            ).pushed(uuid.raw(), Seq::empty(), perms),
            r.is_none() ==> final(self)@ == old(self)@,
    {
        let u = uuid.to_le_vec();
        let long: usize = if uuid.as_uuid16().is_some() {
            0
        } else {
            16
        };
        proof {
            lemma_u16_lossless(0, CHARACTERISTIC);
            lemma_le_seq_len(self@.after_next() as nat, 2);
            assert(BuilderView::char_value(props.bits, self@.after_next(), uuid.raw()).len() == 3
                + u@.len());
        }
        if self.next == 0 || self.next == Handle::MAX || self.vals.len() > DATA_LIM
            || self.uuids.len() > DATA_LIM {
            return None;
        }
        let used = self.vals.len() + self.uuids.len();
        if used > DATA_LIM || 3 + u.len() + long > DATA_LIM - used {
            return None;
        }
        let vhdl = self.next + 1;
        let v = Packer::new(19).u8(props.bits()).u16(vhdl).put(u.as_slice()).into_vec();
        proof {
            assert(v@ =~= BuilderView::char_value(props.bits, vhdl, uuid.raw()));
        }
        let _ = self.attribute(Uuid16::sig(CHARACTERISTIC).as_uuid(), v.as_slice(), Perms::open());
        let none: [u8; 0] = [];
        let r = self.attribute(uuid, &none, perms);
        proof {
            assert(none@ =~= Seq::<u8>::empty());
        }
        r
    }

    /// Declares a descriptor with the UUID `uuid`, the value `val`, and the
    /// permissions `perms`, and returns its handle.
    pub fn descriptor(&mut self, uuid: Uuid, val: &[u8], perms: Perms) -> (r: Option<Handle>)
        ensures
            r.is_some() == old(self)@.room(uuid.raw(), val@.len()),
            r matches Some(h) ==> h.raw() == old(self)@.next && final(self)@ == old(self)@.pushed(
                uuid.raw(),
                val@,
                perms,
            ),
            r.is_none() ==> final(self)@ == old(self)@,
    {
        self.attribute(uuid, val, perms)
    }

    /// Declares the extended properties descriptor with the properties
    /// `props`, and returns its handle.
    pub fn ext_props(&mut self, props: ExtProp) -> (r: Option<Handle>)
        ensures
            r.is_some() == old(self)@.room(sig_uuid(CHARACTERISTIC_EXTENDED_PROPERTIES as u32), 2),
            r matches Some(h) ==> h.raw() == old(self)@.next && final(self)@ == old(self)@.pushed(
                sig_uuid(CHARACTERISTIC_EXTENDED_PROPERTIES as u32),
                le_seq(props.bits as nat, 2),
                Perms::open(),
            ),
            r.is_none() ==> final(self)@ == old(self)@,
    {
        let v = Packer::new(2).u16(props.bits()).into_vec();
        self.attribute(
            Uuid16::sig(CHARACTERISTIC_EXTENDED_PROPERTIES).as_uuid(),
            v.as_slice(),
            Perms::open(),
        )
    }
}

/// Returns whether the value of the attribute at index `i` lies within the
/// data, and, for a 128-bit type, the data holds a type there.
fn bounded(attr: &Vec<Attr>, data: &Vec<u8>, i: usize) -> (r: bool)
    requires
        i < attr@.len(),
    ensures
        r == (SchemaView { attrs: attr@, data: data@ }).bounded(i as int),
{
    let at = &attr[i];
    let lo = at.val.0 as usize;
    let hi = at.val.1 as usize;
    if !(lo <= hi && hi <= data.len()) {
        return false;
    }
    if at.typ.is_none() {
        if 16 > data.len() - lo {
            return false;
        }
        let b = slice_subrange(data.as_slice(), lo, lo + 16);
        let mut p = Unpacker::new(b);
        proof {
            lemma_le_nat_bound(b@);
            lemma_pow256_values();
            assert(b@.take(16) =~= b@);
        }
        p.u128() != 0
    } else {
        true
    }
}

/// Returns the type of the attribute at index `i`.
fn typ_of(attr: &Vec<Attr>, data: &Vec<u8>, i: usize) -> (r: u128)
    requires
        i < attr@.len(),
        (SchemaView { attrs: attr@, data: data@ }).bounded(i as int),
    ensures
        r == (SchemaView { attrs: attr@, data: data@ }).typ(i as int),
{
    let at = &attr[i];
    match at.typ {
        Some(t) => t.as_uuid().raw(),
        None => {
            let lo = at.val.0 as usize;
            let b = slice_subrange(data.as_slice(), lo, lo + 16);
            let mut p = Unpacker::new(b);
            proof {
                lemma_le_nat_bound(b@);
                lemma_pow256_values();
                assert(b@.take(16) =~= b@);
            }
            p.u128()
        },
    }
}

/// Returns whether an extended properties descriptor stands among the
/// attributes from index `from` up to the next declaration.
fn has_ext_props(attr: &Vec<Attr>, data: &Vec<u8>, from: usize) -> (r: bool)
    requires
        from <= attr@.len(),
    ensures
        r == (SchemaView { attrs: attr@, data: data@ }).has_ext_props(
            from as int,
            (SchemaView { attrs: attr@, data: data@ }).next_decl(from as int),
        ),
{
    let ghost v = SchemaView { attrs: attr@, data: data@ };
    let mut j = from;
    let mut found = false;
    while j < attr.len() && !attr[j].is_decl()
        invariant
            v == (SchemaView { attrs: attr@, data: data@ }),
            from <= j <= attr@.len(),
            v.next_decl(j as int) == v.next_decl(from as int),
            found == v.has_ext_props(from as int, j as int),
        decreases attr@.len() - j,
    {
        if attr[j].is_ext_props() {
            found = true;
        }
        proof {
            if v.has_ext_props(from as int, j + 1) && !found {
                let k = choose|k: int|
                    from <= k < j + 1 && 0 <= k < v.len() && (#[trigger] v.attrs[k]).is_ext_props();
                assert(k < j);
            }
        }
        j += 1;
    }
    proof {
        v.lemma_next_decl(j as int);
    }
    found
}

/// Returns whether the attribute at index `i` is in its place.
fn check_attr(attr: &Vec<Attr>, data: &Vec<u8>, i: usize) -> (r: bool)
    requires
        i < attr@.len(),
    ensures
        r == (SchemaView { attrs: attr@, data: data@ }).attr_ok(i as int),
{
    let ghost v = SchemaView { attrs: attr@, data: data@ };
    let n = attr.len();
    let at = &attr[i];
    let hdl = at.hdl.raw();
    if i > 0 && attr[i - 1].hdl.raw() >= hdl {
        return false;
    }
    if i == 0 && !at.is_service() {
        return false;
    }
    if !bounded(attr, data, i) {
        return false;
    }
    let val = slice_subrange(data.as_slice(), at.val.0 as usize, at.val.1 as usize);
    assert(val@ == v.value(i as int));
    if at.is_service() {
        i + 1 < n && !attr[i + 1].is_service() && Uuid::from_le_slice(val).is_some()
    } else if at.is_include() {
        val.len() == 4 || val.len() == 6
    } else if at.is_char() {
        if val.len() < 3 || i + 1 >= n {
            return false;
        }
        let tail = slice_subrange(val, 3, val.len());
        assert(tail@ =~= val@.skip(3));
        let uuid = match Uuid::from_le_slice(tail) {
            Some(u) => u,
            None => {
                return false;
            },
        };
        let next = &attr[i + 1];
        if next.is_decl() || !bounded(attr, data, i + 1) {
            return false;
        }
        let mut p = Unpacker::new(slice_subrange(val, 1, 3));
        proof {
            assert(val@.subrange(1, 3).take(2) =~= val@.subrange(1, 3));
            lemma_le_nat_bound(val@.subrange(1, 3));
            lemma_pow256_values();
            v.lemma_next_decl_skip(i + 1, i + 1);
        }
        if next.hdl.raw() != p.u16() || typ_of(attr, data, i + 1) != uuid.raw() {
            return false;
        }
        let ext = val[0] & Prop::EXT_PROPS == Prop::EXT_PROPS;
        ext == has_ext_props(attr, data, i + 2)
    } else {
        i > 0 && !attr[i - 1].is_service() && !attr[i - 1].is_include()
    }
}

impl Builder {
    /// Makes the schema of the attributes declared so far, if they are one.
    ///
    /// The data of the schema holds the values, and after them the 128-bit
    /// types. Every attribute must be in its place, as
    /// [`SchemaView::attr_ok`] says: handles grow; a service is not empty; a
    /// characteristic declaration is followed by its value attribute, and has
    /// the extended properties descriptor if and only if its properties say
    /// so; a descriptor stands within a characteristic.
    pub fn freeze(self) -> (r: Result<Schema, SchemaInvalid>)
        ensures
            r.is_ok() == self@.freezable(),
            r matches Ok(s) ==> s@ == self@.frozen(),
            r matches Err(e) ==> e.at < self@.attrs.len() && !self@.frozen().attr_ok(e.at as int)
                && forall|k: int| 0 <= k < e.at ==> self@.frozen().attr_ok(k),
    {
        let ghost b = self@;
        let Builder { attr, vals, uuids, next } = self;
        let off = vals.len();
        let mut out: Vec<Attr> = Vec::new();
        let mut i: usize = 0;
        while i < attr.len()
            invariant
                b == self@,
                b == (BuilderView { attrs: attr@, vals: vals@, uuids: uuids@, next }),
                off == vals@.len(),
                i <= attr@.len(),
                out@.len() == i,
                forall|k: int| 0 <= k < i ==> out@[k] == b.frozen_attr(attr@[k]),
            decreases attr@.len() - i,
        {
            let a = attr[i];
            let f = if a.typ.is_some() {
                a
            } else if off <= DATA_LIM && a.val.0 as usize <= DATA_LIM - off && a.val.1 as usize
                <= DATA_LIM - off {
                Attr { val: ((a.val.0 as usize + off) as u16, (a.val.1 as usize + off) as u16), ..a }
            } else {
                Attr { val: (0xFFFF, 0), ..a }
            };
            out.push(f);
            i += 1;
        }
        let mut data = vals;
        extend(&mut data, uuids.as_slice());
        let ghost v = SchemaView { attrs: out@, data: data@ };
        proof {
            assert(v.attrs =~= b.frozen().attrs);
            assert(v == b.frozen());
        }
        let mut i: usize = 0;
        while i < out.len()
            invariant
                b == self@,
                v == b.frozen(),
                v == (SchemaView { attrs: out@, data: data@ }),
                i <= out@.len(),
                out@.len() == b.attrs.len(),
                forall|k: int| 0 <= k < i ==> v.attr_ok(k),
            decreases out@.len() - i,
        {
            if !check_attr(&out, &data, i) {
                return Err(SchemaInvalid { at: i });
            }
            i += 1;
        }
        Ok(Schema::assemble(out, data))
    }
}

impl Default for Builder {
    fn default() -> (r: Builder)
        ensures
            r@ == BuilderView::empty(),
    {
        Builder::new()
    }
}

} // verus!
