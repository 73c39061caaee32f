//! Read-only attribute schema of a server.

use vstd::prelude::*;
use vstd::slice::slice_subrange;
use core::marker::PhantomData;
use crate::att::{AccessType, ErrorCode, ErrorRsp, Handle, HandleRange, Request, RspResult};
use crate::codec::{lemma_le_nat_bound, lemma_pow256_values, Packer, Unpacker};
use crate::crypto::{aes_cmac, cmac};
use crate::gap::uuid::Uuid;
use crate::gatt::consts::{
    CharacteristicDef, DescriptorDef, ExtProp, IncludeDef, Prop, ServiceDef, CHARACTERISTIC,
    CHARACTERISTIC_AGGREGATE_FORMAT, CHARACTERISTIC_EXTENDED_PROPERTIES,
    CHARACTERISTIC_PRESENTATION_FORMAT, CHARACTERISTIC_USER_DESCRIPTION,
    CLIENT_CHARACTERISTIC_CONFIGURATION, INCLUDE, PRIMARY_SERVICE, SECONDARY_SERVICE,
    SERVER_CHARACTERISTIC_CONFIGURATION,
};
use crate::gatt::builder::{Builder, BuilderView};
use crate::gatt::model::{
    prop_bit, sig_of, spec_value_handle, Attr, EntryView, Group, SchemaView, Selector,
};

verus! {

/// Returns the database hash of the bytes `b`: their AES-CMAC under the key
/// of all zeros.
pub fn db_hash(b: &[u8]) -> (r: u128)
    ensures
        r == aes_cmac(0, b@),
{
    cmac(0, b)
}

/// Returns the bytes by which the attributes `attr` over the data `data` enter
/// the database hash.
pub(crate) fn hashable_bytes(attr: &Vec<Attr>, data: &Vec<u8>) -> (r: Vec<u8>)
    requires
        forall|i: int|
            0 <= i < attr@.len() ==> (#[trigger] attr@[i]).val.0 <= attr@[i].val.1 <= data@.len(),
    ensures
        r@ == (SchemaView { attrs: attr@, data: data@ }).hashable(),
{
    let ghost v = SchemaView { attrs: attr@, data: data@ };
    let mut m: Vec<u8> = Vec::new();
    let mut i: usize = 0;
    while i < attr.len()
        invariant
            i <= attr@.len(),
            v == (SchemaView { attrs: attr@, data: data@ }),
            forall|i: int|
                0 <= i < attr@.len() ==> (#[trigger] attr@[i]).val.0 <= attr@[i].val.1
                    <= data@.len(),
            m@ == v.hashable_to(i as int),
        decreases attr@.len() - i,
    {
        let at = &attr[i];
        let t = sig_of(at.typ);
        let with_value = t == PRIMARY_SERVICE || t == SECONDARY_SERVICE || t == INCLUDE || t
            == CHARACTERISTIC || t == CHARACTERISTIC_EXTENDED_PROPERTIES;
        let without_value = t == CHARACTERISTIC_USER_DESCRIPTION || t
            == CLIENT_CHARACTERISTIC_CONFIGURATION || t == SERVER_CHARACTERISTIC_CONFIGURATION || t
            == CHARACTERISTIC_PRESENTATION_FORMAT || t == CHARACTERISTIC_AGGREGATE_FORMAT;
        if with_value || without_value {
            let head = Packer::new(4).u16(at.hdl.raw()).u16(t).into_vec();
            let mut k: usize = 0;
            while k < 4
                invariant
                    k <= 4,
                    head@.len() == 4,
                    m@ == v.hashable_to(i as int) + head@.take(k as int),
                decreases 4 - k,
            {
                m.push(head[k]);
                k += 1;
                assert(m@ =~= v.hashable_to(i as int) + head@.take(k as int));
            }
            assert(head@.take(4) =~= head@);
            if with_value {
                let lo = at.val.0 as usize;
                let hi = at.val.1 as usize;
                let mut k: usize = lo;
                while k < hi
                    invariant
                        lo <= k <= hi <= data@.len(),
                        m@ == v.hashable_to(i as int) + head@ + data@.subrange(lo as int, k as int),
                    decreases hi - k,
                {
                    m.push(data[k]);
                    k += 1;
                    assert(m@ =~= v.hashable_to(i as int) + head@ + data@.subrange(
                        lo as int,
                        k as int,
                    ));
                }
            }
            assert(m@ =~= v.hashable_to(i as int) + v.hash_entry(i as int));
        } else {
            assert(m@ =~= v.hashable_to(i as int) + v.hash_entry(i as int));
        }
        i += 1;
    }
    m
}

/// Returns the characteristic value attribute handle from the value of the
/// characteristic declaration.
pub fn value_handle(decl: &[u8]) -> (r: Handle)
    ensures
        r.raw() == spec_value_handle(decl@),
{
    let mut p = Unpacker::new(decl);
    let _ = p.skip(1);
    proof {
        if decl@.len() >= 3 {
            assert(decl@.skip(1).take(2) =~= decl@.subrange(1, 3));
        }
    }
    match Handle::new(p.u16()) {
        Some(h) => h,
        None => Handle::max(),
    }
}

/// A non-empty run of the attributes of a schema, with the index of its first
/// attribute.
#[derive(Clone, Copy, Debug)]
pub struct Subset<'a> {
    off: usize,
    attr: &'a [Attr],
}

impl<'a> Subset<'a> {
    #[verifier::type_invariant]
    spec fn inv(self) -> bool {
        self.attr@.len() > 0
    }

    /// The index of the first attribute.
    pub closed spec fn spec_off(&self) -> usize {
        self.off
    }

    /// The attributes.
    pub closed spec fn spec_attr(&self) -> Seq<Attr> {
        self.attr@
    }

    /// Creates the subset of the attributes of `attr` at the indices from `lo`
    /// up to, but not including, `hi`.
    pub fn new(attr: &'a [Attr], lo: usize, hi: usize) -> (r: Subset<'a>)
        requires
            lo < hi <= attr@.len(),
        ensures
            r.off() == lo,
            r.spec_attr() == attr@.subrange(lo as int, hi as int),
    {
        Subset { off: lo, attr: slice_subrange(attr, lo, hi) }
    }

    /// Returns the index of the first attribute.
    #[verifier::when_used_as_spec(spec_off)]
    pub fn off(&self) -> (r: usize)
        ensures
            r == self.spec_off(),
    {
        self.off
    }

    /// Returns the attributes.
    pub fn attr(&self) -> (r: &'a [Attr])
        ensures
            r@ == self.spec_attr(),
            r@.len() > 0,
    {
        proof {
            use_type_invariant(self);
        }
        self.attr
    }

    /// Returns the first attribute.
    pub fn first(&self) -> (r: &'a Attr)
        ensures
            *r == self.spec_attr()[0],
    {
        proof {
            use_type_invariant(self);
        }
        &self.attr[0]
    }

    /// Returns the last attribute.
    pub fn last(&self) -> (r: &'a Attr)
        ensures
            *r == self.spec_attr().last(),
    {
        proof {
            use_type_invariant(self);
        }
        &self.attr[self.attr.len() - 1]
    }
}

/// Read-only database schema.
///
/// Describes the service structure, attribute permissions, and attribute values
/// used in the database hash calculation.
#[derive(Debug)]
pub struct Schema {
    /// Attribute metadata sorted by handle.
    attr: Vec<Attr>,
    /// Concatenated GATT profile attribute values and 128-bit UUIDs.
    data: Vec<u8>,
    /// Database hash.
    hash: u128,
}

impl View for Schema {
    type V = SchemaView;

    closed spec fn view(&self) -> SchemaView {
        SchemaView { attrs: self.attr@, data: self.data@ }
    }
}

impl Schema {
    #[verifier::type_invariant]
    spec fn inv(self) -> bool {
        self@.valid() && self.hash == self@.db_hash()
    }

    /// The database hash that the schema holds.
    pub closed spec fn spec_hash(&self) -> u128 {
        self.hash
    }

    /// Creates the schema of the attributes `attr` over the data `data`, and
    /// computes its database hash.
    pub(crate) fn assemble(attr: Vec<Attr>, data: Vec<u8>) -> (r: Schema)
        requires
            (SchemaView { attrs: attr@, data: data@ }).valid(),
        ensures
            r@ == (SchemaView { attrs: attr@, data: data@ }),
    {
        proof {
            let v = SchemaView { attrs: attr@, data: data@ };
            assert forall|i: int| 0 <= i < attr@.len() implies (#[trigger] attr@[i]).val.0
                <= attr@[i].val.1 <= data@.len() by {
                assert(v.attr_ok(i));
            }
        }
        let m = hashable_bytes(&attr, &data);
        let hash = db_hash(m.as_slice());
        Schema { attr, data, hash }
    }

    /// Creates a new schema builder.
    pub fn build() -> (r: Builder)
        ensures
            r@ == BuilderView::empty(),
    {
        Builder::new()
    }

    /// Creates the schema without attributes.
    pub fn empty() -> (r: Schema)
        ensures
            r@ == (SchemaView { attrs: Seq::empty(), data: Seq::empty() }),
    {
        Schema::assemble(Vec::new(), Vec::new())
    }

    /// Returns the number of attributes.
    pub fn len(&self) -> (r: usize)
        ensures
            r == self@.len(),
            self@.valid(),
    {
        proof {
            use_type_invariant(self);
        }
        self.attr.len()
    }

    /// Returns the database hash: the AES-CMAC, under the key of all zeros,
    /// of the bytes by which the attributes enter the hash.
    #[verifier::when_used_as_spec(spec_hash)]
    pub fn hash(&self) -> (r: u128)
        ensures
            r == self.spec_hash(),
            r == self@.db_hash(),
    {
        proof {
            use_type_invariant(self);
        }
        self.hash
    }

    /// Returns the bytes that the database hash is computed over.
    pub fn hashable(&self) -> (r: Vec<u8>)
        ensures
            r@ == self@.hashable(),
    {
        proof {
            use_type_invariant(self);
            assert forall|i: int| 0 <= i < self.attr@.len() implies (#[trigger] self.attr@[i]).val.0
                <= self.attr@[i].val.1 <= self.data@.len() by {
                assert(self@.attr_ok(i));
            }
        }
        hashable_bytes(&self.attr, &self.data)
    }

    /// Computes the database hash anew from the attributes. It is the hash
    /// that the schema holds.
    pub fn recompute_hash(&self) -> (r: u128)
        ensures
            r == self.hash(),
    {
        proof {
            use_type_invariant(self);
        }
        let m = self.hashable();
        db_hash(m.as_slice())
    }

    /// Returns the attribute metadata.
    pub fn attr(&self) -> (r: &[Attr])
        ensures
            r@ == self@.attrs,
            self@.valid(),
    {
        proof {
            use_type_invariant(self);
        }
        self.attr.as_slice()
    }

    /// Returns the attribute value and 128-bit UUID buffer.
    pub fn data(&self) -> (r: &[u8])
        ensures
            r@ == self@.data,
    {
        self.data.as_slice()
    }

    /// Returns the index of the attribute for the specified handle or the
    /// index where that handle can be inserted.
    pub fn find(&self, hdl: Handle) -> (r: Result<usize, usize>)
        ensures
            match r {
                Ok(i) => self@.index_of(hdl.raw()) == Some(i as int) && i < self@.len()
                    && self@.hdl(i as int) == hdl.raw(),
                Err(i) => self@.index_of(hdl.raw()).is_none() && i == self@.lower_bound(
                    hdl.raw() as int,
                ) && i <= self@.len(),
            },
            self@.valid(),
    {
        proof {
            use_type_invariant(self);
        }
        let ghost v = self@;
        let h = hdl.raw();
        let n = self.attr.len();
        // The attribute can exist at or, if there are gaps, before index `i`.
        // Usually, the 1-based handle value should also be the 0-based index.
        let i = h as usize - 1;
        let mut hi = n;
        if i < n {
            if self.attr[i].hdl.raw() == h {
                proof {
                    v.lemma_index_of(h, i as int);
                }
                return Ok(i);
            }
            proof {
                v.lemma_hdl_above_index(i as int);
                assert forall|k: int| i <= k < n implies v.hdl(k) > h by {
                    if i < k {
                        v.lemma_sorted(i as int, k);
                    }
                }
            }
            hi = i;
        }
        let mut lo: usize = 0;
        while lo < hi
            invariant
                v == self@,
                v.valid(),
                n == v.len(),
                h == hdl.raw(),
                0 <= lo <= hi <= n,
                forall|k: int| 0 <= k < lo ==> v.hdl(k) < h,
                forall|k: int| hi <= k < n ==> v.hdl(k) > h,
            decreases hi - lo,
        {
            let mid = lo + (hi - lo) / 2;
            let m = self.attr[mid].hdl.raw();
            if m == h {
                proof {
                    v.lemma_index_of(h, mid as int);
                }
                return Ok(mid);
            } else if m < h {
                proof {
                    assert forall|k: int| 0 <= k < mid + 1 implies v.hdl(k) < h by {
                        if k < mid {
                            v.lemma_sorted(k, mid as int);
                        }
                    }
                }
                lo = mid + 1;
            } else {
                proof {
                    assert forall|k: int| mid <= k < n implies v.hdl(k) > h by {
                        if mid < k {
                            v.lemma_sorted(mid as int, k);
                        }
                    }
                }
                hi = mid;
            }
        }
        proof {
            v.lemma_lower_bound_unique(h as int, lo as int);
        }
        Err(lo)
    }

    /// Returns the attribute for the specified handle or the index where that
    /// handle can be inserted.
    pub fn get(&self, hdl: Handle) -> (r: Result<&Attr, usize>)
        ensures
            match r {
                Ok(at) => at.hdl == hdl && self@.index_of(hdl.raw()).is_some() && *at
                    == self@.attrs[self@.index_of(hdl.raw()).unwrap()],
                Err(i) => self@.index_of(hdl.raw()).is_none() && i == self@.lower_bound(
                    hdl.raw() as int,
                ),
            },
    {
        match self.find(hdl) {
            Ok(i) => {
                let at = &self.attr[i];
                proof {
                    Handle::lemma_eq(at.hdl, hdl);
                }
                Ok(at)
            },
            Err(i) => Err(i),
        }
    }

    /// Returns the attribute at index `i`.
    pub fn at(&self, i: usize) -> (r: &Attr)
        requires
            i < self@.len(),
        ensures
            *r == self@.attrs[i as int],
            self@.valid(),
            self@.attr_ok(i as int),
    {
        proof {
            use_type_invariant(self);
        }
        &self.attr[i]
    }

    /// Returns the value of the attribute at index `i`.
    pub fn value(&self, i: usize) -> (r: &[u8])
        requires
            i < self@.len(),
        ensures
            r@ == self@.value(i as int),
    {
        proof {
            use_type_invariant(self);
            assert(self@.attr_ok(i as int));
        }
        let at = &self.attr[i];
        slice_subrange(self.data.as_slice(), at.val.0 as usize, at.val.1 as usize)
    }

    /// Returns the type of the attribute at index `i`.
    pub fn typ(&self, i: usize) -> (r: Uuid)
        requires
            i < self@.len(),
        ensures
            r.raw() == self@.typ(i as int),
    {
        proof {
            use_type_invariant(self);
            assert(self@.attr_ok(i as int));
        }
        let at = &self.attr[i];
        match at.typ {
            Some(t) => t.as_uuid(),
            None => {
                let off = at.val.0 as usize;
                let b = slice_subrange(self.data.as_slice(), off, off + 16);
                let mut p = Unpacker::new(b);
                proof {
                    lemma_le_nat_bound(b@);
                    lemma_pow256_values();
                    assert(b@.take(16) =~= b@);
                }
                Uuid::nonzero(p.u128())
            },
        }
    }

    /// Returns the indices of all attributes within the specified handle
    /// range, the first of them and one past the last, or [`None`] if there
    /// is no such attribute.
    pub fn subset_range(&self, hdls: HandleRange) -> (r: Option<(usize, usize)>)
        ensures
            r.is_some() == self@.subset(hdls.start().raw(), hdls.end().raw()).is_some(),
            r matches Some((lo, hi)) ==> self@.subset(hdls.start().raw(), hdls.end().raw()) == Some(
                (lo as int, hi as int),
            ) && lo < hi <= self@.len(),
            self@.valid(),
    {
        let ghost v = self@;
        let n = self.attr.len();
        let i = match self.find(hdls.start()) {
            Ok(i) => i,
            Err(i) => i,
        };
        let end = hdls.end().raw();
        let j = match self.find(hdls.end()) {
            Ok(j) => j + 1,
            Err(j) => j,
        };
        proof {
            v.lemma_lower_bound(end as int);
            assert forall|k: int| j <= k < v.len() implies v.hdl(k) >= end + 1 by {
                if k > 0 && v.hdl(k - 1) == end {
                    v.lemma_sorted(k - 1, k);
                }
                if v.hdl(k) == end {
                    v.lemma_index_of(end, k);
                }
            }
            assert forall|k: int| 0 <= k < j implies v.hdl(k) < end + 1 by {
                if k + 1 < j {
                    v.lemma_sorted(k, j - 1);
                }
            }
            v.lemma_lower_bound_unique(end + 1, j as int);
        }
        if i < j {
            Some((i, j))
        } else {
            None
        }
    }

    /// Returns all attributes within the specified handle range or [`None`] if
    /// there is no such attribute.
    pub fn subset(&self, hdls: HandleRange) -> (r: Option<Subset<'_>>)
        ensures
            r.is_some() == self@.subset(hdls.start().raw(), hdls.end().raw()).is_some(),
            r matches Some(s) ==> {
                let (lo, hi) = self@.subset(hdls.start().raw(), hdls.end().raw()).unwrap();
                s.off() == lo && s.spec_attr() == self@.attrs.subrange(lo, hi)
            },
    {
        match self.subset_range(hdls) {
            Some((lo, hi)) => Some(Subset::new(self.attr.as_slice(), lo, hi)),
            None => None,
        }
    }

    /// Returns the index one past the last attribute of the service group
    /// that holds the attributes from index `from` on: the index of the next
    /// service declaration, or the number of attributes.
    fn service_end(&self, from: usize) -> (r: usize)
        requires
            from <= self@.len(),
        ensures
            r == self@.next_service(from as int),
            from <= r <= self@.len(),
    {
        let ghost v = self@;
        let mut j = from;
        proof {
            v.lemma_next_service(from as int);
        }
        while j < self.attr.len() && !self.attr[j].is_service()
            invariant
                v == self@,
                from <= j <= v.len(),
                v.next_service(j as int) == v.next_service(from as int),
            decreases v.len() - j,
        {
            j += 1;
        }
        j
    }

    /// Returns the index one past the last attribute of the characteristic
    /// that holds the attributes from index `from` on: the index of the next
    /// declaration, or the number of attributes.
    fn char_end(&self, from: usize) -> (r: usize)
        requires
            from <= self@.len(),
        ensures
            r == self@.next_decl(from as int),
            from <= r <= self@.len(),
    {
        let ghost v = self@;
        let mut j = from;
        proof {
            v.lemma_next_decl(from as int);
        }
        while j < self.attr.len() && !self.attr[j].is_decl()
            invariant
                v == self@,
                from <= j <= v.len(),
                v.next_decl(j as int) == v.next_decl(from as int),
            decreases v.len() - j,
        {
            j += 1;
        }
        j
    }

    /// Returns the indices of all attributes of the service group defined by
    /// `hdl`, the declaration and one past the last attribute, or [`None`] if
    /// the handle does not refer to a service.
    pub fn service_range(&self, hdl: Handle) -> (r: Option<(usize, usize)>)
        ensures
            r.is_some() == self@.service_group(hdl.raw()).is_some(),
            r matches Some((lo, hi)) ==> self@.service_group(hdl.raw()) == Some(
                (lo as int, hi as int),
            ) && lo < hi <= self@.len(),
    {
        let n = self.attr.len();
        match self.find(hdl) {
            Ok(i) => {
                if self.attr[i].is_service() {
                    Some((i, self.service_end(i + 1)))
                } else {
                    None
                }
            },
            Err(_) => None,
        }
    }

    /// Returns all attributes of the service group defined by `hdl` or
    /// [`None`] if the handle does not refer to a service.
    pub fn service_group(&self, hdl: Handle) -> (r: Option<Subset<'_>>)
        ensures
            r.is_some() == self@.service_group(hdl.raw()).is_some(),
            r matches Some(s) ==> {
                let (lo, hi) = self@.service_group(hdl.raw()).unwrap();
                s.off() == lo && s.spec_attr() == self@.attrs.subrange(lo, hi)
            },
    {
        match self.service_range(hdl) {
            Some((lo, hi)) => Some(Subset::new(self.attr.as_slice(), lo, hi)),
            None => None,
        }
    }

    /// Returns the indices of a subset of attributes for one service, the
    /// first and one past the last. The service declaration is skipped. The
    /// range is empty if the handles go beyond the service.
    pub fn service_attrs(&self, hdls: HandleRange) -> (r: (usize, usize))
        ensures
            (r.0 as int, r.1 as int) == self@.service_attrs(hdls.start().raw(), hdls.end().raw()),
            r.0 <= r.1 <= self@.len(),
            forall|k: int| r.0 <= k < r.1 ==> !self@.attrs[k].is_service(),
            self@.valid(),
    {
        match self.subset_range(hdls) {
            Some((lo, hi)) => {
                let from = if self.attr[lo].is_service() {
                    lo + 1
                } else {
                    lo
                };
                // Handle range cannot cross service boundary
                let next = self.service_end(from);
                proof {
                    self@.lemma_next_service(from as int);
                }
                if next < hi {
                    (0, 0)
                } else {
                    (from, hi)
                }
            },
            None => (0, 0),
        }
    }

    /// Returns the characteristic information for the attribute at index
    /// `i`, or [`None`] if the attribute is not part of any characteristic
    /// definition.
    pub fn characteristic_at(&self, i: usize) -> (r: Option<CharInfo>)
        requires
            i < self@.len(),
        ensures
            r == spec_char_info(self@, i as int),
            r matches Some(ch) ==> ch.decl == self@.char_decl(i as int).unwrap() && ch.val
                == ch.decl + 1 && ch.end == self@.next_decl(ch.decl + 1) && ch.end <= self@.len()
                && ch.decl <= i < ch.end,
            self@.valid(),
    {
        proof {
            use_type_invariant(self);
        }
        let ghost v = self@;
        let n = self.attr.len();
        let mut d = i;
        while !self.attr[d].is_char()
            invariant
                v == self@,
                v.valid(),
                d <= i < v.len(),
                v.char_decl(d as int) == v.char_decl(i as int),
            decreases d,
        {
            if self.attr[d].is_decl() || d == 0 {
                return None;
            }
            d -= 1;
        }
        proof {
            v.lemma_char_decl(i as int);
            assert(v.attr_ok(d as int));
            v.lemma_next_decl(d + 1);
        }
        let end = self.char_end(d + 1);
        let val = self.value(d);
        let props = Prop { bits: val[0] };
        let ext_props = if props.contains(Prop::EXT_PROPS) {
            let mut j = d + 2;
            while j < end && !self.attr[j].is_ext_props()
                invariant
                    v == self@,
                    d + 2 <= j <= end <= v.len(),
                    v.first_ext_props(j as int, end as int) == v.first_ext_props(d + 2, end as int),
                decreases end - j,
            {
                j += 1;
            }
            if j < end {
                let mut p = Unpacker::new(self.value(j));
                Some(ExtProp::from_bits_truncate(p.u16()))
            } else {
                Some(ExtProp::empty())
            }
        } else {
            None
        };
        Some(CharInfo { props, ext_props, decl: d, val: d + 1, end })
    }

    /// Returns the characteristic information for the specified attribute, or
    /// [`None`] if the attribute is not one of the schema or not part of any
    /// characteristic definition.
    pub fn characteristic_for_attr(&self, at: &Attr) -> (r: Option<CharInfo>)
        ensures
            r == match self@.index_of(at.hdl.raw()) {
                Some(i) => spec_char_info(self@, i),
                None => None,
            },
    {
        match self.find(at.hdl) {
            Ok(i) => self.characteristic_at(i),
            Err(_) => None,
        }
    }

    /// Performs read/write access permission check for the attribute at
    /// index `i`.
    pub fn access_check(&self, req: Request, i: usize) -> (r: RspResult<Handle>)
        requires
            i < self@.len(),
        ensures
            match r {
                Ok(h) => h == self@.attrs[i as int].hdl && self@.access_check(
                    req.op(),
                    req.ac(),
                    i as int,
                ).is_ok(),
                Err(e) => self@.access_check(req.op(), req.ac(), i as int) == Err::<
                    (),
                    ErrorCode,
                >(e.err) && e == req.op().hdl_err(e.err, self@.attrs[i as int].hdl),
            },
            self@.valid(),
    {
        let at = self.at(i);
        let op = req.op();
        let ac = req.ac();
        let hdl = at.hdl;
        if let Err(e) = at.perms.test(ac) {
            return Err(op.hdl_err(e, hdl));
        }
        let ch = match self.characteristic_at(i) {
            Some(ch) => ch,
            None => {
                // Permission check passed and no properties to test
                return Ok(hdl);
            },
        };
        if i != ch.val {
            let writable_aux = match ch.ext_props {
                Some(p) => p.contains(ExtProp::WRITABLE_AUX),
                None => false,
            };
            return if matches!(ac.typ(), AccessType::Write) && sig_of(at.typ)
                == CHARACTERISTIC_USER_DESCRIPTION && !writable_aux {
                Err(op.hdl_err(ErrorCode::WriteNotPermitted, hdl))
            } else {
                // Descriptor or declaration access
                Ok(hdl)
            };
        }
        let bit = match prop_bit(op) {
            Some(bit) => bit,
            None => {
                return Err(op.hdl_err(ErrorCode::RequestNotSupported, hdl));
            },
        };
        if !ch.props.contains(bit) {
            let e = if matches!(ac.typ(), AccessType::Read) {
                ErrorCode::ReadNotPermitted
            } else {
                ErrorCode::WriteNotPermitted
            };
            return Err(op.hdl_err(e, hdl));
        }
        // Characteristic value access
        Ok(hdl)
    }

    /// Performs read/write access permission check for a single handle.
    pub fn try_access(&self, req: Request, hdl: Handle) -> (r: RspResult<Handle>)
        ensures
            match r {
                Ok(h) => h == hdl && self@.handle_check(req.op(), req.ac(), hdl.raw()).is_ok(),
                Err(e) => self@.handle_check(req.op(), req.ac(), hdl.raw()) == Err::<
                    (),
                    ErrorCode,
                >(e.err) && e == req.op().hdl_err(e.err, hdl),
            },
    {
        match self.find(hdl) {
            Ok(i) => {
                proof {
                    Handle::lemma_eq(self@.attrs[i as int].hdl, hdl);
                }
                self.access_check(req, i)
            },
            Err(_) => Err(req.op().hdl_err(ErrorCode::InvalidHandle, hdl)),
        }
    }

    /// Performs read/write access permission check for multiple handles. The
    /// answer to a request without handles is that it is invalid; else it is
    /// the error of the first handle that fails the check, if there is one.
    pub fn try_multi_access<'a>(&self, req: Request, hdls: &'a [Handle]) -> (r: RspResult<
        &'a [Handle],
    >)
        ensures
            hdls@.len() == 0 ==> r == Err::<&[Handle], ErrorRsp>(
                req.op().err(ErrorCode::InvalidPdu),
            ),
            r.is_ok() == (hdls@.len() > 0 && forall|k: int|
                0 <= k < hdls@.len() ==> self@.handle_check(
                    req.op(),
                    req.ac(),
                    (#[trigger] hdls@[k]).raw(),
                ).is_ok()),
            r matches Ok(v) ==> v@ == hdls@,
            r matches Err(e) ==> hdls@.len() > 0 ==> exists|k: int|
                0 <= k < hdls@.len() && (forall|m: int|
                    0 <= m < k ==> self@.handle_check(
                        req.op(),
                        req.ac(),
                        (#[trigger] hdls@[m]).raw(),
                    ).is_ok()) && self@.handle_check(req.op(), req.ac(), (#[trigger] hdls@[k]).raw())
                    == Err::<(), ErrorCode>(e.err) && e == req.op().hdl_err(e.err, hdls@[k]),
    {
        if hdls.len() == 0 {
            return Err(req.op().err(ErrorCode::InvalidPdu));  // Should never happen
        }
        let mut k: usize = 0;
        while k < hdls.len()
            invariant
                k <= hdls@.len(),
                forall|m: int|
                    0 <= m < k ==> self@.handle_check(
                        req.op(),
                        req.ac(),
                        (#[trigger] hdls@[m]).raw(),
                    ).is_ok(),
            decreases hdls@.len() - k,
        {
            match self.try_access(req, hdls[k]) {
                Ok(_) => {},
                Err(e) => {
                    proof {
                        assert(self@.handle_check(req.op(), req.ac(), hdls@[k as int].raw()).is_err());
                    }
                    return Err(e);
                },
            }
            k += 1;
        }
        Ok(hdls)
    }

    /// Performs read/write access permission check for a range of handles with
    /// UUID type matching.
    pub fn try_range_access(&self, req: Request, hdls: HandleRange, uuid: Uuid) -> (r: RspResult<
        Vec<Handle>,
    >)
        ensures
            match r {
                Ok(v) => self@.range_access(
                    req.op(),
                    req.ac(),
                    hdls.start().raw(),
                    hdls.end().raw(),
                    uuid.raw(),
                ) == Ok::<Seq<u16>, (ErrorCode, u16)>(v@.map_values(|h: Handle| h.raw())),
                Err(e) => e.hdl.is_some() && e.req == req.op().raw() && self@.range_access(
                    req.op(),
                    req.ac(),
                    hdls.start().raw(),
                    hdls.end().raw(),
                    uuid.raw(),
                ) == Err::<Seq<u16>, (ErrorCode, u16)>((e.err, e.hdl.unwrap().raw())),
            },
    {
        let ghost v = self@;
        let ghost op = req.op();
        let ghost ac = req.ac();
        let (lo, hi) = match self.subset_range(hdls) {
            Some(r) => r,
            None => {
                return Err(req.op().hdl_err(ErrorCode::AttributeNotFound, hdls.start()));
            },
        };
        let mut out: Vec<Handle> = Vec::new();
        let mut first = true;
        let mut k = lo;
        while k < hi
            invariant
                v == self@,
                op == req.op(),
                ac == req.ac(),
                lo <= k <= hi <= v.len(),
                v.subset(hdls.start().raw(), hdls.end().raw()) == Some((lo as int, hi as int)),
                first ==> out@.len() == 0 && v.first_of_type(uuid.raw(), k as int, hi as int)
                    == v.first_of_type(uuid.raw(), lo as int, hi as int) && v.granted(
                    op,
                    ac,
                    uuid.raw(),
                    k as int,
                    hi as int,
                ) == v.granted(op, ac, uuid.raw(), lo as int, hi as int),
                !first ==> v.first_of_type(uuid.raw(), lo as int, hi as int) < hi
                    && v.access_check(
                    op,
                    ac,
                    v.first_of_type(uuid.raw(), lo as int, hi as int),
                ).is_ok(),
                out@.map_values(|h: Handle| h.raw()) + v.granted(
                    op,
                    ac,
                    uuid.raw(),
                    k as int,
                    hi as int,
                ) == v.granted(op, ac, uuid.raw(), lo as int, hi as int),
            decreases hi - k,
        {
            let t = self.typ(k);
            if t.raw() == uuid.raw() {
                // The first error is the answer; a later one ends the list
                match self.access_check(req, k) {
                    Ok(h) => {
                        proof {
                            if first {
                                assert(v.first_of_type(uuid.raw(), k as int, hi as int) == k);
                            }
                            let g = v.granted(op, ac, uuid.raw(), k + 1, hi as int);
                            assert(v.granted(op, ac, uuid.raw(), k as int, hi as int) == seq![
                                v.hdl(k as int),
                            ] + g);
                            assert(out@.push(h).map_values(|h: Handle| h.raw()) =~= out@.map_values(
                                |h: Handle| h.raw(),
                            ) + seq![v.hdl(k as int)]);
                            assert((out@.map_values(|h: Handle| h.raw()) + seq![v.hdl(k as int)])
                                + g =~= out@.map_values(|h: Handle| h.raw()) + (seq![
                                v.hdl(k as int),
                            ] + g));
                        }
                        out.push(h);
                        first = false;
                    },
                    Err(e) => {
                        if first {
                            proof {
                                assert(v.first_of_type(uuid.raw(), k as int, hi as int) == k);
                            }
                            return Err(e);
                        }
                        proof {
                            assert(v.granted(op, ac, uuid.raw(), k as int, hi as int)
                                =~= Seq::<u16>::empty());
                            assert(out@.map_values(|h: Handle| h.raw()) + Seq::<u16>::empty()
                                =~= out@.map_values(|h: Handle| h.raw()));
                        }
                        return Ok(out);
                    },
                }
            }
            k += 1;
        }
        if first {
            return Err(req.op().hdl_err(ErrorCode::AttributeNotFound, hdls.start()));
        }
        proof {
            assert(v.granted(op, ac, uuid.raw(), hi as int, hi as int) =~= Seq::<u16>::empty());
            assert(out@.map_values(|h: Handle| h.raw()) + Seq::<u16>::empty() =~= out@.map_values(
                |h: Handle| h.raw(),
            ));
        }
        Ok(out)
    }
}

impl Default for Schema {
    fn default() -> (r: Schema)
        ensures
            r@.len() == 0,
    {
        Schema::empty()
    }
}

/// Information about a single characteristic: its properties, its extended
/// properties where the properties name any, and the indices of its
/// declaration, of its value attribute, and one past its last descriptor.
#[derive(Clone, Copy, Debug)]
pub struct CharInfo {
    pub props: Prop,
    pub ext_props: Option<ExtProp>,
    pub decl: usize,
    pub val: usize,
    pub end: usize,
}

/// The information about the characteristic that the attribute at index `i`
/// of the schema `v` is a part of, if it is a part of any.
pub open spec fn spec_char_info(v: SchemaView, i: int) -> Option<CharInfo> {
    match v.char_decl(i) {
        Some(d) => Some(
            CharInfo {
                props: Prop { bits: v.props(d) },
                ext_props: match v.ext_props(d) {
                    Some(e) => Some(ExtProp { bits: e }),
                    None => None,
                },
                decl: d as usize,
                val: (d + 1) as usize,
                end: v.next_decl(d + 1) as usize,
            },
        ),
        None => None,
    }
}

/// Returns whether two byte slices hold the same bytes.
fn same_bytes(a: &[u8], b: &[u8]) -> (r: bool)
    ensures
        r == (a@ == b@),
{
    if a.len() != b.len() {
        return false;
    }
    let mut i: usize = 0;
    while i < a.len()
        invariant
            i <= a@.len(),
            a@.len() == b@.len(),
            forall|j: int| 0 <= j < i ==> a@[j] == b@[j],
        decreases a@.len() - i,
    {
        if a[i] != b[i] {
            return false;
        }
        i += 1;
    }
    assert(a@ =~= b@);
    true
}

/// Schema attribute information.
#[derive(Debug)]
pub struct SchemaEntry<'a, T> {
    hdls: HandleRange,
    typ: Uuid,
    val: &'a [u8],
    uuid: Uuid,
    _marker: PhantomData<T>,
}

impl<'a, T> View for SchemaEntry<'a, T> {
    type V = EntryView;

    closed spec fn view(&self) -> EntryView {
        EntryView {
            start: self.hdls.start().raw(),
            end: self.hdls.end().raw(),
            typ: self.typ.raw(),
            val: self.val@,
            uuid: self.uuid.raw(),
        }
    }
}

impl<'a, T> SchemaEntry<'a, T> {
    /// Combines information about the schema entry of the attribute at index
    /// `i` of the schema `s`, for a group that ends with the attribute at
    /// index `last`.
    pub fn new(s: &'a Schema, i: usize, last: usize, off: Option<usize>) -> (r: Self)
        requires
            i <= last < s@.len(),
        ensures
            r@ == s@.entry(
                i as int,
                last as int,
                match off {
                    Some(o) => Some(o as int),
                    None => None,
                },
            ),
    {
        let at = s.at(i);
        let end = s.at(last).hdl;
        proof {
            if i < last {
                s@.lemma_sorted(i as int, last as int);
            }
        }
        let typ = s.typ(i);
        let val = s.value(i);
        let uuid = match off {
            Some(o) => if o <= val.len() {
                let tail = slice_subrange(val, o, val.len());
                assert(tail@ =~= val@.skip(o as int));
                match Uuid::from_le_slice(tail) {
                    Some(u) => u,
                    None => typ,
                }
            } else {
                typ
            },
            None => typ,
        };
        SchemaEntry { hdls: HandleRange::new(at.hdl, end), typ, val, uuid, _marker: PhantomData }
    }

    /// Returns the attribute handle.
    pub fn handle(&self) -> (r: Handle)
        ensures
            r.raw() == self@.start,
    {
        self.hdls.start()
    }

    /// Returns the attribute value.
    pub fn value(&self) -> (r: &'a [u8])
        ensures
            r@ == self@.val,
    {
        self.val
    }

    /// Returns the attribute type.
    pub fn typ(&self) -> (r: Uuid)
        ensures
            r.raw() == self@.typ,
    {
        self.typ
    }
}

impl<'a, T: Group> SchemaEntry<'a, T> {
    /// Returns the group handle range.
    pub fn handle_range(&self) -> (r: HandleRange)
        ensures
            r.start().raw() == self@.start,
            r.end().raw() == self@.end,
    {
        self.hdls
    }

    /// Returns the service or characteristic UUID.
    pub fn uuid(&self) -> (r: Uuid)
        ensures
            r.raw() == self@.uuid,
    {
        self.uuid
    }
}

impl<'a> SchemaEntry<'a, CharacteristicDef> {
    /// Returns the characteristic properties.
    pub fn properties(&self) -> (r: Prop)
        ensures
            r.bits == if self@.val.len() > 0 {
                self@.val[0]
            } else {
                0
            },
    {
        if self.val.len() > 0 {
            Prop { bits: self.val[0] }
        } else {
            Prop::empty()
        }
    }

    /// Returns the handle of the value attribute.
    pub fn value_handle(&self) -> (r: Handle)
        ensures
            r.raw() == spec_value_handle(self@.val),
    {
        value_handle(self.val)
    }
}

impl<'a> SchemaEntry<'a, DescriptorDef> {
    /// Returns the descriptor UUID.
    pub fn uuid(&self) -> (r: Uuid)
        ensures
            r.raw() == self@.typ,
    {
        self.typ
    }
}

/// The views of the entries `v`.
pub open spec fn views<'a, T>(v: Seq<SchemaEntry<'a, T>>) -> Seq<EntryView> {
    v.map_values(|e: SchemaEntry<'a, T>| e@)
}

/// Steps through the groups of attributes of a schema.
pub struct GroupIter<'a, T> {
    schema: &'a Schema,
    pos: usize,
    end: usize,
    sel: Selector,
    _marker: PhantomData<T>,
}

impl<'a, T> GroupIter<'a, T> {
    #[verifier::type_invariant]
    spec fn inv(self) -> bool {
        self.pos <= self.end <= self.schema@.len()
    }
}

impl<'a, T: Group> GroupIter<'a, T> {
    /// The entries that are still to come.
    pub closed spec fn rest(&self) -> Seq<EntryView> {
        self.schema@.groups::<T>(self.pos as int, self.end as int, self.sel)
    }

    /// Creates a new attribute group iterator over the attributes of `schema`
    /// at the indices from `pos` up to `end`.
    pub fn new(schema: &'a Schema, pos: usize, end: usize, sel: Selector) -> (r: Self)
        requires
            pos <= end <= schema@.len(),
        ensures
            r.rest() == schema@.groups::<T>(pos as int, end as int, sel),
    {
        GroupIter { schema, pos, end, sel, _marker: PhantomData }
    }

    /// Returns whether the attribute at index `i` starts a group.
    fn is_start(&self, i: usize) -> (r: bool)
        requires
            i < self.schema@.len(),
        ensures
            r == self.schema@.is_start(i as int, self.sel),
    {
        let at = self.schema.at(i);
        match self.sel {
            Selector::PrimaryService(None) => at.is_primary_service(),
            Selector::PrimaryService(Some(u)) => {
                at.is_primary_service() && same_bytes(
                    self.schema.value(i),
                    u.to_le_vec().as_slice(),
                )
            },
            Selector::Characteristic => at.is_char(),
        }
    }

    /// Returns the entry of the next group, or `None` when there is none
    /// left.
    pub fn next(&mut self) -> (r: Option<SchemaEntry<'a, T>>)
        ensures
            r.is_some() == (old(self).rest().len() > 0),
            r matches Some(e) ==> e@ == old(self).rest()[0] && final(self).rest() == old(
                self,
            ).rest().skip(1),
            r.is_none() ==> final(self).rest().len() == 0,
    {
        proof {
            use_type_invariant(&*self);
        }
        let ghost v = self.schema@;
        let ghost sel = self.sel;
        let end = self.end;
        let mut i = self.pos;
        while i < end && !self.is_start(i)
            invariant
                v == self.schema@,
                sel == self.sel,
                end == self.end,
                self.pos == old(self).pos,
                self.pos <= i <= end <= v.len(),
                v.groups::<T>(i as int, end as int, sel) == v.groups::<T>(
                    self.pos as int,
                    end as int,
                    sel,
                ),
            decreases end - i,
        {
            i += 1;
        }
        if i >= end {
            self.pos = end;
            return None;
        }
        let mut j = i + 1;
        while j < end && !T::is_next_group(self.schema.at(j).typ)
            invariant
                v == self.schema@,
                i < j <= end <= v.len(),
                v.group_end::<T>(j as int, end as int) == v.group_end::<T>(i + 1, end as int),
            decreases end - j,
        {
            j += 1;
        }
        self.pos = j;
        let e = SchemaEntry::new(self.schema, i, j - 1, Some(T::uuid_off()));
        proof {
            let g = v.groups::<T>(j as int, end as int, sel);
            assert((seq![e@] + g).skip(1) =~= g);
        }
        Some(e)
    }

    /// Returns the entries of all groups that are still to come.
    pub fn collect(self) -> (r: Vec<SchemaEntry<'a, T>>)
        ensures
            views(r@) == self.rest(),
    {
        let mut it = self;
        let mut out: Vec<SchemaEntry<'a, T>> = Vec::new();
        assert(views(out@) =~= Seq::<EntryView>::empty());
        loop
            invariant
                views(out@) + it.rest() == self.rest(),
            decreases it.rest().len(),
        {
            match it.next() {
                Some(e) => {
                    proof {
                        let ghost before = views(out@);
                        assert(views(out@.push(e)) =~= before + seq![e@]);
                    }
                    out.push(e);
                },
                None => {
                    assert(views(out@) + Seq::<EntryView>::empty() =~= views(out@));
                    return out;
                },
            }
        }
    }
}

impl Schema {
    /// Returns an iterator over primary services with optional UUID matching:
    /// the primary services with a handle of at least `start`, all of them or
    /// those with the UUID `uuid`.
    pub fn primary_services(&self, start: Handle, uuid: Option<Uuid>) -> (r: GroupIter<
        '_,
        ServiceDef,
    >)
        ensures
            r.rest() == self@.groups::<ServiceDef>(
                self@.lower_bound(start.raw() as int),
                self@.len(),
                Selector::PrimaryService(uuid),
            ),
    {
        let i = match self.find(start) {
            Ok(i) => i,
            Err(i) => i,
        };
        GroupIter::new(self, i, self.len(), Selector::PrimaryService(uuid))
    }

    /// Returns the service includes with a handle within `hdls`: the include
    /// declarations that lead the attributes of one service with such a
    /// handle.
    pub fn includes(&self, hdls: HandleRange) -> (r: Vec<SchemaEntry<'_, IncludeDef>>)
        ensures
            views(r@) == self@.includes(
                self@.service_attrs(hdls.start().raw(), hdls.end().raw()).0,
                self@.service_attrs(hdls.start().raw(), hdls.end().raw()).1,
            ),
    {
        let ghost v = self@;
        let (lo, hi) = self.service_attrs(hdls);
        let mut out: Vec<SchemaEntry<'_, IncludeDef>> = Vec::new();
        let mut k = lo;
        assert(views(out@) =~= Seq::<EntryView>::empty());
        while k < hi && self.at(k).is_include()
            invariant
                v == self@,
                lo <= k <= hi <= v.len(),
                views(out@) + v.includes(k as int, hi as int) == v.includes(lo as int, hi as int),
            decreases hi - k,
        {
            let e = SchemaEntry::new(self, k, k, None);
            proof {
                let g = v.includes(k + 1, hi as int);
                assert(views(out@.push(e)) =~= views(out@) + seq![e@]);
                assert((views(out@) + seq![e@]) + g =~= views(out@) + (seq![e@] + g));
            }
            out.push(e);
            k += 1;
        }
        assert(views(out@) + Seq::<EntryView>::empty() =~= views(out@));
        out
    }

    /// Returns an iterator over service characteristics with a handle within
    /// `hdls`.
    pub fn characteristics(&self, hdls: HandleRange) -> (r: GroupIter<'_, CharacteristicDef>)
        ensures
            r.rest() == self@.groups::<CharacteristicDef>(
                self@.service_attrs(hdls.start().raw(), hdls.end().raw()).0,
                self@.service_attrs(hdls.start().raw(), hdls.end().raw()).1,
                Selector::Characteristic,
            ),
    {
        let (lo, hi) = self.service_attrs(hdls);
        GroupIter::new(self, lo, hi, Selector::Characteristic)
    }

    /// Returns the characteristic descriptors with a handle within `hdls`.
    /// The handles must start after the value of a characteristic and cannot
    /// cross the boundary of the characteristic; else there are none.
    pub fn descriptors(&self, hdls: HandleRange) -> (r: Vec<SchemaEntry<'_, DescriptorDef>>)
        ensures
            views(r@) == self@.entries(
                self@.descriptor_range(hdls.start().raw(), hdls.end().raw()).0,
                self@.descriptor_range(hdls.start().raw(), hdls.end().raw()).1,
            ),
    {
        let ghost v = self@;
        let mut out: Vec<SchemaEntry<'_, DescriptorDef>> = Vec::new();
        assert(views(out@) =~= v.entries(0, 0));
        let (lo, hi) = match self.subset_range(hdls) {
            Some(r) => r,
            None => {
                return out;
            },
        };
        // Find the characteristic declared before the range
        let mut d = lo;
        let mut found = false;
        while d > 0 && !found
            invariant
                v == self@,
                d <= lo < hi <= v.len(),
                !found ==> v.last_char(d - 1) == v.last_char(lo - 1),
                found ==> d < lo && v.last_char(lo - 1) == Some(d as int),
            decreases d,
        {
            d -= 1;
            if self.at(d).is_char() {
                found = true;
            }
        }
        if !found {
            return out;
        }
        // Handle range must start after the characteristic value and cannot
        // cross characteristic boundary.
        if !(value_handle(self.value(d)).raw() < self.at(lo).hdl.raw() && self.char_end(lo) >= hi) {
            return out;
        }
        let mut k = lo;
        assert(views(out@) =~= v.entries(lo as int, lo as int));
        while k < hi
            invariant
                v == self@,
                lo <= k <= hi <= v.len(),
                views(out@) == v.entries(lo as int, k as int),
            decreases hi - k,
        {
            let e = SchemaEntry::new(self, k, k, None);
            proof {
                let a = views(out@.push(e));
                let b = v.entries(lo as int, k + 1);
                assert(views(out@).len() == out@.len());
                assert(v.entries(lo as int, k as int).len() == k - lo);
                assert(a.len() == out@.len() + 1);
                assert(b.len() == k + 1 - lo);
                assert forall|j: int| 0 <= j < a.len() implies a[j] == b[j] by {
                    if j < k - lo {
                        assert(a[j] == views(out@)[j]);
                        assert(v.entries(lo as int, k as int)[j] == b[j]);
                    }
                }
                assert(a =~= b);
            }
            out.push(e);
            k += 1;
        }
        out
    }
}

} // verus!
