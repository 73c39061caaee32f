//! What holds of every valid schema.

use vstd::prelude::*;
use crate::codec::{lemma_le_nat_bound, lemma_pow256_values};
use crate::gap::uuid::Uuid;
use crate::gatt::consts::ServiceDef;
use crate::gatt::model::{spec_value_handle, Group, SchemaView, Selector};

verus! {

impl SchemaView {
    /// The database hash is a function of the bytes that enter it: schemas
    /// with the same hashable bytes have the same hash, wherever they are
    /// held.
    pub proof fn lemma_hash_deterministic(self, other: SchemaView)
        requires
            self.hashable() == other.hashable(),
        ensures
            self.db_hash() == other.db_hash(),
    {
    }

    /// Schemas with the same attributes and data have the same hashable
    /// bytes.
    pub proof fn lemma_hashable_deterministic(self, other: SchemaView)
        requires
            self.attrs == other.attrs,
            self.data == other.data,
        ensures
            self.hashable() == other.hashable(),
    {
    }

    /// What `group_end` finds: an index from `from` up to `end`, before
    /// which no attribute from `from` on starts another group, and at which
    /// one does unless it is `end`.
    pub proof fn lemma_group_end<T: Group>(self, from: int, end: int)
        requires
            0 <= from <= end <= self.len(),
        ensures
            from <= self.group_end::<T>(from, end) <= end,
            forall|k: int|
                from <= k < self.group_end::<T>(from, end) ==> !T::spec_is_next_group(
                    (#[trigger] self.attrs[k]).typ,
                ),
            self.group_end::<T>(from, end) < end ==> T::spec_is_next_group(
                self.attrs[self.group_end::<T>(from, end)].typ,
            ),
        decreases end - from,
    {
        if from < end && !T::spec_is_next_group(self.attrs[from].typ) {
            self.lemma_group_end::<T>(from + 1, end);
        }
    }

    /// The groups of a valid schema are exactly the groups that `sel`
    /// selects, in the order of their handles, and their ranges of handles
    /// do not overlap.
    ///
    /// Each entry stands for an attribute that starts a group, and reaches to
    /// the last attribute before the next group. Each attribute that starts a
    /// group has its entry. The last handle of an entry is below the first
    /// handle of every entry after it.
    pub proof fn lemma_groups<T: Group>(self, pos: int, end: int, sel: Selector)
        requires
            self.valid(),
            0 <= pos <= end <= self.len(),
            forall|i: int|
                pos <= i < end && self.is_start(i, sel) ==> T::spec_is_next_group(
                    (#[trigger] self.attrs[i]).typ,
                ),
        ensures
            forall|k: int|
                0 <= k < self.groups::<T>(pos, end, sel).len() ==> {
                    let e = (#[trigger] self.groups::<T>(pos, end, sel)[k]);
                    let i = self.lower_bound(e.start as int);
                    &&& pos <= i < end
                    &&& self.is_start(i, sel)
                    &&& e == self.entry(
                        i,
                        self.group_end::<T>(i + 1, end) - 1,
                        Some(T::spec_uuid_off() as int),
                    )
                    &&& e.start == self.hdl(i)
                    &&& e.start <= e.end
                },
            forall|i: int|
                pos <= i < end && self.is_start(i, sel) ==> exists|k: int|
                    0 <= k < self.groups::<T>(pos, end, sel).len() && (#[trigger] self.groups::<T>(
                        pos,
                        end,
                        sel,
                    )[k]).start == self.hdl(i),
            forall|k: int, m: int|
                0 <= k < m < self.groups::<T>(pos, end, sel).len() ==> (#[trigger] self.groups::<T>(
                    pos,
                    end,
                    sel,
                )[k]).end < (#[trigger] self.groups::<T>(pos, end, sel)[m]).start,
        decreases end - pos,
    {
        let g = self.groups::<T>(pos, end, sel);
        if pos >= end {
            assert(g.len() == 0);
        } else if !self.is_start(pos, sel) {
            self.lemma_groups::<T>(pos + 1, end, sel);
            assert(g == self.groups::<T>(pos + 1, end, sel));
        } else {
            self.lemma_group_end::<T>(pos + 1, end);
            let e = self.group_end::<T>(pos + 1, end);
            let head = self.entry(pos, e - 1, Some(T::spec_uuid_off() as int));
            let tail = self.groups::<T>(e, end, sel);
            self.lemma_groups::<T>(e, end, sel);
            assert(g == seq![head] + tail);
            self.lemma_index_of(self.hdl(pos), pos);
            if pos < e - 1 {
                self.lemma_sorted(pos, e - 1);
            }
            assert forall|k: int| 0 <= k < g.len() implies {
                let x = (#[trigger] g[k]);
                let i = self.lower_bound(x.start as int);
                &&& pos <= i < end
                &&& self.is_start(i, sel)
                &&& x == self.entry(
                    i,
                    self.group_end::<T>(i + 1, end) - 1,
                    Some(T::spec_uuid_off() as int),
                )
                &&& x.start == self.hdl(i)
                &&& x.start <= x.end
            } by {
                if k > 0 {
                    assert(g[k] == tail[k - 1]);
                    let i = self.lower_bound(tail[k - 1].start as int);
                    assert(e <= i < end);
                } else {
                    assert(g[0] == head);
                    assert(self.lower_bound(head.start as int) == pos);
                }
            }
            assert forall|i: int| pos <= i < end && self.is_start(i, sel) implies exists|k: int|
                0 <= k < g.len() && (#[trigger] g[k]).start == self.hdl(i) by {
                if i == pos {
                    assert(g[0].start == self.hdl(i));
                } else {
                    assert(T::spec_is_next_group(self.attrs[i].typ));
                    assert(i >= e);
                    let k = choose|k: int|
                        0 <= k < tail.len() && (#[trigger] tail[k]).start == self.hdl(i);
                    assert(g[k + 1] == tail[k]);
                }
            }
            assert forall|k: int, m: int| 0 <= k < m < g.len() implies (#[trigger] g[k]).end < (
            #[trigger] g[m]).start by {
                assert(g[m] == tail[m - 1]);
                if k == 0 {
                    let i = self.lower_bound(tail[m - 1].start as int);
                    assert(e <= i);
                    if e - 1 < i {
                        self.lemma_sorted(e - 1, i);
                    }
                } else {
                    assert(g[k] == tail[k - 1]);
                }
            }
        }
    }

    /// The primary services that are listed from the handle `start` on are
    /// exactly the primary services with a handle of at least `start`, those
    /// with the UUID `uuid` where one is given, in the order of their
    /// handles, and their ranges of handles do not overlap.
    pub proof fn lemma_primary_services(self, start: u16, uuid: Option<Uuid>)
        requires
            self.valid(),
        ensures
            ({
                let from = self.lower_bound(start as int);
                let sel = Selector::PrimaryService(uuid);
                let g = self.groups::<ServiceDef>(from, self.len(), sel);
                &&& forall|k: int|
                    0 <= k < g.len() ==> {
                        let e = (#[trigger] g[k]);
                        let i = self.lower_bound(e.start as int);
                        &&& from <= i < self.len()
                        &&& self.is_start(i, sel)
                        &&& e.start == self.hdl(i)
                        &&& start <= e.start <= e.end
                        &&& e.end == self.hdl(self.next_service(i + 1) - 1)
                    }
                &&& forall|i: int|
                    0 <= i < self.len() && self.hdl(i) >= start && self.is_start(i, sel)
                        ==> exists|k: int| 0 <= k < g.len() && (#[trigger] g[k]).start == self.hdl(i)
                &&& forall|k: int, m: int|
                    0 <= k < m < g.len() ==> (#[trigger] g[k]).end < (#[trigger] g[m]).start
            }),
    {
        let from = self.lower_bound(start as int);
        let sel = Selector::PrimaryService(uuid);
        let g = self.groups::<ServiceDef>(from, self.len(), sel);
        self.lemma_lower_bound(start as int);
        self.lemma_groups::<ServiceDef>(from, self.len(), sel);
        assert forall|k: int| 0 <= k < g.len() implies {
            let e = (#[trigger] g[k]);
            let i = self.lower_bound(e.start as int);
            e.end == self.hdl(self.next_service(i + 1) - 1)
        } by {
            let i = self.lower_bound(g[k].start as int);
            self.lemma_group_end_is_next_service(i + 1);
        }
        assert forall|i: int|
            0 <= i < self.len() && self.hdl(i) >= start && self.is_start(i, sel) implies exists|
            k: int,
        | 0 <= k < g.len() && (#[trigger] g[k]).start == self.hdl(i) by {
            assert(from <= i);
        }
    }

    /// The group of a service ends where the next service is declared.
    pub proof fn lemma_group_end_is_next_service(self, from: int)
        requires
            0 <= from <= self.len(),
        ensures
            self.group_end::<ServiceDef>(from, self.len()) == self.next_service(from),
        decreases self.len() - from,
    {
        if from < self.len() && !self.attrs[from].is_service() {
            self.lemma_group_end_is_next_service(from + 1);
        }
    }

    /// What `last_char` finds: the greatest index up to `i` whose attribute
    /// is a characteristic declaration.
    pub proof fn lemma_last_char(self, i: int)
        requires
            i < self.len(),
        ensures
            self.last_char(i) matches Some(d) ==> 0 <= d <= i && self.attrs[d].is_char() && forall|
                k: int,
            | d < k <= i ==> !(#[trigger] self.attrs[k]).is_char(),
        decreases i + 1,
    {
        if i >= 0 && !self.attrs[i].is_char() {
            self.lemma_last_char(i - 1);
        }
    }

    /// In a valid schema, an attribute that is no declaration is preceded by
    /// attributes that are no declaration, back to the declaration of its
    /// characteristic.
    proof fn lemma_no_decl_back(self, d: int, k: int, lo: int)
        requires
            self.valid(),
            0 <= d < k <= lo < self.len(),
            forall|m: int| d < m <= lo ==> !(#[trigger] self.attrs[m]).is_char(),
            forall|m: int| k <= m <= lo ==> !(#[trigger] self.attrs[m]).is_decl(),
        ensures
            forall|m: int| d < m <= lo ==> !(#[trigger] self.attrs[m]).is_decl(),
        decreases k - d,
    {
        if k > d + 1 {
            assert(self.attr_ok(k));
            assert(!self.attrs[k - 1].is_char());
            self.lemma_no_decl_back(d, k - 1, lo);
        }
    }

    /// The attribute at index `k` is a part of the characteristic declared
    /// at index `d` where no attribute after `d` up to `k` is a declaration.
    pub proof fn lemma_char_decl_of(self, d: int, k: int)
        requires
            0 <= d <= k < self.len(),
            self.attrs[d].is_char(),
            forall|m: int| d < m <= k ==> !(#[trigger] self.attrs[m]).is_decl(),
        ensures
            self.char_decl(k) == Some(d),
        decreases k - d,
    {
        if d < k {
            self.lemma_char_decl_of(d, k - 1);
        }
    }

    /// The descriptors with a handle within a range all belong to one
    /// characteristic, and stand after its value attribute and before the
    /// next declaration.
    pub proof fn lemma_descriptors_within(self, start: u16, end: u16)
        requires
            self.valid(),
        ensures
            ({
                let (lo, hi) = self.descriptor_range(start, end);
                lo < hi ==> {
                    let d = self.last_char(lo - 1).unwrap();
                    &&& 0 <= d && d + 1 < lo && hi <= self.next_decl(d + 1) <= self.len()
                    &&& forall|k: int|
                        lo <= k < hi ==> self.char_decl(k) == Some(d) && self.hdl(d + 1) < self.hdl(
                            k,
                        ) && start <= self.hdl(k) <= end
                }
            }),
    {
        let (lo, hi) = self.descriptor_range(start, end);
        if lo < hi {
            self.lemma_lower_bound(start as int);
            self.lemma_lower_bound(end + 1);
            let d = self.last_char(lo - 1).unwrap();
            self.lemma_last_char(lo - 1);
            assert(self.attr_ok(d));
            let v = self.value(d);
            lemma_le_nat_bound(v.subrange(1, 3));
            lemma_pow256_values();
            assert(self.attr_ok(d + 1));
            assert(spec_value_handle(v) == self.hdl(d + 1));
            if lo < d + 1 {
                self.lemma_sorted(lo, d + 1);
            }
            self.lemma_next_decl(lo);
            assert forall|m: int| lo <= m <= lo implies !(#[trigger] self.attrs[m]).is_decl() by {}
            self.lemma_no_decl_back(d, lo, lo);
            assert forall|m: int| d < m < hi implies !(#[trigger] self.attrs[m]).is_decl() by {}
            self.lemma_next_decl(d + 1);
            assert forall|k: int| lo <= k < hi implies self.char_decl(k) == Some(d) && self.hdl(
                d + 1,
            ) < self.hdl(k) && start <= self.hdl(k) <= end by {
                self.lemma_char_decl_of(d, k);
                self.lemma_sorted(d + 1, k);
            }
        }
    }
}

} // verus!
