//! The entity-attribute-value-index metadata store.
//!
//! Rows annotate addresses with links, lifecycle status and provenance
//! headers.  The store is append-only: lifecycle transitions are new rows
//! with a later index, never changes to old rows, and current-status queries
//! select the most recent row for the target.

use vstd::prelude::*;
use crate::hashing::Address;
use crate::hashing::text_eq;

verus! {

/// The attribute of a metadata row.
#[derive(Debug, PartialEq)]
pub enum Attribute {
    /// The value names a chain header held for the entity.
    EntryHeader,
    /// The value is the target of a link from the entity, under a tag.
    LinkTag(String),
    /// The value is a link target whose link under the tag was removed.
    RemovedLinkTag(String),
    /// The value is the entity's lifecycle status.
    CrudStatus,
    /// The value names the entry that changed the entity's lifecycle.
    CrudLink,
}

impl Clone for Attribute {
    fn clone(&self) -> (r: Self)
        ensures
            r == *self,
    {
        match self {
            Attribute::EntryHeader => Attribute::EntryHeader,
            Attribute::LinkTag(t) => Attribute::LinkTag(t.clone()),
            Attribute::RemovedLinkTag(t) => Attribute::RemovedLinkTag(t.clone()),
            Attribute::CrudStatus => Attribute::CrudStatus,
            Attribute::CrudLink => Attribute::CrudLink,
        }
    }
}

/// One metadata row: entity, attribute, value, and an insertion index that
/// orders rows in time.
#[derive(Debug, PartialEq)]
pub struct Eavi {
    pub entity: Address,
    pub attribute: Attribute,
    pub value: String,
    pub index: u64,
}

impl Clone for Eavi {
    fn clone(&self) -> (r: Self)
        ensures
            r == *self,
    {
        Eavi {
            entity: self.entity.clone(),
            attribute: self.attribute.clone(),
            value: self.value.clone(),
            index: self.index,
        }
    }
}

/// The per-entry lifecycle tag, stored as metadata, never as mutation of
/// the entry itself.
#[derive(Clone, Copy, Debug, PartialEq, Eq, Structural)]
pub enum CrudStatus {
    Live,
    Modified,
    Deleted,
}

/// The metadata value text recording a lifecycle status.
pub open spec fn status_value_text(s: CrudStatus) -> Seq<char> {
    match s {
        CrudStatus::Live => "live"@,
        CrudStatus::Modified => "modified"@,
        CrudStatus::Deleted => "deleted"@,
    }
}

/// The lifecycle status recorded by a metadata value text.  Only the
/// three texts of `status_value_text` are ever written by this core;
/// an unrecognized text counts as live, the same default an entry with
/// no status row gets.
pub open spec fn status_of_value(v: Seq<char>) -> CrudStatus {
    if v == "deleted"@ {
        CrudStatus::Deleted
    } else if v == "modified"@ {
        CrudStatus::Modified
    } else {
        CrudStatus::Live
    }
}

/// A status row for `address` carrying `status`, ready to be added to the
/// store (which assigns the index).
pub fn create_crud_status_eav(address: &Address, status: CrudStatus) -> (r: Eavi)
    ensures
        r.entity == *address,
        r.attribute is CrudStatus,
        r.value@ == status_value_text(status),
        r.index == 0,
{
    let value: String = match status {
        CrudStatus::Live => "live".to_owned(),
        CrudStatus::Modified => "modified".to_owned(),
        CrudStatus::Deleted => "deleted".to_owned(),
    };
    Eavi { entity: address.clone(), attribute: Attribute::CrudStatus, value, index: 0 }
}

/// The append-only metadata store.
#[derive(Debug, PartialEq)]
pub struct EavStore {
    pub rows: Vec<Eavi>,
}

/// The row that `add_eavi` appends for `eavi` at position `at`.
pub open spec fn indexed_row(eavi: Eavi, at: int) -> Eavi {
    Eavi { entity: eavi.entity, attribute: eavi.attribute, value: eavi.value, index: at as u64 }
}

impl EavStore {
    /// An empty metadata store.
    pub fn new() -> (r: Self)
        ensures
            r.rows@ == Seq::<Eavi>::empty(),
    {
        let r = EavStore { rows: Vec::new() };
        proof {
            assert(r.rows@ =~= Seq::<Eavi>::empty());
        }
        r
    }

    /// Append one row; the store assigns the next insertion index.
    pub fn add_eavi(&mut self, eavi: Eavi)
        requires
            old(self).rows@.len() < u64::MAX,
        ensures
            final(self).rows@ == old(self).rows@.push(
                indexed_row(eavi, old(self).rows@.len() as int),
            ),
    {
        let at = self.rows.len() as u64;
        self.rows.push(
            Eavi { entity: eavi.entity, attribute: eavi.attribute, value: eavi.value, index: at },
        );
    }
}

/// Whether a row records a header held for `entity`.
pub open spec fn is_header_row(r: Eavi, entity: Seq<char>) -> bool {
    r.attribute is EntryHeader && r.entity@ == entity
}

/// The header addresses recorded for `entity`, oldest first.
pub open spec fn header_values_for(rows: Seq<Eavi>, entity: Seq<char>) -> Seq<String>
    decreases rows.len(),
{
    if rows.len() == 0 {
        Seq::empty()
    } else {
        let init = header_values_for(rows.drop_last(), entity);
        if is_header_row(rows.last(), entity) {
            init.push(rows.last().value)
        } else {
            init
        }
    }
}

/// Whether a row adds a link from `base` under `tag`.
pub open spec fn is_link_row(r: Eavi, base: Seq<char>, tag: Seq<char>) -> bool {
    &&& r.entity@ == base
    &&& match r.attribute {
        Attribute::LinkTag(t) => t@ == tag,
        _ => false,
    }
}

/// Whether a row removes the link from `base` to `target` under `tag`.
pub open spec fn is_link_removal_row(r: Eavi, base: Seq<char>, tag: Seq<char>, target: Seq<char>) -> bool {
    &&& r.entity@ == base
    &&& r.value@ == target
    &&& match r.attribute {
        Attribute::RemovedLinkTag(t) => t@ == tag,
        _ => false,
    }
}

/// Whether some row of `rows` after position `i` removes the link from
/// `base` to `target` under `tag`.
pub open spec fn link_removed_after(
    rows: Seq<Eavi>,
    base: Seq<char>,
    tag: Seq<char>,
    target: Seq<char>,
    i: int,
) -> bool {
    exists|j: int| i < j < rows.len() && is_link_removal_row(#[trigger] rows[j], base, tag, target)
}

/// The live link targets from `base` under `tag`, considering only link
/// rows before position `k` (removals anywhere count).
pub open spec fn live_link_targets_upto(
    rows: Seq<Eavi>,
    base: Seq<char>,
    tag: Seq<char>,
    k: int,
) -> Seq<String>
    decreases k,
{
    if k <= 0 {
        Seq::empty()
    } else {
        let init = live_link_targets_upto(rows, base, tag, k - 1);
        if is_link_row(rows[k - 1], base, tag) && !link_removed_after(
            rows,
            base,
            tag,
            rows[k - 1].value@,
            k - 1,
        ) {
            init.push(rows[k - 1].value)
        } else {
            init
        }
    }
}

/// The live link targets from `base` under `tag`: targets of link rows
/// with no later removal row for the same target, in insertion order.
pub open spec fn live_link_targets(rows: Seq<Eavi>, base: Seq<char>, tag: Seq<char>) -> Seq<
    String,
> {
    live_link_targets_upto(rows, base, tag, rows.len() as int)
}

/// The value of the most recent status row for `entity`, if any.
pub open spec fn latest_status_value(rows: Seq<Eavi>, entity: Seq<char>) -> Option<String>
    decreases rows.len(),
{
    if rows.len() == 0 {
        None
    } else if rows.last().attribute is CrudStatus && rows.last().entity@ == entity {
        Some(rows.last().value)
    } else {
        latest_status_value(rows.drop_last(), entity)
    }
}

/// The value of the most recent lifecycle-link row for `entity`, if any.
pub open spec fn latest_crud_link_value(rows: Seq<Eavi>, entity: Seq<char>) -> Option<String>
    decreases rows.len(),
{
    if rows.len() == 0 {
        None
    } else if rows.last().attribute is CrudLink && rows.last().entity@ == entity {
        Some(rows.last().value)
    } else {
        latest_crud_link_value(rows.drop_last(), entity)
    }
}

impl EavStore {
    /// The header addresses recorded for `entity`, oldest first.
    pub fn fetch_entry_headers(&self, entity: &Address) -> (r: Vec<Address>)
        ensures
            r@ == header_values_for(self.rows@, entity@),
    {
        let mut out: Vec<Address> = Vec::new();
        let mut i: usize = 0;
        while i < self.rows.len()
            invariant
                i <= self.rows@.len(),
                out@ == header_values_for(self.rows@.subrange(0, i as int), entity@),
            decreases self.rows@.len() - i,
        {
            proof {
                assert(self.rows@.subrange(0, (i + 1) as int).drop_last() =~= self
                    .rows@.subrange(0, i as int));
                assert(self.rows@.subrange(0, (i + 1) as int).last() == self.rows@[i as int]);
            }
            let row = &self.rows[i];
            let keep = match &row.attribute {
                Attribute::EntryHeader => row.entity == *entity,
                _ => false,
            };
            if keep {
                out.push(row.value.clone());
            }
            i = i + 1;
        }
        proof {
            assert(self.rows@.subrange(0, self.rows@.len() as int) =~= self.rows@);
        }
        out
    }

    /// The most recent lifecycle status recorded for `entity`, if any
    /// status row exists.
    pub fn crud_status(&self, entity: &Address) -> (r: Option<CrudStatus>)
        ensures
            match latest_status_value(self.rows@, entity@) {
                Some(v) => r == Some(status_of_value(v@)),
                None => r is None,
            },
    {
        let mut i: usize = self.rows.len();
        proof {
            assert(self.rows@.subrange(0, self.rows@.len() as int) =~= self.rows@);
        }
        while i > 0
            invariant
                i <= self.rows@.len(),
                latest_status_value(self.rows@, entity@) == latest_status_value(
                    self.rows@.subrange(0, i as int),
                    entity@,
                ),
            decreases i,
        {
            proof {
                assert(self.rows@.subrange(0, i as int).drop_last() =~= self.rows@.subrange(
                    0,
                    (i - 1) as int,
                ));
                assert(self.rows@.subrange(0, i as int).last() == self.rows@[i - 1]);
            }
            let row = &self.rows[i - 1];
            let is_status = match &row.attribute {
                Attribute::CrudStatus => row.entity == *entity,
                _ => false,
            };
            if is_status {
                let deleted = text_eq(&row.value, "deleted");
                let modified = text_eq(&row.value, "modified");
                if deleted {
                    return Some(CrudStatus::Deleted);
                } else if modified {
                    return Some(CrudStatus::Modified);
                } else {
                    return Some(CrudStatus::Live);
                }
            }
            i = i - 1;
        }
        proof {
            assert(self.rows@.subrange(0, 0) =~= Seq::<Eavi>::empty());
        }
        None
    }

    /// The live link targets from `base` under `tag`, in insertion order.
    pub fn link_targets(&self, base: &Address, tag: &String) -> (r: Vec<Address>)
        ensures
            r@ == live_link_targets(self.rows@, base@, tag@),
    {
        let mut out: Vec<Address> = Vec::new();
        let mut k: usize = 0;
        while k < self.rows.len()
            invariant
                k <= self.rows@.len(),
                out@ == live_link_targets_upto(self.rows@, base@, tag@, k as int),
            decreases self.rows@.len() - k,
        {
            let row = &self.rows[k];
            let is_link = match &row.attribute {
                Attribute::LinkTag(t) => row.entity == *base && *t == *tag,
                _ => false,
            };
            if is_link {
                let mut removed = false;
                let mut j: usize = k + 1;
                while j < self.rows.len()
                    invariant
                        k < j <= self.rows@.len(),
                        k < self.rows@.len(),
                        removed <==> exists|m: int|
                            k < m < j && is_link_removal_row(
                                #[trigger] self.rows@[m],
                                base@,
                                tag@,
                                self.rows@[k as int].value@,
                            ),
                    decreases self.rows@.len() - j,
                {
                    let later = &self.rows[j];
                    let hit = match &later.attribute {
                        Attribute::RemovedLinkTag(t) => later.entity == *base && *t == *tag
                            && later.value == self.rows[k].value,
                        _ => false,
                    };
                    if hit {
                        removed = true;
                    }
                    j = j + 1;
                }
                if !removed {
                    out.push(self.rows[k].value.clone());
                }
            }
            proof {
                assert(out@ == live_link_targets_upto(self.rows@, base@, tag@, (k + 1) as int));
            }
            k = k + 1;
        }
        out
    }
}

} // verus!
