//! The DHT store: this node's shard of the network's validated content.
//!
//! Two sub-stores: a content-addressable store for entries and held
//! headers (write-once: adding the same address twice is a no-op, not an
//! error), and the append-only metadata store for links, lifecycle status
//! and provenance headers.

use vstd::prelude::*;
use crate::chain::ChainHeader;
use crate::chain::header_address_text;
use crate::eav::Attribute;
use crate::eav::EavStore;
use crate::eav::Eavi;
use crate::entry::Entry;
use crate::entry::entry_address_text;
use crate::hashing::Address;

verus! {

/// One record of the entry store: an address and the entry it names.
#[derive(Debug, PartialEq)]
pub struct CasRow {
    pub address: Address,
    pub entry: Entry,
}

/// One record of the held-header store: an address and the header it
/// names.
#[derive(Debug, PartialEq)]
pub struct HeaderRow {
    pub address: Address,
    pub header: ChainHeader,
}

/// The first entry stored under the given address.
pub open spec fn cas_lookup(rows: Seq<CasRow>, addr: Seq<char>) -> Option<Entry>
    decreases rows.len(),
{
    if rows.len() == 0 {
        None
    } else {
        match cas_lookup(rows.drop_last(), addr) {
            Some(e) => Some(e),
            None => if rows.last().address@ == addr {
                Some(rows.last().entry)
            } else {
                None
            },
        }
    }
}

/// Whether some entry is stored under the given address.
pub open spec fn cas_has(rows: Seq<CasRow>, addr: Seq<char>) -> bool {
    cas_lookup(rows, addr) is Some
}

/// The first header stored under the given address.
pub open spec fn header_cas_lookup(rows: Seq<HeaderRow>, addr: Seq<char>) -> Option<ChainHeader>
    decreases rows.len(),
{
    if rows.len() == 0 {
        None
    } else {
        match header_cas_lookup(rows.drop_last(), addr) {
            Some(h) => Some(h),
            None => if rows.last().address@ == addr {
                Some(rows.last().header)
            } else {
                None
            },
        }
    }
}

/// What adding `entry` does to the entry store: nothing if its address is
/// already present (write-once), else exactly one appended record.
pub open spec fn cas_added(pre: Seq<CasRow>, post: Seq<CasRow>, entry: Entry) -> bool {
    if cas_has(pre, entry_address_text(entry)) {
        post == pre
    } else {
        &&& post.len() == pre.len() + 1
        &&& post.drop_last() == pre
        &&& post.last().entry == entry
        &&& post.last().address@ == entry_address_text(entry)
    }
}

/// What adding `header` does to the held-header store: nothing if its
/// address is already present, else exactly one appended record.
pub open spec fn header_cas_added(pre: Seq<HeaderRow>, post: Seq<HeaderRow>, header: ChainHeader) -> bool {
    if header_cas_lookup(pre, header_address_text(header)) is Some {
        post == pre
    } else {
        &&& post.len() == pre.len() + 1
        &&& post.drop_last() == pre
        &&& post.last().header == header
        &&& post.last().address@ == header_address_text(header)
    }
}

/// The DHT state slice: entry store, held headers, and metadata.
#[derive(Debug, PartialEq)]
pub struct DhtStore {
    pub entries: Vec<CasRow>,
    pub headers: Vec<HeaderRow>,
    pub meta: EavStore,
}

impl DhtStore {
    /// An empty DHT shard.
    pub fn new() -> (r: Self)
        ensures
            r.entries@ == Seq::<CasRow>::empty(),
            r.headers@ == Seq::<HeaderRow>::empty(),
            r.meta.rows@ == Seq::<Eavi>::empty(),
    {
        let r = DhtStore { entries: Vec::new(), headers: Vec::new(), meta: EavStore::new() };
        proof {
            assert(r.entries@ =~= Seq::<CasRow>::empty());
            assert(r.headers@ =~= Seq::<HeaderRow>::empty());
        }
        r
    }

    /// Store an entry under its address; a second store of the same
    /// address is a no-op, not an error.
    pub fn add(&mut self, entry: Entry)
        ensures
            cas_added(old(self).entries@, final(self).entries@, entry),
            final(self).headers == old(self).headers,
            final(self).meta == old(self).meta,
    {
        let addr = entry.address();
        if self.has_entry(&addr) {
            return;
        }
        self.entries.push(CasRow { address: addr, entry });
        proof {
            assert(self.entries@.drop_last() =~= old(self).entries@);
        }
    }

    /// Whether an entry is stored under the given address.
    pub fn has_entry(&self, address: &Address) -> (r: bool)
        ensures
            r == cas_has(self.entries@, address@),
    {
        let mut i: usize = self.entries.len();
        proof {
            assert(self.entries@.subrange(0, self.entries@.len() as int) =~= self.entries@);
        }
        while i > 0
            invariant
                i <= self.entries@.len(),
                cas_lookup(self.entries@, address@) == cas_lookup(
                    self.entries@.subrange(0, i as int),
                    address@,
                ),
            decreases i,
        {
            proof {
                assert(self.entries@.subrange(0, i as int).drop_last() =~= self
                    .entries@.subrange(0, (i - 1) as int));
                assert(self.entries@.subrange(0, i as int).last() == self.entries@[i - 1]);
            }
            if self.entries[i - 1].address == *address {
                return true;
            }
            i = i - 1;
        }
        proof {
            assert(self.entries@.subrange(0, 0) =~= Seq::<CasRow>::empty());
        }
        false
    }

    /// The entry stored under the given address, if any.
    pub fn get_entry(&self, address: &Address) -> (r: Option<Entry>)
        ensures
            match (r, cas_lookup(self.entries@, address@)) {
                (Some(got), Some(stored)) => crate::entry::entry_eqv(got, stored),
                (None, None) => true,
                _ => false,
            },
    {
        let mut i: usize = 0;
        proof {
            assert(self.entries@.subrange(0, 0) =~= Seq::<CasRow>::empty());
        }
        while i < self.entries.len()
            invariant
                i <= self.entries@.len(),
                cas_lookup(self.entries@.subrange(0, i as int), address@) is None,
            decreases self.entries@.len() - i,
        {
            proof {
                assert(self.entries@.subrange(0, (i + 1) as int).drop_last() =~= self
                    .entries@.subrange(0, i as int));
                assert(self.entries@.subrange(0, (i + 1) as int).last() == self
                    .entries@[i as int]);
            }
            if self.entries[i].address == *address {
                proof {
                    lemma_cas_lookup_extends(
                        self.entries@,
                        (i + 1) as int,
                        address@,
                    );
                }
                return Some(self.entries[i].entry.clone());
            }
            i = i + 1;
        }
        proof {
            assert(self.entries@.subrange(0, self.entries@.len() as int) =~= self.entries@);
        }
        None
    }

    /// The held header stored under the given address, if any.
    pub fn get_header(&self, address: &Address) -> (r: Option<ChainHeader>)
        ensures
            r == header_cas_lookup(self.headers@, address@),
    {
        let mut i: usize = 0;
        proof {
            assert(self.headers@.subrange(0, 0) =~= Seq::<HeaderRow>::empty());
        }
        while i < self.headers.len()
            invariant
                i <= self.headers@.len(),
                header_cas_lookup(self.headers@.subrange(0, i as int), address@) is None,
            decreases self.headers@.len() - i,
        {
            proof {
                assert(self.headers@.subrange(0, (i + 1) as int).drop_last() =~= self
                    .headers@.subrange(0, i as int));
                assert(self.headers@.subrange(0, (i + 1) as int).last() == self
                    .headers@[i as int]);
            }
            if self.headers[i].address == *address {
                proof {
                    lemma_header_lookup_extends(self.headers@, (i + 1) as int, address@);
                }
                return Some(self.headers[i].header.clone());
            }
            i = i + 1;
        }
        proof {
            assert(self.headers@.subrange(0, self.headers@.len() as int) =~= self.headers@);
        }
        None
    }

    /// Hold a header for an entry: store the header's content and record
    /// its address as entry metadata.
    pub fn add_header_for_entry(&mut self, entry: &Entry, header: &ChainHeader) -> (r: Result<
        (),
        crate::error::HolochainError,
    >)
        requires
            old(self).meta.rows@.len() < u64::MAX,
        ensures
            r is Ok,
            header_cas_added(old(self).headers@, final(self).headers@, *header),
            final(self).entries == old(self).entries,
            ({
                let row = final(self).meta.rows@.last();
                &&& final(self).meta.rows@ == old(self).meta.rows@.push(row)
                &&& row.entity@ == entry_address_text(*entry)
                &&& row.attribute is EntryHeader
                &&& row.value@ == header_address_text(*header)
                &&& row.index == old(self).meta.rows@.len()
            }),
    {
        let header_addr = header.address();
        self.add_header(header.clone());
        let row = Eavi {
            entity: entry.address(),
            attribute: Attribute::EntryHeader,
            value: header_addr,
            index: 0,
        };
        self.meta.add_eavi(row);
        Ok(())
    }

    /// Store a held header under its address; write-once.
    pub fn add_header(&mut self, header: ChainHeader)
        ensures
            header_cas_added(old(self).headers@, final(self).headers@, header),
            final(self).entries == old(self).entries,
            final(self).meta == old(self).meta,
    {
        let addr = header.address();
        if self.get_header(&addr).is_some() {
            return;
        }
        self.headers.push(HeaderRow { address: addr, header });
        proof {
            assert(self.headers@.drop_last() =~= old(self).headers@);
        }
    }
}

/// Once a prefix of the store resolves an address, the whole store
/// resolves it to the same entry.
proof fn lemma_cas_lookup_extends(rows: Seq<CasRow>, k: int, addr: Seq<char>)
    requires
        0 <= k <= rows.len(),
        cas_lookup(rows.subrange(0, k), addr) is Some,
    ensures
        cas_lookup(rows, addr) == cas_lookup(rows.subrange(0, k), addr),
    decreases rows.len() - k,
{
    if k < rows.len() {
        assert(rows.subrange(0, k + 1).drop_last() =~= rows.subrange(0, k));
        assert(rows.subrange(0, k + 1).last() == rows[k]);
        lemma_cas_lookup_extends(rows, k + 1, addr);
    } else {
        assert(rows.subrange(0, k) =~= rows);
    }
}

/// Once a prefix of the store resolves an address, the whole store
/// resolves it to the same header.
proof fn lemma_header_lookup_extends(rows: Seq<HeaderRow>, k: int, addr: Seq<char>)
    requires
        0 <= k <= rows.len(),
        header_cas_lookup(rows.subrange(0, k), addr) is Some,
    ensures
        header_cas_lookup(rows, addr) == header_cas_lookup(rows.subrange(0, k), addr),
    decreases rows.len() - k,
{
    if k < rows.len() {
        assert(rows.subrange(0, k + 1).drop_last() =~= rows.subrange(0, k));
        assert(rows.subrange(0, k + 1).last() == rows[k]);
        lemma_header_lookup_extends(rows, k + 1, addr);
    } else {
        assert(rows.subrange(0, k) =~= rows);
    }
}

} // verus!
