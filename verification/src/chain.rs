//! Chain headers and the agent's source chain.
//!
//! A chain header links an entry to its author's local log: it names the
//! entry, the previous header (forming a hash chain), a logical timestamp,
//! and the author's provenance.  The chain of headers for one agent is a
//! strictly ordered, tamper-evident singly linked list.

use vstd::prelude::*;
use crate::entry::Entry;
use crate::entry::EntryType;
use crate::entry::entry_type_of;
use crate::entry::entry_address_text;
use crate::entry::entry_eqv;
use crate::entry::AgentId;
use crate::hashing::Address;
use crate::hashing::address_for_bytes;
use crate::hashing::address_text_of;
use crate::hashing::canon_str;
use crate::hashing::append_canon_str;
use crate::hashing::push_be64;
use crate::hashing::be64_of;
use crate::hashing::utf8_of;

verus! {

/// Who authored a record: an author address and their signature over it.
/// Signatures are produced and checked by an external cryptographic
/// provider; this core only carries them.
#[derive(Debug, PartialEq)]
pub struct Provenance {
    pub source: Address,
    pub signature: String,
}

impl Clone for Provenance {
    fn clone(&self) -> (r: Self)
        ensures
            r == *self,
    {
        Provenance { source: self.source.clone(), signature: self.signature.clone() }
    }
}

/// A chain header: the provenance-bearing link between an entry and its
/// author's local log.
#[derive(Debug, PartialEq)]
pub struct ChainHeader {
    /// The type of the entry this header commits.
    pub entry_type: EntryType,
    /// The address of the entry this header commits.
    pub entry_address: Address,
    /// The author's provenance.
    pub provenance: Provenance,
    /// The address of the previous header in the chain, if any.
    pub link: Option<Address>,
    /// The address of an entry this commit updates or deletes, if any.
    pub link_update_delete: Option<Address>,
    /// A logical timestamp: the chain position at which this was committed.
    pub timestamp: u64,
}

impl Clone for ChainHeader {
    fn clone(&self) -> (r: Self)
        ensures
            r == *self,
    {
        ChainHeader {
            entry_type: self.entry_type.clone(),
            entry_address: self.entry_address.clone(),
            provenance: self.provenance.clone(),
            link: match &self.link {
                Some(a) => Some(a.clone()),
                None => None,
            },
            link_update_delete: match &self.link_update_delete {
                Some(a) => Some(a.clone()),
                None => None,
            },
            timestamp: self.timestamp,
        }
    }
}

/// The canonical form of an optional address.
pub open spec fn canon_of_opt_addr(a: Option<Address>) -> Seq<u8> {
    match a {
        Some(addr) => seq![1u8] + canon_str(utf8_of(addr@)),
        None => seq![0u8],
    }
}

/// The canonical form of an entry type tag.
pub open spec fn canon_of_entry_type(t: EntryType) -> Seq<u8> {
    match t {
        EntryType::App(n) => seq![1u8] + canon_str(utf8_of(n@)),
        EntryType::Dna => seq![2u8],
        EntryType::AgentId => seq![3u8],
        EntryType::Deletion => seq![4u8],
        EntryType::LinkAdd => seq![5u8],
        EntryType::LinkRemove => seq![6u8],
    }
}

/// The canonical serialization of a chain header.
#[verifier::opaque]
pub open spec fn canon_of_header(h: ChainHeader) -> Seq<u8> {
    canon_of_entry_type(h.entry_type) + canon_str(utf8_of(h.entry_address@)) + canon_str(
        utf8_of(h.provenance.source@),
    ) + canon_str(utf8_of(h.provenance.signature@)) + canon_of_opt_addr(h.link)
        + canon_of_opt_addr(h.link_update_delete) + be64_of(h.timestamp)
}

/// The address text of a chain header.
pub open spec fn header_address_text(h: ChainHeader) -> Seq<char> {
    address_text_of(canon_of_header(h))
}

/// Append the canonical form of an optional address.
fn append_canon_opt_addr(out: &mut Vec<u8>, a: &Option<Address>)
    ensures
        final(out)@ == old(out)@ + canon_of_opt_addr(*a),
{
    match a {
        Some(addr) => {
            out.push(1u8);
            append_canon_str(out, addr);
        },
        None => {
            out.push(0u8);
        },
    }
    proof {
        assert(out@ =~= old(out)@ + canon_of_opt_addr(*a));
    }
}

/// Append the canonical form of an entry type tag.
fn append_canon_entry_type(out: &mut Vec<u8>, t: &EntryType)
    ensures
        final(out)@ == old(out)@ + canon_of_entry_type(*t),
{
    match t {
        EntryType::App(n) => {
            out.push(1u8);
            append_canon_str(out, n);
        },
        EntryType::Dna => out.push(2u8),
        EntryType::AgentId => out.push(3u8),
        EntryType::Deletion => out.push(4u8),
        EntryType::LinkAdd => out.push(5u8),
        EntryType::LinkRemove => out.push(6u8),
    }
    proof {
        assert(out@ =~= old(out)@ + canon_of_entry_type(*t));
    }
}

impl ChainHeader {
    /// The address of the entry this header commits.
    pub fn entry_address(&self) -> (r: &Address)
        ensures
            r == &self.entry_address,
    {
        &self.entry_address
    }

    /// This header's canonical serialization.
    pub fn canonical_bytes(&self) -> (r: Vec<u8>)
        ensures
            r@ == canon_of_header(*self),
    {
        let mut out: Vec<u8> = Vec::new();
        append_canon_entry_type(&mut out, &self.entry_type);
        append_canon_str(&mut out, &self.entry_address);
        append_canon_str(&mut out, &self.provenance.source);
        append_canon_str(&mut out, &self.provenance.signature);
        append_canon_opt_addr(&mut out, &self.link);
        append_canon_opt_addr(&mut out, &self.link_update_delete);
        push_be64(&mut out, self.timestamp);
        proof {
            reveal(canon_of_header);
            assert(out@ =~= canon_of_header(*self));
        }
        out
    }

    /// This header's address.
    pub fn address(&self) -> (r: Address)
        ensures
            r@ == header_address_text(*self),
    {
        let bytes = self.canonical_bytes();
        address_for_bytes(&bytes)
    }
}

/// Whether two optional addresses carry the same text.
pub open spec fn opt_addr_matches(a: Option<Address>, b: Option<Address>) -> bool {
    match a {
        Some(x) => match b {
            Some(y) => x@ == y@,
            None => false,
        },
        None => b is None,
    }
}

/// Whether two optional addresses carry the same text.
pub fn same_opt_addr(a: &Option<Address>, b: &Option<Address>) -> (r: bool)
    ensures
        r == opt_addr_matches(*a, *b),
{
    match a {
        Some(x) => match b {
            Some(y) => *x == *y,
            None => false,
        },
        None => match b {
            Some(_) => false,
            None => true,
        },
    }
}

/// Whether two headers carry the same observable content.
pub open spec fn header_matches(a: ChainHeader, b: ChainHeader) -> bool {
    &&& crate::entry::et_matches(a.entry_type, b.entry_type)
    &&& a.entry_address@ == b.entry_address@
    &&& a.provenance.source@ == b.provenance.source@
    &&& a.provenance.signature@ == b.provenance.signature@
    &&& opt_addr_matches(a.link, b.link)
    &&& opt_addr_matches(a.link_update_delete, b.link_update_delete)
    &&& a.timestamp == b.timestamp
}

impl ChainHeader {
    /// Whether this header carries the same observable content as `other`.
    pub fn same_header(&self, other: &ChainHeader) -> (r: bool)
        ensures
            r == header_matches(*self, *other),
    {
        self.entry_type.same(&other.entry_type) && self.entry_address == other.entry_address
            && self.provenance.source == other.provenance.source && self.provenance.signature
            == other.provenance.signature && same_opt_addr(&self.link, &other.link)
            && same_opt_addr(&self.link_update_delete, &other.link_update_delete)
            && self.timestamp == other.timestamp
    }
}

/// What a freshly built header must say, given the entry, the author, the
/// previous top of chain, an optional update/delete reference, and the
/// logical timestamp.
pub open spec fn header_builds_on(
    h: ChainHeader,
    agent: AgentId,
    entry: Entry,
    prev: Option<ChainHeader>,
    link_update_delete: Option<Address>,
    timestamp: u64,
) -> bool {
    &&& h.entry_type == entry_type_of(entry)
    &&& h.entry_address@ == entry_address_text(entry)
    &&& h.provenance.source == agent.pub_sign_key
    &&& h.provenance.signature@ == Seq::<char>::empty()
    &&& match (h.link, prev) {
        (Some(a), Some(p)) => a@ == header_address_text(p),
        (None, None) => true,
        _ => false,
    }
    &&& h.link_update_delete == link_update_delete
    &&& h.timestamp == timestamp
}

/// Build the chain header that commits `entry` on top of `prev`.
pub fn create_new_chain_header(
    entry: &Entry,
    agent: &AgentId,
    prev: &Option<ChainHeader>,
    link_update_delete: Option<Address>,
    timestamp: u64,
) -> (h: ChainHeader)
    ensures
        header_builds_on(h, *agent, *entry, *prev, link_update_delete, timestamp),
{
    ChainHeader {
        entry_type: entry.entry_type(),
        entry_address: entry.address(),
        provenance: Provenance { source: agent.pub_sign_key.clone(), signature: String::new() },
        link: match prev {
            Some(p) => Some(p.address()),
            None => None,
        },
        link_update_delete,
        timestamp,
    }
}

/// One committed record of the source chain: a header and its entry.
#[derive(Debug, PartialEq)]
pub struct ChainItem {
    pub header: ChainHeader,
    pub entry: Entry,
}

/// Observable equality of chain items.
pub open spec fn chain_item_eqv(a: ChainItem, b: ChainItem) -> bool {
    a.header == b.header && entry_eqv(a.entry, b.entry)
}

impl Clone for ChainItem {
    fn clone(&self) -> (r: Self)
        ensures
            chain_item_eqv(r, *self),
    {
        ChainItem { header: self.header.clone(), entry: self.entry.clone() }
    }
}

/// The agent's append-only source chain, oldest record first.
#[derive(Debug, PartialEq)]
pub struct ChainStore {
    pub items: Vec<ChainItem>,
}

impl ChainStore {
    /// An empty chain.
    pub fn new() -> (r: Self)
        ensures
            r.items@ == Seq::<ChainItem>::empty(),
    {
        let r = ChainStore { items: Vec::new() };
        proof {
            assert(r.items@ =~= Seq::<ChainItem>::empty());
        }
        r
    }
}

/// The first chain entry whose header commits the given address.
pub open spec fn chain_lookup(items: Seq<ChainItem>, addr: Seq<char>) -> Option<Entry>
    decreases items.len(),
{
    if items.len() == 0 {
        None
    } else {
        match chain_lookup(items.drop_last(), addr) {
            Some(e) => Some(e),
            None => if items.last().header.entry_address@ == addr {
                Some(items.last().entry)
            } else {
                None
            },
        }
    }
}

/// The chain headers that commit the given address, oldest first.
pub open spec fn chain_headers_for(items: Seq<ChainItem>, addr: Seq<char>) -> Seq<ChainHeader>
    decreases items.len(),
{
    if items.len() == 0 {
        Seq::empty()
    } else {
        let init = chain_headers_for(items.drop_last(), addr);
        if items.last().header.entry_address@ == addr {
            init.push(items.last().header)
        } else {
            init
        }
    }
}

/// The oldest manifest entry on the chain, if any: the manifest the
/// chain was started under.
pub open spec fn chain_dna(items: Seq<ChainItem>) -> Option<crate::dna::Dna>
    decreases items.len(),
{
    if items.len() == 0 {
        None
    } else {
        match chain_dna(items.drop_last()) {
            Some(d) => Some(d),
            None => match items.last().entry {
                Entry::Dna(d) => Some(d),
                _ => None,
            },
        }
    }
}

/// The agent's state slice: its source chain and the top of that chain.
#[derive(Debug, PartialEq)]
pub struct AgentState {
    pub chain: ChainStore,
    pub top_chain_header: Option<ChainHeader>,
}

impl AgentState {
    /// A fresh agent slice over the given chain, with no top header.
    pub fn new(chain: ChainStore) -> (r: Self)
        ensures
            r.chain == chain,
            r.top_chain_header is None,
    {
        AgentState { chain, top_chain_header: None }
    }

    /// An agent slice over the given chain, resuming from the given top
    /// header.
    pub fn new_with_top_chain_header(chain: ChainStore, top: Option<ChainHeader>) -> (r: Self)
        ensures
            r.chain == chain,
            r.top_chain_header == top,
    {
        AgentState { chain, top_chain_header: top }
    }

    /// The most recent header committing the given entry, if any.
    #[verifier::rlimit(50)]
    pub fn get_most_recent_header_for_entry(&self, entry: &Entry) -> (r: Option<ChainHeader>)
        ensures
            match r {
                Some(h) => {
                    let hs = chain_headers_for(self.chain.items@, entry_address_text(*entry));
                    hs.len() > 0 && h == hs.last()
                },
                None => chain_headers_for(self.chain.items@, entry_address_text(*entry)).len()
                    == 0,
            },
    {
        let addr = entry.address();
        let ghost target = entry_address_text(*entry);
        let mut i: usize = self.chain.items.len();
        proof {
            assert(self.chain.items@.subrange(0, self.chain.items@.len() as int) =~= self
                .chain.items@);
        }
        while i > 0
            invariant
                i <= self.chain.items@.len(),
                addr@ == target,
                target == entry_address_text(*entry),
                chain_headers_for(self.chain.items@, target) == chain_headers_for(
                    self.chain.items@.subrange(0, i as int),
                    target,
                ),
            decreases i,
        {
            proof {
                assert(self.chain.items@.subrange(0, i as int).drop_last() =~= self
                    .chain.items@.subrange(0, (i - 1) as int));
            }
            if self.chain.items[i - 1].header.entry_address == addr {
                proof {
                    assert(self.chain.items@.subrange(0, i as int).last() == self
                        .chain.items@[i - 1]);
                    assert(chain_headers_for(self.chain.items@.subrange(0, i as int), target)
                        == chain_headers_for(
                        self.chain.items@.subrange(0, (i - 1) as int),
                        target,
                    ).push(self.chain.items@[i - 1].header));
                }
                return Some(self.chain.items[i - 1].header.clone());
            }
            i = i - 1;
        }
        proof {
            assert(chain_headers_for(self.chain.items@.subrange(0, 0), target) =~= Seq::<
                ChainHeader,
            >::empty());
        }
        None
    }
}

/// The chain is a strictly ordered, tamper-evident singly linked list:
/// every record carries its position as its timestamp and names its
/// predecessor's address, and the first record has no predecessor.
pub open spec fn chain_well_formed(items: Seq<ChainItem>) -> bool {
    forall|i: int|
        0 <= i < items.len() ==> {
            &&& (#[trigger] items[i]).header.timestamp == i
            &&& if i == 0 {
                items[i].header.link is None
            } else {
                items[i].header.link matches Some(a) && a@ == header_address_text(
                    items[i - 1].header,
                )
            }
        }
}

/// The recorded top of chain is exactly the last committed header.
pub open spec fn top_matches_chain(a: AgentState) -> bool {
    if a.chain.items@.len() == 0 {
        a.top_chain_header is None
    } else {
        a.top_chain_header == Some(a.chain.items@.last().header)
    }
}

/// A resumable snapshot of an agent's chain state.
#[derive(Debug, PartialEq)]
pub struct AgentStateSnapshot {
    pub chain: ChainStore,
    pub top_chain_header: Option<ChainHeader>,
}

impl AgentStateSnapshot {
    /// The top header recorded in this snapshot.
    pub fn top_chain_header(&self) -> (r: &Option<ChainHeader>)
        ensures
            r == &self.top_chain_header,
    {
        &self.top_chain_header
    }
}

/// An entry paired with its header, used when entries cross the node
/// boundary so that provenance travels with content.
#[derive(Debug, PartialEq)]
pub struct EntryWithHeader {
    pub entry: Entry,
    pub header: ChainHeader,
}

/// Observable equality of entry/header pairs.
pub open spec fn ewh_eqv(a: EntryWithHeader, b: EntryWithHeader) -> bool {
    entry_eqv(a.entry, b.entry) && a.header == b.header
}

impl Clone for EntryWithHeader {
    fn clone(&self) -> (r: Self)
        ensures
            ewh_eqv(r, *self),
    {
        EntryWithHeader { entry: self.entry.clone(), header: self.header.clone() }
    }
}

} // verus!
