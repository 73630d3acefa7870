//! Entries: the immutable, content-addressed units of application data.
//!
//! An entry is never changed in place; deletion and update are modelled as
//! new entries (deletion markers, link tombstones) plus derived status
//! metadata.  Every entry has a canonical serialization, and its address is
//! derived from it.

use vstd::prelude::*;
use vstd::string::*;
use crate::dna::Dna;
use crate::dna::canon_of_dna;
use crate::dna::dna_eqv;
use crate::dna::append_canon_dna;
use crate::dna::valid_app_entry_name;
use crate::hashing::Address;
use crate::hashing::address_for_bytes;
use crate::hashing::address_text_of;
use crate::hashing::canon_str;
use crate::hashing::append_canon_str;
use crate::hashing::utf8_of;

verus! {

/// A participant, identified by a public signing key.
#[derive(Debug, PartialEq)]
pub struct AgentId {
    /// A human-readable nickname.
    pub nick: String,
    /// The agent's public signing key; also its address.
    pub pub_sign_key: String,
}

impl Clone for AgentId {
    fn clone(&self) -> (r: Self)
        ensures
            r == *self,
    {
        AgentId { nick: self.nick.clone(), pub_sign_key: self.pub_sign_key.clone() }
    }
}

impl AgentId {
    /// A fresh agent identity.
    pub fn new(nick: String, pub_sign_key: String) -> (r: Self)
        ensures
            r == (AgentId { nick, pub_sign_key }),
    {
        AgentId { nick, pub_sign_key }
    }

    /// An agent's address is its public signing key.
    pub fn address(&self) -> (r: Address)
        ensures
            r == self.pub_sign_key,
    {
        self.pub_sign_key.clone()
    }
}

/// The type tag of an entry.
#[derive(Debug, PartialEq)]
pub enum EntryType {
    /// An application-defined record type, by name.
    App(String),
    /// The application manifest itself.
    Dna,
    /// An agent identity record.
    AgentId,
    /// A deletion marker.
    Deletion,
    /// A link-addition record.
    LinkAdd,
    /// A link-removal record.
    LinkRemove,
}

impl Clone for EntryType {
    fn clone(&self) -> (r: Self)
        ensures
            r == *self,
    {
        match self {
            EntryType::App(n) => EntryType::App(n.clone()),
            EntryType::Dna => EntryType::Dna,
            EntryType::AgentId => EntryType::AgentId,
            EntryType::Deletion => EntryType::Deletion,
            EntryType::LinkAdd => EntryType::LinkAdd,
            EntryType::LinkRemove => EntryType::LinkRemove,
        }
    }
}

/// Whether two entry-type tags carry the same observable content.
pub open spec fn et_matches(a: EntryType, b: EntryType) -> bool {
    match a {
        EntryType::App(x) => match b {
            EntryType::App(y) => x@ == y@,
            _ => false,
        },
        EntryType::Dna => b is Dna,
        EntryType::AgentId => b is AgentId,
        EntryType::Deletion => b is Deletion,
        EntryType::LinkAdd => b is LinkAdd,
        EntryType::LinkRemove => b is LinkRemove,
    }
}

impl EntryType {
    /// Whether this tag carries the same observable content as `other`.
    pub fn same(&self, other: &EntryType) -> (r: bool)
        ensures
            r == et_matches(*self, *other),
    {
        match self {
            EntryType::App(x) => match other {
                EntryType::App(y) => *x == *y,
                _ => false,
            },
            EntryType::Dna => match other {
                EntryType::Dna => true,
                _ => false,
            },
            EntryType::AgentId => match other {
                EntryType::AgentId => true,
                _ => false,
            },
            EntryType::Deletion => match other {
                EntryType::Deletion => true,
                _ => false,
            },
            EntryType::LinkAdd => match other {
                EntryType::LinkAdd => true,
                _ => false,
            },
            EntryType::LinkRemove => match other {
                EntryType::LinkRemove => true,
                _ => false,
            },
        }
    }

    /// Whether `name` may name an application entry type: non-empty and
    /// without the reserved system prefix.
    pub fn has_valid_app_name(name: &String) -> (r: bool)
        ensures
            r == valid_app_entry_name(name@),
    {
        if name.as_str().unicode_len() == 0 {
            false
        } else {
            name.as_str().get_char(0) != '%'
        }
    }
}

/// A typed, tagged connection from one address to another.
#[derive(Debug, PartialEq)]
pub struct Link {
    pub base: Address,
    pub target: Address,
    pub tag: String,
}

impl Clone for Link {
    fn clone(&self) -> (r: Self)
        ensures
            r == *self,
    {
        Link { base: self.base.clone(), target: self.target.clone(), tag: self.tag.clone() }
    }
}

impl Link {
    /// A link from `base` to `target` under `tag`.
    pub fn new(base: &Address, target: &Address, tag: &str) -> (r: Self)
        ensures
            r.base == *base,
            r.target == *target,
            r.tag@ == tag@,
    {
        Link { base: base.clone(), target: target.clone(), tag: tag.to_owned() }
    }
}

/// A deletion marker naming the entry it deletes.
#[derive(Debug, PartialEq)]
pub struct DeletionEntry {
    pub deleted_entry_address: Address,
}

impl Clone for DeletionEntry {
    fn clone(&self) -> (r: Self)
        ensures
            r == *self,
    {
        DeletionEntry { deleted_entry_address: self.deleted_entry_address.clone() }
    }
}

impl DeletionEntry {
    /// A deletion marker for the entry at the given address.
    pub fn new(deleted_entry_address: Address) -> (r: Self)
        ensures
            r == (DeletionEntry { deleted_entry_address }),
    {
        DeletionEntry { deleted_entry_address }
    }
}

/// An immutable unit of application data.
#[derive(Debug, PartialEq)]
pub enum Entry {
    /// An application record: its type name and serialized value.
    App(String, String),
    /// The application manifest.
    Dna(Dna),
    /// An agent identity.
    AgentId(AgentId),
    /// A deletion marker.
    Deletion(DeletionEntry),
    /// A link addition.
    LinkAdd(Link),
    /// A link removal.
    LinkRemove(Link),
}

/// Observable equality of entries: equality, except that manifests are
/// compared field by field.
pub open spec fn entry_eqv(a: Entry, b: Entry) -> bool {
    match (a, b) {
        (Entry::Dna(x), Entry::Dna(y)) => dna_eqv(x, y),
        _ => a == b,
    }
}

impl Clone for Entry {
    fn clone(&self) -> (r: Self)
        ensures
            entry_eqv(r, *self),
    {
        match self {
            Entry::App(t, v) => Entry::App(t.clone(), v.clone()),
            Entry::Dna(d) => Entry::Dna(d.clone()),
            Entry::AgentId(a) => Entry::AgentId(a.clone()),
            Entry::Deletion(d) => Entry::Deletion(d.clone()),
            Entry::LinkAdd(l) => Entry::LinkAdd(l.clone()),
            Entry::LinkRemove(l) => Entry::LinkRemove(l.clone()),
        }
    }
}

/// The type tag of an entry.
pub open spec fn entry_type_of(e: Entry) -> EntryType {
    match e {
        Entry::App(t, _) => EntryType::App(t),
        Entry::Dna(_) => EntryType::Dna,
        Entry::AgentId(_) => EntryType::AgentId,
        Entry::Deletion(_) => EntryType::Deletion,
        Entry::LinkAdd(_) => EntryType::LinkAdd,
        Entry::LinkRemove(_) => EntryType::LinkRemove,
    }
}

/// The canonical form of a link.
pub open spec fn canon_of_link(l: Link) -> Seq<u8> {
    canon_str(utf8_of(l.base@)) + canon_str(utf8_of(l.target@)) + canon_str(utf8_of(l.tag@))
}

/// The canonical serialization of an entry.
#[verifier::opaque]
pub open spec fn canon_of_entry(e: Entry) -> Seq<u8> {
    match e {
        Entry::App(t, v) => seq![1u8] + canon_str(utf8_of(t@)) + canon_str(utf8_of(v@)),
        Entry::Dna(d) => seq![2u8] + canon_of_dna(d),
        Entry::AgentId(a) => seq![3u8] + canon_str(utf8_of(a.nick@)) + canon_str(
            utf8_of(a.pub_sign_key@),
        ),
        Entry::Deletion(d) => seq![4u8] + canon_str(utf8_of(d.deleted_entry_address@)),
        Entry::LinkAdd(l) => seq![5u8] + canon_of_link(l),
        Entry::LinkRemove(l) => seq![6u8] + canon_of_link(l),
    }
}

/// Observably equal entries serialize identically, and so share one
/// address.
pub proof fn lemma_entry_eqv_same_canon(a: Entry, b: Entry)
    requires
        entry_eqv(a, b),
    ensures
        canon_of_entry(a) == canon_of_entry(b),
{
    reveal(canon_of_entry);
    match (a, b) {
        (Entry::Dna(x), Entry::Dna(y)) => {
            crate::dna::lemma_canon_dna_congruence(x, y);
        },
        _ => {},
    }
}

/// The address text of an entry: derived from its canonical serialization.
pub open spec fn entry_address_text(e: Entry) -> Seq<char> {
    address_text_of(canon_of_entry(e))
}

/// Append the canonical form of a link.
fn append_canon_link(out: &mut Vec<u8>, l: &Link)
    ensures
        final(out)@ == old(out)@ + canon_of_link(*l),
{
    append_canon_str(out, &l.base);
    append_canon_str(out, &l.target);
    append_canon_str(out, &l.tag);
    proof {
        assert(out@ =~= old(out)@ + canon_of_link(*l));
    }
}

impl Entry {
    /// The type tag of this entry.
    pub fn entry_type(&self) -> (t: EntryType)
        ensures
            t == entry_type_of(*self),
    {
        match self {
            Entry::App(t, _) => EntryType::App(t.clone()),
            Entry::Dna(_) => EntryType::Dna,
            Entry::AgentId(_) => EntryType::AgentId,
            Entry::Deletion(_) => EntryType::Deletion,
            Entry::LinkAdd(_) => EntryType::LinkAdd,
            Entry::LinkRemove(_) => EntryType::LinkRemove,
        }
    }

    /// This entry's canonical serialization.
    pub fn canonical_bytes(&self) -> (r: Vec<u8>)
        ensures
            r@ == canon_of_entry(*self),
    {
        let mut out: Vec<u8> = Vec::new();
        match self {
            Entry::App(t, v) => {
                out.push(1u8);
                append_canon_str(&mut out, t);
                append_canon_str(&mut out, v);
            },
            Entry::Dna(d) => {
                out.push(2u8);
                append_canon_dna(&mut out, d);
            },
            Entry::AgentId(a) => {
                out.push(3u8);
                append_canon_str(&mut out, &a.nick);
                append_canon_str(&mut out, &a.pub_sign_key);
            },
            Entry::Deletion(d) => {
                out.push(4u8);
                append_canon_str(&mut out, &d.deleted_entry_address);
            },
            Entry::LinkAdd(l) => {
                out.push(5u8);
                append_canon_link(&mut out, l);
            },
            Entry::LinkRemove(l) => {
                out.push(6u8);
                append_canon_link(&mut out, l);
            },
        }
        proof {
            reveal(canon_of_entry);
            assert(out@ =~= canon_of_entry(*self));
        }
        out
    }

    /// This entry's address.
    pub fn address(&self) -> (r: Address)
        ensures
            r@ == entry_address_text(*self),
    {
        let bytes = self.canonical_bytes();
        address_for_bytes(&bytes)
    }
}

} // verus!
