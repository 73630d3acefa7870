//! Actions: the discriminated commands that advance a node's state.
//!
//! An action describes an intended state transition; it is wrapped with an
//! identity used for history tracking and at-most-once bookkeeping.

use vstd::prelude::*;
use crate::chain::EntryWithHeader;
use crate::dna::Dna;
use crate::entry::Entry;
use crate::entry::Link;
use crate::hashing::Address;

verus! {

/// What a node needs to join the network for one application.
#[derive(Debug, PartialEq)]
pub struct NetworkSettings {
    /// The address of the application whose network to join.
    pub dna_address: Address,
    /// This agent's identity on that network.
    pub agent_id: String,
}

/// A discriminated command describing an intended state transition.
#[derive(Debug, PartialEq)]
pub enum Action {
    /// Append an entry to the local chain; the second field optionally
    /// names the entry this commit updates or deletes.
    Commit(Entry, Option<Address>),
    /// Hold a remotely authored entry, with its provenance, in the local
    /// DHT shard.
    Hold(EntryWithHeader),
    /// Record a link in the DHT metadata.
    AddLink(Link),
    /// Record the removal of a link in the DHT metadata.
    RemoveLink(Link),
    /// Mark an entry deleted: the deleted entry's address, then the
    /// deletion entry's address.
    RemoveEntry(Address, Address),
    /// Install an application manifest into the nucleus.
    InitApplication(Dna),
    /// Join the network with the given settings.
    InitNetwork(NetworkSettings),
}

/// An action wrapped with the identity used for at-most-once bookkeeping.
#[derive(Debug, PartialEq)]
pub struct ActionWrapper {
    /// The identity of this dispatch, unique per node.
    pub id: u64,
    /// The command itself.
    pub action: Action,
}

impl ActionWrapper {
    /// Wrap an action under the given identity.
    pub fn new(id: u64, action: Action) -> (r: Self)
        ensures
            r == (ActionWrapper { id, action }),
    {
        ActionWrapper { id, action }
    }

    /// The wrapped command.
    pub fn action(&self) -> (r: &Action)
        ensures
            r == &self.action,
    {
        &self.action
    }

    /// The identity of this dispatch.
    pub fn id(&self) -> (r: u64)
        ensures
            r == self.id,
    {
        self.id
    }
}

} // verus!
