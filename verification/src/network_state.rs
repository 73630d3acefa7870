//! The network state slice.
//!
//! Records which application network this node has joined and under which
//! agent identity.  The transport itself — dialing, discovery, wire
//! framing — is an external collaborator; this slice only tracks the
//! session.

use vstd::prelude::*;
use crate::hashing::Address;

verus! {

/// The network session this node tracks.
#[derive(Debug, PartialEq)]
pub struct NetworkState {
    /// The address of the application network joined, once initialized.
    pub dna_address: Option<Address>,
    /// The agent identity used on that network, once initialized.
    pub agent_id: Option<String>,
}

impl NetworkState {
    /// A network slice that has not joined any network yet.
    pub fn new() -> (r: Self)
        ensures
            r.dna_address is None,
            r.agent_id is None,
    {
        NetworkState { dna_address: None, agent_id: None }
    }

    /// Whether the node has joined a network.
    pub fn initialized(&self) -> (r: bool)
        ensures
            r == (self.dna_address is Some && self.agent_id is Some),
    {
        self.dna_address.is_some() && self.agent_id.is_some()
    }
}

} // verus!
