//! The state container.
//!
//! A node's state is an immutable snapshot of four slices — nucleus, agent
//! chain, DHT shard, network session — plus the history of applied action
//! identities.  It is advanced only through `reduce`, which produces a new
//! snapshot by reducing each slice independently against the same action
//! and then recording the action's identity.  Re-dispatching an identity
//! already in history is a no-op, so retried deliveries are harmless.

use vstd::prelude::*;
use crate::action::Action;
use crate::action::ActionWrapper;
use crate::chain::AgentState;
use crate::chain::AgentStateSnapshot;
use crate::chain::ChainHeader;
use crate::chain::ChainItem;
use crate::chain::ChainStore;
use crate::chain::chain_dna;
use crate::chain::chain_headers_for;
use crate::chain::header_address_text;
use crate::chain::header_builds_on;
use crate::context::Context;
use crate::dht::DhtStore;
use crate::dht::HeaderRow;
use crate::dht::cas_added;
use crate::dht::header_cas_added;
use crate::dht::header_cas_lookup;
use crate::dna::dna_eqv;
use crate::eav::Attribute;
use crate::eav::Eavi;
use crate::eav::create_crud_status_eav;
use crate::eav::header_values_for;
use crate::entry::AgentId;
use crate::entry::Entry;
use crate::entry::entry_address_text;
use crate::error::HolochainError;
use crate::hashing::Address;
use crate::network_state::NetworkState;
use crate::nucleus::NucleusState;

verus! {

/// The whole state of one node: four independently reduced slices and the
/// identities of the actions already applied.
#[derive(Debug, PartialEq)]
pub struct State {
    pub nucleus: NucleusState,
    pub agent: AgentState,
    pub dht: DhtStore,
    pub network: NetworkState,
    /// The identities of applied actions, in application order.
    pub history: Vec<u64>,
}

// --- what each slice reducer does ---------------------------------------

/// What committing `entry` does to the agent slice: exactly one record is
/// appended, its header links the previous top, and it becomes the top.
pub open spec fn agent_committed(
    agent_id: AgentId,
    pre: AgentState,
    post: AgentState,
    entry: Entry,
    crud_link: Option<Address>,
) -> bool {
    &&& post.chain.items@.len() == pre.chain.items@.len() + 1
    &&& post.chain.items@.drop_last() == pre.chain.items@
    &&& post.chain.items@.last().entry == entry
    &&& header_builds_on(
        post.chain.items@.last().header,
        agent_id,
        entry,
        pre.top_chain_header,
        crud_link,
        pre.chain.items@.len() as u64,
    )
    &&& post.top_chain_header == Some(post.chain.items@.last().header)
}

/// How the agent slice reacts to an action.
pub open spec fn agent_reduced(
    agent_id: AgentId,
    pre: AgentState,
    post: AgentState,
    action: Action,
) -> bool {
    match action {
        Action::Commit(entry, crud_link) => agent_committed(agent_id, pre, post, entry, crud_link),
        _ => post == pre,
    }
}

/// What holding a remotely authored entry does to the DHT slice: the entry
/// and its header are stored, and a header row is recorded for the entry.
pub open spec fn dht_held(pre: DhtStore, post: DhtStore, entry: Entry, header: ChainHeader) -> bool {
    &&& cas_added(pre.entries@, post.entries@, entry)
    &&& header_cas_added(pre.headers@, post.headers@, header)
    &&& ({
        let row = post.meta.rows@.last();
        &&& post.meta.rows@ == pre.meta.rows@.push(row)
        &&& row.entity@ == entry_address_text(entry)
        &&& row.attribute is EntryHeader
        &&& row.value@ == header_address_text(header)
        &&& row.index == pre.meta.rows@.len()
    })
}

/// What marking an entry deleted does to the DHT slice: a status row and a
/// lifecycle-link row are appended, nothing else changes.
pub open spec fn dht_entry_removed(
    pre: DhtStore,
    post: DhtStore,
    deleted: Address,
    deletion: Address,
) -> bool {
    &&& post.entries == pre.entries
    &&& post.headers == pre.headers
    &&& ({
        let n = pre.meta.rows@.len() as int;
        let r1 = post.meta.rows@[n];
        let r2 = post.meta.rows@[n + 1];
        &&& post.meta.rows@ == pre.meta.rows@.push(r1).push(r2)
        &&& r1.entity == deleted
        &&& r1.attribute is CrudStatus
        &&& r1.value@ == "deleted"@
        &&& r1.index == n
        &&& r2.entity == deleted
        &&& r2.attribute is CrudLink
        &&& r2.value == deletion
        &&& r2.index == n + 1
    })
}

/// How the DHT slice reacts to an action.
pub open spec fn dht_reduced(pre: DhtStore, post: DhtStore, action: Action) -> bool {
    match action {
        Action::Hold(ewh) => dht_held(pre, post, ewh.entry, ewh.header),
        Action::AddLink(link) => {
            &&& post.entries == pre.entries
            &&& post.headers == pre.headers
            &&& post.meta.rows@ == pre.meta.rows@.push(
                Eavi {
                    entity: link.base,
                    attribute: Attribute::LinkTag(link.tag),
                    value: link.target,
                    index: pre.meta.rows@.len() as u64,
                },
            )
        },
        Action::RemoveLink(link) => {
            &&& post.entries == pre.entries
            &&& post.headers == pre.headers
            &&& post.meta.rows@ == pre.meta.rows@.push(
                Eavi {
                    entity: link.base,
                    attribute: Attribute::RemovedLinkTag(link.tag),
                    value: link.target,
                    index: pre.meta.rows@.len() as u64,
                },
            )
        },
        Action::RemoveEntry(deleted, deletion) => dht_entry_removed(pre, post, deleted, deletion),
        _ => post == pre,
    }
}

/// How the nucleus slice reacts to an action.
pub open spec fn nucleus_reduced(pre: NucleusState, post: NucleusState, action: Action) -> bool {
    match action {
        Action::InitApplication(dna) => post.dna == Some(dna),
        _ => post == pre,
    }
}

/// How the network slice reacts to an action.
pub open spec fn network_reduced(pre: NetworkState, post: NetworkState, action: Action) -> bool {
    match action {
        Action::InitNetwork(settings) => post == (NetworkState {
            dna_address: Some(settings.dna_address),
            agent_id: Some(settings.agent_id),
        }),
        _ => post == pre,
    }
}

/// What one reduction does: an already-seen identity leaves the state
/// untouched; a fresh one advances each slice independently against the
/// same action and appends the identity to history.
pub open spec fn reduce_rel(ctx: Context, pre: State, post: State, aw: ActionWrapper) -> bool {
    if pre.history@.contains(aw.id) {
        post == pre
    } else {
        &&& nucleus_reduced(pre.nucleus, post.nucleus, aw.action)
        &&& agent_reduced(ctx.agent_id, pre.agent, post.agent, aw.action)
        &&& dht_reduced(pre.dht, post.dht, aw.action)
        &&& network_reduced(pre.network, post.network, aw.action)
        &&& post.history@ == pre.history@.push(aw.id)
    }
}

// --- the exec reducers ---------------------------------------------------

/// Reduce the agent slice for a commit.
fn reduce_commit(
    agent: AgentState,
    agent_id: &AgentId,
    entry: Entry,
    crud_link: Option<Address>,
) -> (post: AgentState)
    ensures
        agent_committed(*agent_id, agent, post, entry, crud_link),
{
    let AgentState { mut chain, top_chain_header } = agent;
    let timestamp = chain.items.len() as u64;
    let header = crate::chain::create_new_chain_header(
        &entry,
        agent_id,
        &top_chain_header,
        crud_link,
        timestamp,
    );
    chain.items.push(ChainItem { header: header.clone(), entry });
    proof {
        assert(chain.items@.drop_last() =~= agent.chain.items@);
    }
    AgentState { chain, top_chain_header: Some(header) }
}

/// Reduce the DHT slice for a hold.
fn reduce_hold(dht: DhtStore, entry: Entry, header: ChainHeader) -> (post: DhtStore)
    requires
        dht.meta.rows@.len() < u64::MAX,
    ensures
        dht_held(dht, post, entry, header),
{
    let mut dht = dht;
    let _r = dht.add_header_for_entry(&entry, &header);
    dht.add(entry);
    dht
}

/// Reduce the DHT slice for an entry removal.
fn reduce_remove_entry(dht: DhtStore, deleted: Address, deletion: Address) -> (post: DhtStore)
    requires
        dht.meta.rows@.len() + 2 <= u64::MAX,
    ensures
        dht_entry_removed(dht, post, deleted, deletion),
{
    let mut dht = dht;
    let status_row = create_crud_status_eav(&deleted, crate::eav::CrudStatus::Deleted);
    dht.meta.add_eavi(status_row);
    dht.meta.add_eavi(
        Eavi { entity: deleted, attribute: Attribute::CrudLink, value: deletion, index: 0 },
    );
    dht
}

/// Whether an identity is already in history.
fn contains_id(history: &Vec<u64>, id: u64) -> (r: bool)
    ensures
        r == history@.contains(id),
{
    let mut i: usize = 0;
    while i < history.len()
        invariant
            i <= history@.len(),
            forall|j: int| 0 <= j < i ==> history@[j] != id,
        decreases history@.len() - i,
    {
        if history[i] == id {
            return true;
        }
        i = i + 1;
    }
    proof {
        assert(forall|j: int| 0 <= j < history@.len() ==> history@[j] != id);
    }
    false
}

impl State {
    /// A fresh, empty state for the node described by `context`.
    pub fn new(context: &Context) -> (r: State)
        ensures
            r.nucleus.dna is None,
            r.agent.chain.items@ == Seq::<ChainItem>::empty(),
            r.agent.top_chain_header is None,
            r.dht.entries@.len() == 0,
            r.dht.headers@.len() == 0,
            r.dht.meta.rows@.len() == 0,
            r.network.dna_address is None,
            r.network.agent_id is None,
            r.history@ == Seq::<u64>::empty(),
    {
        let r = State {
            nucleus: NucleusState::new(),
            agent: AgentState::new(ChainStore::new()),
            dht: DhtStore::new(),
            network: NetworkState::new(),
            history: Vec::new(),
        };
        proof {
            assert(r.history@ =~= Seq::<u64>::empty());
        }
        r
    }

    /// A state over an existing agent slice; the application manifest is
    /// recovered from the most recent manifest entry of the agent's chain.
    pub fn new_with_agent(context: &Context, agent_state: AgentState) -> (r: State)
        ensures
            r.agent == agent_state,
            match chain_dna(agent_state.chain.items@) {
                Some(d) => r.nucleus.dna matches Some(x) && dna_eqv(x, d),
                None => r.nucleus.dna is None,
            },
            r.dht.entries@.len() == 0,
            r.dht.headers@.len() == 0,
            r.dht.meta.rows@.len() == 0,
            r.network.dna_address is None,
            r.network.agent_id is None,
            r.history@ == Seq::<u64>::empty(),
    {
        let dna = get_dna(&agent_state);
        let r = State {
            nucleus: NucleusState { dna },
            agent: agent_state,
            dht: DhtStore::new(),
            network: NetworkState::new(),
            history: Vec::new(),
        };
        proof {
            assert(r.history@ =~= Seq::<u64>::empty());
        }
        r
    }

    /// Resume a state from an agent snapshot.
    pub fn try_from_agent_snapshot(context: &Context, snapshot: AgentStateSnapshot) -> (r: Result<
        State,
        HolochainError,
    >)
        ensures
            r matches Ok(s) && s.agent.chain == snapshot.chain && s.agent.top_chain_header
                == snapshot.top_chain_header && (match chain_dna(snapshot.chain.items@) {
                Some(d) => s.nucleus.dna matches Some(x) && dna_eqv(x, d),
                None => s.nucleus.dna is None,
            }) && s.history@ == Seq::<u64>::empty(),
    {
        let AgentStateSnapshot { chain, top_chain_header } = snapshot;
        let agent_state = AgentState::new_with_top_chain_header(chain, top_chain_header);
        Ok(State::new_with_agent(context, agent_state))
    }

    /// Advance the state by one action: each slice is reduced
    /// independently against the same action, and the action's identity is
    /// recorded.  An identity already in history makes this a no-op.
    pub fn reduce(self, context: &Context, action_wrapper: ActionWrapper) -> (r: State)
        requires
            self.dht.meta.rows@.len() + 2 <= u64::MAX,
        ensures
            reduce_rel(*context, self, r, action_wrapper),
    {
        if contains_id(&self.history, action_wrapper.id) {
            return self;
        }
        let State { nucleus, agent, dht, network, mut history } = self;
        let ActionWrapper { id, action } = action_wrapper;
        let (nucleus, agent, dht, network) = match action {
            Action::Commit(entry, crud_link) => (
                nucleus,
                reduce_commit(agent, &context.agent_id, entry, crud_link),
                dht,
                network,
            ),
            Action::Hold(ewh) => {
                let crate::chain::EntryWithHeader { entry, header } = ewh;
                (nucleus, agent, reduce_hold(dht, entry, header), network)
            },
            Action::AddLink(link) => {
                let crate::entry::Link { base, target, tag } = link;
                let mut dht = dht;
                dht.meta.add_eavi(
                    Eavi {
                        entity: base,
                        attribute: Attribute::LinkTag(tag),
                        value: target,
                        index: 0,
                    },
                );
                (nucleus, agent, dht, network)
            },
            Action::RemoveLink(link) => {
                let crate::entry::Link { base, target, tag } = link;
                let mut dht = dht;
                dht.meta.add_eavi(
                    Eavi {
                        entity: base,
                        attribute: Attribute::RemovedLinkTag(tag),
                        value: target,
                        index: 0,
                    },
                );
                (nucleus, agent, dht, network)
            },
            Action::RemoveEntry(deleted, deletion) => (
                nucleus,
                agent,
                reduce_remove_entry(dht, deleted, deletion),
                network,
            ),
            Action::InitApplication(dna) => (
                NucleusState { dna: Some(dna) },
                agent,
                dht,
                network,
            ),
            Action::InitNetwork(settings) => (
                nucleus,
                agent,
                dht,
                NetworkState {
                    dna_address: Some(settings.dna_address),
                    agent_id: Some(settings.agent_id),
                },
            ),
        };
        history.push(id);
        State { nucleus, agent, dht, network, history }
    }

    /// The nucleus slice.
    pub fn nucleus(&self) -> (r: &NucleusState)
        ensures
            r == &self.nucleus,
    {
        &self.nucleus
    }

    /// The agent slice.
    pub fn agent(&self) -> (r: &AgentState)
        ensures
            r == &self.agent,
    {
        &self.agent
    }

    /// The DHT slice.
    pub fn dht(&self) -> (r: &DhtStore)
        ensures
            r == &self.dht,
    {
        &self.dht
    }

    /// The network slice.
    pub fn network(&self) -> (r: &NetworkState)
        ensures
            r == &self.network,
    {
        &self.network
    }
}

/// Whether `a` is the address of one of the local chain headers.
pub open spec fn is_local_header_addr(locals: Seq<ChainHeader>, a: Seq<char>) -> bool {
    exists|i: int| 0 <= i < locals.len() && header_address_text(#[trigger] locals[i]) == a
}

/// Whether the text `a` occurs among the given recorded addresses.
pub open spec fn addr_among(addrs: Seq<Address>, a: Seq<char>) -> bool {
    exists|i: int| 0 <= i < addrs.len() && (#[trigger] addrs[i])@ == a
}

/// The held headers resolved from the recorded header addresses, in
/// record order, deduplicated by address: an address already present
/// among the local chain headers, or already handled at an earlier
/// record, contributes nothing again.
pub open spec fn dht_extra_headers(
    store: Seq<HeaderRow>,
    addrs: Seq<Address>,
    locals: Seq<ChainHeader>,
) -> Seq<ChainHeader>
    decreases addrs.len(),
{
    if addrs.len() == 0 {
        Seq::empty()
    } else {
        let init = dht_extra_headers(store, addrs.drop_last(), locals);
        if is_local_header_addr(locals, addrs.last()@) || addr_among(
            addrs.drop_last(),
            addrs.last()@,
        ) {
            init
        } else {
            match header_cas_lookup(store, addrs.last()@) {
                Some(h) => init.push(h),
                None => init,
            }
        }
    }
}

/// All headers known for an entry: the local chain headers first, then
/// the held headers recorded in the DHT metadata that are not already
/// among them, deduplicated by address.
pub open spec fn get_headers_spec(s: State, addr: Seq<char>) -> Seq<ChainHeader> {
    let locals = chain_headers_for(s.agent.chain.items@, addr);
    locals + dht_extra_headers(s.dht.headers@, header_values_for(s.dht.meta.rows@, addr), locals)
}

/// Whether `a` occurs among the first `upto` recorded addresses.
fn addr_in_prefix(addrs: &Vec<Address>, upto: usize, a: &Address) -> (r: bool)
    requires
        upto <= addrs@.len(),
    ensures
        r == addr_among(addrs@.subrange(0, upto as int), a@),
{
    let mut i: usize = 0;
    while i < upto
        invariant
            i <= upto <= addrs@.len(),
            forall|j: int| 0 <= j < i ==> (#[trigger] addrs@[j])@ != a@,
        decreases upto - i,
    {
        if addrs[i] == *a {
            proof {
                assert(addrs@.subrange(0, upto as int)[i as int]@ == a@);
            }
            return true;
        }
        i = i + 1;
    }
    proof {
        assert forall|j: int| 0 <= j < upto implies (#[trigger] addrs@.subrange(
            0,
            upto as int,
        )[j])@ != a@ by {
            assert(addrs@.subrange(0, upto as int)[j] == addrs@[j]);
        }
    }
    false
}

/// Whether `a` is the address of one of the given headers.
fn is_local_addr(locals: &Vec<ChainHeader>, a: &Address) -> (r: bool)
    ensures
        r == is_local_header_addr(locals@, a@),
{
    let mut i: usize = 0;
    while i < locals.len()
        invariant
            i <= locals@.len(),
            forall|j: int| 0 <= j < i ==> header_address_text(#[trigger] locals@[j]) != a@,
        decreases locals@.len() - i,
    {
        let local_addr = locals[i].address();
        if local_addr == *a {
            proof {
                assert(header_address_text(locals@[i as int]) == a@);
            }
            return true;
        }
        i = i + 1;
    }
    false
}

impl State {
    /// All headers known for an entry, merged from the two independent
    /// provenance sources: local chain headers first, then DHT-held
    /// headers not already present, deduplicated by address.
    pub fn get_headers(&self, entry_address: Address) -> (r: Result<Vec<ChainHeader>, HolochainError>)
        ensures
            r matches Ok(v) && v@ == get_headers_spec(*self, entry_address@),
    {
        let items = &self.agent.chain.items;
        let mut locals: Vec<ChainHeader> = Vec::new();
        let mut i: usize = 0;
        proof {
            assert(items@.subrange(0, 0) =~= Seq::<ChainItem>::empty());
        }
        while i < items.len()
            invariant
                i <= items@.len(),
                items == &self.agent.chain.items,
                locals@ == chain_headers_for(items@.subrange(0, i as int), entry_address@),
            decreases items@.len() - i,
        {
            proof {
                assert(items@.subrange(0, (i + 1) as int).drop_last() =~= items@.subrange(
                    0,
                    i as int,
                ));
                assert(items@.subrange(0, (i + 1) as int).last() == items@[i as int]);
            }
            if items[i].header.entry_address == entry_address {
                locals.push(items[i].header.clone());
            }
            i = i + 1;
        }
        proof {
            assert(items@.subrange(0, items@.len() as int) =~= items@);
        }
        let header_addrs = self.dht.meta.fetch_entry_headers(&entry_address);
        let mut extras: Vec<ChainHeader> = Vec::new();
        let mut k: usize = 0;
        proof {
            assert(header_addrs@.subrange(0, 0) =~= Seq::<Address>::empty());
            assert(extras@ =~= dht_extra_headers(
                self.dht.headers@,
                header_addrs@.subrange(0, 0),
                locals@,
            ));
        }
        while k < header_addrs.len()
            invariant
                k <= header_addrs@.len(),
                extras@ == dht_extra_headers(
                    self.dht.headers@,
                    header_addrs@.subrange(0, k as int),
                    locals@,
                ),
            decreases header_addrs@.len() - k,
        {
            proof {
                assert(header_addrs@.subrange(0, (k + 1) as int).drop_last() =~= header_addrs@
                    .subrange(0, k as int));
                assert(header_addrs@.subrange(0, (k + 1) as int).last() == header_addrs@[
                    k as int]);
            }
            if !is_local_addr(&locals, &header_addrs[k]) && !addr_in_prefix(
                &header_addrs,
                k,
                &header_addrs[k],
            ) {
                match self.dht.get_header(&header_addrs[k]) {
                    Some(h) => {
                        extras.push(h);
                    },
                    None => {},
                }
            }
            k = k + 1;
        }
        proof {
            assert(header_addrs@.subrange(0, header_addrs@.len() as int) =~= header_addrs@);
        }
        let mut all = locals;
        all.append(&mut extras);
        proof {
            assert(all@ =~= get_headers_spec(*self, entry_address@));
        }
        Ok(all)
    }
}

/// The oldest manifest entry of the agent's chain, if any.
fn get_dna(agent_state: &AgentState) -> (r: Option<crate::dna::Dna>)
    ensures
        match chain_dna(agent_state.chain.items@) {
            Some(d) => r matches Some(x) && dna_eqv(x, d),
            None => r is None,
        },
{
    let items = &agent_state.chain.items;
    let mut i: usize = 0;
    proof {
        assert(items@.subrange(0, 0) =~= Seq::<ChainItem>::empty());
    }
    while i < items.len()
        invariant
            i <= items@.len(),
            items == &agent_state.chain.items,
            chain_dna(items@.subrange(0, i as int)) is None,
        decreases items@.len() - i,
    {
        proof {
            assert(items@.subrange(0, (i + 1) as int).drop_last() =~= items@.subrange(
                0,
                i as int,
            ));
            assert(items@.subrange(0, (i + 1) as int).last() == items@[i as int]);
        }
        match &items[i].entry {
            Entry::Dna(d) => {
                proof {
                    lemma_chain_dna_extends(items@, (i + 1) as int);
                }
                return Some(d.clone());
            },
            _ => {},
        }
        i = i + 1;
    }
    proof {
        assert(items@.subrange(0, items@.len() as int) =~= items@);
    }
    None
}

/// Once a prefix of the chain holds a manifest entry, the whole chain
/// recovers that same one.
proof fn lemma_chain_dna_extends(items: Seq<ChainItem>, k: int)
    requires
        0 <= k <= items.len(),
        chain_dna(items.subrange(0, k)) is Some,
    ensures
        chain_dna(items) == chain_dna(items.subrange(0, k)),
    decreases items.len() - k,
{
    if k < items.len() {
        assert(items.subrange(0, k + 1).drop_last() =~= items.subrange(0, k));
        assert(items.subrange(0, k + 1).last() == items[k]);
        lemma_chain_dna_extends(items, k + 1);
    } else {
        assert(items.subrange(0, k) =~= items);
    }
}

/// A fresh store for exercising the container.
pub fn test_store(context: &Context) -> (r: State)
    ensures
        r.history@ == Seq::<u64>::empty(),
        r.nucleus.dna is None,
        r.agent.chain.items@ == Seq::<ChainItem>::empty(),
        r.agent.top_chain_header is None,
        r.dht.entries@.len() == 0,
        r.dht.headers@.len() == 0,
        r.dht.meta.rows@.len() == 0,
        r.network.dna_address is None,
        r.network.agent_id is None,
{
    State::new(context)
}

// --- laws ----------------------------------------------------------------

/// Headers accumulate: with one local chain header for an entry and one
/// held header recorded for it under a different address, "all headers"
/// returns both, the local one first, deduplicated by address.
pub proof fn law_headers_accumulate(
    s: State,
    addr: Seq<char>,
    h1: ChainHeader,
    h2: ChainHeader,
    v: Address,
)
    requires
        chain_headers_for(s.agent.chain.items@, addr) == seq![h1],
        header_values_for(s.dht.meta.rows@, addr) == seq![v],
        v@ == header_address_text(h2),
        header_cas_lookup(s.dht.headers@, v@) == Some(h2),
        header_address_text(h1) != header_address_text(h2),
    ensures
        get_headers_spec(s, addr) == seq![h1, h2],
{
    let locals = seq![h1];
    let addrs = seq![v];
    assert(addrs.drop_last() =~= Seq::<Address>::empty());
    assert(dht_extra_headers(s.dht.headers@, addrs.drop_last(), locals) =~= Seq::<
        ChainHeader,
    >::empty());
    assert(!is_local_header_addr(locals, v@)) by {
        assert forall|i: int| 0 <= i < locals.len() implies header_address_text(locals[i])
            != v@ by {
            assert(locals[i] == h1);
        }
    }
    assert(dht_extra_headers(s.dht.headers@, addrs, locals) =~= seq![h2]);
    assert(get_headers_spec(s, addr) =~= seq![h1, h2]);
}

/// A commit preserves the chain's shape: if the chain was a well-linked,
/// position-stamped list with its top recorded, it still is afterwards.
#[verifier::rlimit(100)]
pub proof fn law_commit_preserves_chain_shape(
    agent_id: AgentId,
    pre: AgentState,
    post: AgentState,
    entry: Entry,
    crud_link: Option<Address>,
)
    requires
        agent_committed(agent_id, pre, post, entry, crud_link),
        crate::chain::chain_well_formed(pre.chain.items@),
        crate::chain::top_matches_chain(pre),
    ensures
        crate::chain::chain_well_formed(post.chain.items@),
        crate::chain::top_matches_chain(post),
{
    let items = post.chain.items@;
    let n = pre.chain.items@.len() as int;
    vstd::std_specs::vec::axiom_spec_len(&pre.chain.items);
    assert forall|i: int| 0 <= i < items.len() implies {
        &&& (#[trigger] items[i]).header.timestamp == i
        &&& if i == 0 {
            items[i].header.link is None
        } else {
            items[i].header.link matches Some(a) && a@ == crate::chain::header_address_text(
                items[i - 1].header,
            )
        }
    } by {
        let pre_items = pre.chain.items@;
        assert(items.drop_last() == pre_items);
        if i < n {
            assert(items.drop_last()[i] == items[i]);
            assert(pre_items[i].header.timestamp == i);
            assert(items[i].header.timestamp == i);
            if i > 0 {
                assert(items.drop_last()[i - 1] == items[i - 1]);
            }
        } else {
            assert(i == n);
            assert(items[i] == items.last());
            assert(items[i].header.timestamp == i);
            if n > 0 {
                assert(items.drop_last()[n - 1] == items[n - 1]);
                assert(pre_items.last() == pre_items[n - 1]);
                assert(pre.top_chain_header == Some(pre_items[n - 1].header));
            }
        }
    }
}

/// Redelivery does not duplicate headers: a header address recorded
/// twice for an entry contributes one held header to "all headers", not
/// two.
pub proof fn law_headers_deduplicate_redelivery(
    store: Seq<HeaderRow>,
    v1: Address,
    v2: Address,
    locals: Seq<ChainHeader>,
)
    requires
        v2@ == v1@,
    ensures
        dht_extra_headers(store, seq![v1, v2], locals) == dht_extra_headers(
            store,
            seq![v1],
            locals,
        ),
{
    assert(seq![v1, v2].drop_last() =~= seq![v1]);
    assert(seq![v1][0]@ == v2@);
    assert(addr_among(seq![v1], v2@));
}

/// Re-dispatching the same action identity is a no-op: if one reduction
/// takes `s` to `t`, a second reduction of the same wrapped action leaves
/// `t` unchanged.
pub proof fn law_reduce_idempotent(ctx: Context, s: State, t: State, u: State, aw: ActionWrapper)
    requires
        reduce_rel(ctx, s, t, aw),
        reduce_rel(ctx, t, u, aw),
    ensures
        u == t,
{
    if s.history@.contains(aw.id) {
        assert(t == s);
    } else {
        assert(t.history@ == s.history@.push(aw.id));
        assert(t.history@[s.history@.len() as int] == aw.id);
        assert(t.history@.contains(aw.id));
    }
}

} // verus!
