//! The validation workflows: author, hold, remove, get.
//!
//! Each workflow assembles a validation package, asks the module's
//! validation callback for a verdict, and on success commits to the chain
//! and/or the DHT shard by dispatching actions.  A workflow that fails
//! leaves the node's state exactly as it found it; unavailability of the
//! validation package is a distinct outcome from rejection.

use vstd::prelude::*;
use crate::action::Action;
use crate::action::ActionWrapper;
use crate::chain::ChainHeader;
use crate::chain::EntryWithHeader;
use crate::chain::chain_lookup;
use crate::chain::header_matches;
use crate::dht::cas_lookup;
use crate::eav::CrudStatus;
use crate::eav::latest_crud_link_value;
use crate::eav::latest_status_value;
use crate::eav::status_of_value;
use crate::entry::Entry;
use crate::entry::Link;
use crate::entry::entry_address_text;
use crate::entry::entry_eqv;
use crate::error::HolochainError;
use crate::hashing::Address;
use crate::instance::Instance;
use crate::nucleus::EntryAction;
use crate::nucleus::EntryLifecycle;
use crate::nucleus::ValidationData;
use crate::nucleus::ValidationPackage;
use crate::nucleus::entry_accepted;
use crate::nucleus::rejection_is;
use crate::nucleus::validate_entry;
use crate::state::State;
use crate::state::reduce_rel;

verus! {

// --- get -----------------------------------------------------------------

/// An entry with its derived lifecycle metadata.
#[derive(Debug, PartialEq)]
pub struct EntryWithMeta {
    pub entry: Entry,
    pub crud_status: CrudStatus,
    pub maybe_link_update_delete: Option<Address>,
}

/// The entry a node knows under an address: its own chain first, then its
/// DHT shard.
pub open spec fn stored_entry(s: State, addr: Seq<char>) -> Option<Entry> {
    match chain_lookup(s.agent.chain.items@, addr) {
        Some(e) => Some(e),
        None => cas_lookup(s.dht.entries@, addr),
    }
}

/// The lifecycle status a node derives for an address: the most recent
/// status row, or live when no status was ever recorded.
pub open spec fn status_of(s: State, addr: Seq<char>) -> CrudStatus {
    match latest_status_value(s.dht.meta.rows@, addr) {
        Some(v) => status_of_value(v@),
        None => CrudStatus::Live,
    }
}

/// Resolve an address to an entry with its lifecycle metadata.  Not a
/// mutating workflow; an address nobody has seen resolves to `None`,
/// which is not an error.
pub fn get_entry(state: &State, address: &Address) -> (r: Result<
    Option<EntryWithMeta>,
    HolochainError,
>)
    ensures
        r is Ok,
        r matches Ok(opt) ==> match (opt, stored_entry(*state, address@)) {
            (Some(m), Some(e)) => entry_eqv(m.entry, e) && m.crud_status == status_of(
                *state,
                address@,
            ),
            (None, None) => true,
            _ => false,
        },
{
    let from_chain = chain_get(&state.agent.chain.items, address);
    let found = match from_chain {
        Some(e) => Some(e),
        None => state.dht().get_entry(address),
    };
    match found {
        Some(entry) => {
            let status = match state.dht().meta.crud_status(address) {
                Some(s) => s,
                None => CrudStatus::Live,
            };
            let link = crud_link_for(&state.dht().meta.rows, address);
            Ok(
                Some(
                    EntryWithMeta {
                        entry,
                        crud_status: status,
                        maybe_link_update_delete: link,
                    },
                ),
            )
        },
        None => Ok(None),
    }
}

/// The first chain entry committed under the given address, if any.
fn chain_get(items: &Vec<crate::chain::ChainItem>, address: &Address) -> (r: Option<Entry>)
    ensures
        match (r, chain_lookup(items@, address@)) {
            (Some(got), Some(stored)) => entry_eqv(got, stored),
            (None, None) => true,
            _ => false,
        },
{
    let mut i: usize = 0;
    proof {
        assert(items@.subrange(0, 0) =~= Seq::<crate::chain::ChainItem>::empty());
    }
    while i < items.len()
        invariant
            i <= items@.len(),
            chain_lookup(items@.subrange(0, i as int), address@) is None,
        decreases items@.len() - i,
    {
        proof {
            assert(items@.subrange(0, (i + 1) as int).drop_last() =~= items@.subrange(0, i as int));
            assert(items@.subrange(0, (i + 1) as int).last() == items@[i as int]);
        }
        if items[i].header.entry_address == *address {
            proof {
                lemma_chain_lookup_extends(items@, (i + 1) as int, address@);
            }
            return Some(items[i].entry.clone());
        }
        i = i + 1;
    }
    proof {
        assert(items@.subrange(0, items@.len() as int) =~= items@);
    }
    None
}

/// Once a prefix of the chain resolves an address, the whole chain
/// resolves it to the same entry.
proof fn lemma_chain_lookup_extends(items: Seq<crate::chain::ChainItem>, k: int, addr: Seq<char>)
    requires
        0 <= k <= items.len(),
        chain_lookup(items.subrange(0, k), addr) is Some,
    ensures
        chain_lookup(items, addr) == chain_lookup(items.subrange(0, k), addr),
    decreases items.len() - k,
{
    if k < items.len() {
        assert(items.subrange(0, k + 1).drop_last() =~= items.subrange(0, k));
        assert(items.subrange(0, k + 1).last() == items[k]);
        lemma_chain_lookup_extends(items, k + 1, addr);
    } else {
        assert(items.subrange(0, k) =~= items);
    }
}

/// The most recent lifecycle-link value recorded for an address.
fn crud_link_for(rows: &Vec<crate::eav::Eavi>, address: &Address) -> (r: Option<Address>)
    ensures
        match latest_crud_link_value(rows@, address@) {
            Some(v) => r matches Some(got) && got == v,
            None => r is None,
        },
{
    let mut i: usize = rows.len();
    proof {
        assert(rows@.subrange(0, rows@.len() as int) =~= rows@);
    }
    while i > 0
        invariant
            i <= rows@.len(),
            latest_crud_link_value(rows@, address@) == latest_crud_link_value(
                rows@.subrange(0, i as int),
                address@,
            ),
        decreases i,
    {
        proof {
            assert(rows@.subrange(0, i as int).drop_last() =~= rows@.subrange(0, (i - 1) as int));
            assert(rows@.subrange(0, i as int).last() == rows@[i - 1]);
        }
        let row = &rows[i - 1];
        let is_link = match &row.attribute {
            crate::eav::Attribute::CrudLink => row.entity == *address,
            _ => false,
        };
        if is_link {
            return Some(row.value.clone());
        }
        i = i - 1;
    }
    proof {
        assert(rows@.subrange(0, 0) =~= Seq::<crate::eav::Eavi>::empty());
    }
    None
}

// --- validation packages -------------------------------------------------

/// The evidence bundle's chain-header part: `hs` is exactly the headers
/// of the given chain records, in chain order.
pub open spec fn headers_of_chain(hs: Seq<ChainHeader>, items: Seq<crate::chain::ChainItem>) -> bool {
    hs.len() == items.len() && forall|j: int| 0 <= j < items.len() ==> hs[j] == (
    #[trigger] items[j]).header
}

/// Build the validation package for an entry about to be committed
/// locally: the would-be header plus the author's chain headers, in
/// chain order.  No network fetch is involved.
pub fn build_validation_package(entry: &Entry, instance: &Instance) -> (r: ValidationPackage)
    ensures
        crate::chain::header_builds_on(
            r.chain_header,
            instance.context.agent_id,
            *entry,
            instance.state.agent.top_chain_header,
            None,
            instance.state.agent.chain.items@.len() as u64,
        ),
        r.source_chain_headers matches Some(hs) && headers_of_chain(
            hs@,
            instance.state.agent.chain.items@,
        ),
{
    let header = crate::chain::create_new_chain_header(
        entry,
        &instance.context.agent_id,
        &instance.state.agent.top_chain_header,
        None,
        instance.state.agent.chain.items.len() as u64,
    );
    let headers = chain_headers_vec(&instance.state.agent.chain.items);
    ValidationPackage { chain_header: header, source_chain_headers: Some(headers) }
}

/// The headers of the given chain records, in chain order.
fn chain_headers_vec(items: &Vec<crate::chain::ChainItem>) -> (r: Vec<ChainHeader>)
    ensures
        headers_of_chain(r@, items@),
{
    let mut headers: Vec<ChainHeader> = Vec::new();
    let mut i: usize = 0;
    while i < items.len()
        invariant
            i <= items@.len(),
            headers@.len() == i,
            forall|j: int| 0 <= j < i ==> headers@[j] == (#[trigger] items@[j]).header,
        decreases items@.len() - i,
    {
        headers.push(items[i].header.clone());
        i = i + 1;
    }
    headers
}

/// Ask the author's node for the validation package of a header: the
/// package exists exactly when the author's chain holds that header.
pub fn get_validation_package(header: &ChainHeader, source_state: &State) -> (r: Result<
    Option<ValidationPackage>,
    HolochainError,
>)
    ensures
        r is Ok,
        r matches Ok(opt) ==> match opt {
            Some(pkg) => pkg.chain_header == *header && (pkg.source_chain_headers matches Some(
                hs,
            ) && headers_of_chain(hs@, source_state.agent.chain.items@)) && (exists|i: int|
                0 <= i < source_state.agent.chain.items@.len() && header_matches(
                    #[trigger] source_state.agent.chain.items@[i].header,
                    *header,
                )),
            None => !(exists|i: int|
                0 <= i < source_state.agent.chain.items@.len() && header_matches(
                    #[trigger] source_state.agent.chain.items@[i].header,
                    *header,
                )),
        },
{
    let items = &source_state.agent.chain.items;
    let mut i: usize = 0;
    while i < items.len()
        invariant
            i <= items@.len(),
            items == &source_state.agent.chain.items,
            forall|j: int| 0 <= j < i ==> !header_matches(#[trigger] items@[j].header, *header),
        decreases items@.len() - i,
    {
        if items[i].header.same_header(header) {
            let headers = chain_headers_vec(items);
            return Ok(
                Some(
                    ValidationPackage {
                        chain_header: header.clone(),
                        source_chain_headers: Some(headers),
                    },
                ),
            );
        }
        i = i + 1;
    }
    Ok(None)
}

// --- commit --------------------------------------------------------------

/// One step of the commit pipeline, named for witnessing: `mid` is the
/// state after the chain append, `e2` the observably equal copy held in
/// the shard under the freshly committed header.
pub open spec fn commit_and_hold_steps(
    ctx: crate::context::Context,
    pre: State,
    post: State,
    entry: Entry,
    crud_link: Option<Address>,
    id: u64,
    mid: State,
    e2: Entry,
) -> bool {
    &&& entry_eqv(e2, entry)
    &&& reduce_rel(ctx, pre, mid, ActionWrapper { id, action: Action::Commit(entry, crud_link) })
    &&& (mid.agent.top_chain_header matches Some(h) && reduce_rel(
        ctx,
        mid,
        post,
        ActionWrapper {
            id: (id + 1) as u64,
            action: Action::Hold(EntryWithHeader { entry: e2, header: h }),
        },
    ))
}

/// What committing an entry does to the node: the chain is appended under
/// identity `id`, and the entry — with its fresh header — is then held in
/// the node's own shard under identity `id + 1`, the forwarded
/// add-to-shard step.
pub open spec fn commit_and_hold_rel(
    ctx: crate::context::Context,
    pre: State,
    post: State,
    entry: Entry,
    crud_link: Option<Address>,
    id: u64,
) -> bool {
    exists|mid: State, e2: Entry|
        #[trigger] commit_and_hold_steps(ctx, pre, post, entry, crud_link, id, mid, e2)
}

/// Commit an entry: append it to the local chain, then hold it — with its
/// fresh header — in the node's own DHT shard.
pub fn commit_entry(
    entry: Entry,
    maybe_link_update_delete: Option<Address>,
    instance: &mut Instance,
) -> (a: Address)
    requires
        old(instance).wf(),
        old(instance).next_id + 2 <= u64::MAX,
        old(instance).state.dht.meta.rows@.len() + 2 <= u64::MAX,
    ensures
        final(instance).wf(),
        final(instance).context == old(instance).context,
        final(instance).next_id == old(instance).next_id + 2,
        !old(instance).state.history@.contains(old(instance).next_id),
        a@ == entry_address_text(entry),
        commit_and_hold_rel(
            old(instance).context,
            old(instance).state,
            final(instance).state,
            entry,
            maybe_link_update_delete,
            old(instance).next_id,
        ),
        crate::dht::cas_has(final(instance).state.dht.entries@, entry_address_text(entry)),
{
    let address = entry.address();
    let held_entry = entry.clone();
    let ghost g_e2 = held_entry;
    instance.dispatch(Action::Commit(entry, maybe_link_update_delete));
    let ghost g_mid = instance.state;
    proof {
        assert(instance.state.agent.top_chain_header is Some);
    }
    let header = match &instance.state.agent.top_chain_header {
        Some(h) => h.clone(),
        None => {
            proof {
                assert(false);
            }
            crate::chain::create_new_chain_header(
                &held_entry,
                &instance.context.agent_id,
                &None,
                None,
                0,
            )
        },
    };
    instance.dispatch(Action::Hold(EntryWithHeader { entry: held_entry, header }));
    proof {
        let addr = entry_address_text(entry);
        crate::entry::lemma_entry_eqv_same_canon(g_e2, entry);
        assert(commit_and_hold_steps(
            old(instance).context,
            old(instance).state,
            instance.state,
            entry,
            maybe_link_update_delete,
            old(instance).next_id,
            g_mid,
            g_e2,
        ));
        if crate::dht::cas_has(g_mid.dht.entries@, addr) {
            assert(instance.state.dht.entries@ == g_mid.dht.entries@);
        } else {
            assert(instance.state.dht.entries@.drop_last() == g_mid.dht.entries@);
            assert(instance.state.dht.entries@.last().address@ == addr);
            assert(cas_lookup(instance.state.dht.entries@, addr) is Some);
        }
    }
    address
}

// --- author --------------------------------------------------------------

/// Commit a locally authored entry: build the package from local chain
/// context, validate, and on success append it to the chain and hold it
/// in the node's own DHT shard.  Failure leaves the node untouched and is
/// surfaced to the caller.
pub fn author_entry(
    entry: Entry,
    maybe_link_update_delete: Option<Address>,
    instance: &mut Instance,
) -> (r: Result<Address, HolochainError>)
    requires
        old(instance).wf(),
        old(instance).next_id + 2 <= u64::MAX,
        old(instance).state.dht.meta.rows@.len() + 2 <= u64::MAX,
    ensures
        final(instance).wf(),
        final(instance).context == old(instance).context,
        r is Ok <==> (old(instance).state.nucleus.dna matches Some(d) && entry_accepted(
            d,
            entry,
        )),
        r matches Ok(a) ==> {
            &&& a@ == entry_address_text(entry)
            &&& final(instance).next_id == old(instance).next_id + 2
            &&& !old(instance).state.history@.contains(old(instance).next_id)
            &&& commit_and_hold_rel(
                old(instance).context,
                old(instance).state,
                final(instance).state,
                entry,
                maybe_link_update_delete,
                old(instance).next_id,
            )
            &&& crate::dht::cas_has(
                final(instance).state.dht.entries@,
                entry_address_text(entry),
            )
        },
        r matches Err(e) ==> *final(instance) == *old(instance) && (match old(
            instance,
        ).state.nucleus.dna {
            Some(d) => e matches HolochainError::ValidationFailed(m) && rejection_is(
                d,
                entry,
                m,
            ),
            None => e matches HolochainError::ErrorGeneric(m) && m@
                == "DNA not initialized"@,
        }),
{
    let package = build_validation_package(&entry, instance);
    let validation_data = ValidationData {
        package,
        lifecycle: EntryLifecycle::Chain,
        action: EntryAction::Create,
    };
    let has_dna = instance.state.nucleus().dna.is_some();
    if !has_dna {
        return Err(HolochainError::ErrorGeneric("DNA not initialized".to_owned()));
    }
    let verdict = match &instance.state.nucleus().dna {
        Some(dna) => validate_entry(&entry, &validation_data, dna),
        None => Err(HolochainError::ErrorGeneric("DNA not initialized".to_owned())),
    };
    match verdict {
        Ok(()) => {},
        Err(e) => {
            return Err(e);
        },
    }
    let address = commit_entry(entry, maybe_link_update_delete, instance);
    Ok(address)
}

// --- hold ----------------------------------------------------------------

/// Hold a remotely authored entry: the validation package must have been
/// obtained from the entry's author (its absence is terminal and distinct
/// from rejection), the entry is validated in the DHT lifecycle, and on
/// success it is held in the local shard.  Failure leaves the node
/// untouched.
pub fn hold_entry_workflow(
    entry_with_header: EntryWithHeader,
    maybe_validation_package: Option<ValidationPackage>,
    instance: &mut Instance,
) -> (r: Result<Address, HolochainError>)
    requires
        old(instance).wf(),
        old(instance).next_id < u64::MAX,
        old(instance).state.dht.meta.rows@.len() + 2 <= u64::MAX,
    ensures
        final(instance).wf(),
        final(instance).context == old(instance).context,
        r is Ok <==> (maybe_validation_package is Some && (old(
            instance,
        ).state.nucleus.dna matches Some(d) && entry_accepted(d, entry_with_header.entry))),
        r matches Ok(a) ==> {
            &&& a@ == entry_address_text(entry_with_header.entry)
            &&& final(instance).next_id == old(instance).next_id + 1
            &&& !old(instance).state.history@.contains(old(instance).next_id)
            &&& reduce_rel(
                old(instance).context,
                old(instance).state,
                final(instance).state,
                (ActionWrapper {
                    id: old(instance).next_id,
                    action: Action::Hold(entry_with_header),
                }),
            )
        },
        r matches Err(e) ==> *final(instance) == *old(instance) && (match maybe_validation_package {
            None => e matches HolochainError::ErrorGeneric(m) && m@
                == "Could not get validation package from source"@,
            Some(_) => match old(instance).state.nucleus.dna {
                Some(d) => e matches HolochainError::ValidationFailed(m) && rejection_is(
                    d,
                    entry_with_header.entry,
                    m,
                ),
                None => e matches HolochainError::ErrorGeneric(m) && m@
                    == "DNA not initialized"@,
            },
        }),
{
    let validation_package = match maybe_validation_package {
        Some(p) => p,
        None => {
            return Err(
                HolochainError::ErrorGeneric(
                    "Could not get validation package from source".to_owned(),
                ),
            );
        },
    };
    let validation_data = ValidationData {
        package: validation_package,
        lifecycle: EntryLifecycle::Dht,
        action: EntryAction::Create,
    };
    let has_dna = instance.state.nucleus().dna.is_some();
    if !has_dna {
        return Err(HolochainError::ErrorGeneric("DNA not initialized".to_owned()));
    }
    let verdict = match &instance.state.nucleus().dna {
        Some(dna) => validate_entry(&entry_with_header.entry, &validation_data, dna),
        None => Err(HolochainError::ErrorGeneric("DNA not initialized".to_owned())),
    };
    match verdict {
        Ok(()) => {},
        Err(e) => {
            return Err(e);
        },
    }
    let address = entry_with_header.entry.address();
    instance.dispatch(Action::Hold(entry_with_header));
    Ok(address)
}

// --- links ---------------------------------------------------------------

/// Record a link between two held addresses.
pub fn add_link(link: Link, instance: &mut Instance) -> (r: Result<(), HolochainError>)
    requires
        old(instance).wf(),
        old(instance).next_id < u64::MAX,
        old(instance).state.dht.meta.rows@.len() + 2 <= u64::MAX,
    ensures
        final(instance).wf(),
        final(instance).context == old(instance).context,
        r is Ok,
        final(instance).next_id == old(instance).next_id + 1,
        !old(instance).state.history@.contains(old(instance).next_id),
        reduce_rel(
            old(instance).context,
            old(instance).state,
            final(instance).state,
            (ActionWrapper { id: old(instance).next_id, action: Action::AddLink(link) }),
        ),
{
    instance.dispatch(Action::AddLink(link));
    Ok(())
}

/// The live targets linked from `base` under `tag`, in insertion order.
pub fn get_links(state: &State, base: &Address, tag: &String) -> (r: Result<
    Vec<Address>,
    HolochainError,
>)
    ensures
        r matches Ok(v) && v@ == crate::eav::live_link_targets(
            state.dht.meta.rows@,
            base@,
            tag@,
        ),
{
    Ok(state.dht().meta.link_targets(base, tag))
}

/// Hold a link authored elsewhere.  The entry must be a link-addition
/// record and its validation package must be present; link records carry
/// their own provenance and are accepted by validation in this core, so
/// the link is then recorded.
pub fn hold_link_workflow(
    entry_with_header: &EntryWithHeader,
    maybe_validation_package: Option<ValidationPackage>,
    instance: &mut Instance,
) -> (r: Result<(), HolochainError>)
    requires
        old(instance).wf(),
        old(instance).next_id < u64::MAX,
        old(instance).state.dht.meta.rows@.len() + 2 <= u64::MAX,
    ensures
        final(instance).wf(),
        final(instance).context == old(instance).context,
        r is Ok <==> (entry_with_header.entry is LinkAdd && maybe_validation_package is Some),
        r is Ok ==> {
            &&& final(instance).next_id == old(instance).next_id + 1
            &&& !old(instance).state.history@.contains(old(instance).next_id)
            &&& reduce_rel(
                old(instance).context,
                old(instance).state,
                final(instance).state,
                (ActionWrapper {
                    id: old(instance).next_id,
                    action: Action::AddLink(entry_with_header.entry->LinkAdd_0),
                }),
            )
        },
        r is Err ==> *final(instance) == *old(instance),
{
    let link = match &entry_with_header.entry {
        Entry::LinkAdd(l) => l.clone(),
        _ => {
            return Err(HolochainError::ErrorGeneric("Entry is not link entry".to_owned()));
        },
    };
    if maybe_validation_package.is_none() {
        return Err(
            HolochainError::ErrorGeneric(
                "Could not get validation package from source".to_owned(),
            ),
        );
    }
    instance.dispatch(Action::AddLink(link));
    Ok(())
}

/// Hold a link removal authored elsewhere.  The entry must be a
/// link-removal record and its validation package must be present; the
/// removal is then recorded as a tombstone row.
pub fn remove_link_workflow(
    entry_with_header: &EntryWithHeader,
    maybe_validation_package: Option<ValidationPackage>,
    instance: &mut Instance,
) -> (r: Result<(), HolochainError>)
    requires
        old(instance).wf(),
        old(instance).next_id < u64::MAX,
        old(instance).state.dht.meta.rows@.len() + 2 <= u64::MAX,
    ensures
        final(instance).wf(),
        final(instance).context == old(instance).context,
        r is Ok <==> (entry_with_header.entry is LinkRemove && maybe_validation_package is Some),
        r is Ok ==> {
            &&& final(instance).next_id == old(instance).next_id + 1
            &&& !old(instance).state.history@.contains(old(instance).next_id)
            &&& reduce_rel(
                old(instance).context,
                old(instance).state,
                final(instance).state,
                (ActionWrapper {
                    id: old(instance).next_id,
                    action: Action::RemoveLink(entry_with_header.entry->LinkRemove_0),
                }),
            )
        },
        r is Err ==> *final(instance) == *old(instance),
{
    let link = match &entry_with_header.entry {
        Entry::LinkRemove(l) => l.clone(),
        _ => {
            return Err(HolochainError::ErrorGeneric("Entry is not link removal entry".to_owned()));
        },
    };
    if maybe_validation_package.is_none() {
        return Err(
            HolochainError::ErrorGeneric(
                "Could not get validation package from source".to_owned(),
            ),
        );
    }
    instance.dispatch(Action::RemoveLink(link));
    Ok(())
}


// --- get with options ----------------------------------------------------

/// Options of a get: whether to also collect all known headers.
#[derive(Debug, PartialEq)]
pub struct GetEntryOptions {
    pub headers: bool,
}

impl Default for GetEntryOptions {
    /// By default no headers are collected.
    fn default() -> (r: Self)
        ensures
            r.headers == false,
    {
        GetEntryOptions { headers: false }
    }
}

/// The arguments of a get: an address and options.
#[derive(Debug, PartialEq)]
pub struct GetEntryArgs {
    pub address: Address,
    pub options: GetEntryOptions,
}

/// What a get resolved for one address.
#[derive(Debug, PartialEq)]
pub struct GetEntryResultItem {
    pub entry: Option<Entry>,
    pub crud_status: Option<CrudStatus>,
    pub headers: Vec<ChainHeader>,
}

/// The shape of a get result.
#[derive(Debug, PartialEq)]
pub enum GetEntryResultType {
    Single(GetEntryResultItem),
}

/// The result of a get workflow.
#[derive(Debug, PartialEq)]
pub struct GetEntryResult {
    pub result: GetEntryResultType,
}

impl GetEntryResult {
    /// Whether anything was found.
    pub fn found(&self) -> (r: bool)
        ensures
            match self.result {
                GetEntryResultType::Single(item) => r == (item.entry is Some),
            },
    {
        match &self.result {
            GetEntryResultType::Single(item) => item.entry.is_some(),
        }
    }

    /// The entry found, if any.
    pub fn latest(&self) -> (r: Option<&Entry>)
        ensures
            match self.result {
                GetEntryResultType::Single(item) => match (r, item.entry) {
                    (Some(got), Some(e)) => *got == e,
                    (None, None) => true,
                    _ => false,
                },
            },
    {
        match &self.result {
            GetEntryResultType::Single(item) => item.entry.as_ref(),
        }
    }
}

/// Resolve an address to entry, status and (on request) all known
/// headers.  Absence is reported, not an error.
pub fn get_entry_result_workflow(state: &State, args: &GetEntryArgs) -> (r: Result<
    GetEntryResult,
    HolochainError,
>)
    ensures
        r is Ok,
        r matches Ok(res) ==> match res.result {
            GetEntryResultType::Single(item) => {
                &&& match (item.entry, stored_entry(*state, args.address@)) {
                    (Some(got), Some(e)) => entry_eqv(got, e) && item.crud_status == Some(
                        status_of(*state, args.address@),
                    ),
                    (None, None) => item.crud_status is None,
                    _ => false,
                }
                &&& args.options.headers ==> item.headers@ == crate::state::get_headers_spec(
                    *state,
                    args.address@,
                )
                &&& !args.options.headers ==> item.headers@ == Seq::<ChainHeader>::empty()
            },
        },
{
    let found = get_entry(state, &args.address);
    let (entry, crud_status) = match found {
        Ok(Some(m)) => (Some(m.entry), Some(m.crud_status)),
        _ => (None, None),
    };
    let headers: Vec<ChainHeader> = if args.options.headers {
        match state.get_headers(args.address.clone()) {
            Ok(hs) => hs,
            Err(_) => Vec::new(),
        }
    } else {
        let empty: Vec<ChainHeader> = Vec::new();
        proof {
            assert(empty@ =~= Seq::<ChainHeader>::empty());
        }
        empty
    };
    Ok(
        GetEntryResult {
            result: GetEntryResultType::Single(
                GetEntryResultItem { entry, crud_status, headers },
            ),
        },
    )
}

// --- laws ----------------------------------------------------------------

/// Round trip: an entry committed to the chain is retrievable on the
/// same node with live status; when its address was not on the chain
/// before, the retrieved entry is exactly the committed one.
pub proof fn law_author_round_trip(
    ctx: crate::context::Context,
    pre: State,
    post: State,
    entry: Entry,
    crud_link: Option<Address>,
    id: u64,
)
    requires
        !pre.history@.contains(id),
        reduce_rel(ctx, pre, post, ActionWrapper { id, action: Action::Commit(entry, crud_link) }),
        latest_status_value(pre.dht.meta.rows@, entry_address_text(entry)) is None,
    ensures
        stored_entry(post, entry_address_text(entry)) is Some,
        status_of(post, entry_address_text(entry)) == CrudStatus::Live,
        chain_lookup(pre.agent.chain.items@, entry_address_text(entry)) is None ==> stored_entry(
            post,
            entry_address_text(entry),
        ) == Some(entry),
{
    let addr = entry_address_text(entry);
    assert(post.agent.chain.items@.drop_last() == pre.agent.chain.items@);
    assert(post.agent.chain.items@.last().header.entry_address@ == addr);
    assert(chain_lookup(post.agent.chain.items@, addr) is Some);
    if chain_lookup(pre.agent.chain.items@, addr) is None {
        assert(chain_lookup(post.agent.chain.items@, addr) == Some(entry));
    }
    assert(post.dht == pre.dht);
}

/// Cross-node convergence: an entry delivered for holding becomes
/// retrievable on the receiving node with live status; when its address
/// was fresh to the receiving shard, the retrieved entry is exactly the
/// authored one.
pub proof fn law_cross_node_convergence(
    ctx: crate::context::Context,
    pre: State,
    post: State,
    entry: Entry,
    header: ChainHeader,
    id: u64,
)
    requires
        !pre.history@.contains(id),
        reduce_rel(
            ctx,
            pre,
            post,
            ActionWrapper { id, action: Action::Hold(EntryWithHeader { entry, header }) },
        ),
        chain_lookup(pre.agent.chain.items@, entry_address_text(entry)) is None,
        latest_status_value(pre.dht.meta.rows@, entry_address_text(entry)) is None,
    ensures
        stored_entry(post, entry_address_text(entry)) is Some,
        status_of(post, entry_address_text(entry)) == CrudStatus::Live,
        !crate::dht::cas_has(pre.dht.entries@, entry_address_text(entry)) ==> stored_entry(
            post,
            entry_address_text(entry),
        ) == Some(entry),
{
    let addr = entry_address_text(entry);
    assert(post.agent == pre.agent);
    if crate::dht::cas_has(pre.dht.entries@, addr) {
        assert(post.dht.entries@ == pre.dht.entries@);
        assert(cas_lookup(post.dht.entries@, addr) is Some);
    } else {
        assert(post.dht.entries@.drop_last() == pre.dht.entries@);
        assert(post.dht.entries@.last().address@ == addr);
        assert(cas_lookup(post.dht.entries@, addr) == Some(entry));
    }
    assert(post.dht.meta.rows@.drop_last() =~= pre.dht.meta.rows@);
    assert(latest_status_value(post.dht.meta.rows@, addr) is None);
}

/// A link target added at position `i` and never removed is among the
/// live targets considering the first `k` rows.
proof fn lemma_link_target_included(
    rows: Seq<crate::eav::Eavi>,
    base: Seq<char>,
    tag: Seq<char>,
    i: int,
    k: int,
)
    requires
        0 <= i < k <= rows.len(),
        crate::eav::is_link_row(rows[i], base, tag),
        !crate::eav::link_removed_after(rows, base, tag, rows[i].value@, i),
    ensures
        crate::eav::live_link_targets_upto(rows, base, tag, k).contains(rows[i].value),
    decreases k,
{
    if k == i + 1 {
        let prev = crate::eav::live_link_targets_upto(rows, base, tag, k - 1);
        assert(crate::eav::live_link_targets_upto(rows, base, tag, k) == prev.push(
            rows[i].value,
        ));
        assert(prev.push(rows[i].value)[prev.len() as int] == rows[i].value);
    } else {
        lemma_link_target_included(rows, base, tag, i, k - 1);
        let prev = crate::eav::live_link_targets_upto(rows, base, tag, k - 1);
        let cur = crate::eav::live_link_targets_upto(rows, base, tag, k);
        let w = choose|w: int| 0 <= w < prev.len() && prev[w] == rows[i].value;
        assert(cur[w] == rows[i].value);
    }
}

/// Link semantics: two links from the same base under the same tag, with
/// no removals recorded, are both among the live targets, whatever order
/// they were added in.
pub proof fn law_link_semantics(
    rows: Seq<crate::eav::Eavi>,
    base: Seq<char>,
    tag: Seq<char>,
    i: int,
    j: int,
)
    requires
        0 <= i < rows.len(),
        0 <= j < rows.len(),
        crate::eav::is_link_row(rows[i], base, tag),
        crate::eav::is_link_row(rows[j], base, tag),
        forall|m: int| 0 <= m < rows.len() ==> !(#[trigger] rows[m].attribute is RemovedLinkTag),
    ensures
        crate::eav::live_link_targets(rows, base, tag).contains(rows[i].value),
        crate::eav::live_link_targets(rows, base, tag).contains(rows[j].value),
{
    assert(!crate::eav::link_removed_after(rows, base, tag, rows[i].value@, i));
    assert(!crate::eav::link_removed_after(rows, base, tag, rows[j].value@, j));
    lemma_link_target_included(rows, base, tag, i, rows.len() as int);
    lemma_link_target_included(rows, base, tag, j, rows.len() as int);
}

} // verus!
