//! The state container: reduction, idempotence, history, headers.

use dht_core::action::Action;
use dht_core::action::ActionWrapper;
use dht_core::action::NetworkSettings;
use dht_core::chain::AgentState;
use dht_core::chain::AgentStateSnapshot;
use dht_core::chain::ChainItem;
use dht_core::chain::ChainStore;
use dht_core::chain::create_new_chain_header;
use dht_core::context::Context;
use dht_core::dna::Dna;
use dht_core::entry::AgentId;
use dht_core::entry::Entry;
use dht_core::state::State;
use dht_core::state::test_store;

fn test_context(name: &str) -> Context {
    Context::new(AgentId::new(name.to_string(), format!("{}-key", name)))
}

fn test_entry() -> Entry {
    Entry::App(
        "testEntryType".to_string(),
        "\"test entry value\"".to_string(),
    )
}

#[test]
fn fresh_state_is_empty() {
    let context = test_context("carol");
    let state = State::new(&context);
    assert!(state.nucleus().dna.is_none());
    assert!(state.agent().chain.items.is_empty());
    assert!(state.dht().entries.is_empty());
    assert!(!state.network().initialized());
    assert!(state.history.is_empty());
}

#[test]
fn test_store_is_fresh() {
    let context = test_context("carol");
    let state = test_store(&context);
    assert!(state.history.is_empty());
    assert!(state.nucleus().dna.is_none());
}

#[test]
fn reduce_commit_appends_to_chain() {
    let context = test_context("carol");
    let state = State::new(&context);
    let entry = test_entry();
    let state = state.reduce(
        &context,
        ActionWrapper::new(7, Action::Commit(entry.clone(), None)),
    );
    assert_eq!(state.agent().chain.items.len(), 1);
    let item = &state.agent().chain.items[0];
    assert_eq!(item.entry, entry);
    assert_eq!(item.header.entry_address, entry.address());
    assert_eq!(item.header.timestamp, 0);
    assert_eq!(item.header.link, None);
    assert_eq!(item.header.provenance.source, "carol-key");
    assert_eq!(state.agent().top_chain_header, Some(item.header.clone()));
    assert_eq!(state.history, vec![7]);
}

#[test]
fn reduce_links_previous_header() {
    let context = test_context("carol");
    let state = State::new(&context);
    let state = state.reduce(
        &context,
        ActionWrapper::new(0, Action::Commit(test_entry(), None)),
    );
    let first_header_address = state.agent().chain.items[0].header.address();
    let second = Entry::App("testEntryType".to_string(), "\"two\"".to_string());
    let state = state.reduce(&context, ActionWrapper::new(1, Action::Commit(second, None)));
    let item = &state.agent().chain.items[1];
    assert_eq!(item.header.link, Some(first_header_address));
    assert_eq!(item.header.timestamp, 1);
}

#[test]
fn reduce_is_idempotent_per_action_identity() {
    // Re-dispatching the same wrapped action identity yields a state
    // observably identical to dispatching it once.
    let context = test_context("carol");
    let once = State::new(&context).reduce(
        &context,
        ActionWrapper::new(3, Action::Commit(test_entry(), None)),
    );
    let twice = State::new(&context)
        .reduce(
            &context,
            ActionWrapper::new(3, Action::Commit(test_entry(), None)),
        )
        .reduce(
            &context,
            ActionWrapper::new(3, Action::Commit(test_entry(), None)),
        );
    assert_eq!(once, twice);
    assert_eq!(twice.agent().chain.items.len(), 1);
    assert_eq!(twice.history, vec![3]);
}

#[test]
fn reduce_init_network_records_session() {
    let context = test_context("carol");
    let state = State::new(&context);
    let state = state.reduce(
        &context,
        ActionWrapper::new(
            0,
            Action::InitNetwork(NetworkSettings {
                dna_address: "dna-addr".to_string(),
                agent_id: "carol-key".to_string(),
            }),
        ),
    );
    assert!(state.network().initialized());
    assert_eq!(state.network().dna_address, Some("dna-addr".to_string()));
    assert_eq!(state.network().agent_id, Some("carol-key".to_string()));
}

#[test]
fn new_with_agent_recovers_dna_from_chain() {
    let context = test_context("carol");
    let mut dna = Dna::new();
    dna.name = "recovered".to_string();
    let dna_entry = Entry::Dna(dna);
    let header = create_new_chain_header(&dna_entry, &context.agent_id, &None, None, 0);
    let chain = ChainStore {
        items: vec![ChainItem {
            header: header.clone(),
            entry: dna_entry,
        }],
    };
    let agent_state = AgentState::new_with_top_chain_header(chain, Some(header));
    let state = State::new_with_agent(&context, agent_state);
    assert_eq!(state.nucleus().dna.as_ref().unwrap().name, "recovered");
}

#[test]
fn try_from_agent_snapshot_resumes() {
    let context = test_context("carol");
    let snapshot = AgentStateSnapshot {
        chain: ChainStore::new(),
        top_chain_header: None,
    };
    assert_eq!(snapshot.top_chain_header(), &None);
    let state = State::try_from_agent_snapshot(&context, snapshot).unwrap();
    assert!(state.agent().chain.items.is_empty());
    assert!(state.nucleus().dna.is_none());
    assert!(state.history.is_empty());
}

#[test]
fn get_headers_merges_chain_and_dht() {
    let context = test_context("carol");
    let other = test_context("dave");
    let state = State::new(&context);
    let entry = test_entry();
    let mut state = state.reduce(
        &context,
        ActionWrapper::new(0, Action::Commit(entry.clone(), None)),
    );
    let local_header = state.agent().chain.items[0].header.clone();
    let held_header = create_new_chain_header(&entry, &other.agent_id, &None, None, 0);
    state.dht.add_header_for_entry(&entry, &held_header).unwrap();
    // The local header is registered in the metadata too, and must not be
    // returned twice.
    state.dht.add_header_for_entry(&entry, &local_header).unwrap();
    let headers = state.get_headers(entry.address()).unwrap();
    assert_eq!(headers, vec![local_header, held_header]);
}

#[test]
fn cas_add_is_write_once() {
    let context = test_context("carol");
    let mut state = State::new(&context);
    let entry = test_entry();
    state.dht.add(entry.clone());
    state.dht.add(entry.clone());
    assert_eq!(state.dht.entries.len(), 1);
    assert_eq!(state.dht.entries[0].address, entry.address());
}
