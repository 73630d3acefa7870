//! Round trips across the node boundary: author, deliver, hold, get.

use dht_core::bridge::DhtMetaData;
use dht_core::bridge::EntryData;
use dht_core::bridge::handle_store_entry;
use dht_core::bridge::handle_store_meta;
use dht_core::chain::EntryWithHeader;
use dht_core::chain::create_new_chain_header;
use dht_core::context::Context;
use dht_core::dna::Dna;
use dht_core::dna::DnaWasm;
use dht_core::dna::EntryTypeDef;
use dht_core::dna::EntryTypeRow;
use dht_core::dna::Sharing;
use dht_core::dna::ValidationRule;
use dht_core::dna::Zome;
use dht_core::dna::ZomeEntry;
use dht_core::eav::CrudStatus;
use dht_core::entry::AgentId;
use dht_core::entry::Entry;
use dht_core::entry::Link;
use dht_core::error::HolochainError;
use dht_core::instance::Instance;
use dht_core::workflows::GetEntryArgs;
use dht_core::workflows::GetEntryOptions;
use dht_core::workflows::GetEntryResultType;
use dht_core::workflows::add_link;
use dht_core::workflows::author_entry;
use dht_core::workflows::get_entry;
use dht_core::workflows::get_entry_result_workflow;
use dht_core::workflows::get_links;
use dht_core::workflows::get_validation_package;
use dht_core::workflows::hold_entry_workflow;

fn test_dna(uuid: &str, rule: ValidationRule) -> Dna {
    let mut dna = Dna::new();
    dna.uuid = uuid.to_string();
    dna.zomes = vec![ZomeEntry {
        name: "test_zome".to_string(),
        zome: Zome {
            description: "test_cap".to_string(),
            entry_types: vec![EntryTypeRow {
                name: "testEntryType".to_string(),
                def: EntryTypeDef {
                    description: "".to_string(),
                    sharing: Sharing::Public,
                },
            }],
            traits: vec![],
            fn_declarations: vec![],
            code: DnaWasm {
                code: vec![],
                validation: rule,
            },
            bridges: vec![],
        },
    }];
    dna
}

fn test_entry() -> Entry {
    Entry::App(
        "testEntryType".to_string(),
        "\"test entry value\"".to_string(),
    )
}

fn instance_by_name(name: &str, dna: Dna) -> Instance {
    let context = Context::new(AgentId::new(name.to_string(), format!("{}-key", name)));
    let state = dht_core::state::State::new(&context).reduce(
        &context,
        dht_core::action::ActionWrapper::new(0, dht_core::action::Action::InitApplication(dna)),
    );
    Instance {
        context,
        state,
        next_id: 1,
    }
}

#[test]
fn get_entry_roundtrip() {
    let dna = test_dna("get_entry_roundtrip", ValidationRule::Accept);
    let mut context1 = instance_by_name("alice1", dna.clone());
    let mut context2 = instance_by_name("bob1", dna.clone());

    // Author and commit the entry on the first node.
    let entry = test_entry();
    let result = author_entry(entry.clone(), None, &mut context1);
    assert!(result.is_ok());
    let address = result.unwrap();

    // Deliver it to the second node, as the network would.
    let header = context1
        .state
        .agent()
        .get_most_recent_header_for_entry(&entry)
        .expect("There must be a header in the author's source chain after commit");
    let package = get_validation_package(&header, &context1.state)
        .unwrap()
        .expect("author must be able to produce a validation package");
    handle_store_entry(
        EntryData {
            entry_address: address.clone(),
            entry_content: EntryWithHeader {
                entry: entry.clone(),
                header,
            },
        },
        Some(package),
        &mut context2,
    );

    // Get it on the second node.
    let result = get_entry(&context2.state, &address);
    assert!(result.is_ok());
    let maybe_entry_with_meta = result.unwrap();
    assert!(maybe_entry_with_meta.is_some());
    let entry_with_meta = maybe_entry_with_meta.unwrap();
    assert_eq!(entry_with_meta.entry, entry);
    assert_eq!(entry_with_meta.crud_status, CrudStatus::Live);
}

#[test]
fn get_entry_results_roundtrip() {
    let dna = test_dna("get_entry_results_roundtrip", ValidationRule::Accept);
    let mut context1 = instance_by_name("alice1", dna.clone());
    let context2 = instance_by_name("bob1", dna.clone());

    // Commit the entry on the first node; a second agent signs its own
    // header for the same entry, which the first node also holds.
    let entry = test_entry();
    author_entry(entry.clone(), None, &mut context1).unwrap();
    let header1 = context1
        .state
        .agent()
        .get_most_recent_header_for_entry(&entry)
        .unwrap();
    let header2 = create_new_chain_header(&entry, &context2.context.agent_id, &None, None, 0);
    context1.state.dht.add(entry.clone());
    context1
        .state
        .dht
        .add_header_for_entry(&entry, &header2)
        .unwrap();

    // Get it with headers.
    let args = GetEntryArgs {
        address: entry.address(),
        options: GetEntryOptions { headers: true },
    };
    let result = get_entry_result_workflow(&context1.state, &args);
    let GetEntryResultType::Single(item) = result.unwrap().result;
    assert_eq!(item.headers, vec![header1, header2]);
}

#[test]
fn get_non_existant_entry() {
    let dna = test_dna("get_non_existant_entry", ValidationRule::Accept);
    let _context1 = instance_by_name("alice2", dna.clone());
    let context2 = instance_by_name("bob2", dna.clone());

    let entry = test_entry();

    let result = get_entry(&context2.state, &entry.address());
    assert!(result.is_ok());
    let maybe_entry_with_meta = result.unwrap();
    assert!(maybe_entry_with_meta.is_none());
}

#[test]
fn get_when_alone() {
    let dna = test_dna("get_when_alone", ValidationRule::Accept);
    let context1 = instance_by_name("bob3", dna);

    let entry = test_entry();

    let result = get_entry(&context1.state, &entry.address());
    assert!(result.is_ok());
    let maybe_entry_with_meta = result.unwrap();
    assert!(maybe_entry_with_meta.is_none());
}

#[test]
fn get_validation_package_roundtrip() {
    let dna = test_dna("get_validation_package_roundtrip", ValidationRule::Accept);
    let mut context1 = instance_by_name("alice1", dna.clone());

    let entry = test_entry();
    author_entry(entry.clone(), None, &mut context1).expect("Could not author entry");

    let header = context1
        .state
        .agent()
        .get_most_recent_header_for_entry(&entry)
        .expect("There must be a header in the author's source chain after commit");

    let _context2 = instance_by_name("bob1", dna.clone());
    let result = get_validation_package(&header, &context1.state);

    assert!(result.is_ok());
    let maybe_validation_package = result.unwrap();
    assert!(maybe_validation_package.is_some());
    let validation_package = maybe_validation_package.unwrap();
    assert_eq!(validation_package.chain_header, header);
}

#[test]
fn get_links_roundtrip() {
    let dna = test_dna("get_links_roundtrip", ValidationRule::Accept);
    let mut context1 = instance_by_name("alice1", dna.clone());

    let mut entry_addresses: Vec<String> = Vec::new();
    for i in 0..3 {
        let entry = Entry::App("testEntryType".to_string(), format!("entry{} value", i));
        let address = author_entry(entry, None, &mut context1)
            .expect("Could not commit entry for testing");
        entry_addresses.push(address);
    }

    let link1 = Link::new(&entry_addresses[0], &entry_addresses[1], "test-tag");
    let link2 = Link::new(&entry_addresses[0], &entry_addresses[2], "test-tag");

    assert!(add_link(link1, &mut context1).is_ok());
    assert!(add_link(link2, &mut context1).is_ok());

    let maybe_links = get_links(
        &context1.state,
        &entry_addresses[0],
        &"test-tag".to_string(),
    );

    assert!(maybe_links.is_ok());
    let links = maybe_links.unwrap();
    // can be in any order
    assert!(
        (links[0] == entry_addresses[1] || links[0] == entry_addresses[2])
            && (links[1] == entry_addresses[1] || links[1] == entry_addresses[2])
    );
}

#[test]
fn test_reject_invalid_entry_on_hold_workflow() {
    // A node whose local manifest regards everything as valid authors an
    // entry; the holding node's manifest regards nothing as valid.
    let hacked_dna = test_dna("test_reject_invalid_entry_on_hold_workflow", ValidationRule::Accept);
    let dna = test_dna(
        "test_reject_invalid_entry_on_hold_workflow",
        ValidationRule::Reject("FAIL wat".to_string()),
    );

    let mut context1 = instance_by_name("alice", hacked_dna);
    let mut context2 = instance_by_name("jack", dna);

    // Commit entry on the attacker's node.
    let entry = test_entry();
    let _entry_address = author_entry(entry.clone(), None, &mut context1).unwrap();

    // Get the header which triggers the hold workflow.
    let header = context1
        .state
        .agent()
        .get_most_recent_header_for_entry(&entry)
        .expect("There must be a header in the author's source chain after commit");
    let entry_with_header = EntryWithHeader { entry, header };

    // Call the hold workflow on the victim node.
    let package = get_validation_package(&entry_with_header.header, &context1.state)
        .unwrap()
        .unwrap();
    let result = hold_entry_workflow(entry_with_header, Some(package), &mut context2);

    // ... and expect validation to fail with the module's reason:
    assert!(result.is_err());
    assert_eq!(
        result.err().unwrap(),
        HolochainError::ValidationFailed(String::from("FAIL wat")),
    );
}

#[test]
fn author_without_application_fails() {
    let context = Context::new(AgentId::new("lone".to_string(), "lone-key".to_string()));
    let mut instance = Instance::new(context);
    let result = author_entry(test_entry(), None, &mut instance);
    assert_eq!(
        result,
        Err(HolochainError::ErrorGeneric("DNA not initialized".to_string()))
    );
    assert!(instance.state.agent().chain.items.is_empty());
}

#[test]
fn rejected_entry_leaves_no_trace() {
    // A rejected entry leaves the target store unchanged and does not
    // appear in subsequent gets.
    let dna = test_dna("rejected_entry", ValidationRule::Reject("FAIL wat".to_string()));
    let mut context1 = instance_by_name("alice3", dna);
    let entry = test_entry();
    let result = author_entry(entry.clone(), None, &mut context1);
    assert_eq!(
        result,
        Err(HolochainError::ValidationFailed("FAIL wat".to_string()))
    );
    assert!(context1.state.agent().chain.items.is_empty());
    let found = get_entry(&context1.state, &entry.address()).unwrap();
    assert!(found.is_none());
}

#[test]
fn hold_without_package_is_unavailability_not_rejection() {
    let dna = test_dna("hold_without_package", ValidationRule::Accept);
    let mut context1 = instance_by_name("alice5", dna.clone());
    let mut context2 = instance_by_name("bob5", dna);
    let entry = test_entry();
    author_entry(entry.clone(), None, &mut context1).unwrap();
    let header = context1
        .state
        .agent()
        .get_most_recent_header_for_entry(&entry)
        .unwrap();
    let result = hold_entry_workflow(EntryWithHeader { entry, header }, None, &mut context2);
    assert_eq!(
        result,
        Err(HolochainError::ErrorGeneric(
            "Could not get validation package from source".to_string()
        ))
    );
    assert!(context2.state.dht().entries.is_empty());
}

#[test]
fn store_meta_link_records_the_link() {
    let dna = test_dna("store_meta_link", ValidationRule::Accept);
    let mut context1 = instance_by_name("alice6", dna.clone());
    let mut context2 = instance_by_name("bob6", dna);
    let base = "base-address".to_string();
    let target = "target-address".to_string();
    let link_entry = Entry::LinkAdd(Link::new(&base, &target, "test-tag"));
    let header = create_new_chain_header(&link_entry, &context1.context.agent_id, &None, None, 0);
    let package = dht_core::nucleus::ValidationPackage {
        chain_header: header.clone(),
        source_chain_headers: None,
    };
    handle_store_meta(
        DhtMetaData {
            entry_address: base.clone(),
            attribute: "link".to_string(),
            content_list: vec![EntryWithHeader {
                entry: link_entry,
                header,
            }],
        },
        Some(package),
        &mut context2,
    );
    let links = get_links(&context2.state, &base, &"test-tag".to_string()).unwrap();
    assert_eq!(links, vec![target]);
}

#[test]
fn redelivered_store_entry_does_not_duplicate_headers() {
    // The bridge contract lets callers retry delivery; "all headers"
    // stays deduplicated by address.
    let dna = test_dna("redelivered_store_entry", ValidationRule::Accept);
    let mut context1 = instance_by_name("alice9", dna.clone());
    let mut context2 = instance_by_name("bob9", dna);
    let entry = test_entry();
    let address = author_entry(entry.clone(), None, &mut context1).unwrap();
    let header = context1
        .state
        .agent()
        .get_most_recent_header_for_entry(&entry)
        .unwrap();
    for _ in 0..2 {
        let package = get_validation_package(&header, &context1.state)
            .unwrap()
            .unwrap();
        handle_store_entry(
            EntryData {
                entry_address: address.clone(),
                entry_content: EntryWithHeader {
                    entry: entry.clone(),
                    header: header.clone(),
                },
            },
            Some(package),
            &mut context2,
        );
    }
    let headers = context2.state.get_headers(address).unwrap();
    assert_eq!(headers, vec![header]);
}

#[test]
fn store_meta_crud_status_is_accepted_but_deferred() {
    let dna = test_dna("store_meta_deferred", ValidationRule::Accept);
    let mut context1 = instance_by_name("alice4", dna);
    let before = format!("{:?}", context1.state);
    handle_store_meta(
        DhtMetaData {
            entry_address: "some-address".to_string(),
            attribute: "crud-status".to_string(),
            content_list: vec![],
        },
        None,
        &mut context1,
    );
    assert_eq!(format!("{:?}", context1.state), before);
}

#[test]
fn author_then_get_on_same_node() {
    // An entry committed via the author workflow is returned by a
    // subsequent get on the same node, live and exactly as committed.
    let dna = test_dna("author_then_get", ValidationRule::Accept);
    let mut context1 = instance_by_name("alice7", dna);
    let entry = test_entry();
    let address = author_entry(entry.clone(), None, &mut context1).unwrap();
    let found = get_entry(&context1.state, &address).unwrap().unwrap();
    assert_eq!(found.entry, entry);
    assert_eq!(found.crud_status, CrudStatus::Live);
    // The authored entry is also held in the node's own shard.
    assert!(context1.state.dht().has_entry(&address));
    assert_eq!(context1.state.dht().get_entry(&address), Some(entry));
}

#[test]
fn get_entry_result_reports_presence() {
    let dna = test_dna("get_entry_result_presence", ValidationRule::Accept);
    let mut context1 = instance_by_name("alice8", dna);
    let entry = test_entry();
    let address = author_entry(entry.clone(), None, &mut context1).unwrap();
    let found = get_entry_result_workflow(
        &context1.state,
        &GetEntryArgs {
            address,
            options: GetEntryOptions::default(),
        },
    )
    .unwrap();
    assert!(found.found());
    assert_eq!(found.latest(), Some(&entry));
    let missing = get_entry_result_workflow(
        &context1.state,
        &GetEntryArgs {
            address: "unseen-address".to_string(),
            options: GetEntryOptions::default(),
        },
    )
    .unwrap();
    assert!(!missing.found());
    assert_eq!(missing.latest(), None);
}
