//! Errors, addresses, links, signing bodies and the HTTP interface type.

use dht_core::action::Action;
use dht_core::action::ActionWrapper;
use dht_core::chain::create_new_chain_header;
use dht_core::context::Context;
use dht_core::eav::CrudStatus;
use dht_core::eav::create_crud_status_eav;
use dht_core::entry::AgentId;
use dht_core::entry::DeletionEntry;
use dht_core::entry::Entry;
use dht_core::entry::EntryType;
use dht_core::entry::Link;
use dht_core::error::HolochainError;
use dht_core::error::SodiumError;
use dht_core::hashing::address_for_bytes;
use dht_core::http_interface::HttpInterface;
use dht_core::instance::Instance;
use dht_core::signing::interpret_signing_response;
use dht_core::signing::signing_request_body;
use dht_core::state::State;
use dht_core::workflows::get_links;

fn test_context(name: &str) -> Context {
    Context::new(AgentId::new(name.to_string(), format!("{}-key", name)))
}

#[test]
fn sodium_error_new_is_generic() {
    let e = SodiumError::new("boom");
    assert_eq!(e, SodiumError::Generic("boom".to_string()));
}

#[test]
fn holochain_error_from_sodium() {
    assert_eq!(
        HolochainError::from(SodiumError::Generic("a".to_string())),
        HolochainError::ErrorGeneric("a".to_string())
    );
    assert_eq!(
        HolochainError::from(SodiumError::OutputLength("b".to_string())),
        HolochainError::ErrorGeneric("b".to_string())
    );
    assert_eq!(
        HolochainError::from(SodiumError::OutOfMemory),
        HolochainError::ErrorGeneric("libSodium went out of memory".to_string())
    );
}

#[test]
fn holochain_error_describe_keeps_reason() {
    assert_eq!(
        HolochainError::ValidationFailed("FAIL wat".to_string()).describe(),
        "FAIL wat"
    );
    assert_eq!(HolochainError::new("oops").describe(), "oops");
}

#[test]
fn address_is_hex_of_sha2_multihash() {
    // The documented SHA2-256 multihash of this input starts with the
    // code/length prefix 0x12 0x20; an encoder that echoed its input
    // would not produce it.
    let address = address_for_bytes(&b"hello world".to_vec());
    assert_eq!(
        address,
        "1220b94d27b9934d3e08a52e52d7da7dabfac484efe37a5380ee9088f7ace2efcde9"
    );
}

#[test]
fn entry_addresses_are_content_derived() {
    let a = Entry::App("t".to_string(), "one".to_string());
    let b = Entry::App("t".to_string(), "two".to_string());
    assert_eq!(a.address(), a.address());
    assert_ne!(a.address(), b.address());
    assert_eq!(a.address().len(), 68);
}

#[test]
fn entry_types_follow_variants() {
    assert_eq!(
        Entry::App("x".to_string(), "v".to_string()).entry_type(),
        EntryType::App("x".to_string())
    );
    assert_eq!(
        Entry::Deletion(DeletionEntry::new("addr".to_string())).entry_type(),
        EntryType::Deletion
    );
    assert!(EntryType::has_valid_app_name(&"post".to_string()));
    assert!(!EntryType::has_valid_app_name(&"".to_string()));
    assert!(!EntryType::has_valid_app_name(&"%sys".to_string()));
}

#[test]
fn chain_headers_are_tamper_evident() {
    let carol = test_context("carol");
    let entry = Entry::App("t".to_string(), "v".to_string());
    let first = create_new_chain_header(&entry, &carol.agent_id, &None, None, 0);
    let second = create_new_chain_header(&entry, &carol.agent_id, &Some(first.clone()), None, 1);
    assert_eq!(second.link, Some(first.address()));
    assert_ne!(first.address(), second.address());
    assert!(first.same_header(&first));
    assert!(!first.same_header(&second));
}

#[test]
fn removed_links_are_not_returned() {
    let context = test_context("carol");
    let base = "base-address".to_string();
    let target = "target-address".to_string();
    let link = Link::new(&base, &target, "t");
    let state = State::new(&context)
        .reduce(
            &context,
            ActionWrapper::new(0, Action::AddLink(link.clone())),
        )
        .reduce(&context, ActionWrapper::new(1, Action::RemoveLink(link)));
    let links = get_links(&state, &base, &"t".to_string()).unwrap();
    assert!(links.is_empty());
}

#[test]
fn crud_status_rows_select_the_latest() {
    let context = test_context("carol");
    let mut state = State::new(&context);
    let address = "entry-address".to_string();
    state
        .dht
        .meta
        .add_eavi(create_crud_status_eav(&address, CrudStatus::Live));
    assert_eq!(state.dht.meta.crud_status(&address), Some(CrudStatus::Live));
    state
        .dht
        .meta
        .add_eavi(create_crud_status_eav(&address, CrudStatus::Deleted));
    assert_eq!(
        state.dht.meta.crud_status(&address),
        Some(CrudStatus::Deleted)
    );
    assert_eq!(state.dht.meta.crud_status(&"other".to_string()), None);
}

#[test]
fn signing_request_body_escapes_values() {
    let body = signing_request_body(&"agent-key".to_string(), &"say \"hi\"".to_string());
    assert_eq!(
        String::from_utf8(body).unwrap(),
        "{\"agent_id\":\"agent-key\",\"payload\":\"say \\\"hi\\\"\"}"
    );
}

#[test]
fn signing_response_interpretation() {
    assert_eq!(
        interpret_signing_response(true, Some("sig".to_string())),
        Ok("sig".to_string())
    );
    assert_eq!(
        interpret_signing_response(true, None),
        Err(HolochainError::ErrorGeneric(
            "Signing service response has no text".to_string()
        ))
    );
    assert_eq!(
        interpret_signing_response(false, Some("ignored".to_string())),
        Err(HolochainError::ErrorGeneric(
            "Status of response from signing service is not success".to_string()
        ))
    );
}

#[test]
fn http_interface_keeps_its_port() {
    let interface = HttpInterface::new(4000);
    assert_eq!(interface.port, 4000);
}

#[test]
fn instance_hands_out_fresh_identities() {
    let mut instance = Instance::new(test_context("carol"));
    assert_eq!(instance.next_id, 0);
    instance.dispatch(Action::AddLink(Link::new(
        &"b".to_string(),
        &"t".to_string(),
        "tag",
    )));
    assert_eq!(instance.next_id, 1);
    assert_eq!(instance.state.history, vec![0]);
}
