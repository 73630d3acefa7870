//! The sandbox boundary: word encoding, shared memory, host functions.

use dht_core::action::Action;
use dht_core::action::ActionWrapper;
use dht_core::context::Context;
use dht_core::dna::Dna;
use dht_core::dna::DnaWasm;
use dht_core::dna::EntryTypeDef;
use dht_core::dna::EntryTypeRow;
use dht_core::dna::Sharing;
use dht_core::dna::ValidationRule;
use dht_core::dna::Zome;
use dht_core::dna::ZomeEntry;
use dht_core::eav::CrudStatus;
use dht_core::entry::AgentId;
use dht_core::entry::Entry;
use dht_core::instance::Instance;
use dht_core::ribosome_encoding::RibosomeEncodedValue;
use dht_core::ribosome_encoding::RibosomeErrorCode;
use dht_core::ribosome_encoding::WasmAllocation;
use dht_core::ribosome_encoding::decode;
use dht_core::ribosome_encoding::encode;
use dht_core::ribosome_memory::WasmPageManager;
use dht_core::ribosome_runtime::Runtime;
use dht_core::ribosome_runtime::Trap;
use dht_core::ribosome_runtime::WasmCallData;
use dht_core::ribosome_runtime::ZomeFnCall;
use dht_core::ribosome_runtime::invoke_index;
use dht_core::ribosome_runtime::invoke_remove_entry;
use dht_core::state::State;
use dht_core::workflows::author_entry;
use dht_core::workflows::get_entry;

#[test]
fn encoding_round_trips() {
    let values = vec![
        RibosomeEncodedValue::Success,
        RibosomeEncodedValue::Failure(RibosomeErrorCode::Unspecified),
        RibosomeEncodedValue::Failure(RibosomeErrorCode::OutOfMemory),
        RibosomeEncodedValue::Allocation(WasmAllocation {
            offset: 0,
            length: 5,
        }),
        RibosomeEncodedValue::Allocation(WasmAllocation {
            offset: 4096,
            length: 1,
        }),
        RibosomeEncodedValue::Allocation(WasmAllocation {
            offset: u32::MAX,
            length: u32::MAX,
        }),
    ];
    for v in values {
        assert_eq!(decode(encode(v)), v);
    }
    assert_eq!(encode(RibosomeEncodedValue::Success), 0);
}

#[test]
fn encoding_interpretations_never_collide() {
    // No failure code shares a word with an allocation, and neither
    // shares the success word.
    let failure = encode(RibosomeEncodedValue::Failure(
        RibosomeErrorCode::Unspecified,
    ));
    let allocation = encode(RibosomeEncodedValue::Allocation(WasmAllocation {
        offset: 1,
        length: 0x10,
    }));
    assert_ne!(failure, 0);
    assert_ne!(allocation, 0);
    assert_ne!(failure, allocation);
}

#[test]
fn memory_write_then_read_round_trips() {
    let mut memory = WasmPageManager::new();
    let payload: Vec<u8> = vec![1, 2, 3, 4, 5];
    let allocation = memory.write(&payload).unwrap();
    assert_eq!(allocation.offset, 0);
    assert_eq!(allocation.length, 5);
    let word = encode(RibosomeEncodedValue::Allocation(allocation));
    let decoded = match decode(word) {
        RibosomeEncodedValue::Allocation(a) => a,
        other => panic!("expected an allocation, got {:?}", other),
    };
    assert_eq!(memory.read(&decoded), payload);
}

#[test]
fn memory_refuses_empty_allocations() {
    let mut memory = WasmPageManager::new();
    let empty: Vec<u8> = vec![];
    assert_eq!(
        memory.write(&empty),
        Err(RibosomeErrorCode::ZeroSizedAllocation)
    );
}

fn runtime_with_committed_entry() -> (Runtime, Entry) {
    let context = Context::new(AgentId::new("carol".to_string(), "carol-key".to_string()));
    let mut dna = Dna::new();
    dna.zomes = vec![ZomeEntry {
        name: "test_zome".to_string(),
        zome: Zome {
            description: "".to_string(),
            entry_types: vec![EntryTypeRow {
                name: "testEntryType".to_string(),
                def: EntryTypeDef {
                    description: "".to_string(),
                    sharing: Sharing::Public,
                },
            }],
            traits: vec![],
            fn_declarations: vec![],
            code: DnaWasm {
                code: vec![],
                validation: ValidationRule::Accept,
            },
            bridges: vec![],
        },
    }];
    let state = State::new(&context).reduce(
        &context,
        ActionWrapper::new(0, Action::InitApplication(dna)),
    );
    let mut instance = Instance {
        context: context.clone(),
        state,
        next_id: 1,
    };
    let entry = Entry::App(
        "testEntryType".to_string(),
        "\"test entry value\"".to_string(),
    );
    author_entry(entry.clone(), None, &mut instance).unwrap();
    let runtime = Runtime {
        memory_manager: WasmPageManager::new(),
        data: WasmCallData::new_zome_call(
            context,
            "test-dna".to_string(),
            ZomeFnCall {
                zome_name: "test_zome".to_string(),
                fn_name: "remove_entry".to_string(),
                parameters: "".to_string(),
            },
        ),
        instance,
    };
    (runtime, entry)
}

#[test]
fn invoke_remove_entry_marks_entry_deleted() {
    let (mut runtime, entry) = runtime_with_committed_entry();
    let address = entry.address();

    // Before: live.
    let before = get_entry(&runtime.instance.state, &address).unwrap().unwrap();
    assert_eq!(before.crud_status, CrudStatus::Live);

    // The sandbox writes the address into shared memory and passes the
    // encoded allocation.
    let address_bytes: Vec<u8> = address.as_bytes().to_vec();
    let allocation = runtime.memory_manager.write(&address_bytes).unwrap();
    let word = encode(RibosomeEncodedValue::Allocation(allocation));

    let result = invoke_remove_entry(&mut runtime, &vec![word]);

    // The returned word names an allocation holding a success frame.
    let out_word = result.unwrap().unwrap();
    let out_allocation = match decode(out_word) {
        RibosomeEncodedValue::Allocation(a) => a,
        other => panic!("expected an allocation, got {:?}", other),
    };
    let frame = runtime.memory_manager.read(&out_allocation);
    assert_eq!(frame[0], 1, "the frame must carry the success flag");
    assert_eq!(*frame.last().unwrap(), 0, "the frame ends with the sentinel");

    // After: a deletion entry is on the chain and the entry is deleted.
    assert_eq!(runtime.instance.state.agent().chain.items.len(), 2);
    let after = get_entry(&runtime.instance.state, &address).unwrap().unwrap();
    assert_eq!(after.crud_status, CrudStatus::Deleted);
    assert!(after.maybe_link_update_delete.is_some());
}

#[test]
fn invoke_remove_entry_rejects_malformed_arguments() {
    let (mut runtime, _) = runtime_with_committed_entry();
    let before_chain_len = runtime.instance.state.agent().chain.items.len();

    // A failure word is not a valid argument.
    let bad_word = encode(RibosomeEncodedValue::Failure(RibosomeErrorCode::Unspecified));
    let result = invoke_remove_entry(&mut runtime, &vec![bad_word]);
    let out = result.unwrap().unwrap();
    assert_eq!(
        decode(out),
        RibosomeEncodedValue::Failure(RibosomeErrorCode::ArgumentDeserializationFailed)
    );
    assert_eq!(
        runtime.instance.state.agent().chain.items.len(),
        before_chain_len
    );
}

#[test]
fn invoke_remove_entry_reports_unknown_address() {
    let (mut runtime, _) = runtime_with_committed_entry();
    let unknown: Vec<u8> = b"0000000000000000000000000000000000".to_vec();
    let allocation = runtime.memory_manager.write(&unknown).unwrap();
    let word = encode(RibosomeEncodedValue::Allocation(allocation));
    let result = invoke_remove_entry(&mut runtime, &vec![word]);
    let out = result.unwrap().unwrap();
    assert_eq!(
        decode(out),
        RibosomeEncodedValue::Failure(RibosomeErrorCode::Unspecified)
    );
}

#[test]
fn invoke_index_rejects_unknown_function_index() {
    // An unknown host-function index is a fatal sandbox violation, not a
    // recoverable error.
    let (mut runtime, _) = runtime_with_committed_entry();
    let result = invoke_index(&mut runtime, 999, &vec![]);
    assert_eq!(result, Err(Trap::Unreachable));
}

#[test]
fn direct_calls_cannot_reach_remove_entry() {
    let (mut runtime, _) = runtime_with_committed_entry();
    runtime.data = WasmCallData::DirectCall("remove_entry".to_string());
    assert_eq!(runtime.zome_call_data(), Err(Trap::Unreachable));
    let result = invoke_remove_entry(&mut runtime, &vec![]);
    assert_eq!(result, Err(Trap::Unreachable));
}

#[test]
fn fn_name_names_the_called_function() {
    let context = Context::new(AgentId::new("carol".to_string(), "carol-key".to_string()));
    let data = WasmCallData::new_zome_call(
        context,
        "test-dna".to_string(),
        ZomeFnCall {
            zome_name: "test_zome".to_string(),
            fn_name: "commit".to_string(),
            parameters: "{}".to_string(),
        },
    );
    assert_eq!(data.fn_name(), "commit");
    let direct = WasmCallData::DirectCall("boot".to_string());
    assert_eq!(direct.fn_name(), "boot");
}
