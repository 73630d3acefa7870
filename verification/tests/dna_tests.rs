//! Manifest lookups and rendering.

use dht_core::dna::Bridge;
use dht_core::dna::Dna;
use dht_core::dna::DnaWasm;
use dht_core::dna::EntryTypeDef;
use dht_core::dna::EntryTypeRow;
use dht_core::dna::FnDeclaration;
use dht_core::dna::Sharing;
use dht_core::dna::TraitFns;
use dht_core::dna::TraitRow;
use dht_core::dna::ValidationRule;
use dht_core::dna::Zome;
use dht_core::dna::ZomeEntry;
use dht_core::dna::zero_uuid;

fn test_dna() -> Dna {
    Dna {
        name: "test".to_string(),
        description: "test".to_string(),
        version: "test".to_string(),
        uuid: zero_uuid(),
        dna_spec_version: "2.0".to_string(),
        properties: "{\"test\": \"test\"}".to_string(),
        zomes: vec![ZomeEntry {
            name: "test".to_string(),
            zome: Zome {
                description: "test".to_string(),
                entry_types: vec![EntryTypeRow {
                    name: "test".to_string(),
                    def: EntryTypeDef {
                        description: "test".to_string(),
                        sharing: Sharing::Public,
                    },
                }],
                traits: vec![TraitRow {
                    name: "hc_public".to_string(),
                    fns: TraitFns {
                        functions: vec!["test".to_string()],
                    },
                }],
                fn_declarations: vec![FnDeclaration {
                    name: "test".to_string(),
                    inputs: vec![],
                    outputs: vec![],
                }],
                code: DnaWasm {
                    code: vec![0, 1, 2, 3],
                    validation: ValidationRule::Accept,
                },
                bridges: vec![],
            },
        }],
    }
}

#[test]
fn test_dna_new() {
    let dna = Dna::new();
    assert_eq!(dna.name, "");
    assert_eq!(dna.description, "");
    assert_eq!(dna.version, "");
    assert_eq!(dna.uuid, "00000000-0000-0000-0000-000000000000");
    assert_eq!(dna.dna_spec_version, "2.0");
    assert_eq!(dna.properties, "{}");
    assert!(dna.zomes.is_empty());
}

#[test]
fn test_dna_to_json_pretty() {
    let dna = Dna::new();
    assert_eq!(format!("{:?}", dna.to_json_pretty()), "Ok(\"{\\n  \\\"name\\\": \\\"\\\",\\n  \\\"description\\\": \\\"\\\",\\n  \\\"version\\\": \\\"\\\",\\n  \\\"uuid\\\": \\\"00000000-0000-0000-0000-000000000000\\\",\\n  \\\"dna_spec_version\\\": \\\"2.0\\\",\\n  \\\"properties\\\": {},\\n  \\\"zomes\\\": {}\\n}\")");
}

#[test]
fn test_dna_get_zome() {
    let dna = test_dna();
    let result = dna.get_zome("foo zome");
    assert_eq!(
        format!("{:?}", result),
        "Err(ZomeNotFound(\"Zome 'foo zome' not found\"))"
    );
    let zome = dna.get_zome("test").unwrap();
    assert_eq!(zome.description, "test");
}

#[test]
fn test_dna_get_trait() {
    let dna = test_dna();
    let zome = dna.get_zome("test").unwrap();
    let result = dna.get_trait(zome, "foo trait");
    assert!(result.is_none());
    let cap = dna.get_trait(zome, "hc_public").unwrap();
    assert_eq!(format!("{:?}", cap), "TraitFns { functions: [\"test\"] }");
}

#[test]
fn test_dna_get_trait_with_zome_name() {
    let dna = test_dna();
    let result = dna.get_trait_fns_with_zome_name("foo zome", "foo trait");
    assert_eq!(
        format!("{:?}", result),
        "Err(ZomeNotFound(\"Zome 'foo zome' not found\"))"
    );
    let result = dna.get_trait_fns_with_zome_name("test", "foo trait");
    assert_eq!(
        format!("{:?}", result),
        "Err(TraitNotFound(\"Trait 'foo trait' not found in Zome 'test'\"))"
    );
    let trait_fns = dna
        .get_trait_fns_with_zome_name("test", "hc_public")
        .unwrap();
    assert_eq!(
        format!("{:?}", trait_fns),
        "TraitFns { functions: [\"test\"] }"
    );
}

#[test]
fn test_dna_get_function() {
    let dna = test_dna();
    let zome = dna.get_zome("test").unwrap();
    let result = dna.get_function(zome, "foo func");
    assert!(result.is_none());
    let fun = dna.get_function(zome, "test").unwrap();
    assert_eq!(
        format!("{:?}", fun),
        "FnDeclaration { name: \"test\", inputs: [], outputs: [] }"
    );
}

#[test]
fn test_dna_get_function_with_zome_name() {
    let dna = test_dna();
    let result = dna.get_function_with_zome_name("foo zome", "foo fun");
    assert_eq!(
        format!("{:?}", result),
        "Err(ZomeNotFound(\"Zome 'foo zome' not found\"))"
    );
    let result = dna.get_function_with_zome_name("test", "foo fun");
    assert_eq!(format!("{:?}",result),"Err(ZomeFunctionNotFound(\"Zome function 'foo fun' not found in Zome 'test'\"))");
    let fun = dna.get_function_with_zome_name("test", "test").unwrap();
    assert_eq!(
        format!("{:?}", fun),
        "FnDeclaration { name: \"test\", inputs: [], outputs: [] }"
    );
}

#[test]
fn test_dna_get_wasm_from_zome_name() {
    let dna = test_dna();
    let wasm = dna.get_wasm_from_zome_name("test").unwrap();
    assert_eq!(wasm.code, vec![0, 1, 2, 3]);
    assert!(dna.get_wasm_from_zome_name("foo zome").is_none());
}

#[test]
fn test_dna_get_zome_name_for_app_entry_type() {
    let dna = test_dna();
    assert_eq!(
        dna.get_zome_name_for_app_entry_type(&"test".to_string()),
        Some("test".to_string())
    );
    assert_eq!(
        dna.get_zome_name_for_app_entry_type(&"unknown".to_string()),
        None
    );
}

#[test]
fn test_dna_get_entry_type_def() {
    let dna = test_dna();
    let def = dna.get_entry_type_def(&"test".to_string()).unwrap();
    assert_eq!(def.description, "test");
    assert_eq!(def.sharing, Sharing::Public);
    assert!(dna.get_entry_type_def(&"unknown".to_string()).is_none());
}

#[test]
fn test_dna_get_required_bridges() {
    let mut dna = test_dna();
    dna.zomes[0].zome.bridges = vec![
        Bridge {
            required: true,
            handle: "vault".to_string(),
        },
        Bridge {
            required: false,
            handle: "optional-peer".to_string(),
        },
    ];
    let required = dna.get_required_bridges();
    assert_eq!(required.len(), 1);
    assert_eq!(required[0].handle, "vault");
}

#[test]
fn test_dna_multihash_is_content_derived() {
    let dna1 = test_dna();
    let mut dna2 = test_dna();
    let hash1 = dna1.multihash().unwrap();
    let hash1_again = dna1.multihash().unwrap();
    assert_eq!(hash1, hash1_again);
    assert_eq!(hash1.len(), 34);
    dna2.uuid = "ffffffff-0000-0000-0000-000000000000".to_string();
    let hash2 = dna2.multihash().unwrap();
    assert_ne!(hash1, hash2);
}

#[test]
fn test_zero_uuid() {
    assert_eq!(zero_uuid(), "00000000-0000-0000-0000-000000000000");
}
