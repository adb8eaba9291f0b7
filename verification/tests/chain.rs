use node_core::chain_spec::{
    accounts_from_seeds, authorities_from_seeds, authority_keys_from_seed, development_config,
    get_account_id_from_seed, get_chain_spec, get_from_seed, load_spec, local_testnet_config,
    testnet_genesis, AccountId, Alternative, AuraId, ChainType, Extensions, GrandpaId, KeyScheme,
    AUTHORITY_WEIGHT, ENDOWMENT, MINIMUM_PERIOD,
};
use node_core::commands::{purge_allowed, select_spec, SpecSelection};
use node_core::hexcode::{hex_encode, hex_literal};
use node_core::rpc::FullDeps;
use node_core::runtime::{native_version, version, DAYS, HOURS, MINUTES, SLOT_DURATION};
use node_core::service::ExecutorDispatch;
use std::sync::Arc;

const ALICE_SR25519: &str = "d43593c715fdd31c61141abd04a99fd6822c8558854ccde39a5684e7a56da27d";
const BOB_SR25519: &str = "8eaf04151687736326c9fea17e25fc5287613693c912909cb226aa4794f26a48";
const ALICE_ED25519: &str = "88dc3417d5058ec4b4503e0c12ea1a0a89be200fe98922423d4334014fa6b0ee";

fn hex_of(bytes: &[u8]) -> String {
    hex::encode(bytes)
}

#[test]
fn alice_account_is_well_known() {
    let a = get_account_id_from_seed("Alice").unwrap();
    assert_eq!(hex_of(&a.bytes), ALICE_SR25519);
}

#[test]
fn bob_account_is_well_known() {
    let b = get_account_id_from_seed("Bob").unwrap();
    assert_eq!(hex_of(&b.bytes), BOB_SR25519);
}

#[test]
fn authority_keys_are_well_known() {
    let (aura, grandpa) = authority_keys_from_seed("Alice").unwrap();
    assert_eq!(hex_of(&aura.bytes), ALICE_SR25519);
    assert_eq!(hex_of(&grandpa.bytes), ALICE_ED25519);
}

#[test]
fn get_from_seed_schemes_differ() {
    let sr = get_from_seed(KeyScheme::Sr25519, "Alice").unwrap();
    let ed = get_from_seed(KeyScheme::Ed25519, "Alice").unwrap();
    assert_eq!(sr.len(), 32);
    assert_eq!(ed.len(), 32);
    assert_ne!(sr, ed);
}

#[test]
fn accounts_from_seeds_in_order() {
    let v = accounts_from_seeds(&["Alice", "Bob"]).unwrap();
    assert_eq!(v.len(), 2);
    assert_eq!(hex_of(&v[0].bytes), ALICE_SR25519);
    assert_eq!(hex_of(&v[1].bytes), BOB_SR25519);
}

#[test]
fn testnet_genesis_pins_every_section() {
    let wasm = vec![1u8, 2, 3];
    let root = AccountId { bytes: vec![7u8; 32] };
    let endowed = vec![AccountId { bytes: vec![8u8; 32] }, AccountId { bytes: vec![9u8; 32] }];
    let authorities =
        vec![(AuraId { bytes: vec![1u8; 32] }, GrandpaId { bytes: vec![2u8; 32] })];
    let g = testnet_genesis(&wasm, &authorities, root, &endowed, true);
    assert_eq!(g.system.code, vec![1, 2, 3]);
    assert_eq!(g.balances.balances.len(), 2);
    assert_eq!(g.balances.balances[0].0.bytes, vec![8u8; 32]);
    assert_eq!(g.balances.balances[0].1, 1u128 << 60);
    assert_eq!(g.balances.balances[1].1, ENDOWMENT);
    assert_eq!(g.aura.authorities.len(), 1);
    assert_eq!(g.aura.authorities[0].bytes, vec![1u8; 32]);
    assert_eq!(g.grandpa.authorities.len(), 1);
    assert_eq!(g.grandpa.authorities[0].0.bytes, vec![2u8; 32]);
    assert_eq!(g.grandpa.authorities[0].1, AUTHORITY_WEIGHT);
    assert_eq!(g.sudo.key.as_ref().unwrap().bytes, vec![7u8; 32]);
    assert_eq!(g.timestamp.minimum_period, MINIMUM_PERIOD);
}

#[test]
fn development_spec_contents() {
    let wasm = vec![0u8, 1, 2];
    let s = development_config(Some(&wasm)).unwrap();
    assert_eq!(s.name, "Development");
    assert_eq!(s.id, "dev");
    assert_eq!(s.chain_type, ChainType::Development);
    assert!(s.boot_nodes.is_empty());
    assert!(s.telemetry_endpoints.is_none());
    assert!(s.protocol_id.is_none());
    assert!(s.properties.is_none());
    assert_eq!(s.genesis.system.code, wasm);
    assert_eq!(s.genesis.balances.balances.len(), 4);
    assert_eq!(hex_of(&s.genesis.balances.balances[0].0.bytes), ALICE_SR25519);
    assert_eq!(hex_of(&s.genesis.balances.balances[1].0.bytes), BOB_SR25519);
    assert!(s.genesis.balances.balances.iter().all(|b| b.1 == 1u128 << 60));
    assert_eq!(s.genesis.aura.authorities.len(), 1);
    assert_eq!(hex_of(&s.genesis.aura.authorities[0].bytes), ALICE_SR25519);
    assert_eq!(s.genesis.grandpa.authorities.len(), 1);
    assert_eq!(hex_of(&s.genesis.grandpa.authorities[0].0.bytes), ALICE_ED25519);
    assert_eq!(s.genesis.grandpa.authorities[0].1, 1);
    assert_eq!(hex_of(&s.genesis.sudo.key.as_ref().unwrap().bytes), ALICE_SR25519);
}

#[test]
fn development_spec_needs_wasm() {
    let e = match development_config(None) {
        Err(e) => e,
        Ok(_) => panic!("a specification without runtime code"),
    };
    assert_eq!(e, "Development wasm binary not available");
}

#[test]
fn local_testnet_spec_contents() {
    let wasm = vec![5u8];
    let s = local_testnet_config(Some(&wasm)).unwrap();
    assert_eq!(s.name, "Local Testnet");
    assert_eq!(s.id, "local_testnet");
    assert_eq!(s.chain_type, ChainType::Local);
    assert_eq!(s.genesis.balances.balances.len(), 12);
    assert_eq!(s.genesis.aura.authorities.len(), 2);
    assert_eq!(s.genesis.grandpa.authorities.len(), 2);
    assert_eq!(hex_of(&s.genesis.aura.authorities[0].bytes), ALICE_SR25519);
}

#[test]
fn alternative_from_id_mapping() {
    assert_eq!(Alternative::from_id("dev"), Some(Alternative::Development));
    assert_eq!(Alternative::from_id("development"), Some(Alternative::Development));
    assert_eq!(Alternative::from_id("local"), Some(Alternative::LocalTestnet));
    assert_eq!(Alternative::from_id("local_testnet"), Some(Alternative::LocalTestnet));
    assert_eq!(Alternative::from_id("mainnet"), None);
    assert_eq!(Alternative::from_id(""), None);
}

#[test]
fn load_spec_and_get_chain_spec_agree() {
    let wasm = vec![9u8];
    let by_id = load_spec("dev", Some(&wasm)).unwrap();
    let by_alt = get_chain_spec(Alternative::Development, Some(&wasm)).unwrap();
    assert_eq!(by_id.id, "dev");
    assert_eq!(by_alt.id, "dev");
    let local = load_spec("local_testnet", Some(&wasm)).unwrap();
    assert_eq!(local.id, "local_testnet");
}

#[test]
fn select_spec_mapping() {
    let e = select_spec("").unwrap_err();
    assert_eq!(e, "Please specify which chain you want to run, e.g. --dev or --chain=local");
    assert_eq!(select_spec("dev").unwrap(), SpecSelection::Development);
    assert_eq!(select_spec("local").unwrap(), SpecSelection::LocalTestnet);
    assert_eq!(select_spec("staging").unwrap(), SpecSelection::LocalTestnet);
    assert_eq!(select_spec("fir").unwrap(), SpecSelection::FlamingFir);
    assert_eq!(select_spec("flaming-fir").unwrap(), SpecSelection::FlamingFir);
    assert_eq!(select_spec("my-chain.json").unwrap(), SpecSelection::JsonFile);
}

#[test]
fn purge_allowed_mapping() {
    assert!(purge_allowed("dev"));
    assert!(purge_allowed("development"));
    assert!(purge_allowed("local_testnet"));
    assert!(!purge_allowed("mainnet"));
    assert!(!purge_allowed(""));
}

#[test]
fn hex_rendering() {
    assert_eq!(hex_encode(&vec![0x00, 0xff, 0x1a]), "00ff1a");
    assert_eq!(hex_encode(&vec![]), "");
    assert_eq!(hex_literal(&vec![0x00, 0xff, 0x1a]), "0x00ff1a");
    assert_eq!(hex_literal(&vec![]), "0x");
}

#[test]
fn runtime_version_identity() {
    let v = version();
    assert_eq!(v.spec_name, "node");
    assert_eq!(v.impl_name, "substrate-node");
    assert_eq!(v.authoring_version, 1);
    assert_eq!(v.spec_version, 100);
    assert_eq!(v.impl_version, 1);
    assert_eq!(v.transaction_version, 1);
    assert_eq!(v.system_version, 1);
    let n = native_version();
    assert_eq!(n.runtime_version.spec_version, 100);
    assert!(n.can_author_with.is_empty());
    let d = ExecutorDispatch::native_version();
    assert_eq!(d.runtime_version.spec_name, "node");
}

#[test]
fn timing_constants() {
    assert_eq!(SLOT_DURATION, 6000);
    assert_eq!(MINUTES, 10);
    assert_eq!(HOURS, 600);
    assert_eq!(DAYS, 14400);
}

#[test]
fn full_deps_bundle() {
    let deps = FullDeps::new(Arc::new(1u32), Arc::new(2u64), true);
    assert_eq!(*deps.client, 1);
    assert_eq!(*deps.pool, 2);
    assert!(deps.deny_unsafe);
}

#[test]
fn extensions_default_exists() {
    let _e = Extensions::default();
    let _f: Extensions = Default::default();
}

#[test]
fn configs_succeed_whenever_code_is_present() {
    let wasm = vec![0u8];
    assert!(development_config(Some(&wasm)).is_ok());
    assert!(local_testnet_config(Some(&wasm)).is_ok());
    for id in ["dev", "development", "local", "local_testnet"] {
        assert!(load_spec(id, Some(&wasm)).is_ok());
    }
}

#[test]
fn inherent_benchmark_data_succeeds() {
    assert!(node_core::benchmarking::inherent_benchmark_data().is_ok());
}

#[test]
fn authorities_from_seeds_in_order() {
    let v = authorities_from_seeds(&["Alice", "Bob"]).unwrap();
    assert_eq!(v.len(), 2);
    assert_eq!(hex_of(&v[0].0.bytes), ALICE_SR25519);
    assert_eq!(hex_of(&v[1].0.bytes), BOB_SR25519);
}
