use acuity_runtime::config::{EXISTENTIAL_DEPOSIT, MAX_AUTHORITIES};
use acuity_runtime::patch_json::{addressed_patch_json, AddressedPatch};
use acuity_runtime::genesis::{
    address_patch,
    dev_authority, development_config_genesis, get_preset, patch_json, preset_names,
    GenesisPatch, PresetId, DEV_RUNTIME_PRESET,
};
use serde_json::Value;
use sp_core::crypto::Ss58Codec;
use sp_keyring::Sr25519Keyring;

fn alice() -> sp_core::crypto::AccountId32 {
    Sr25519Keyring::Alice.to_account_id()
}

fn bob() -> sp_core::crypto::AccountId32 {
    Sr25519Keyring::Bob.to_account_id()
}

fn development_json() -> Value {
    let patch = development_config_genesis();
    serde_json::from_slice(&patch_json(&patch)).expect("patch bytes are valid json")
}

#[test]
fn development_genesis_preset_contains_expected_values() {
    let patch = development_json();

    assert_eq!(
        patch["balances"]["balances"],
        Value::Array(vec![
            Value::Array(vec![
                Value::String(alice().to_ss58check()),
                Value::Number(1_000_000_000_000_000u64.into()),
            ]),
            Value::Array(vec![
                Value::String(bob().to_ss58check()),
                Value::Number(1_000_000_000_000_000u64.into()),
            ]),
        ])
    );
    assert_eq!(
        patch["parachainSystem"]["parachainId"],
        Value::Number(1000u64.into())
    );
    assert_eq!(patch["sudo"]["key"], Value::String(alice().to_ss58check()));
    assert_eq!(
        patch["aura"]["authorities"].as_array().map(Vec::len),
        Some(1)
    );
}

#[test]
fn genesis_preset_helpers_expose_development_preset() {
    let names = preset_names();
    assert_eq!(names, vec![PresetId::from_name(DEV_RUNTIME_PRESET)]);

    let preset = get_preset(&PresetId::from_name(DEV_RUNTIME_PRESET))
        .expect("development preset exists");
    let parsed: Value = serde_json::from_slice(&preset).expect("preset bytes are valid json");
    assert_eq!(parsed["sudo"]["key"], Value::String(alice().to_ss58check()));

    assert_eq!(get_preset(&PresetId::from_name("unknown-preset")), None);
}

#[test]
fn development_preset_bytes_are_exact() {
    let alice = alice().to_ss58check();
    let bob = bob().to_ss58check();
    let expected = format!(
        "{{\"aura\":{{\"authorities\":[\"{a}\"]}},\"balances\":{{\"balances\":[[\"{a}\",1000000000000000],[\"{b}\",1000000000000000]]}},\"parachainSystem\":{{\"parachainId\":1000}},\"sudo\":{{\"key\":\"{a}\"}}}}",
        a = alice,
        b = bob
    );
    let preset = get_preset(&PresetId::from_name("development")).unwrap();
    assert_eq!(String::from_utf8(preset).unwrap(), expected);
    assert_eq!(alice, "5GrwvaEF5zXb26Fz9rcQpDWS57CtERHpNehXCPcNoHGKutQY");
}

#[test]
fn development_patch_uses_keyring_keys() {
    let patch = development_config_genesis();
    assert_eq!(patch.balances.len(), 2);
    assert_eq!(patch.balances[0].0, Sr25519Keyring::Alice.to_raw_public());
    assert_eq!(patch.balances[1].0, Sr25519Keyring::Bob.to_raw_public());
    assert_eq!(patch.aura_authorities, vec![Sr25519Keyring::Alice.to_raw_public()]);
    assert_eq!(patch.sudo_key, Some(Sr25519Keyring::Alice.to_raw_public()));
    assert_eq!(dev_authority(), Sr25519Keyring::Alice.to_raw_public());
    assert_eq!(patch.parachain_id, 1000);
}

#[test]
fn development_patch_is_well_formed() {
    let patch = development_config_genesis();
    assert!(patch.balances.iter().all(|(_, b)| *b >= EXISTENTIAL_DEPOSIT));
    assert_ne!(patch.balances[0].0, patch.balances[1].0);
    assert!(!patch.aura_authorities.is_empty());
    assert!(patch.aura_authorities.len() <= MAX_AUTHORITIES as usize);
    let sudo = patch.sudo_key.unwrap();
    assert!(patch.balances.iter().any(|(k, _)| *k == sudo));
}

#[test]
fn every_listed_preset_is_available_and_others_are_not() {
    for name in preset_names() {
        assert!(get_preset(&name).is_some());
    }
    for other in ["", "Development", "developmen", "development ", "local_testnet"] {
        assert_eq!(get_preset(&PresetId::from_name(other)), None);
    }
}

#[test]
fn preset_bytes_are_utf8() {
    let preset = get_preset(&PresetId::from_name("development")).unwrap();
    assert!(std::str::from_utf8(&preset).is_ok());
}

#[test]
fn patch_without_superuser_or_entries_is_written() {
    let patch = GenesisPatch {
        balances: vec![],
        aura_authorities: vec![],
        parachain_id: 7,
        sudo_key: None,
    };
    let text = String::from_utf8(patch_json(&patch)).unwrap();
    assert_eq!(
        text,
        "{\"aura\":{\"authorities\":[]},\"balances\":{\"balances\":[]},\"parachainSystem\":{\"parachainId\":7},\"sudo\":{\"key\":null}}"
    );
}

#[test]
fn patch_with_large_balance_writes_all_digits() {
    let key = Sr25519Keyring::Charlie.to_raw_public();
    let patch = GenesisPatch {
        balances: vec![(key, u128::MAX), (key, 0)],
        aura_authorities: vec![key, key],
        parachain_id: u32::MAX,
        sudo_key: Some(key),
    };
    let parsed: Value = serde_json::from_slice(&patch_json(&patch)).unwrap();
    let charlie = Sr25519Keyring::Charlie.to_account_id().to_ss58check();
    let text = String::from_utf8(patch_json(&patch)).unwrap();
    assert!(text.contains("340282366920938463463374607431768211455"));
    assert!(text.contains(",0]"));
    assert_eq!(parsed["parachainSystem"]["parachainId"], Value::Number(4294967295u64.into()));
    assert_eq!(parsed["aura"]["authorities"].as_array().map(Vec::len), Some(2));
    assert_eq!(parsed["sudo"]["key"], Value::String(charlie));
}

#[test]
fn preset_id_holds_utf8_bytes() {
    assert_eq!(PresetId::from_name("development").name, b"development".to_vec());
    assert_eq!(PresetId::from_name("").name, Vec::<u8>::new());
    assert_eq!(PresetId::from_name("é").name, vec![0xc3, 0xa9]);
}

#[test]
fn addressed_patch_escapes_its_strings() {
    let patch = AddressedPatch {
        balances: vec![("q\"b\\s".to_string(), 5)],
        aura_authorities: vec!["line\nbreak\ttab\u{1}é/".to_string()],
        parachain_id: 0,
        sudo_key: Some(String::new()),
    };
    let text = String::from_utf8(addressed_patch_json(&patch)).unwrap();
    assert_eq!(
        text,
        "{\"aura\":{\"authorities\":[\"line\\nbreak\\ttab\\u0001é/\"]},\"balances\":{\"balances\":[[\"q\\\"b\\\\s\",5]]},\"parachainSystem\":{\"parachainId\":0},\"sudo\":{\"key\":\"\"}}"
    );
    let parsed: Value = serde_json::from_str(&text).unwrap();
    assert_eq!(parsed["balances"]["balances"][0][0], Value::String("q\"b\\s".to_string()));
}

#[test]
fn address_patch_writes_ss58_addresses() {
    let patch = development_config_genesis();
    let addressed = address_patch(&patch);
    assert_eq!(addressed.aura_authorities, vec![alice().to_ss58check()]);
    assert_eq!(
        addressed.balances,
        vec![
            (alice().to_ss58check(), 1_000_000_000_000_000),
            (bob().to_ss58check(), 1_000_000_000_000_000)
        ]
    );
    assert_eq!(addressed.sudo_key, Some(alice().to_ss58check()));
    assert_eq!(addressed.parachain_id, 1000);
    assert_eq!(addressed_patch_json(&addressed), patch_json(&patch));
}
