use acuity_runtime::config::{
    minimum_period, slot_duration, ItemIdNamespace, MaxEmojis, MaxItemsPerAccount, MaxLinks,
    MaxMentions, MaxParents, EXISTENTIAL_DEPOSIT, MAX_AUTHORITIES, MILLI_SECS_PER_BLOCK,
};
use acuity_runtime::fees::{constant_multiplier_fee, length_to_fee, no_fee, weight_to_fee, Weight};
use acuity_runtime::runtime::Runtime;
use acuity_runtime::version::{native_version, runtime_version};

#[test]
fn runtime_version_and_native_version_are_consistent() {
    let version = runtime_version();
    assert_eq!(version.spec_name, "acuity-runtime");
    assert_eq!(version.impl_name, "acuity-runtime");
    assert_eq!(version.spec_version, 1);
    assert_eq!(version.transaction_version, 1);

    let native = native_version();
    assert_eq!(native.runtime_version, version);
}

#[test]
fn runtime_constants_match_expected_configuration() {
    assert_eq!(ItemIdNamespace::get(), 1000);
    assert_eq!(MaxParents::get(), 32);
    assert_eq!(MaxLinks::get(), 128);
    assert_eq!(MaxMentions::get(), 256);
    assert_eq!(MaxItemsPerAccount::get(), 1024);
    assert_eq!(MaxEmojis::get(), 16);
}

#[test]
fn transaction_payment_uses_zero_weight_fee_and_linear_length_fee() {
    assert_eq!(weight_to_fee(&Weight::from_parts(999, 0)), 0);
    assert_eq!(length_to_fee(1), 1);
    assert_eq!(length_to_fee(7), 7);
    assert_eq!(length_to_fee(1024), 1024);
}

#[test]
fn slot_duration_is_block_time() {
    assert_eq!(MILLI_SECS_PER_BLOCK, 6000);
    assert_eq!(minimum_period(), 3000);
    assert_eq!(slot_duration(), MILLI_SECS_PER_BLOCK);
    assert_eq!(Runtime::slot_duration(), MILLI_SECS_PER_BLOCK);
}

#[test]
fn balances_and_aura_limits() {
    assert_eq!(EXISTENTIAL_DEPOSIT, 1);
    assert_eq!(MAX_AUTHORITIES, 32);
}

#[test]
fn weight_fee_is_zero_for_every_weight() {
    for (t, p) in [(0, 0), (999, 0), (u64::MAX, u64::MAX), (1, 5)] {
        assert_eq!(weight_to_fee(&Weight::from_parts(t, p)), 0);
        assert_eq!(no_fee(&Weight::from_parts(t, p)), 0);
        assert_eq!(Runtime::query_weight_to_fee(Weight::from_parts(t, p)), 0);
    }
}

#[test]
fn length_fee_is_linear() {
    assert_eq!(length_to_fee(0), 0);
    assert_eq!(length_to_fee(u32::MAX), u32::MAX as u128);
    assert_eq!(length_to_fee(300) + length_to_fee(700), length_to_fee(1000));
    assert_eq!(Runtime::query_length_to_fee(42), 42);
}

#[test]
fn constant_multiplier_saturates() {
    assert_eq!(constant_multiplier_fee(3, &Weight::from_parts(5, 100)), 15);
    assert_eq!(constant_multiplier_fee(u128::MAX, &Weight::from_parts(2, 0)), u128::MAX);
    assert_eq!(constant_multiplier_fee(u128::MAX, &Weight::from_parts(1, 0)), u128::MAX);
    assert_eq!(constant_multiplier_fee(0, &Weight::from_parts(u64::MAX, 0)), 0);
}

#[test]
fn runtime_api_version_and_presets() {
    let v = Runtime::version();
    assert_eq!(v, runtime_version());
    assert_eq!(v.authoring_version, 1);
    assert_eq!(v.impl_version, 1);
    assert_eq!(v.system_version, 1);
    assert_eq!(Runtime::preset_names(), acuity_runtime::genesis::preset_names());
    assert!(native_version().can_author_with.is_empty());
}

#[test]
fn runtime_version_lists_the_runtime_apis() {
    let expected: Vec<([u8; 8], u32)> = vec![
        (sp_api::runtime_decl_for_core::ID, sp_api::runtime_decl_for_core::VERSION),
        (sp_api::runtime_decl_for_metadata::ID, sp_api::runtime_decl_for_metadata::VERSION),
        (
            sp_block_builder::runtime_decl_for_block_builder::ID,
            sp_block_builder::runtime_decl_for_block_builder::VERSION,
        ),
        (
            sp_transaction_pool::runtime_api::runtime_decl_for_tagged_transaction_queue::ID,
            sp_transaction_pool::runtime_api::runtime_decl_for_tagged_transaction_queue::VERSION,
        ),
        (
            sp_offchain::runtime_decl_for_offchain_worker_api::ID,
            sp_offchain::runtime_decl_for_offchain_worker_api::VERSION,
        ),
        (
            sp_session::runtime_api::runtime_decl_for_session_keys::ID,
            sp_session::runtime_api::runtime_decl_for_session_keys::VERSION,
        ),
        (
            sp_consensus_aura::runtime_decl_for_aura_api::ID,
            sp_consensus_aura::runtime_decl_for_aura_api::VERSION,
        ),
        (
            cumulus_primitives_core::runtime_decl_for_get_parachain_info::ID,
            cumulus_primitives_core::runtime_decl_for_get_parachain_info::VERSION,
        ),
        (
            frame_system_rpc_runtime_api::runtime_decl_for_account_nonce_api::ID,
            frame_system_rpc_runtime_api::runtime_decl_for_account_nonce_api::VERSION,
        ),
        (
            pallet_transaction_payment_rpc_runtime_api::runtime_decl_for_transaction_payment_api::ID,
            pallet_transaction_payment_rpc_runtime_api::runtime_decl_for_transaction_payment_api::VERSION,
        ),
        (
            sp_genesis_builder::runtime_decl_for_genesis_builder::ID,
            sp_genesis_builder::runtime_decl_for_genesis_builder::VERSION,
        ),
    ];
    assert_eq!(runtime_version().apis, expected);
    assert_eq!(native_version().runtime_version.apis, expected);
    assert_eq!(Runtime::version().apis, expected);
}

#[test]
fn runtime_api_identifiers_and_versions() {
    let apis = acuity_runtime::runtime_apis::runtime_api_versions();
    assert_eq!(apis.len(), 11);
    assert_eq!(apis[0], ([0xdf, 0x6a, 0xcb, 0x68, 0x99, 0x07, 0x60, 0x9b], 5));
    assert_eq!(apis[1], ([0x37, 0xe3, 0x97, 0xfc, 0x7c, 0x91, 0xf5, 0xe4], 2));
    assert_eq!(apis[2], ([0x40, 0xfe, 0x3a, 0xd4, 0x01, 0xf8, 0x95, 0x9a], 6));
    assert_eq!(apis[5], ([0xab, 0x3c, 0x05, 0x72, 0x29, 0x1f, 0xeb, 0x8b], 2));
    assert_eq!(apis[9], ([0x37, 0xc8, 0xbb, 0x13, 0x50, 0xa9, 0xa2, 0xa8], 4));
    assert_eq!(apis[10], ([0xfb, 0xc5, 0x77, 0xb9, 0xd7, 0x47, 0xef, 0xd6], 1));
}
