//! The runtime APIs that this runtime implements, each with its identifier
//! and version.
//!
//! `decl_runtime_apis!` gives every runtime API trait a module
//! `runtime_decl_for_<trait>` with two constants: `ID`, the 8-byte BLAKE2b
//! digest of the trait's name, and `VERSION`, the trait's `api_version`
//! (1 where the trait has none). The runtime's API list is made of these pairs.

use vstd::prelude::*;

verus! {

/// The identifier and version of one runtime API.
pub type ApiVersion = ([u8; 8], u32);

/// The identifier of `Core`: the BLAKE2b-64 digest of its name (df6acb689907609b).
pub open spec fn core_id() -> Seq<u8> {
    seq![0xdfu8, 0x6a, 0xcb, 0x68, 0x99, 0x07, 0x60, 0x9b]
}

/// Reads `ID` and `VERSION` of `sp_api::Core` from `sp_api::runtime_decl_for_core`.
/// The contract claims the digest of the name `Core` and the version 5
/// that the trait's declaration gives.
#[verifier::external_body]
pub(crate) fn core_api() -> (api: ApiVersion)
    ensures
        api.0@ == core_id(),
        api.1 == 5,
{
    (sp_api::runtime_decl_for_core::ID, sp_api::runtime_decl_for_core::VERSION)
}

/// The identifier of `Metadata`: the BLAKE2b-64 digest of its name (37e397fc7c91f5e4).
pub open spec fn metadata_id() -> Seq<u8> {
    seq![0x37u8, 0xe3, 0x97, 0xfc, 0x7c, 0x91, 0xf5, 0xe4]
}

/// Reads `ID` and `VERSION` of `sp_api::Metadata` from `sp_api::runtime_decl_for_metadata`.
/// The contract claims the digest of the name `Metadata` and the version 2
/// that the trait's declaration gives.
#[verifier::external_body]
pub(crate) fn metadata_api() -> (api: ApiVersion)
    ensures
        api.0@ == metadata_id(),
        api.1 == 2,
{
    (sp_api::runtime_decl_for_metadata::ID, sp_api::runtime_decl_for_metadata::VERSION)
}

/// The identifier of `BlockBuilder`: the BLAKE2b-64 digest of its name (40fe3ad401f8959a).
pub open spec fn block_builder_id() -> Seq<u8> {
    seq![0x40u8, 0xfe, 0x3a, 0xd4, 0x01, 0xf8, 0x95, 0x9a]
}

/// Reads `ID` and `VERSION` of `sp_block_builder::BlockBuilder` from `sp_block_builder::runtime_decl_for_block_builder`.
/// The contract claims the digest of the name `BlockBuilder` and the version 6
/// that the trait's declaration gives.
#[verifier::external_body]
pub(crate) fn block_builder_api() -> (api: ApiVersion)
    ensures
        api.0@ == block_builder_id(),
        api.1 == 6,
{
    (sp_block_builder::runtime_decl_for_block_builder::ID, sp_block_builder::runtime_decl_for_block_builder::VERSION)
}

/// The identifier of `TaggedTransactionQueue`: the BLAKE2b-64 digest of its name (d2bc9897eed08f15).
pub open spec fn tagged_transaction_queue_id() -> Seq<u8> {
    seq![0xd2u8, 0xbc, 0x98, 0x97, 0xee, 0xd0, 0x8f, 0x15]
}

/// Reads `ID` and `VERSION` of `sp_transaction_pool::runtime_api::TaggedTransactionQueue` from `sp_transaction_pool::runtime_api::runtime_decl_for_tagged_transaction_queue`.
/// The contract claims the digest of the name `TaggedTransactionQueue` and the version 3
/// that the trait's declaration gives.
#[verifier::external_body]
pub(crate) fn tagged_transaction_queue_api() -> (api: ApiVersion)
    ensures
        api.0@ == tagged_transaction_queue_id(),
        api.1 == 3,
{
    (sp_transaction_pool::runtime_api::runtime_decl_for_tagged_transaction_queue::ID, sp_transaction_pool::runtime_api::runtime_decl_for_tagged_transaction_queue::VERSION)
}

/// The identifier of `OffchainWorkerApi`: the BLAKE2b-64 digest of its name (f78b278be53f454c).
pub open spec fn offchain_worker_api_id() -> Seq<u8> {
    seq![0xf7u8, 0x8b, 0x27, 0x8b, 0xe5, 0x3f, 0x45, 0x4c]
}

/// Reads `ID` and `VERSION` of `sp_offchain::OffchainWorkerApi` from `sp_offchain::runtime_decl_for_offchain_worker_api`.
/// The contract claims the digest of the name `OffchainWorkerApi` and the version 2
/// that the trait's declaration gives.
#[verifier::external_body]
pub(crate) fn offchain_worker_api_api() -> (api: ApiVersion)
    ensures
        api.0@ == offchain_worker_api_id(),
        api.1 == 2,
{
    (sp_offchain::runtime_decl_for_offchain_worker_api::ID, sp_offchain::runtime_decl_for_offchain_worker_api::VERSION)
}

/// The identifier of `SessionKeys`: the BLAKE2b-64 digest of its name (ab3c0572291feb8b).
pub open spec fn session_keys_id() -> Seq<u8> {
    seq![0xabu8, 0x3c, 0x05, 0x72, 0x29, 0x1f, 0xeb, 0x8b]
}

/// Reads `ID` and `VERSION` of `sp_session::SessionKeys` from `sp_session::runtime_api::runtime_decl_for_session_keys`.
/// The contract claims the digest of the name `SessionKeys` and the version 2
/// that the trait's declaration gives.
#[verifier::external_body]
pub(crate) fn session_keys_api() -> (api: ApiVersion)
    ensures
        api.0@ == session_keys_id(),
        api.1 == 2,
{
    (sp_session::runtime_api::runtime_decl_for_session_keys::ID, sp_session::runtime_api::runtime_decl_for_session_keys::VERSION)
}

/// The identifier of `AuraApi`: the BLAKE2b-64 digest of its name (dd718d5cc53262d4).
pub open spec fn aura_api_id() -> Seq<u8> {
    seq![0xddu8, 0x71, 0x8d, 0x5c, 0xc5, 0x32, 0x62, 0xd4]
}

/// Reads `ID` and `VERSION` of `sp_consensus_aura::AuraApi` from `sp_consensus_aura::runtime_decl_for_aura_api`.
/// The contract claims the digest of the name `AuraApi` and the version 1
/// that the trait's declaration gives.
#[verifier::external_body]
pub(crate) fn aura_api_api() -> (api: ApiVersion)
    ensures
        api.0@ == aura_api_id(),
        api.1 == 1,
{
    (sp_consensus_aura::runtime_decl_for_aura_api::ID, sp_consensus_aura::runtime_decl_for_aura_api::VERSION)
}

/// The identifier of `GetParachainInfo`: the BLAKE2b-64 digest of its name (a2ddb6a58477bf63).
pub open spec fn get_parachain_info_id() -> Seq<u8> {
    seq![0xa2u8, 0xdd, 0xb6, 0xa5, 0x84, 0x77, 0xbf, 0x63]
}

/// Reads `ID` and `VERSION` of `cumulus_primitives_core::GetParachainInfo` from `cumulus_primitives_core::runtime_decl_for_get_parachain_info`.
/// The contract claims the digest of the name `GetParachainInfo` and the version 1
/// that the trait's declaration gives.
#[verifier::external_body]
pub(crate) fn get_parachain_info_api() -> (api: ApiVersion)
    ensures
        api.0@ == get_parachain_info_id(),
        api.1 == 1,
{
    (cumulus_primitives_core::runtime_decl_for_get_parachain_info::ID, cumulus_primitives_core::runtime_decl_for_get_parachain_info::VERSION)
}

/// The identifier of `AccountNonceApi`: the BLAKE2b-64 digest of its name (bc9d89904f5b923f).
pub open spec fn account_nonce_api_id() -> Seq<u8> {
    seq![0xbcu8, 0x9d, 0x89, 0x90, 0x4f, 0x5b, 0x92, 0x3f]
}

/// Reads `ID` and `VERSION` of `frame_system_rpc_runtime_api::AccountNonceApi` from `frame_system_rpc_runtime_api::runtime_decl_for_account_nonce_api`.
/// The contract claims the digest of the name `AccountNonceApi` and the version 1
/// that the trait's declaration gives.
#[verifier::external_body]
pub(crate) fn account_nonce_api_api() -> (api: ApiVersion)
    ensures
        api.0@ == account_nonce_api_id(),
        api.1 == 1,
{
    (frame_system_rpc_runtime_api::runtime_decl_for_account_nonce_api::ID, frame_system_rpc_runtime_api::runtime_decl_for_account_nonce_api::VERSION)
}

/// The identifier of `TransactionPaymentApi`: the BLAKE2b-64 digest of its name (37c8bb1350a9a2a8).
pub open spec fn transaction_payment_api_id() -> Seq<u8> {
    seq![0x37u8, 0xc8, 0xbb, 0x13, 0x50, 0xa9, 0xa2, 0xa8]
}

/// Reads `ID` and `VERSION` of `pallet_transaction_payment_rpc_runtime_api::TransactionPaymentApi` from `pallet_transaction_payment_rpc_runtime_api::runtime_decl_for_transaction_payment_api`.
/// The contract claims the digest of the name `TransactionPaymentApi` and the version 4
/// that the trait's declaration gives.
#[verifier::external_body]
pub(crate) fn transaction_payment_api_api() -> (api: ApiVersion)
    ensures
        api.0@ == transaction_payment_api_id(),
        api.1 == 4,
{
    (pallet_transaction_payment_rpc_runtime_api::runtime_decl_for_transaction_payment_api::ID, pallet_transaction_payment_rpc_runtime_api::runtime_decl_for_transaction_payment_api::VERSION)
}

/// The identifier of `GenesisBuilder`: the BLAKE2b-64 digest of its name (fbc577b9d747efd6).
pub open spec fn genesis_builder_id() -> Seq<u8> {
    seq![0xfbu8, 0xc5, 0x77, 0xb9, 0xd7, 0x47, 0xef, 0xd6]
}

/// Reads `ID` and `VERSION` of `sp_genesis_builder::GenesisBuilder` from `sp_genesis_builder::runtime_decl_for_genesis_builder`.
/// The contract claims the digest of the name `GenesisBuilder` and the version 1
/// that the trait's declaration gives.
#[verifier::external_body]
pub(crate) fn genesis_builder_api() -> (api: ApiVersion)
    ensures
        api.0@ == genesis_builder_id(),
        api.1 == 1,
{
    (sp_genesis_builder::runtime_decl_for_genesis_builder::ID, sp_genesis_builder::runtime_decl_for_genesis_builder::VERSION)
}

/// The APIs of the runtime, in the order in which it implements them: `Core`,
/// `Metadata`, `BlockBuilder`, `TaggedTransactionQueue`, `OffchainWorkerApi`,
/// `SessionKeys`, `AuraApi`, `GetParachainInfo`, `AccountNonceApi`,
/// `TransactionPaymentApi`, `GenesisBuilder`.
pub open spec fn runtime_api_versions_spec() -> Seq<(Seq<u8>, u32)> {
    seq![
        (core_id(), 5u32),
        (metadata_id(), 2u32),
        (block_builder_id(), 6u32),
        (tagged_transaction_queue_id(), 3u32),
        (offchain_worker_api_id(), 2u32),
        (session_keys_id(), 2u32),
        (aura_api_id(), 1u32),
        (get_parachain_info_id(), 1u32),
        (account_nonce_api_id(), 1u32),
        (transaction_payment_api_id(), 4u32),
        (genesis_builder_id(), 1u32),
    ]
}

/// A list of API versions with each identifier taken as its bytes.
pub open spec fn api_versions_view(apis: Seq<ApiVersion>) -> Seq<(Seq<u8>, u32)> {
    apis.map_values(|a: ApiVersion| (a.0@, a.1))
}

/// The identifiers and versions of the runtime APIs this runtime implements.
pub fn runtime_api_versions() -> (apis: Vec<ApiVersion>)
    ensures
        api_versions_view(apis@) == runtime_api_versions_spec(),
{
    let mut apis: Vec<ApiVersion> = Vec::new();
    apis.push(core_api());
    apis.push(metadata_api());
    apis.push(block_builder_api());
    apis.push(tagged_transaction_queue_api());
    apis.push(offchain_worker_api_api());
    apis.push(session_keys_api());
    apis.push(aura_api_api());
    apis.push(get_parachain_info_api());
    apis.push(account_nonce_api_api());
    apis.push(transaction_payment_api_api());
    apis.push(genesis_builder_api());
    proof {
        assert(api_versions_view(apis@) =~= runtime_api_versions_spec());
    }
    apis
}

} // verus!
