//! The runtime's answers to the node's API queries that its configuration
//! alone decides.

use crate::config::{lemma_slot_duration_is_block_time, slot_duration, MILLI_SECS_PER_BLOCK};
use crate::fees::{length_to_fee, weight_to_fee, Weight};
use crate::genesis::{preset_names, preset_names_spec, PresetId};
use crate::version::{is_runtime_version, runtime_version, RuntimeVersion};
use vstd::prelude::*;

verus! {

/// The Acuity runtime.
pub struct Runtime;

impl Runtime {
    /// The `Core::version` query: this runtime's version.
    pub fn version() -> (v: RuntimeVersion)
        ensures
            is_runtime_version(v),
    {
        runtime_version()
    }

    /// The `AuraApi::slot_duration` query, in milliseconds: one block time.
    pub fn slot_duration() -> (ms: u64)
        ensures
            ms == MILLI_SECS_PER_BLOCK,
    {
        proof {
            lemma_slot_duration_is_block_time();
        }
        slot_duration()
    }

    /// The `TransactionPaymentApi::query_weight_to_fee` query: computation is free.
    pub fn query_weight_to_fee(weight: Weight) -> (fee: u128)
        ensures
            fee == 0,
    {
        weight_to_fee(&weight)
    }

    /// The `TransactionPaymentApi::query_length_to_fee` query: one unit per byte.
    pub fn query_length_to_fee(length: u32) -> (fee: u128)
        ensures
            fee == length,
    {
        length_to_fee(length)
    }

    /// The `GenesisBuilder::preset_names` query.
    pub fn preset_names() -> (names: Vec<PresetId>)
        ensures
            names@.len() == preset_names_spec().len(),
            forall|i: int|
                0 <= i < names@.len() ==> #[trigger] names@[i]@ == preset_names_spec()[i],
    {
        preset_names()
    }
}

} // verus!
