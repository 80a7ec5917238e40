//! Constants that the runtime's pallets are configured with.

use vstd::prelude::*;

verus! {

/// Target time between two blocks, in milliseconds.
pub const MILLI_SECS_PER_BLOCK: u64 = 6000;

/// Smallest balance an account may hold (`pallet_balances::ExistentialDeposit`).
pub const EXISTENTIAL_DEPOSIT: u128 = 1;

/// Largest number of Aura authorities (`pallet_aura::MaxAuthorities`).
pub const MAX_AUTHORITIES: u32 = 32;

/// Whether Aura lets one author produce several blocks in a slot.
pub const ALLOW_MULTIPLE_BLOCKS_PER_SLOT: bool = false;

/// Namespace mixed into every content item identifier.
pub struct ItemIdNamespace;

impl ItemIdNamespace {
    pub fn get() -> (r: u32)
        ensures
            r == 1000,
    {
        1000
    }
}

/// Largest number of parents a content item may name.
pub struct MaxParents;

impl MaxParents {
    pub fn get() -> (r: u32)
        ensures
            r == 32,
    {
        32
    }
}

/// Largest number of links a content item may hold.
pub struct MaxLinks;

impl MaxLinks {
    pub fn get() -> (r: u32)
        ensures
            r == 128,
    {
        128
    }
}

/// Largest number of accounts a content item may mention.
pub struct MaxMentions;

impl MaxMentions {
    pub fn get() -> (r: u32)
        ensures
            r == 256,
    {
        256
    }
}

/// Largest number of content items an account may list.
pub struct MaxItemsPerAccount;

impl MaxItemsPerAccount {
    pub fn get() -> (r: u32)
        ensures
            r == 1024,
    {
        1024
    }
}

/// Largest number of emojis one account may leave on one revision of an item.
pub struct MaxEmojis;

impl MaxEmojis {
    pub fn get() -> (r: u32)
        ensures
            r == 16,
    {
        16
    }
}

/// The timestamp pallet's minimum period between blocks: half the block time.
pub fn minimum_period() -> (r: u64)
    ensures
        r == MILLI_SECS_PER_BLOCK / 2,
{
    MILLI_SECS_PER_BLOCK / 2
}

/// Aura's slot duration, twice the timestamp pallet's minimum period
/// (`pallet_aura::MinimumPeriodTimesTwo`, a saturating product).
pub fn slot_duration() -> (r: u64)
    ensures
        r == 2 * minimum_period_spec(),
{
    let period: u64 = minimum_period();
    match period.checked_mul(2) {
        Some(v) => v,
        None => u64::MAX,
    }
}

/// The value that [`minimum_period`] returns.
pub open spec fn minimum_period_spec() -> u64 {
    (MILLI_SECS_PER_BLOCK / 2) as u64
}

/// One Aura slot lasts exactly one block time: halving the block time for the
/// minimum period and doubling it again for the slot loses nothing.
pub proof fn lemma_slot_duration_is_block_time()
    ensures
        2 * minimum_period_spec() == MILLI_SECS_PER_BLOCK,
{
}

} // verus!
