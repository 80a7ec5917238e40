//! The well-known development accounts and their sr25519 public keys.

use sp_keyring::Sr25519Keyring;
use vstd::prelude::*;

verus! {

/// A raw 32-byte public key, which is also the account identifier built from it.
pub type AccountKey = [u8; 32];

/// The development accounts that the runtime's presets and tests use.
#[derive(Clone, Copy, Debug, PartialEq, Eq)]
pub enum DevAccount {
    Alice,
    Bob,
    Charlie,
}

/// The sr25519 public key of a development account, as the keyring's table
/// fixes it (the key derived from the development phrase with `//Alice`,
/// `//Bob` or `//Charlie`).
pub open spec fn dev_public_key(who: DevAccount) -> Seq<u8> {
    match who {
        DevAccount::Alice => seq![
            0xd4u8, 0x35, 0x93, 0xc7, 0x15, 0xfd, 0xd3, 0x1c, 0x61, 0x14, 0x1a, 0xbd, 0x04, 0xa9,
            0x9f, 0xd6, 0x82, 0x2c, 0x85, 0x58, 0x85, 0x4c, 0xcd, 0xe3, 0x9a, 0x56, 0x84, 0xe7,
            0xa5, 0x6d, 0xa2, 0x7d,
        ],
        DevAccount::Bob => seq![
            0x8eu8, 0xaf, 0x04, 0x15, 0x16, 0x87, 0x73, 0x63, 0x26, 0xc9, 0xfe, 0xa1, 0x7e, 0x25,
            0xfc, 0x52, 0x87, 0x61, 0x36, 0x93, 0xc9, 0x12, 0x90, 0x9c, 0xb2, 0x26, 0xaa, 0x47,
            0x94, 0xf2, 0x6a, 0x48,
        ],
        DevAccount::Charlie => seq![
            0x90u8, 0xb5, 0xab, 0x20, 0x5c, 0x69, 0x74, 0xc9, 0xea, 0x84, 0x1b, 0xe6, 0x88, 0x86,
            0x46, 0x33, 0xdc, 0x9c, 0xa8, 0xa3, 0x57, 0x84, 0x3e, 0xea, 0xcf, 0x23, 0x14, 0x64,
            0x99, 0x65, 0xfe, 0x22,
        ],
    }
}

/// Calls `sp_keyring::Sr25519Keyring::to_raw_public` on the keyring member of
/// the same name. The keyring's source returns a fixed table entry for each
/// member; the contract claims exactly that entry. `public()` and
/// `to_account_id()` of the keyring wrap these same 32 bytes.
#[verifier::external_body]
pub(crate) fn keyring_public_key(who: DevAccount) -> (key: AccountKey)
    ensures
        key@ == dev_public_key(who),
{
    let member = match who {
        DevAccount::Alice => Sr25519Keyring::Alice,
        DevAccount::Bob => Sr25519Keyring::Bob,
        DevAccount::Charlie => Sr25519Keyring::Charlie,
    };
    member.to_raw_public()
}

/// The development accounts have pairwise different keys.
pub proof fn lemma_dev_keys_distinct(a: DevAccount, b: DevAccount)
    requires
        a != b,
    ensures
        dev_public_key(a) != dev_public_key(b),
{
    assert(dev_public_key(a)[0] != dev_public_key(b)[0]);
}

} // verus!
