//! Genesis presets: the development configuration and its JSON patch.

use crate::address::{ss58_address, ss58_encode, SUBSTRATE_SS58_FORMAT};
use crate::config::{EXISTENTIAL_DEPOSIT, MAX_AUTHORITIES};
use crate::json::{json_text, push_text, JsonValue};
use crate::keyring::{
    dev_public_key, keyring_public_key, lemma_dev_keys_distinct, AccountKey, DevAccount,
};
use crate::patch_json::{
    addressed_patch_json, balance_values, lemma_patch_tree_shape, patch_sections, patch_tree,
    section, text_values,
    AddressedPatch, AddressedPatchView,
};
use vstd::prelude::*;
use vstd::utf8::encode_utf8;

verus! {

/// Balance with which the development preset endows each of its accounts.
pub const DEV_ENDOWMENT: u128 = 1_000_000_000_000_000;

/// Parachain identifier of the development preset.
pub const DEV_PARACHAIN_ID: u32 = 1000;

/// Name of the development preset.
pub const DEV_RUNTIME_PRESET: &'static str = "development";

/// The part of the runtime's genesis configuration that a preset sets.
#[derive(Clone, Debug, PartialEq, Eq)]
pub struct GenesisPatch {
    /// Accounts endowed at genesis, with their balances.
    pub balances: Vec<(AccountKey, u128)>,
    /// Keys of the Aura block authors.
    pub aura_authorities: Vec<AccountKey>,
    /// Identifier of the parachain.
    pub parachain_id: u32,
    /// The superuser account, if any.
    pub sudo_key: Option<AccountKey>,
}

/// A genesis patch with each key taken as its sequence of bytes.
#[verifier::ext_equal]
pub struct GenesisPatchView {
    pub balances: Seq<(Seq<u8>, u128)>,
    pub aura_authorities: Seq<Seq<u8>>,
    pub parachain_id: u32,
    pub sudo_key: Option<Seq<u8>>,
}

/// The keys of a list, each as its bytes.
pub open spec fn keys_view(keys: Seq<AccountKey>) -> Seq<Seq<u8>> {
    keys.map_values(|k: AccountKey| k@)
}

/// The entries of a balance list, each key as its bytes.
pub open spec fn balances_view(entries: Seq<(AccountKey, u128)>) -> Seq<(Seq<u8>, u128)> {
    entries.map_values(|e: (AccountKey, u128)| (e.0@, e.1))
}

impl View for GenesisPatch {
    type V = GenesisPatchView;

    open spec fn view(&self) -> GenesisPatchView {
        GenesisPatchView {
            balances: balances_view(self.balances@),
            aura_authorities: keys_view(self.aura_authorities@),
            parachain_id: self.parachain_id,
            sudo_key: match self.sudo_key {
                Some(k) => Some(k@),
                None => None,
            },
        }
    }
}

/// The development configuration: Alice and Bob endowed with
/// [`DEV_ENDOWMENT`] each, Alice the only Aura authority and the superuser,
/// and parachain [`DEV_PARACHAIN_ID`].
pub open spec fn development_patch() -> GenesisPatchView {
    GenesisPatchView {
        balances: seq![
            (dev_public_key(DevAccount::Alice), DEV_ENDOWMENT),
            (dev_public_key(DevAccount::Bob), DEV_ENDOWMENT),
        ],
        aura_authorities: seq![dev_public_key(DevAccount::Alice)],
        parachain_id: DEV_PARACHAIN_ID,
        sudo_key: Some(dev_public_key(DevAccount::Alice)),
    }
}

/// The SS58 text address of an account key, in the generic Substrate format.
pub open spec fn address_text(key: Seq<u8>) -> Seq<char> {
    ss58_address(key, SUBSTRATE_SS58_FORMAT)
}

/// The addresses of a list of keys.
pub open spec fn addresses_view(keys: Seq<Seq<u8>>) -> Seq<Seq<char>> {
    keys.map_values(|k: Seq<u8>| address_text(k))
}

/// A patch with every key replaced by its address.
pub open spec fn addressed(p: GenesisPatchView) -> AddressedPatchView {
    AddressedPatchView {
        balances: p.balances.map_values(|e: (Seq<u8>, u128)| (address_text(e.0), e.1)),
        aura_authorities: addresses_view(p.aura_authorities),
        parachain_id: p.parachain_id,
        sudo_key: match p.sudo_key {
            Some(k) => Some(address_text(k)),
            None => None,
        },
    }
}

/// The JSON text of a genesis patch: the patch, with its keys written as
/// addresses, as the JSON value [`patch_tree`], written compactly.
pub open spec fn patch_json_text(p: GenesisPatchView) -> Seq<char> {
    json_text(patch_tree(addressed(p)))
}

/// Each key of a patch is replaced by its own SS58 address in the generic
/// Substrate format (42), in place: the endowed accounts one for one with
/// their amounts kept, the Aura authorities one for one, the superuser by its
/// own address; the parachain number is kept.
pub proof fn lemma_addressed_keys(p: GenesisPatchView)
    ensures
        addressed(p).balances.len() == p.balances.len(),
        forall|i: int|
            0 <= i < p.balances.len() ==> #[trigger] addressed(p).balances[i] == (
                ss58_address(p.balances[i].0, 42),
                p.balances[i].1,
            ),
        addressed(p).aura_authorities.len() == p.aura_authorities.len(),
        forall|i: int|
            0 <= i < p.aura_authorities.len() ==> #[trigger] addressed(p).aura_authorities[i]
                == ss58_address(p.aura_authorities[i], 42),
        addressed(p).parachain_id == p.parachain_id,
        addressed(p).sudo_key == match p.sudo_key {
            Some(k) => Some(ss58_address(k, 42)),
            None => None,
        },
{
}

/// Whether `t` is the JSON value of the genesis patch `p` with every key
/// written as its SS58 address in format 42: an object with exactly the
/// members `aura`, `balances`, `parachainSystem` and `sudo`, in that order,
/// each an object with one field. `aura.authorities` holds the address of
/// every authority, in order; `balances.balances` an `[address, amount]` pair
/// for every endowed account, in order; `parachainSystem.parachainId` the
/// parachain number; `sudo.key` the superuser's address, or `null`.
pub open spec fn is_addressed_patch_value(t: JsonValue, p: GenesisPatchView) -> bool {
    &&& t matches JsonValue::Object(m)
    &&& m.len() == 4
    &&& m[0].0 == "aura"@
    &&& m[0].1 matches JsonValue::Object(aura)
    &&& aura.len() == 1
    &&& aura[0].0 == "authorities"@
    &&& aura[0].1 matches JsonValue::Array(items)
    &&& items.len() == p.aura_authorities.len()
    &&& forall|i: int|
        0 <= i < items.len() ==> #[trigger] items[i] == JsonValue::Text(
            ss58_address(p.aura_authorities[i], 42),
        )
    &&& m[1].0 == "balances"@
    &&& m[1].1 matches JsonValue::Object(bal)
    &&& bal.len() == 1
    &&& bal[0].0 == "balances"@
    &&& bal[0].1 matches JsonValue::Array(entries)
    &&& entries.len() == p.balances.len()
    &&& forall|i: int|
        0 <= i < entries.len() ==> #[trigger] entries[i] == JsonValue::Array(
            seq![
                JsonValue::Text(ss58_address(p.balances[i].0, 42)),
                JsonValue::Number(p.balances[i].1 as nat),
            ],
        )
    &&& m[2].0 == "parachainSystem"@
    &&& m[2].1 == JsonValue::Object(
        seq![("parachainId"@, JsonValue::Number(p.parachain_id as nat))],
    )
    &&& m[3].0 == "sudo"@
    &&& m[3].1 == JsonValue::Object(
        seq![
            (
                "key"@,
                match p.sudo_key {
                    Some(k) => JsonValue::Text(ss58_address(k, 42)),
                    None => JsonValue::Null,
                },
            ),
        ],
    )
}

/// The JSON text of a genesis patch is the compact text of a JSON value that
/// holds exactly the patch: every authority's address, every endowed
/// account's address and amount in order, the parachain number and the
/// superuser's address.
pub proof fn lemma_patch_json_text_shape(p: GenesisPatchView)
    ensures
        exists|t: JsonValue| patch_json_text(p) == json_text(t) && is_addressed_patch_value(t, p),
{
    let a = addressed(p);
    let t = patch_tree(a);
    lemma_addressed_keys(p);
    lemma_patch_tree_shape(a);
    assert(is_addressed_patch_value(t, p));
    assert(patch_json_text(p) == json_text(t) && is_addressed_patch_value(t, p));
}

/// The patch with every key written as its SS58 address.
pub fn address_patch(patch: &GenesisPatch) -> (out: AddressedPatch)
    ensures
        out@ == addressed(patch@),
{
    let ghost p = patch@;
    let mut balances: Vec<(String, u128)> = Vec::new();
    let n: usize = patch.balances.len();
    let mut i: usize = 0;
    while i < n
        invariant
            n == patch.balances@.len(),
            p == patch@,
            i <= n,
            balances@.len() == i,
            forall|j: int|
                0 <= j < i ==> #[trigger] balances@[j].0@ == address_text(p.balances[j].0)
                    && balances@[j].1 == p.balances[j].1,
        decreases n - i,
    {
        let entry: &(AccountKey, u128) = &patch.balances[i];
        let text: String = ss58_encode(&entry.0, SUBSTRATE_SS58_FORMAT);
        balances.push((text, entry.1));
        i = i + 1;
    }
    let mut authorities: Vec<String> = Vec::new();
    let m: usize = patch.aura_authorities.len();
    let mut k: usize = 0;
    while k < m
        invariant
            m == patch.aura_authorities@.len(),
            p == patch@,
            k <= m,
            authorities@.len() == k,
            forall|j: int|
                0 <= j < k ==> #[trigger] authorities@[j]@ == address_text(p.aura_authorities[j]),
        decreases m - k,
    {
        let text: String = ss58_encode(&patch.aura_authorities[k], SUBSTRATE_SS58_FORMAT);
        authorities.push(text);
        k = k + 1;
    }
    let sudo_key: Option<String> = match &patch.sudo_key {
        Some(key) => Some(ss58_encode(key, SUBSTRATE_SS58_FORMAT)),
        None => None,
    };
    let out = AddressedPatch {
        balances,
        aura_authorities: authorities,
        parachain_id: patch.parachain_id,
        sudo_key,
    };
    proof {
        assert(out@.balances =~= addressed(p).balances);
        assert(out@.aura_authorities =~= addressed(p).aura_authorities);
        assert(out@ =~= addressed(p));
    }
    out
}

/// The JSON text of a genesis patch, UTF-8 encoded: what the preset API hands
/// to the node.
pub fn patch_json(patch: &GenesisPatch) -> (bytes: Vec<u8>)
    ensures
        bytes@ == encode_utf8(patch_json_text(patch@)),
{
    let addressed_patch: AddressedPatch = address_patch(patch);
    addressed_patch_json(&addressed_patch)
}

/// The key of the development block author: Alice's.
pub fn dev_authority() -> (key: AccountKey)
    ensures
        key@ == dev_public_key(DevAccount::Alice),
{
    keyring_public_key(DevAccount::Alice)
}

/// The development configuration (see [`development_patch`]).
pub fn development_config_genesis() -> (patch: GenesisPatch)
    ensures
        patch@ == development_patch(),
{
    let alice: AccountKey = keyring_public_key(DevAccount::Alice);
    let bob: AccountKey = keyring_public_key(DevAccount::Bob);
    let mut balances: Vec<(AccountKey, u128)> = Vec::new();
    balances.push((alice, DEV_ENDOWMENT));
    balances.push((bob, DEV_ENDOWMENT));
    let mut authorities: Vec<AccountKey> = Vec::new();
    authorities.push(dev_authority());
    let patch = GenesisPatch {
        balances,
        aura_authorities: authorities,
        parachain_id: DEV_PARACHAIN_ID,
        sudo_key: Some(alice),
    };
    proof {
        assert(patch@.balances =~= development_patch().balances);
        assert(patch@.aura_authorities =~= development_patch().aura_authorities);
        assert(patch@ =~= development_patch());
    }
    patch
}

/// The name of a genesis preset, as bytes.
#[derive(Clone, Debug, PartialEq, Eq)]
pub struct PresetId {
    pub name: Vec<u8>,
}

impl View for PresetId {
    type V = Seq<u8>;

    open spec fn view(&self) -> Seq<u8> {
        self.name@
    }
}

impl PresetId {
    /// The preset identifier of the UTF-8 text `name`.
    pub fn from_name(name: &str) -> (id: PresetId)
        ensures
            id@ == encode_utf8(name@),
    {
        let mut bytes: Vec<u8> = Vec::new();
        push_text(&mut bytes, name);
        PresetId { name: bytes }
    }
}

/// The bytes of the development preset's name.
pub open spec fn dev_preset_name() -> Seq<u8> {
    encode_utf8(DEV_RUNTIME_PRESET@)
}

/// The names of the presets that the runtime offers.
pub open spec fn preset_names_spec() -> Seq<Seq<u8>> {
    seq![dev_preset_name()]
}

/// The JSON patch of the preset named `id`, if the runtime offers one.
pub open spec fn preset_spec(id: Seq<u8>) -> Option<Seq<u8>> {
    if id == dev_preset_name() {
        Some(encode_utf8(patch_json_text(development_patch())))
    } else {
        None
    }
}

/// The development preset as a JSON value: Alice the only Aura authority,
/// Alice and Bob endowed with [`DEV_ENDOWMENT`] each, parachain
/// [`DEV_PARACHAIN_ID`] and Alice the superuser, every account written as its
/// address.
pub open spec fn development_preset_tree() -> JsonValue {
    let alice = address_text(dev_public_key(DevAccount::Alice));
    let bob = address_text(dev_public_key(DevAccount::Bob));
    JsonValue::Object(
        seq![
            section("aura"@, "authorities"@, JsonValue::Array(seq![JsonValue::Text(alice)])),
            section(
                "balances"@,
                "balances"@,
                JsonValue::Array(
                    seq![
                        JsonValue::Array(
                            seq![JsonValue::Text(alice), JsonValue::Number(DEV_ENDOWMENT as nat)],
                        ),
                        JsonValue::Array(
                            seq![JsonValue::Text(bob), JsonValue::Number(DEV_ENDOWMENT as nat)],
                        ),
                    ],
                ),
            ),
            section("parachainSystem"@, "parachainId"@, JsonValue::Number(DEV_PARACHAIN_ID as nat)),
            section("sudo"@, "key"@, JsonValue::Text(alice)),
        ],
    )
}

/// The development preset is the JSON text of [`development_preset_tree`].
pub proof fn lemma_development_preset_tree()
    ensures
        preset_spec(dev_preset_name()) == Some(encode_utf8(json_text(development_preset_tree()))),
{
    let a = addressed(development_patch());
    let alice = address_text(dev_public_key(DevAccount::Alice));
    let bob = address_text(dev_public_key(DevAccount::Bob));
    assert(a.aura_authorities =~= seq![alice]);
    assert(text_values(a.aura_authorities) =~= seq![JsonValue::Text(alice)]);
    assert(a.balances =~= seq![(alice, DEV_ENDOWMENT), (bob, DEV_ENDOWMENT)]);
    assert(balance_values(a.balances) =~= seq![
        JsonValue::Array(seq![JsonValue::Text(alice), JsonValue::Number(DEV_ENDOWMENT as nat)]),
        JsonValue::Array(seq![JsonValue::Text(bob), JsonValue::Number(DEV_ENDOWMENT as nat)]),
    ]);
    assert(patch_sections(a) =~= match development_preset_tree() {
        JsonValue::Object(fields) => fields,
        _ => Seq::empty(),
    });
}

/// Whether two byte strings are equal.
fn bytes_equal(a: &[u8], b: &[u8]) -> (equal: bool)
    ensures
        equal == (a@ == b@),
{
    if a.len() != b.len() {
        return false;
    }
    let n: usize = a.len();
    let mut i: usize = 0;
    while i < n
        invariant
            n == a@.len(),
            n == b@.len(),
            i <= n,
            forall|j: int| 0 <= j < i ==> a@[j] == b@[j],
        decreases n - i,
    {
        if a[i] != b[i] {
            return false;
        }
        i = i + 1;
    }
    assert(a@ =~= b@);
    true
}

/// The JSON patch of the preset named `id`: the development configuration
/// for `development`, nothing for any other name.
pub fn get_preset(id: &PresetId) -> (preset: Option<Vec<u8>>)
    ensures
        preset_spec(id@) is Some <==> preset is Some,
        preset matches Some(bytes) ==> preset_spec(id@) == Some(bytes@),
{
    let dev_name: &str = DEV_RUNTIME_PRESET;
    let wanted: &[u8] = dev_name.as_bytes();
    if bytes_equal(id.name.as_slice(), wanted) {
        let patch: GenesisPatch = development_config_genesis();
        Some(patch_json(&patch))
    } else {
        None
    }
}

/// The names of the presets that the runtime offers: `development` alone.
pub fn preset_names() -> (names: Vec<PresetId>)
    ensures
        names@.len() == preset_names_spec().len(),
        forall|i: int| 0 <= i < names@.len() ==> #[trigger] names@[i]@ == preset_names_spec()[i],
{
    let mut names: Vec<PresetId> = Vec::new();
    names.push(PresetId::from_name(DEV_RUNTIME_PRESET));
    names
}

/// Every listed preset can be fetched, and every name that is not listed
/// yields nothing.
pub proof fn lemma_presets_listed_iff_available(id: Seq<u8>)
    ensures
        preset_spec(id) is Some <==> preset_names_spec().contains(id),
{
    if preset_names_spec().contains(id) {
        let i = choose|i: int| 0 <= i < preset_names_spec().len() && preset_names_spec()[i] == id;
        assert(i == 0);
    }
    if id == dev_preset_name() {
        assert(preset_names_spec()[0] == id);
    }
}

/// The bytes of every preset are valid UTF-8.
pub proof fn lemma_preset_is_utf8(id: Seq<u8>)
    ensures
        preset_spec(id) matches Some(bytes) ==> vstd::utf8::valid_utf8(bytes),
{
    vstd::utf8::encode_utf8_valid_utf8(patch_json_text(development_patch()));
}

/// Whether a genesis patch meets what the runtime's pallets demand of their
/// genesis: every endowed balance reaches the existential deposit, no account
/// is endowed twice, there is at least one Aura authority and no more than
/// [`MAX_AUTHORITIES`], and the superuser, if any, is endowed.
pub open spec fn patch_well_formed(p: GenesisPatchView) -> bool {
    &&& forall|i: int|
        0 <= i < p.balances.len() ==> (#[trigger] p.balances[i]).1 >= EXISTENTIAL_DEPOSIT
    &&& forall|i: int, j: int|
        0 <= i < j < p.balances.len() ==> (#[trigger] p.balances[i]).0 != (#[trigger] p.balances[j]).0
    &&& 1 <= p.aura_authorities.len() <= MAX_AUTHORITIES
    &&& p.sudo_key matches Some(k) ==> exists|i: int|
        0 <= i < p.balances.len() && (#[trigger] p.balances[i]).0 == k
}

/// The development configuration can seed the runtime: its balances reach the
/// existential deposit, Alice and Bob are different accounts, Alice alone
/// authors blocks, and the superuser Alice is endowed.
pub proof fn lemma_development_patch_well_formed()
    ensures
        patch_well_formed(development_patch()),
{
    let p = development_patch();
    lemma_dev_keys_distinct(DevAccount::Alice, DevAccount::Bob);
    assert(p.balances[0].0 == dev_public_key(DevAccount::Alice));
}

} // verus!
