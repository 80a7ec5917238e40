//! The JSON text of a genesis patch whose accounts are already written as
//! text addresses.

use crate::json::{
    comma_join, decimal_text, item_texts, field_texts, json_array_text, json_string_text,
    json_text, lemma_comma_join_four, lemma_comma_join_one, lemma_comma_join_step,
    lemma_comma_join_two, lemma_encode_utf8_concat, lemma_field_texts, lemma_item_texts,
    member_text, push_decimal, push_json_string, push_text, JsonValue,
};
use vstd::prelude::*;
use vstd::utf8::encode_utf8;

verus! {

/// A genesis patch whose accounts are text addresses.
#[derive(Clone, Debug, PartialEq, Eq)]
pub struct AddressedPatch {
    /// Addresses endowed at genesis, with their balances.
    pub balances: Vec<(String, u128)>,
    /// Addresses of the Aura block authors.
    pub aura_authorities: Vec<String>,
    /// Identifier of the parachain.
    pub parachain_id: u32,
    /// Address of the superuser, if any.
    pub sudo_key: Option<String>,
}

/// An addressed patch with each address taken as its characters.
#[verifier::ext_equal]
pub struct AddressedPatchView {
    pub balances: Seq<(Seq<char>, u128)>,
    pub aura_authorities: Seq<Seq<char>>,
    pub parachain_id: u32,
    pub sudo_key: Option<Seq<char>>,
}

/// The characters of each string of a list.
pub open spec fn strings_view(items: Seq<String>) -> Seq<Seq<char>> {
    items.map_values(|s: String| s@)
}

/// The entries of an addressed balance list, each address as its characters.
pub open spec fn text_balances_view(entries: Seq<(String, u128)>) -> Seq<(Seq<char>, u128)> {
    entries.map_values(|e: (String, u128)| (e.0@, e.1))
}

impl View for AddressedPatch {
    type V = AddressedPatchView;

    open spec fn view(&self) -> AddressedPatchView {
        AddressedPatchView {
            balances: text_balances_view(self.balances@),
            aura_authorities: strings_view(self.aura_authorities@),
            parachain_id: self.parachain_id,
            sudo_key: match self.sudo_key {
                Some(k) => Some(k@),
                None => None,
            },
        }
    }
}

/// The JSON text of a balance entry: a two-element array of the address and
/// the amount.
pub open spec fn balance_entry_json(entry: (Seq<char>, u128)) -> Seq<char> {
    seq!['['] + json_string_text(entry.0) + seq![','] + decimal_text(entry.1 as nat) + seq![']']
}

/// The JSON items of a list of authority addresses.
pub open spec fn authority_items(names: Seq<Seq<char>>) -> Seq<Seq<char>> {
    names.map_values(|s: Seq<char>| json_string_text(s))
}

/// The JSON items of a list of balance entries.
pub open spec fn balance_items(entries: Seq<(Seq<char>, u128)>) -> Seq<Seq<char>> {
    entries.map_values(|e: (Seq<char>, u128)| balance_entry_json(e))
}

/// The JSON text of the superuser: its address, or `null`.
pub open spec fn sudo_json(key: Option<Seq<char>>) -> Seq<char> {
    match key {
        Some(k) => json_string_text(k),
        None => seq!['n', 'u', 'l', 'l'],
    }
}

/// JSON strings of a list of addresses.
pub open spec fn text_values(names: Seq<Seq<char>>) -> Seq<JsonValue> {
    names.map_values(|s: Seq<char>| JsonValue::Text(s))
}

/// A balance entry as JSON: a two-element array of the address and the amount.
pub open spec fn balance_entry_value(entry: (Seq<char>, u128)) -> JsonValue {
    JsonValue::Array(seq![JsonValue::Text(entry.0), JsonValue::Number(entry.1 as nat)])
}

/// A list of balance entries as JSON values.
pub open spec fn balance_values(entries: Seq<(Seq<char>, u128)>) -> Seq<JsonValue> {
    entries.map_values(|e: (Seq<char>, u128)| balance_entry_value(e))
}

/// The superuser as JSON: its address, or `null`.
pub open spec fn sudo_value(key: Option<Seq<char>>) -> JsonValue {
    match key {
        Some(k) => JsonValue::Text(k),
        None => JsonValue::Null,
    }
}

/// A pallet's section of a patch: an object member named after the pallet,
/// holding an object with the one field that the patch sets.
pub open spec fn section(pallet: Seq<char>, field: Seq<char>, value: JsonValue) -> (
    Seq<char>,
    JsonValue,
) {
    (pallet, JsonValue::Object(seq![(field, value)]))
}

/// The sections of an addressed patch, in the order in which they are written.
pub open spec fn patch_sections(p: AddressedPatchView) -> Seq<(Seq<char>, JsonValue)> {
    seq![
        section("aura"@, "authorities"@, JsonValue::Array(text_values(p.aura_authorities))),
        section("balances"@, "balances"@, JsonValue::Array(balance_values(p.balances))),
        section("parachainSystem"@, "parachainId"@, JsonValue::Number(p.parachain_id as nat)),
        section("sudo"@, "key"@, sudo_value(p.sudo_key)),
    ]
}

/// An addressed genesis patch as a JSON value: an object with a section for
/// each pallet it configures (`aura`, `balances`, `parachainSystem`, `sudo`),
/// fields named in camel case.
pub open spec fn patch_tree(p: AddressedPatchView) -> JsonValue {
    JsonValue::Object(patch_sections(p))
}

/// The JSON text of an addressed genesis patch.
pub open spec fn addressed_json_text(p: AddressedPatchView) -> Seq<char> {
    json_text(patch_tree(p))
}

/// An array of addresses is written as the JSON array of their strings.
proof fn lemma_authorities_value(names: Seq<Seq<char>>)
    ensures
        json_text(JsonValue::Array(text_values(names))) == json_array_text(authority_items(names)),
{
    lemma_item_texts(text_values(names));
    assert(item_texts(text_values(names)) =~= authority_items(names));
}

/// A balance entry is written as `[address,amount]`.
proof fn lemma_balance_entry_value(entry: (Seq<char>, u128))
    ensures
        json_text(balance_entry_value(entry)) == balance_entry_json(entry),
{
    let items = seq![JsonValue::Text(entry.0), JsonValue::Number(entry.1 as nat)];
    lemma_item_texts(items);
    assert(item_texts(items) =~= seq![json_string_text(entry.0), decimal_text(entry.1 as nat)]);
    lemma_comma_join_two(json_string_text(entry.0), decimal_text(entry.1 as nat));
    assert(json_text(balance_entry_value(entry)) =~= balance_entry_json(entry));
}

/// An array of balance entries is written entry by entry.
proof fn lemma_balances_value(entries: Seq<(Seq<char>, u128)>)
    ensures
        json_text(JsonValue::Array(balance_values(entries))) == json_array_text(
            balance_items(entries),
        ),
{
    lemma_item_texts(balance_values(entries));
    assert forall|i: int| 0 <= i < entries.len() implies #[trigger] item_texts(
        balance_values(entries),
    )[i] == balance_items(entries)[i] by {
        lemma_balance_entry_value(entries[i]);
    }
    assert(item_texts(balance_values(entries)) =~= balance_items(entries));
}

/// The superuser is written as its address or as `null`.
proof fn lemma_sudo_value(key: Option<Seq<char>>)
    ensures
        json_text(sudo_value(key)) == sudo_json(key),
{
}

/// A section is written as the pallet's name, a colon and an object with the
/// one field.
proof fn lemma_section_text(pallet: Seq<char>, field: Seq<char>, value: JsonValue)
    ensures
        member_text(section(pallet, field, value)) == json_string_text(pallet) + seq![':']
            + seq!['{'] + json_string_text(field) + seq![':'] + json_text(value) + seq!['}'],
{
    let fields = seq![(field, value)];
    lemma_field_texts(fields);
    assert(field_texts(fields) =~= seq![member_text((field, value))]);
    lemma_comma_join_one(member_text((field, value)));
    assert(member_text(section(pallet, field, value)) =~= json_string_text(pallet) + seq![':']
        + seq!['{'] + json_string_text(field) + seq![':'] + json_text(value) + seq!['}']);
}

/// The patch is written as its four sections between braces, separated by
/// commas.
proof fn lemma_patch_tree_text(p: AddressedPatchView)
    ensures
        addressed_json_text(p) == seq!['{'] + member_text(patch_sections(p)[0]) + seq![',']
            + member_text(patch_sections(p)[1]) + seq![','] + member_text(patch_sections(p)[2])
            + seq![','] + member_text(patch_sections(p)[3]) + seq!['}'],
{
    let secs = patch_sections(p);
    lemma_field_texts(secs);
    assert(field_texts(secs) =~= seq![
        member_text(secs[0]),
        member_text(secs[1]),
        member_text(secs[2]),
        member_text(secs[3]),
    ]);
    lemma_comma_join_four(
        member_text(secs[0]),
        member_text(secs[1]),
        member_text(secs[2]),
        member_text(secs[3]),
    );
    assert(addressed_json_text(p) =~= seq!['{'] + member_text(secs[0]) + seq![','] + member_text(
        secs[1],
    ) + seq![','] + member_text(secs[2]) + seq![','] + member_text(secs[3]) + seq!['}']);
}

/// Whether `t` is the JSON value of a genesis patch with the given parts: an
/// object with exactly the members `aura`, `balances`, `parachainSystem` and
/// `sudo`, in that order, each an object with one field.
/// `aura.authorities` holds one string per authority, in order;
/// `balances.balances` holds one `[address, amount]` pair per entry, in order;
/// `parachainSystem.parachainId` is the parachain number; `sudo.key` is the
/// superuser's address, or `null` when there is none.
pub open spec fn is_patch_value(
    t: JsonValue,
    authorities: Seq<Seq<char>>,
    balances: Seq<(Seq<char>, u128)>,
    parachain_id: u32,
    sudo_key: Option<Seq<char>>,
) -> bool {
    &&& t matches JsonValue::Object(m)
    &&& m.len() == 4
    &&& m[0].0 == "aura"@
    &&& m[0].1 matches JsonValue::Object(aura)
    &&& aura.len() == 1
    &&& aura[0].0 == "authorities"@
    &&& aura[0].1 matches JsonValue::Array(items)
    &&& items.len() == authorities.len()
    &&& forall|i: int|
        0 <= i < items.len() ==> #[trigger] items[i] == JsonValue::Text(authorities[i])
    &&& m[1].0 == "balances"@
    &&& m[1].1 matches JsonValue::Object(bal)
    &&& bal.len() == 1
    &&& bal[0].0 == "balances"@
    &&& bal[0].1 matches JsonValue::Array(entries)
    &&& entries.len() == balances.len()
    &&& forall|i: int|
        0 <= i < entries.len() ==> #[trigger] entries[i] == JsonValue::Array(
            seq![JsonValue::Text(balances[i].0), JsonValue::Number(balances[i].1 as nat)],
        )
    &&& m[2].0 == "parachainSystem"@
    &&& m[2].1 == JsonValue::Object(
        seq![("parachainId"@, JsonValue::Number(parachain_id as nat))],
    )
    &&& m[3].0 == "sudo"@
    &&& m[3].1 == JsonValue::Object(
        seq![
            (
                "key"@,
                match sudo_key {
                    Some(k) => JsonValue::Text(k),
                    None => JsonValue::Null,
                },
            ),
        ],
    )
}

/// The JSON value of an addressed patch holds exactly its parts: every
/// authority, every balance entry in order, the parachain number and the
/// superuser.
pub proof fn lemma_patch_tree_shape(p: AddressedPatchView)
    ensures
        is_patch_value(patch_tree(p), p.aura_authorities, p.balances, p.parachain_id, p.sudo_key),
{
    let t = patch_tree(p);
    let m = patch_sections(p);
    assert(m[0].1 == JsonValue::Object(
        seq![("authorities"@, JsonValue::Array(text_values(p.aura_authorities)))],
    ));
    assert(m[1].1 == JsonValue::Object(
        seq![("balances"@, JsonValue::Array(balance_values(p.balances)))],
    ));
    assert forall|i: int| 0 <= i < p.aura_authorities.len() implies #[trigger] text_values(
        p.aura_authorities,
    )[i] == JsonValue::Text(p.aura_authorities[i]) by {}
    assert forall|i: int| 0 <= i < p.balances.len() implies #[trigger] balance_values(
        p.balances,
    )[i] == JsonValue::Array(
        seq![JsonValue::Text(p.balances[i].0), JsonValue::Number(p.balances[i].1 as nat)],
    ) by {}
}

/// UTF-8 encoding of three pieces in a row.
proof fn lemma_encode_utf8_concat3(a: Seq<char>, b: Seq<char>, c: Seq<char>)
    ensures
        encode_utf8(a + b + c) == encode_utf8(a) + encode_utf8(b) + encode_utf8(c),
{
    lemma_encode_utf8_concat(a + b, c);
    lemma_encode_utf8_concat(a, b);
}

/// Bytes already written, followed by the encoding of one more piece of text.
proof fn lemma_append_text(start: Seq<u8>, acc: Seq<char>, piece: Seq<char>)
    ensures
        start + encode_utf8(acc) + encode_utf8(piece) == start + encode_utf8(acc + piece),
{
    lemma_encode_utf8_concat(acc, piece);
    assert(start + encode_utf8(acc) + encode_utf8(piece) =~= start + (encode_utf8(acc)
        + encode_utf8(piece)));
}

/// Appends the JSON array of a list of authority addresses.
fn push_authorities(out: &mut Vec<u8>, names: &Vec<String>)
    ensures
        final(out)@ == old(out)@ + encode_utf8(
            json_array_text(authority_items(strings_view(names@))),
        ),
{
    let ghost start = out@;
    let ghost items = authority_items(strings_view(names@));
    proof {
        reveal_strlit("[");
        reveal_strlit("]");
        assert("["@ =~= seq!['[']);
        assert("]"@ =~= seq![']']);
    }
    push_text(out, "[");
    proof {
        assert(items.take(0) =~= Seq::<Seq<char>>::empty());
        assert(seq!['['] + comma_join(items.take(0)) =~= seq!['[']);
    }
    let n: usize = names.len();
    let mut i: usize = 0;
    while i < n
        invariant
            n == names@.len(),
            items == authority_items(strings_view(names@)),
            items.len() == n,
            i <= n,
            out@ == start + encode_utf8(seq!['['] + comma_join(items.take(i as int))),
        decreases n - i,
    {
        let ghost before = out@;
        let ghost prev = seq!['['] + comma_join(items.take(i as int));
        let ghost sep: Seq<char> = if i == 0 { seq![] } else { seq![','] };
        if i > 0 {
            push_text(out, ",");
        }
        assert(out@ == before + encode_utf8(sep)) by {
            if i == 0 {
                assert(encode_utf8(sep) =~= Seq::<u8>::empty());
                assert(out@ =~= before);
            } else {
                reveal_strlit(",");
                assert(","@ =~= seq![',']);
            }
        }
        push_json_string(out, names[i].as_str());
        proof {
            lemma_comma_join_step(items, i as int);
            assert(items[i as int] == json_string_text(names@[i as int]@));
            lemma_encode_utf8_concat3(prev, sep, items[i as int]);
            assert(seq!['['] + comma_join(items.take(i + 1)) =~= prev + sep + items[i as int]);
        }
        i = i + 1;
    }
    let ghost body = seq!['['] + comma_join(items.take(n as int));
    push_text(out, "]");
    proof {
        assert(items.take(n as int) =~= items);
        lemma_encode_utf8_concat(body, seq![']']);
        assert(json_array_text(items) =~= body + seq![']']);
        assert(out@ =~= start + encode_utf8(body) + encode_utf8(seq![']']));
    }
}

/// Appends the JSON text of one balance entry.
fn push_balance_entry(out: &mut Vec<u8>, entry: &(String, u128))
    ensures
        final(out)@ == old(out)@ + encode_utf8(balance_entry_json((entry.0@, entry.1))),
{
    let ghost start = out@;
    proof {
        reveal_strlit("[");
        reveal_strlit(",");
        reveal_strlit("]");
        assert("["@ =~= seq!['[']);
        assert(","@ =~= seq![',']);
        assert("]"@ =~= seq![']']);
        assert(encode_utf8(Seq::<char>::empty()) =~= Seq::<u8>::empty());
        assert(start =~= start + encode_utf8(Seq::<char>::empty()));
    }
    let ghost a0 = Seq::<char>::empty();
    push_text(out, "[");
    proof {
        lemma_append_text(start, a0, seq!['[']);
    }
    let ghost a1 = a0 + seq!['['];
    push_json_string(out, entry.0.as_str());
    proof {
        lemma_append_text(start, a1, json_string_text(entry.0@));
    }
    let ghost a2 = a1 + json_string_text(entry.0@);
    push_text(out, ",");
    proof {
        lemma_append_text(start, a2, seq![',']);
    }
    let ghost a3 = a2 + seq![','];
    push_decimal(out, entry.1);
    proof {
        lemma_append_text(start, a3, decimal_text(entry.1 as nat));
    }
    let ghost a4 = a3 + decimal_text(entry.1 as nat);
    push_text(out, "]");
    proof {
        lemma_append_text(start, a4, seq![']']);
        assert(a4 + seq![']'] =~= balance_entry_json((entry.0@, entry.1)));
    }
}

/// Appends the JSON array of a list of balance entries.
fn push_balances(out: &mut Vec<u8>, entries: &Vec<(String, u128)>)
    ensures
        final(out)@ == old(out)@ + encode_utf8(
            json_array_text(balance_items(text_balances_view(entries@))),
        ),
{
    let ghost start = out@;
    let ghost items = balance_items(text_balances_view(entries@));
    proof {
        reveal_strlit("[");
        reveal_strlit("]");
        assert("["@ =~= seq!['[']);
        assert("]"@ =~= seq![']']);
    }
    push_text(out, "[");
    proof {
        assert(items.take(0) =~= Seq::<Seq<char>>::empty());
        assert(seq!['['] + comma_join(items.take(0)) =~= seq!['[']);
    }
    let n: usize = entries.len();
    let mut i: usize = 0;
    while i < n
        invariant
            n == entries@.len(),
            items == balance_items(text_balances_view(entries@)),
            items.len() == n,
            i <= n,
            out@ == start + encode_utf8(seq!['['] + comma_join(items.take(i as int))),
        decreases n - i,
    {
        let ghost before = out@;
        let ghost prev = seq!['['] + comma_join(items.take(i as int));
        let ghost sep: Seq<char> = if i == 0 { seq![] } else { seq![','] };
        if i > 0 {
            push_text(out, ",");
        }
        assert(out@ == before + encode_utf8(sep)) by {
            if i == 0 {
                assert(encode_utf8(sep) =~= Seq::<u8>::empty());
                assert(out@ =~= before);
            } else {
                reveal_strlit(",");
                assert(","@ =~= seq![',']);
            }
        }
        push_balance_entry(out, &entries[i]);
        proof {
            lemma_comma_join_step(items, i as int);
            assert(items[i as int] == balance_entry_json(
                (entries@[i as int].0@, entries@[i as int].1),
            ));
            lemma_encode_utf8_concat3(prev, sep, items[i as int]);
            assert(seq!['['] + comma_join(items.take(i + 1)) =~= prev + sep + items[i as int]);
        }
        i = i + 1;
    }
    let ghost body = seq!['['] + comma_join(items.take(n as int));
    push_text(out, "]");
    proof {
        assert(items.take(n as int) =~= items);
        lemma_encode_utf8_concat(body, seq![']']);
        assert(json_array_text(items) =~= body + seq![']']);
        assert(out@ =~= start + encode_utf8(body) + encode_utf8(seq![']']));
    }
}

/// Appends the JSON text of the superuser.
fn push_sudo_key(out: &mut Vec<u8>, key: &Option<String>)
    ensures
        final(out)@ == old(out)@ + encode_utf8(
            sudo_json(
                match key {
                    Some(k) => Some(k@),
                    None => None,
                },
            ),
        ),
{
    match key {
        Some(k) => push_json_string(out, k.as_str()),
        None => {
            proof {
                reveal_strlit("null");
                assert("null"@ =~= seq!['n', 'u', 'l', 'l']);
            }
            push_text(out, "null");
        },
    }
}

/// Appends a single character given as a one-character literal.
fn push_char(out: &mut Vec<u8>, c: &str, ch: Ghost<char>)
    requires
        c@ == seq![ch@],
    ensures
        final(out)@ == old(out)@ + encode_utf8(seq![ch@]),
{
    push_text(out, c);
}

/// Appends the start of a section: the pallet's name, a colon, an opening
/// brace, the field's name and a colon.
fn push_section_head(out: &mut Vec<u8>, pallet: &str, field: &str)
    ensures
        final(out)@ == old(out)@ + encode_utf8(
            json_string_text(pallet@) + seq![':'] + seq!['{'] + json_string_text(field@) + seq![
                ':',
            ],
        ),
{
    let ghost start = out@;
    proof {
        reveal_strlit(":");
        reveal_strlit("{");
        assert(":"@ =~= seq![':']);
        assert("{"@ =~= seq!['{']);
        assert(encode_utf8(Seq::<char>::empty()) =~= Seq::<u8>::empty());
        assert(start =~= start + encode_utf8(Seq::<char>::empty()));
    }
    let ghost a0 = Seq::<char>::empty();
    push_json_string(out, pallet);
    proof {
        lemma_append_text(start, a0, json_string_text(pallet@));
    }
    let ghost a1 = a0 + json_string_text(pallet@);
    push_text(out, ":");
    proof {
        lemma_append_text(start, a1, seq![':']);
    }
    let ghost a2 = a1 + seq![':'];
    push_text(out, "{");
    proof {
        lemma_append_text(start, a2, seq!['{']);
    }
    let ghost a3 = a2 + seq!['{'];
    push_json_string(out, field);
    proof {
        lemma_append_text(start, a3, json_string_text(field@));
    }
    let ghost a4 = a3 + json_string_text(field@);
    push_text(out, ":");
    proof {
        lemma_append_text(start, a4, seq![':']);
        assert(a4 + seq![':'] =~= json_string_text(pallet@) + seq![':'] + seq!['{']
            + json_string_text(field@) + seq![':']);
    }
}

/// Appends a whole section, given how its value was appended: the head, the
/// value's text and the closing brace.
proof fn lemma_section_written(
    start: Seq<u8>,
    mid: Seq<u8>,
    end: Seq<u8>,
    pallet: Seq<char>,
    field: Seq<char>,
    value: JsonValue,
)
    requires
        mid == start + encode_utf8(
            json_string_text(pallet) + seq![':'] + seq!['{'] + json_string_text(field) + seq![
                ':',
            ],
        ) + encode_utf8(json_text(value)),
        end == mid + encode_utf8(seq!['}']),
    ensures
        end == start + encode_utf8(member_text(section(pallet, field, value))),
{
    let head = json_string_text(pallet) + seq![':'] + seq!['{'] + json_string_text(field) + seq![
        ':',
    ];
    lemma_append_text(start, head, json_text(value));
    lemma_append_text(start, head + json_text(value), seq!['}']);
    lemma_section_text(pallet, field, value);
    assert(head + json_text(value) + seq!['}'] =~= member_text(section(pallet, field, value)));
}

/// The UTF-8 encoded JSON text of an addressed genesis patch: the JSON value
/// [`patch_tree`] written compactly.
pub fn addressed_patch_json(patch: &AddressedPatch) -> (bytes: Vec<u8>)
    ensures
        bytes@ == encode_utf8(json_text(patch_tree(patch@))),
{
    let mut out: Vec<u8> = Vec::new();
    let ghost p = patch@;
    let ghost secs = patch_sections(p);
    let ghost start = out@;
    proof {
        reveal_strlit("{");
        reveal_strlit("}");
        reveal_strlit(",");
        assert("{"@ =~= seq!['{']);
        assert("}"@ =~= seq!['}']);
        assert(","@ =~= seq![',']);
        assert(encode_utf8(Seq::<char>::empty()) =~= Seq::<u8>::empty());
        assert(start =~= start + encode_utf8(Seq::<char>::empty()));
    }
    let ghost a0 = Seq::<char>::empty();
    push_char(&mut out, "{", Ghost('{'));
    proof {
        lemma_append_text(start, a0, seq!['{']);
    }
    let ghost a1 = a0 + seq!['{'];
    // aura
    let ghost s0 = out@;
    push_section_head(&mut out, "aura", "authorities");
    push_authorities(&mut out, &patch.aura_authorities);
    proof {
        lemma_authorities_value(p.aura_authorities);
    }
    let ghost m0 = out@;
    push_char(&mut out, "}", Ghost('}'));
    proof {
        lemma_section_written(
            s0,
            m0,
            out@,
            "aura"@,
            "authorities"@,
            JsonValue::Array(text_values(p.aura_authorities)),
        );
        lemma_append_text(start, a1, member_text(secs[0]));
    }
    let ghost a2 = a1 + member_text(secs[0]);
    push_char(&mut out, ",", Ghost(','));
    proof {
        lemma_append_text(start, a2, seq![',']);
    }
    let ghost a3 = a2 + seq![','];
    // balances
    let ghost s1 = out@;
    push_section_head(&mut out, "balances", "balances");
    push_balances(&mut out, &patch.balances);
    proof {
        lemma_balances_value(p.balances);
    }
    let ghost m1 = out@;
    push_char(&mut out, "}", Ghost('}'));
    proof {
        lemma_section_written(
            s1,
            m1,
            out@,
            "balances"@,
            "balances"@,
            JsonValue::Array(balance_values(p.balances)),
        );
        lemma_append_text(start, a3, member_text(secs[1]));
    }
    let ghost a4 = a3 + member_text(secs[1]);
    push_char(&mut out, ",", Ghost(','));
    proof {
        lemma_append_text(start, a4, seq![',']);
    }
    let ghost a5 = a4 + seq![','];
    // parachainSystem
    let ghost s2 = out@;
    push_section_head(&mut out, "parachainSystem", "parachainId");
    push_decimal(&mut out, patch.parachain_id as u128);
    let ghost m2 = out@;
    push_char(&mut out, "}", Ghost('}'));
    proof {
        lemma_section_written(
            s2,
            m2,
            out@,
            "parachainSystem"@,
            "parachainId"@,
            JsonValue::Number(p.parachain_id as nat),
        );
        lemma_append_text(start, a5, member_text(secs[2]));
    }
    let ghost a6 = a5 + member_text(secs[2]);
    push_char(&mut out, ",", Ghost(','));
    proof {
        lemma_append_text(start, a6, seq![',']);
    }
    let ghost a7 = a6 + seq![','];
    // sudo
    let ghost s3 = out@;
    push_section_head(&mut out, "sudo", "key");
    push_sudo_key(&mut out, &patch.sudo_key);
    proof {
        lemma_sudo_value(p.sudo_key);
    }
    let ghost m3 = out@;
    push_char(&mut out, "}", Ghost('}'));
    proof {
        lemma_section_written(s3, m3, out@, "sudo"@, "key"@, sudo_value(p.sudo_key));
        lemma_append_text(start, a7, member_text(secs[3]));
    }
    let ghost a8 = a7 + member_text(secs[3]);
    push_char(&mut out, "}", Ghost('}'));
    proof {
        lemma_append_text(start, a8, seq!['}']);
        lemma_patch_tree_text(p);
        assert(a8 + seq!['}'] =~= json_text(patch_tree(p)));
        assert(out@ =~= start + encode_utf8(a8 + seq!['}']));
    }
    out
}

} // verus!
