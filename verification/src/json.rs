//! JSON text: what `serde_json` writes for strings and numbers, and helpers
//! that append UTF-8 encoded text to a byte buffer.

use vstd::prelude::*;
use vstd::utf8::encode_utf8;

verus! {

/// The character of digit `d` (`0`..`9`, then `a`..`f`).
pub open spec fn hex_digit(d: int) -> char {
    seq!['0', '1', '2', '3', '4', '5', '6', '7', '8', '9', 'a', 'b', 'c', 'd', 'e', 'f'][d]
}

/// The decimal text of `n`, with no leading zeros.
pub open spec fn decimal_text(n: nat) -> Seq<char>
    decreases n,
{
    if n < 10 {
        seq![hex_digit(n as int)]
    } else {
        decimal_text(n / 10) + seq![hex_digit((n % 10) as int)]
    }
}

/// How `serde_json` writes one character inside a string: quote and backslash
/// behind a backslash, the usual short escapes, other control characters as
/// `\u00XX` in lower-case hex, everything else as it is.
pub open spec fn json_escape_char(c: char) -> Seq<char> {
    if c == '"' {
        seq!['\\', '"']
    } else if c == '\\' {
        seq!['\\', '\\']
    } else if c == '\x08' {
        seq!['\\', 'b']
    } else if c == '\t' {
        seq!['\\', 't']
    } else if c == '\n' {
        seq!['\\', 'n']
    } else if c == '\x0c' {
        seq!['\\', 'f']
    } else if c == '\r' {
        seq!['\\', 'r']
    } else if (c as u32) < 0x20 {
        seq!['\\', 'u', '0', '0', hex_digit((c as int) / 16), hex_digit((c as int) % 16)]
    } else {
        seq![c]
    }
}

/// The escaped body of a JSON string.
pub open spec fn json_escape(s: Seq<char>) -> Seq<char>
    decreases s.len(),
{
    if s.len() == 0 {
        seq![]
    } else {
        json_escape_char(s[0]) + json_escape(s.drop_first())
    }
}

/// The JSON text of the string `s`: its escaped characters between quotes.
pub open spec fn json_string_text(s: Seq<char>) -> Seq<char> {
    seq!['"'] + json_escape(s) + seq!['"']
}

/// The items of a JSON array, separated by commas.
pub open spec fn comma_join(items: Seq<Seq<char>>) -> Seq<char>
    decreases items.len(),
{
    if items.len() == 0 {
        seq![]
    } else if items.len() == 1 {
        items[0]
    } else {
        comma_join(items.drop_last()) + seq![','] + items.last()
    }
}

/// The JSON text of an array of already written items.
pub open spec fn json_array_text(items: Seq<Seq<char>>) -> Seq<char> {
    seq!['['] + comma_join(items) + seq![']']
}

/// A JSON value.
pub enum JsonValue {
    Null,
    Number(nat),
    Text(Seq<char>),
    Array(Seq<JsonValue>),
    Object(Seq<(Seq<char>, JsonValue)>),
}

/// The compact JSON text of a value, as `serde_json` writes it: no spaces,
/// object members in the order given.
pub open spec fn json_text(v: JsonValue) -> Seq<char>
    decreases v,
{
    match v {
        JsonValue::Null => seq!['n', 'u', 'l', 'l'],
        JsonValue::Number(n) => decimal_text(n),
        JsonValue::Text(s) => json_string_text(s),
        JsonValue::Array(items) => seq!['['] + comma_join(item_texts(items)) + seq![']'],
        JsonValue::Object(fields) => seq!['{'] + comma_join(field_texts(fields)) + seq!['}'],
    }
}

/// The texts of the items of an array.
pub open spec fn item_texts(items: Seq<JsonValue>) -> Seq<Seq<char>>
    decreases items,
{
    if items.len() == 0 {
        seq![]
    } else {
        item_texts(items.subrange(0, items.len() - 1)).push(json_text(items[items.len() - 1]))
    }
}

/// The texts of the members of an object: each name, a colon and the value.
pub open spec fn field_texts(fields: Seq<(Seq<char>, JsonValue)>) -> Seq<Seq<char>>
    decreases fields,
{
    if fields.len() == 0 {
        seq![]
    } else {
        let last = fields[fields.len() - 1];
        field_texts(fields.subrange(0, fields.len() - 1)).push(
            json_string_text(last.0) + seq![':'] + json_text(last.1),
        )
    }
}

/// The text of one object member: its name, a colon and its value.
pub open spec fn member_text(field: (Seq<char>, JsonValue)) -> Seq<char> {
    json_string_text(field.0) + seq![':'] + json_text(field.1)
}

/// The item texts of an array are the texts of its items, one by one.
pub proof fn lemma_item_texts(items: Seq<JsonValue>)
    ensures
        item_texts(items) == items.map_values(|v: JsonValue| json_text(v)),
    decreases items.len(),
{
    if items.len() > 0 {
        let front = items.subrange(0, items.len() - 1);
        lemma_item_texts(front);
    }
    assert(item_texts(items) =~= items.map_values(|v: JsonValue| json_text(v)));
}

/// The member texts of an object are the texts of its members, one by one.
pub proof fn lemma_field_texts(fields: Seq<(Seq<char>, JsonValue)>)
    ensures
        field_texts(fields) == fields.map_values(|f: (Seq<char>, JsonValue)| member_text(f)),
    decreases fields.len(),
{
    if fields.len() > 0 {
        let front = fields.subrange(0, fields.len() - 1);
        lemma_field_texts(front);
    }
    assert(field_texts(fields) =~= fields.map_values(
        |f: (Seq<char>, JsonValue)| member_text(f),
    ));
}

/// A comma-separated list of one item is that item.
pub proof fn lemma_comma_join_one(a: Seq<char>)
    ensures
        comma_join(seq![a]) == a,
{
}

/// A comma-separated list of two items.
pub proof fn lemma_comma_join_two(a: Seq<char>, b: Seq<char>)
    ensures
        comma_join(seq![a, b]) == a + seq![','] + b,
{
    assert(seq![a, b].drop_last() =~= seq![a]);
    assert(comma_join(seq![a]) == a);
    assert(seq![a, b].last() == b);
}

/// A comma-separated list of four items.
pub proof fn lemma_comma_join_four(a: Seq<char>, b: Seq<char>, c: Seq<char>, d: Seq<char>)
    ensures
        comma_join(seq![a, b, c, d]) == a + seq![','] + b + seq![','] + c + seq![','] + d,
{
    assert(seq![a, b, c, d].drop_last() =~= seq![a, b, c]);
    assert(seq![a, b, c].drop_last() =~= seq![a, b]);
    lemma_comma_join_two(a, b);
    assert(comma_join(seq![a, b, c]) == a + seq![','] + b + seq![','] + c);
    assert(seq![a, b, c, d].last() == d);
}

/// Calls `serde_json::to_string` on a `u128`. The contract claims the decimal
/// text of the number, which `serde_json` writes through `itoa`; serialising an
/// integer into a string cannot fail.
#[verifier::external_body]
pub(crate) fn json_u128(n: u128) -> (text: String)
    ensures
        text@ == decimal_text(n as nat),
{
    serde_json::to_string(&n).unwrap_or_default()
}

/// Calls `serde_json::to_string` on a `str`. The contract claims the quoted
/// text with `serde_json`'s escapes (its `ESCAPE` table and
/// `write_char_escape`); serialising a string into a string cannot fail.
#[verifier::external_body]
pub(crate) fn json_str(s: &str) -> (text: String)
    ensures
        text@ == json_string_text(s@),
{
    serde_json::to_string(s).unwrap_or_default()
}

/// UTF-8 encoding takes concatenation to concatenation.
pub proof fn lemma_encode_utf8_concat(a: Seq<char>, b: Seq<char>)
    ensures
        encode_utf8(a + b) == encode_utf8(a) + encode_utf8(b),
    decreases a.len(),
{
    if a.len() == 0 {
        assert(a + b =~= b);
        assert(encode_utf8(a) =~= Seq::<u8>::empty());
    } else {
        lemma_encode_utf8_concat(a.drop_first(), b);
        assert((a + b).drop_first() =~= a.drop_first() + b);
        assert((a + b)[0] == a[0]);
    }
}

/// Adding one more item to a comma-separated list.
pub proof fn lemma_comma_join_step(items: Seq<Seq<char>>, i: int)
    requires
        0 <= i < items.len(),
    ensures
        comma_join(items.take(i + 1)) == if i == 0 {
            items[0]
        } else {
            comma_join(items.take(i)) + seq![','] + items[i]
        },
{
    let next = items.take(i + 1);
    if i == 0 {
        assert(next.len() == 1);
    } else {
        assert(next.drop_last() =~= items.take(i));
        assert(next.last() == items[i]);
    }
}

/// Appends the UTF-8 encoding of `s` to `out`.
pub fn push_text(out: &mut Vec<u8>, s: &str)
    ensures
        final(out)@ == old(out)@ + encode_utf8(s@),
{
    let bytes: &[u8] = s.as_bytes();
    let n: usize = bytes.len();
    let ghost start = out@;
    let mut i: usize = 0;
    while i < n
        invariant
            n == bytes@.len(),
            bytes@ == encode_utf8(s@),
            i <= n,
            out@ == start + bytes@.take(i as int),
        decreases n - i,
    {
        out.push(bytes[i]);
        assert(bytes@.take(i + 1) =~= bytes@.take(i as int).push(bytes@[i as int]));
        i = i + 1;
    }
    assert(bytes@.take(n as int) =~= bytes@);
}

/// Appends the UTF-8 encoding of a `String`'s characters to `out`.
pub fn push_string(out: &mut Vec<u8>, s: &String)
    ensures
        final(out)@ == old(out)@ + encode_utf8(s@),
{
    push_text(out, s.as_str());
}

/// Appends the JSON text of the number `n`.
pub fn push_decimal(out: &mut Vec<u8>, n: u128)
    ensures
        final(out)@ == old(out)@ + encode_utf8(decimal_text(n as nat)),
{
    let text: String = json_u128(n);
    push_string(out, &text);
}

/// Appends the JSON text of the string `s`.
pub fn push_json_string(out: &mut Vec<u8>, s: &str)
    ensures
        final(out)@ == old(out)@ + encode_utf8(json_string_text(s@)),
{
    let text: String = json_str(s);
    push_string(out, &text);
}

} // verus!
