//! # JSON
//!
//! A model of the JSON values that `serde_json` reads, and the pieces of
//! JSON text that errors are written with: decimal numbers and escaped
//! strings.

use vstd::prelude::*;
use vstd::string::StrSliceExecFns;
use vstd::string::StringExecFns;
use serde_json::Value as SerdeValue;

verus! {

/// A JSON number as `serde_json` holds it: a non-negative integer, a
/// negative integer, or a floating-point number (whose value is not kept).
#[derive(Clone, Copy, Debug, PartialEq, Eq)]
pub enum JsonNumber {
    /// An integer from 0 to `u64::MAX`.
    PosInt(u64),
    /// A negative integer from `i64::MIN` to -1.
    NegInt(i64),
    /// Any other number.
    Float,
}

/// A JSON value. The members of an object are in the order in which
/// `serde_json`'s map holds them, each key once.
#[derive(Debug)]
pub enum JsonValue {
    /// `null`.
    Null,
    /// `true` or `false`.
    Bool(bool),
    /// A number.
    Number(JsonNumber),
    /// A string.
    String(String),
    /// An array.
    Array(Vec<JsonValue>),
    /// An object: its members, key and value.
    Object(Vec<(String, JsonValue)>),
}

/// A JSON value of `serde_json`.
#[verifier::external_type_specification]
#[verifier::external_body]
pub struct ExSerdeValue(SerdeValue);

/// The value that `serde_json::from_str` reads from `text`, in the library's
/// model, or `None` when the text is not JSON.
pub uninterp spec fn parsed_json(text: Seq<char>) -> Option<JsonValue>;

/// Calls `serde_json::from_str` to parse `text` as a `serde_json::Value`,
/// converted to the library's model by `json_model`. The result is named
/// `parsed_json`. Of one form of text the result is stated: the object text
/// `{"code": <code>, "description": "<escaped>"}`, with the description
/// escaped as `escaped` does, is read as an object whose members are, in
/// order, `code` (that number) and `description` (that string).
#[verifier::external_body]
pub(crate) fn parse_json(text: &str) -> (value: Option<JsonValue>)
    ensures
        value == parsed_json(text@),
        forall|code: u16, description: Seq<char>|
            #![trigger error_json_text(code, escaped(description))]
            text@ == error_json_text(code, escaped(description)) ==> holds_error_object(
                value,
                code as u64,
                description,
            ),
{
    serde_json::from_str::<SerdeValue>(text).ok().map(|value| json_model(&value))
}

/// Converts a `serde_json::Value` to the library's model, variant for
/// variant, children first; a number is told apart by `Number::as_u64` and
/// `Number::as_i64`. Nothing is stated of it on its own: the result of
/// `parse_json`, which calls it, is named as a whole.
#[verifier::external_body]
fn json_model(value: &SerdeValue) -> JsonValue {
    match value {
        SerdeValue::Null => JsonValue::Null,
        SerdeValue::Bool(b) => JsonValue::Bool(*b),
        SerdeValue::Number(n) => JsonValue::Number(match (n.as_u64(), n.as_i64()) {
            (Some(u), _) => JsonNumber::PosInt(u),
            (None, Some(i)) => JsonNumber::NegInt(i),
            (None, None) => JsonNumber::Float,
        }),
        SerdeValue::String(s) => JsonValue::String(s.clone()),
        SerdeValue::Array(items) => JsonValue::Array(items.iter().map(json_model).collect()),
        SerdeValue::Object(members) => JsonValue::Object(
            members.iter().map(|(key, member)| (key.clone(), json_model(member))).collect(),
        ),
    }
}

/// The value of the first member of `members` whose key is `key`.
pub open spec fn member(members: Seq<(String, JsonValue)>, key: Seq<char>) -> Option<JsonValue>
    decreases members.len(),
{
    if members.len() == 0 {
        None
    } else if members[0].0@ == key {
        Some(members[0].1)
    } else {
        member(members.drop_first(), key)
    }
}

/// The value of the member `key` of an object's members, if there is one.
pub fn find_member<'a>(members: &'a Vec<(String, JsonValue)>, key: &str) -> (found: Option<
    &'a JsonValue,
>)
    ensures
        found matches Some(v) ==> member(members@, key@) == Some(*v),
        found is None ==> member(members@, key@) is None,
{
    let wanted = String::from_str(key);
    let mut i: usize = 0;
    assert(members@.skip(0) =~= members@);
    while i < members.len()
        invariant
            i <= members@.len(),
            wanted@ == key@,
            member(members@, key@) == member(members@.skip(i as int), key@),
        decreases members@.len() - i,
    {
        assert(members@.skip(i as int).drop_first() =~= members@.skip(i + 1));
        assert(members@.skip(i as int)[0] == members@[i as int]);
        if members[i].0 == wanted {
            return Some(&members[i].1);
        }
        i += 1;
    }
    assert(members@.skip(i as int) =~= Seq::<(String, JsonValue)>::empty());
    None
}

/// The JSON object of an error: exactly the members `code`, a
/// non-negative integer, and `description`, a string with the text
/// `description`, in this order.
pub open spec fn is_error_object(value: JsonValue, code: u64, description: Seq<char>) -> bool {
    &&& value matches JsonValue::Object(members)
    &&& members@.len() == 2
    &&& members@[0].0@ == "code"@
    &&& members@[0].1 == JsonValue::Number(JsonNumber::PosInt(code))
    &&& members@[1].0@ == "description"@
    &&& members@[1].1 matches JsonValue::String(s)
    &&& s@ == description
}

/// `value` is an error's JSON object of that code and description.
pub open spec fn holds_error_object(value: Option<JsonValue>, code: u64, description: Seq<char>) -> bool {
    value matches Some(v) && is_error_object(v, code, description)
}

/// The code and description that an error's JSON object carries: the
/// member `code` when it is a non-negative integer and the member
/// `description` when it is a string.
pub open spec fn spec_error_fields(value: JsonValue) -> Option<(u64, String)> {
    match value {
        JsonValue::Object(members) => match member(members@, "code"@) {
            Some(JsonValue::Number(JsonNumber::PosInt(code))) => match member(
                members@,
                "description"@,
            ) {
                Some(JsonValue::String(description)) => Some((code, description)),
                _ => None,
            },
            _ => None,
        },
        _ => None,
    }
}

/// The code and description that an error's JSON object carries, if both
/// are there with the right types.
pub fn error_fields(value: &JsonValue) -> (fields: Option<(u64, String)>)
    ensures
        fields == spec_error_fields(*value),
{
    match value {
        JsonValue::Object(members) => match find_member(members, "code") {
            Some(JsonValue::Number(JsonNumber::PosInt(code))) => match find_member(
                members,
                "description",
            ) {
                Some(JsonValue::String(description)) => Some((*code, description.clone())),
                _ => None,
            },
            _ => None,
        },
        _ => None,
    }
}

/// An error's JSON object yields its code and description.
pub proof fn lemma_error_object_fields(value: JsonValue, code: u64, description: Seq<char>)
    requires
        is_error_object(value, code, description),
    ensures
        spec_error_fields(value) matches Some(f) && f.0 == code && f.1@ == description,
{
    reveal_strlit("code");
    reveal_strlit("description");
    let members = value->Object_0@;
    assert(members[0].0@ == "code"@);
    assert("code"@.len() == 4);
    assert("description"@.len() == 11);
    assert(members.drop_first()[0] == members[1]);
    assert(members[0].0@ != "description"@);
    assert(member(members, "code"@) == Some(members[0].1));
    assert(member(members.drop_first(), "description"@) == Some(members[1].1));
    assert(member(members, "description"@) == Some(members[1].1));
}

/// The member at `i` is the first of `members` whose key is `key`.
pub open spec fn first_with_key(members: Seq<(String, JsonValue)>, key: Seq<char>, i: int) -> bool {
    &&& 0 <= i < members.len()
    &&& members[i].0@ == key
    &&& forall|j: int| 0 <= j < i ==> members[j].0@ != key
}

/// Looking a key up finds the value of the first member with that key.
pub proof fn lemma_member_first(members: Seq<(String, JsonValue)>, key: Seq<char>, i: int)
    requires
        first_with_key(members, key, i),
    ensures
        member(members, key) == Some(members[i].1),
    decreases i,
{
    if i > 0 {
        assert(members[0].0@ != key);
        let rest = members.drop_first();
        assert forall|j: int| 0 <= j < i - 1 implies rest[j].0@ != key by {
            assert(rest[j] == members[j + 1]);
        }
        assert(rest[i - 1] == members[i]);
        lemma_member_first(rest, key, i - 1);
    }
}

/// Looking a key up finds nothing exactly when no member has that key, and
/// what it finds is the value of the first member with that key.
pub proof fn lemma_member_found(members: Seq<(String, JsonValue)>, key: Seq<char>)
    ensures
        member(members, key) is None <==> forall|j: int| 0 <= j < members.len() ==> members[j].0@ != key,
        member(members, key) matches Some(v) ==> exists|i: int|
            first_with_key(members, key, i) && members[i].1 == v,
    decreases members.len(),
{
    if members.len() > 0 {
        let rest = members.drop_first();
        lemma_member_found(rest, key);
        if members[0].0@ == key {
            assert(first_with_key(members, key, 0));
        } else {
            assert forall|j: int| 0 <= j < members.len() && j != 0 implies members[j] == rest[j - 1] by {}
            if member(rest, key) is None {
                assert forall|j: int| 0 <= j < members.len() implies members[j].0@ != key by {
                    if j != 0 {
                        assert(members[j] == rest[j - 1]);
                    }
                }
            } else {
                let i = choose|i: int| first_with_key(rest, key, i) && rest[i].1 == member(rest, key)->0;
                assert(members[i + 1] == rest[i]);
                assert forall|j: int| 0 <= j < i + 1 implies members[j].0@ != key by {
                    if j != 0 {
                        assert(members[j] == rest[j - 1]);
                    }
                }
                assert(first_with_key(members, key, i + 1));
            }
        }
    }
}

/// The code and description read from a JSON object are its members named
/// `code` and `description` (the first of each name), whatever other members
/// it has and wherever they stand: an object whose `code` is a non-negative
/// integer and whose `description` is a string yields exactly those two, and
/// an object yields fields only when it has such members.
pub proof fn lemma_error_fields_by_name(value: JsonValue, code: u64, description: String)
    ensures
        spec_error_fields(value) == Some((code, description)) <==> {
            &&& value matches JsonValue::Object(members)
            &&& exists|i: int|
                first_with_key(members@, "code"@, i) && members@[i].1 == JsonValue::Number(
                    JsonNumber::PosInt(code),
                )
            &&& exists|j: int|
                first_with_key(members@, "description"@, j) && members@[j].1
                    == JsonValue::String(description)
        },
{
    if let JsonValue::Object(members) = value {
        let ms = members@;
        lemma_member_found(ms, "code"@);
        lemma_member_found(ms, "description"@);
        assert forall|i: int|
            first_with_key(ms, "code"@, i) implies member(ms, "code"@) == Some(ms[i].1) by {
            lemma_member_first(ms, "code"@, i);
        }
        assert forall|j: int|
            first_with_key(ms, "description"@, j) implies member(ms, "description"@) == Some(
                ms[j].1,
            ) by {
            lemma_member_first(ms, "description"@, j);
        }
    }
}

/// The hexadecimal digit `d` (`0 <= d < 16`), in lower case.
pub open spec fn hex_digit(d: nat) -> char {
    "0123456789abcdef"@[d as int]
}

/// The decimal representation of `n`, without leading zeros.
pub open spec fn decimal(n: nat) -> Seq<char>
    decreases n,
{
    if n < 10 {
        seq![hex_digit(n)]
    } else {
        decimal(n / 10).push(hex_digit(n % 10))
    }
}

/// The one-character text of the hexadecimal digit `d`.
fn hex_digit_text(d: u32) -> (text: &'static str)
    requires
        d < 16,
    ensures
        text@ == seq![hex_digit(d as nat)],
{
    let digits = "0123456789abcdef";
    proof {
        reveal_strlit("0123456789abcdef");
    }
    let text = digits.substring_char(d as usize, d as usize + 1);
    assert(text@ =~= seq![hex_digit(d as nat)]);
    text
}

/// The decimal representation of `n`.
pub fn decimal_string(n: u16) -> (text: String)
    ensures
        text@ == decimal(n as nat),
    decreases n,
{
    let digit_text = hex_digit_text((n % 10) as u32);
    if n < 10 {
        String::from_str(digit_text)
    } else {
        let mut text = decimal_string(n / 10);
        text.append(digit_text);
        text
    }
}

/// How a character stands inside a JSON string: a quote and a backslash
/// behind a backslash, a control character as `\u00` and two hexadecimal
/// digits, any other character as it is.
pub open spec fn escaped_char(c: char) -> Seq<char> {
    if c == '"' {
        seq!['\\', '"']
    } else if c == '\\' {
        seq!['\\', '\\']
    } else if (c as int) < 0x20 {
        seq!['\\', 'u', '0', '0', hex_digit((c as nat) / 16), hex_digit((c as nat) % 16)]
    } else {
        seq![c]
    }
}

/// The text `s` escaped for a JSON string, character by character.
pub open spec fn escaped(s: Seq<char>) -> Seq<char>
    decreases s.len(),
{
    if s.len() == 0 {
        seq![]
    } else {
        escaped(s.drop_last()) + escaped_char(s.last())
    }
}

/// The text `s` escaped for a JSON string.
pub fn escape(s: &str) -> (text: String)
    ensures
        text@ == escaped(s@),
{
    let mut text = String::new();
    let n = s.unicode_len();
    let mut i: usize = 0;
    assert(s@.take(0) =~= seq![]);
    while i < n
        invariant
            n == s@.len(),
            i <= n,
            text@ == escaped(s@.take(i as int)),
        decreases n - i,
    {
        let c = s.get_char(i);
        let ghost before = text@;
        if c == '"' {
            text.append("\\\"");
            proof {
                reveal_strlit("\\\"");
            }
            assert("\\\""@ =~= seq!['\\', '"']);
        } else if c == '\\' {
            text.append("\\\\");
            proof {
                reveal_strlit("\\\\");
            }
            assert("\\\\"@ =~= seq!['\\', '\\']);
        } else if (c as u32) < 0x20 {
            text.append("\\u00");
            proof {
                reveal_strlit("\\u00");
            }
            assert("\\u00"@ =~= seq!['\\', 'u', '0', '0']);
            let code = c as u32;
            assert(code as nat == c as nat);
            text.append(hex_digit_text(code / 16));
            text.append(hex_digit_text(code % 16));
        } else {
            text.append(s.substring_char(i, i + 1));
            assert(s@.subrange(i as int, i + 1) =~= seq![c]);
        }
        assert(text@ =~= before + escaped_char(c));
        assert(s@.take(i + 1).drop_last() =~= s@.take(i as int));
        assert(s@.take(i + 1).last() == c);
        assert(text@ =~= escaped(s@.take(i + 1)));
        i += 1;
    }
    assert(s@.take(n as int) =~= s@);
    text
}

/// The value of a hexadecimal digit character, in either case.
pub open spec fn hex_value(c: char) -> Option<nat> {
    let n = c as int;
    if 48 <= n <= 57 {
        Some((n - 48) as nat)
    } else if 97 <= n <= 102 {
        Some((n - 87) as nat)
    } else if 65 <= n <= 70 {
        Some((n - 55) as nat)
    } else {
        None
    }
}

/// The character that the escape `\e` stands for in a JSON string, for the
/// single-character escapes `\"`, `\\`, `\/`, `\b`, `\f`, `\n`, `\r`, `\t`.
pub open spec fn json_simple_escape(e: char) -> Option<char> {
    if e == '"' {
        Some('"')
    } else if e == '\\' {
        Some('\\')
    } else if e == '/' {
        Some('/')
    } else if e == 'b' {
        Some('\u{8}')
    } else if e == 'f' {
        Some('\u{c}')
    } else if e == 'n' {
        Some('\n')
    } else if e == 'r' {
        Some('\r')
    } else if e == 't' {
        Some('\t')
    } else {
        None
    }
}

/// `c` put in front of the decoded rest, if the rest decoded.
pub open spec fn prepend(c: char, rest: Option<Seq<char>>) -> Option<Seq<char>> {
    match rest {
        Some(r) => Some(seq![c] + r),
        None => None,
    }
}

/// The text that the body `t` of a JSON string (what stands between its
/// quotes) stands for, as the JSON grammar decodes it: `None` where the body
/// holds a raw quote or control character or an escape the grammar does not
/// have. A `\u` escape of a surrogate code unit is also left undecoded.
pub open spec fn json_unescape(t: Seq<char>) -> Option<Seq<char>>
    decreases t.len(),
{
    if t.len() == 0 {
        Some(seq![])
    } else if t[0] == '\\' {
        if t.len() < 2 {
            None
        } else if json_simple_escape(t[1]) is Some {
            prepend(json_simple_escape(t[1])->0, json_unescape(t.subrange(2, t.len() as int)))
        } else if t[1] == 'u' && t.len() >= 6 && hex_value(t[2]) is Some && hex_value(t[3]) is Some
            && hex_value(t[4]) is Some && hex_value(t[5]) is Some {
            let v = hex_value(t[2])->0 * 4096 + hex_value(t[3])->0 * 256 + hex_value(t[4])->0 * 16
                + hex_value(t[5])->0;
            if 0xD800 <= v <= 0xDFFF {
                None
            } else {
                prepend(v as char, json_unescape(t.subrange(6, t.len() as int)))
            }
        } else {
            None
        }
    } else if t[0] == '"' || (t[0] as int) < 0x20 {
        None
    } else {
        prepend(t[0], json_unescape(t.drop_first()))
    }
}

/// Escaping distributes over concatenation.
pub proof fn lemma_escaped_concat(a: Seq<char>, b: Seq<char>)
    ensures
        escaped(a + b) == escaped(a) + escaped(b),
    decreases b.len(),
{
    if b.len() == 0 {
        assert(a + b =~= a);
        assert(escaped(a) + escaped(b) =~= escaped(a));
    } else {
        assert((a + b).drop_last() =~= a + b.drop_last());
        assert((a + b).last() == b.last());
        lemma_escaped_concat(a, b.drop_last());
        assert(escaped(a + b) =~= escaped(a) + escaped(b));
    }
}

/// Every hexadecimal digit character is read back as its value.
pub proof fn lemma_hex_digit_value(d: nat)
    requires
        d < 16,
    ensures
        hex_value(hex_digit(d)) == Some(d),
{
    reveal_strlit("0123456789abcdef");
    assert("0123456789abcdef"@.len() == 16);
    if d == 0 { assert(hex_digit(d) == '0'); }
    else if d == 1 { assert(hex_digit(d) == '1'); }
    else if d == 2 { assert(hex_digit(d) == '2'); }
    else if d == 3 { assert(hex_digit(d) == '3'); }
    else if d == 4 { assert(hex_digit(d) == '4'); }
    else if d == 5 { assert(hex_digit(d) == '5'); }
    else if d == 6 { assert(hex_digit(d) == '6'); }
    else if d == 7 { assert(hex_digit(d) == '7'); }
    else if d == 8 { assert(hex_digit(d) == '8'); }
    else if d == 9 { assert(hex_digit(d) == '9'); }
    else if d == 10 { assert(hex_digit(d) == 'a'); }
    else if d == 11 { assert(hex_digit(d) == 'b'); }
    else if d == 12 { assert(hex_digit(d) == 'c'); }
    else if d == 13 { assert(hex_digit(d) == 'd'); }
    else if d == 14 { assert(hex_digit(d) == 'e'); }
    else { assert(hex_digit(d) == 'f'); }
}

/// Decoding the escape of one character, followed by any text, gives the
/// character followed by the decoding of that text.
pub proof fn lemma_unescape_escaped_char(c: char, rest: Seq<char>)
    ensures
        json_unescape(escaped_char(c) + rest) == prepend(c, json_unescape(rest)),
{
    let t = escaped_char(c) + rest;
    if c == '"' || c == '\\' {
        assert(t[0] == '\\');
        assert(t[1] == c);
        assert(t.subrange(2, t.len() as int) =~= rest);
    } else if (c as int) < 0x20 {
        let n = c as nat;
        lemma_hex_digit_value(0);
        lemma_hex_digit_value(n / 16);
        lemma_hex_digit_value(n % 16);
        reveal_strlit("0123456789abcdef");
        assert(hex_digit(0) == '0');
        assert(t[0] == '\\');
        assert(t[1] == 'u');
        assert(t[2] == '0' && t[3] == '0');
        assert(t[4] == hex_digit(n / 16) && t[5] == hex_digit(n % 16));
        assert(hex_value('0') == Some(0nat));
        assert(json_simple_escape('u') is None);
        assert(t.subrange(6, t.len() as int) =~= rest);
        assert((n / 16) * 16 + n % 16 == n);
        assert((n as char) == c);
    } else {
        assert(t[0] == c);
        assert(t.drop_first() =~= rest);
    }
}

/// The escaped text of any string is a JSON string body that the JSON
/// grammar decodes back to that string.
pub proof fn lemma_escape_reads_back(s: Seq<char>)
    ensures
        json_unescape(escaped(s)) == Some(s),
    decreases s.len(),
{
    if s.len() == 0 {
        assert(escaped(s) =~= Seq::<char>::empty());
    } else {
        let first = seq![s[0]];
        let rest = s.drop_first();
        assert(s =~= first + rest);
        lemma_escaped_concat(first, rest);
        assert(first.drop_last() =~= Seq::<char>::empty());
        assert(escaped(first.drop_last()) =~= Seq::<char>::empty());
        assert(first.last() == s[0]);
        assert(escaped(first) =~= escaped_char(s[0]));
        lemma_escape_reads_back(rest);
        lemma_unescape_escaped_char(s[0], escaped(rest));
        assert(seq![s[0]] + rest =~= s);
    }
}

/// The JSON text `{"code": <code>, "description": "<body>"}`, where `body`
/// is the description as it stands inside the string.
pub open spec fn error_json_text(code: u16, body: Seq<char>) -> Seq<char> {
    "{\"code\": "@ + decimal(code as nat) + ", \"description\": \""@ + body + "\"}"@
}

} // verus!
