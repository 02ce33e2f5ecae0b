//! JSON documents, read and written by `serde_json`.
//!
//! A parsed document is a `serde_json::Value`; [`contents`] says what it holds.
//! The functions here that are marked as outside bodies, and the specifications
//! that are assumed, are what the library believes of `serde_json`.

use crate::text::optional_text;
use vstd::prelude::*;
use vstd::utf8::encode_utf8;

verus! {

/// A number of a JSON document: its value as an unsigned integer where
/// `serde_json` keeps it as one, and the bits of its double-precision value.
pub struct JsonNumber {
    pub unsigned: Option<u64>,
    pub double_bits: u64,
}

/// What a JSON document holds.
pub enum Json {
    Null,
    Bool(bool),
    Number(JsonNumber),
    Text(Seq<char>),
    List(Seq<Json>),
    Object(Map<Seq<char>, Json>),
}

/// The member of an object under a key, if the document is an object that has
/// one.
pub open spec fn member(document: Json, key: Seq<char>) -> Option<Json> {
    match document {
        Json::Object(members) => if members.dom().contains(key) {
            Some(members[key])
        } else {
            None
        },
        _ => None,
    }
}

/// The text that a document is, if it is one.
pub open spec fn as_text(document: Option<Json>) -> Option<Seq<char>> {
    match document {
        Some(Json::Text(s)) => Some(s),
        _ => None,
    }
}

/// The unsigned integer that a document is, if it is one.
pub open spec fn as_unsigned(document: Option<Json>) -> Option<u64> {
    match document {
        Some(Json::Number(n)) => n.unsigned,
        _ => None,
    }
}

/// The text under a key of an object.
pub open spec fn text_member(document: Json, key: Seq<char>) -> Option<Seq<char>> {
    as_text(member(document, key))
}

/// The unsigned integer under a key of an object.
pub open spec fn unsigned_member(document: Json, key: Seq<char>) -> Option<u64> {
    as_unsigned(member(document, key))
}

/// The bits of the double-precision value of a number; those of zero for
/// anything else.
pub open spec fn double_bits(document: Json) -> u64 {
    match document {
        Json::Number(n) => n.double_bits,
        _ => 0,
    }
}

/// How a character stands inside a JSON string: quotes, backslashes and control
/// characters are escaped, everything else stands for itself.
pub open spec fn escaped_char(c: char) -> Seq<char> {
    let n = c as u32;
    if c == '"' {
        seq!['\\', '"']
    } else if c == '\\' {
        seq!['\\', '\\']
    } else if n == 0x08 {
        seq!['\\', 'b']
    } else if n == 0x09 {
        seq!['\\', 't']
    } else if n == 0x0a {
        seq!['\\', 'n']
    } else if n == 0x0c {
        seq!['\\', 'f']
    } else if n == 0x0d {
        seq!['\\', 'r']
    } else if n < 0x20 {
        seq!['\\', 'u', '0', '0', hex_digit((n / 16) as int), hex_digit((n % 16) as int)]
    } else {
        seq![c]
    }
}

/// A hexadecimal digit, in lower case.
pub open spec fn hex_digit(n: int) -> char {
    if n < 10 {
        (48 + n) as char
    } else {
        (87 + n) as char
    }
}

/// A text with its characters escaped.
pub open spec fn escaped(s: Seq<char>) -> Seq<char>
    decreases s.len(),
{
    if s.len() == 0 {
        Seq::empty()
    } else {
        escaped(s.drop_last()) + escaped_char(s.last())
    }
}

/// A text as a JSON string.
pub open spec fn quoted(s: Seq<char>) -> Seq<char> {
    seq!['"'] + escaped(s) + seq!['"']
}

/// The members of an object, separated by commas.
pub open spec fn members_text(fields: Seq<(Seq<char>, Seq<char>)>) -> Seq<char>
    decreases fields.len(),
{
    if fields.len() == 0 {
        Seq::empty()
    } else {
        (if fields.len() == 1 {
            Seq::empty()
        } else {
            members_text(fields.drop_last()) + seq![',']
        }) + quoted(fields.last().0) + seq![':'] + quoted(fields.last().1)
    }
}

/// The compact text of an object whose members are texts.
pub open spec fn object_text(fields: Seq<(Seq<char>, Seq<char>)>) -> Seq<char> {
    seq!['{'] + members_text(fields) + seq!['}']
}

/// The members of an object, each a text.
pub open spec fn text_members(fields: Seq<(Seq<char>, Seq<char>)>) -> Map<Seq<char>, Json>
    decreases fields.len(),
{
    if fields.len() == 0 {
        Map::empty()
    } else {
        text_members(fields.drop_last()).insert(fields.last().0, Json::Text(fields.last().1))
    }
}

/// An object whose members are texts.
pub open spec fn text_object(fields: Seq<(Seq<char>, Seq<char>)>) -> Json {
    Json::Object(text_members(fields))
}

/// An object whose members are texts has each of them under its key.
pub proof fn members_found(fields: Seq<(Seq<char>, Seq<char>)>)
    requires
        forall|i: int, j: int|
            0 <= i < j < fields.len() ==> #[trigger] fields[i].0 != #[trigger] fields[j].0,
    ensures
        forall|i: int|
            0 <= i < fields.len() ==> text_member(
                text_object(fields),
                (#[trigger] fields[i]).0,
            ) == Some(fields[i].1),
    decreases fields.len(),
{
    if fields.len() > 0 {
        let before = fields.drop_last();
        members_found(before);
        assert forall|i: int| 0 <= i < fields.len() implies text_member(
            text_object(fields),
            (#[trigger] fields[i]).0,
        ) == Some(fields[i].1) by {
            if i < before.len() {
                assert(before[i] == fields[i]);
                assert(fields[i].0 != fields[fields.len() - 1].0);
            }
        }
    }
}

/// Whether a document is an object whose members are texts.
pub open spec fn is_text_object(document: Json) -> bool {
    exists|fields: Seq<(Seq<char>, Seq<char>)>|
        keys_ascend(fields) && document == #[trigger] text_object(fields)
}

/// Whether a text comes before another in the order of their characters.
pub open spec fn comes_before(a: Seq<char>, b: Seq<char>) -> bool
    decreases a.len(),
{
    if a.len() == 0 || b.len() == 0 {
        b.len() > 0
    } else if a.first() != b.first() {
        a.first() < b.first()
    } else {
        comes_before(a.drop_first(), b.drop_first())
    }
}

/// A text comes before another if its first differing character does.
pub(crate) proof fn comes_before_at(a: Seq<char>, b: Seq<char>, i: int)
    requires
        0 <= i < a.len(),
        i < b.len(),
        forall|j: int| 0 <= j < i ==> a[j] == b[j],
        a[i] < b[i],
    ensures
        comes_before(a, b),
        a != b,
    decreases i,
{
    if i > 0 {
        assert(a[0] == b[0]);
        comes_before_at(a.drop_first(), b.drop_first(), i - 1);
    }
}

/// Whether the keys stand in ascending order, none of them twice.
pub open spec fn keys_ascend(fields: Seq<(Seq<char>, Seq<char>)>) -> bool {
    forall|i: int, j: int|
        0 <= i < j < fields.len() ==> comes_before(#[trigger] fields[i].0, #[trigger] fields[j].0)
}

/// The characters of a list of fields.
pub open spec fn field_texts(fields: Seq<(&str, &str)>) -> Seq<(Seq<char>, Seq<char>)> {
    fields.map_values(|f: (&str, &str)| (f.0@, f.1@))
}

/// `serde_json::Value`, a JSON document.
#[verifier::external_type_specification]
#[verifier::external_body]
pub struct ExValue(serde_json::Value);

/// `serde_json::Error`, why a document was not written.
#[verifier::external_type_specification]
#[verifier::external_body]
pub struct ExError(serde_json::Error);

/// `serde_json::Map`, the members of an object.
#[verifier::external_type_specification]
#[verifier::external_body]
#[verifier::reject_recursive_types(K)]
#[verifier::reject_recursive_types(V)]
pub struct ExMembers<K, V>(serde_json::Map<K, V>);

/// What a parsed document holds.
pub uninterp spec fn contents(v: serde_json::Value) -> Json;

/// What the members of an object hold.
pub uninterp spec fn members_held(members: serde_json::Map<String, serde_json::Value>) -> Map<
    Seq<char>,
    Json,
>;

/// What `serde_json::from_str` makes of a text: the document that it is, or
/// nothing where it is not one.
pub uninterp spec fn text_contents(s: Seq<char>) -> Option<Json>;

/// What `serde_json::from_slice` makes of bytes: the document that they are, or
/// the message of the error where they are not one.
pub uninterp spec fn bytes_contents(b: Seq<u8>) -> Result<Json, Seq<char>>;

/// Calls `serde_json::from_str`. It gives a document for exactly the texts that
/// [`text_contents`] gives one for, and the document holds what is said there.
#[verifier::external_body]
pub(crate) fn parse_text(s: &str) -> (r: Option<serde_json::Value>)
    ensures
        match r {
            Some(v) => text_contents(s@) == Some(contents(v)),
            None => text_contents(s@) is None,
        },
{
    serde_json::from_str(s).ok()
}

/// Calls `serde_json::from_slice`, and `to_string` on its error. It gives a
/// document for exactly the bytes that [`bytes_contents`] gives one for, and
/// else the message named there.
#[verifier::external_body]
pub(crate) fn parse_bytes(b: &[u8]) -> (r: Result<serde_json::Value, String>)
    ensures
        match r {
            Ok(v) => bytes_contents(b@) == Ok::<Json, Seq<char>>(contents(v)),
            Err(message) => bytes_contents(b@) == Err::<Json, Seq<char>>(message@),
        },
{
    match serde_json::from_slice(b) {
        Ok(v) => Ok(v),
        Err(e) => Err(e.to_string()),
    }
}

/// Calls `serde_json::Value::get` with a text index: the member of an object
/// under that key, nothing where there is none or the document is no object.
#[verifier::external_body]
pub(crate) fn member_of<'a>(v: &'a serde_json::Value, key: &str) -> (r: Option<
    &'a serde_json::Value,
>)
    ensures
        match r {
            Some(m) => member(contents(*v), key@) == Some(contents(*m)),
            None => member(contents(*v), key@) is None,
        },
{
    v.get(key)
}

/// `serde_json::Value::as_str` gives the text of a JSON string, and nothing for
/// any other document.
pub assume_specification[ serde_json::Value::as_str ](v: &serde_json::Value) -> (r: Option<&str>)
    ensures
        optional_text(r) == as_text(Some(contents(*v))),
;

/// `serde_json::Value::as_u64` gives the value of a number that is kept as an
/// unsigned integer, and nothing for any other document.
pub assume_specification[ serde_json::Value::as_u64 ](v: &serde_json::Value) -> (r: Option<u64>)
    ensures
        r == as_unsigned(Some(contents(*v))),
;

/// `serde_json::Value::as_array` gives the items of a JSON array in order, and
/// nothing for any other document.
pub assume_specification[ serde_json::Value::as_array ](v: &serde_json::Value) -> (r: Option<
    &Vec<serde_json::Value>,
>)
    ensures
        match r {
            Some(items) => contents(*v) == Json::List(
                items@.map_values(|item: serde_json::Value| contents(item)),
            ),
            None => !(contents(*v) is List),
        },
;

/// Calls `serde_json::Value::as_f64` and takes the bits of what it gives: those
/// of the double-precision value of a number, and nothing for any other
/// document.
#[verifier::external_body]
pub(crate) fn double_bits_of(v: &serde_json::Value) -> (r: Option<u64>)
    ensures
        match r {
            Some(bits) => contents(*v) is Number && bits == double_bits(contents(*v)),
            None => !(contents(*v) is Number),
        },
{
    match v.as_f64() {
        Some(x) => Some(x.to_bits()),
        None => None,
    }
}

/// Calls `serde_json::Map::new`: members of an object, none yet.
#[verifier::external_body]
fn no_members() -> (r: serde_json::Map<String, serde_json::Value>)
    ensures
        members_held(r) == text_members(Seq::empty()),
{
    serde_json::Map::new()
}

/// Calls `serde_json::Map::insert` with a text as the value (`Value::from`): the
/// key then has that value, and all other members stay.
#[verifier::external_body]
fn add_text_member(
    members: &mut serde_json::Map<String, serde_json::Value>,
    key: &str,
    text: &str,
)
    ensures
        members_held(*final(members)) == members_held(*old(members)).insert(
            key@,
            Json::Text(text@),
        ),
{
    members.insert(key.to_string(), serde_json::Value::from(text));
}

/// Makes a `serde_json::Value::Object` of members: the object that has them.
#[verifier::external_body]
fn object_with(members: serde_json::Map<String, serde_json::Value>) -> (r: serde_json::Value)
    ensures
        contents(r) == Json::Object(members_held(members)),
{
    serde_json::Value::Object(members)
}

/// Calls `serde_json::Value::to_string` on an object whose members are texts:
/// the compact text of the object, its members in the order of their keys. The
/// text is read back by `serde_json::from_str` as that object.
#[verifier::external_body]
fn write_text(v: &serde_json::Value) -> (r: String)
    requires
        is_text_object(contents(*v)),
    ensures
        forall|fields: Seq<(Seq<char>, Seq<char>)>|
            keys_ascend(fields) && contents(*v) == #[trigger] text_object(fields) ==> r@
                == object_text(fields),
        text_contents(r@) == Some(contents(*v)),
{
    v.to_string()
}

/// Calls `serde_json::to_vec` on an object whose members are texts: the UTF-8
/// encoding of the compact text of the object, its members in the order of
/// their keys. Such an object is always written. The bytes are read back by
/// `serde_json::from_slice` as that object.
#[verifier::external_body]
fn write_bytes(v: &serde_json::Value) -> (r: Result<Vec<u8>, serde_json::Error>)
    requires
        is_text_object(contents(*v)),
    ensures
        r is Ok,
        forall|fields: Seq<(Seq<char>, Seq<char>)>|
            keys_ascend(fields) && contents(*v) == #[trigger] text_object(fields) ==> r->Ok_0@
                == encode_utf8(object_text(fields)),
        bytes_contents(r->Ok_0@) is Ok,
        bytes_contents(r->Ok_0@)->Ok_0 == contents(*v),
{
    serde_json::to_vec(v)
}

/// The object with the given members.
fn object_of(fields: &Vec<(&str, &str)>) -> (r: serde_json::Value)
    ensures
        contents(r) == text_object(field_texts(fields@)),
{
    let ghost texts = field_texts(fields@);
    let mut members = no_members();
    let mut i: usize = 0;
    proof {
        assert(texts.take(0) =~= Seq::empty());
    }
    while i < fields.len()
        invariant
            texts == field_texts(fields@),
            i <= fields@.len(),
            members_held(members) == text_members(texts.take(i as int)),
        decreases fields@.len() - i,
    {
        add_text_member(&mut members, fields[i].0, fields[i].1);
        proof {
            assert(texts.take(i + 1).drop_last() =~= texts.take(i as int));
            assert(texts.take(i + 1).last() == texts[i as int]);
        }
        i += 1;
    }
    proof {
        assert(texts.take(i as int) =~= texts);
    }
    object_with(members)
}

/// The text of an object with the given members.
pub(crate) fn object_as_text(fields: &Vec<(&str, &str)>) -> (r: String)
    requires
        keys_ascend(field_texts(fields@)),
    ensures
        r@ == object_text(field_texts(fields@)),
        text_contents(r@) == Some(text_object(field_texts(fields@))),
{
    let v = object_of(fields);
    write_text(&v)
}

/// The bytes of an object with the given members.
pub(crate) fn object_as_bytes(fields: &Vec<(&str, &str)>) -> (r: Vec<u8>)
    requires
        keys_ascend(field_texts(fields@)),
    ensures
        r@ == encode_utf8(object_text(field_texts(fields@))),
        bytes_contents(r@) == Ok::<Json, Seq<char>>(text_object(field_texts(fields@))),
{
    let v = object_of(fields);
    match write_bytes(&v) {
        Ok(b) => b,
        Err(_) => Vec::new(),
    }
}

/// The text under a key of an object.
pub(crate) fn text_under<'a>(v: &'a serde_json::Value, key: &str) -> (r: Option<&'a str>)
    ensures
        optional_text(r) == text_member(contents(*v), key@),
{
    match member_of(v, key) {
        Some(m) => m.as_str(),
        None => None,
    }
}

/// The unsigned integer under a key of an object.
pub(crate) fn unsigned_under(v: &serde_json::Value, key: &str) -> (r: Option<u64>)
    ensures
        r == unsigned_member(contents(*v), key@),
{
    match member_of(v, key) {
        Some(m) => m.as_u64(),
        None => None,
    }
}

/// Whether a document is an object that has that value under a key.
pub open spec fn holds(document: Json, key: Seq<char>, value: Json) -> bool {
    match document {
        Json::Object(members) => members.dom().contains(key) && members[key] == value,
        _ => false,
    }
}

/// A member is found exactly where an object has it; a text or an unsigned
/// integer is read exactly where the member is one, and as it is.
pub proof fn members_are_read(
    document: Json,
    key: Seq<char>,
    value: Json,
    text: Seq<char>,
    number: JsonNumber,
)
    ensures
        member(document, key) == Some(value) <==> holds(document, key, value),
        text_member(document, key) == Some(text) <==> holds(document, key, Json::Text(text)),
        holds(document, key, Json::Number(number)) ==> unsigned_member(document, key)
            == number.unsigned,
        unsigned_member(document, key) is Some ==> exists|n: JsonNumber|
            #[trigger] holds(document, key, Json::Number(n)),
        double_bits(Json::Number(number)) == number.double_bits,
        !(value is Number) ==> double_bits(value) == 0,
{
    if unsigned_member(document, key) is Some {
        assert(holds(document, key, Json::Number(member(document, key)->0->Number_0)));
    }
}

/// An object that is made of texts has no key but theirs.
pub proof fn text_objects_have_no_other_keys(fields: Seq<(Seq<char>, Seq<char>)>)
    ensures
        forall|key: Seq<char>|
            #[trigger] text_members(fields).dom().contains(key) ==> exists|i: int|
                0 <= i < fields.len() && #[trigger] fields[i].0 == key,
    decreases fields.len(),
{
    if fields.len() > 0 {
        let before = fields.drop_last();
        text_objects_have_no_other_keys(before);
        assert forall|key: Seq<char>| #[trigger]
            text_members(fields).dom().contains(key) implies exists|i: int|
            0 <= i < fields.len() && #[trigger] fields[i].0 == key by {
            if key == fields.last().0 {
                assert(fields[fields.len() - 1].0 == key);
            } else {
                assert(text_members(before).dom().contains(key));
                let i = choose|i: int| 0 <= i < before.len() && #[trigger] before[i].0 == key;
                assert(fields[i].0 == key);
            }
        }
    }
}

} // verus!
