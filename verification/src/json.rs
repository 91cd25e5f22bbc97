//! The boundary to `serde_json`.
//!
//! JSON documents are held as `serde_json::Value`. Verus sees nothing inside
//! such a value, so this module gives it a mathematical model, [`Json`], and
//! states over that model what each `serde_json` operation used by the crate
//! does. Everything in this module that carries `external_body` is trusted:
//! its contract is taken from the `serde_json` sources, not proved.

use vstd::prelude::*;

verus! {

#[verifier::external_type_specification]
#[verifier::external_body]
pub struct ExValue(serde_json::Value);

#[verifier::external_type_specification]
#[verifier::external_body]
pub struct ExJsonError(serde_json::Error);

/// The three kinds of number that `serde_json` tells apart.
pub enum JsonNumber {
    /// A non-negative integer that fits 64 bits.
    PosInt(u64),
    /// A negative integer that fits 64 bits.
    NegInt(i64),
    /// Any other number, by the bit pattern of its double.
    Float(u64),
}

/// The mathematical model of a JSON document. The members of an object are
/// kept in the order in which they are written out.
pub enum Json {
    Null,
    Bool(bool),
    Number(JsonNumber),
    Text(Seq<char>),
    Array(Seq<Json>),
    Object(Seq<(Seq<char>, Json)>),
}

/// The value of the first member named `key`, if there is one.
pub open spec fn object_get(members: Seq<(Seq<char>, Json)>, key: Seq<char>) -> Option<Json>
    decreases members.len(),
{
    if members.len() == 0 {
        None
    } else if members[0].0 == key {
        Some(members[0].1)
    } else {
        object_get(members.drop_first(), key)
    }
}

/// The members after `key` is set to `value`: replaced in place where the key
/// is present, added at the end where it is not.
pub open spec fn object_insert(members: Seq<(Seq<char>, Json)>, key: Seq<char>, value: Json) -> Seq<
    (Seq<char>, Json),
>
    decreases members.len(),
{
    if members.len() == 0 {
        seq![(key, value)]
    } else if members[0].0 == key {
        seq![(key, value)] + members.drop_first()
    } else {
        seq![members[0]] + object_insert(members.drop_first(), key, value)
    }
}

impl Json {
    /// The member `key` of an object; nothing for any other document.
    pub open spec fn get(self, key: Seq<char>) -> Option<Json> {
        match self {
            Json::Object(members) => object_get(members, key),
            _ => None,
        }
    }

    /// The member `key` where it is present and not `null`.
    pub open spec fn get_present(self, key: Seq<char>) -> Option<Json> {
        match self.get(key) {
            Some(Json::Null) => None,
            other => other,
        }
    }

    /// The object with `key` set to `value`; any other document unchanged.
    pub open spec fn with_member(self, key: Seq<char>, value: Json) -> Json {
        match self {
            Json::Object(members) => Json::Object(object_insert(members, key, value)),
            _ => self,
        }
    }

    /// The text of a string document.
    pub open spec fn as_text(self) -> Option<Seq<char>> {
        match self {
            Json::Text(s) => Some(s),
            _ => None,
        }
    }

    /// The value of a boolean document.
    pub open spec fn as_boolean(self) -> Option<bool> {
        match self {
            Json::Bool(b) => Some(b),
            _ => None,
        }
    }

    /// The object with `key` set to `member` where one is given.
    pub open spec fn with_optional(self, key: Seq<char>, member: Option<Json>) -> Json {
        match member {
            Some(m) => self.with_member(key, m),
            None => self,
        }
    }

    /// The value of a document that is a non-negative integer of 64 bits.
    pub open spec fn as_unsigned(self) -> Option<u64> {
        match self {
            Json::Number(JsonNumber::PosInt(n)) => Some(n),
            _ => None,
        }
    }

    /// The elements of an array document.
    pub open spec fn as_elements(self) -> Option<Seq<Json>> {
        match self {
            Json::Array(items) => Some(items),
            _ => None,
        }
    }
}

/// Reading back the member that was just set gives the value that was set.
pub proof fn lemma_insert_get_same(members: Seq<(Seq<char>, Json)>, key: Seq<char>, value: Json)
    ensures
        object_get(object_insert(members, key, value), key) == Some(value),
    decreases members.len(),
{
    let after = object_insert(members, key, value);
    if members.len() == 0 {
    } else if members[0].0 == key {
    } else {
        lemma_insert_get_same(members.drop_first(), key, value);
        assert(after.drop_first() =~= object_insert(members.drop_first(), key, value));
    }
}

/// Setting one member leaves every other member as it was.
pub proof fn lemma_insert_get_other(
    members: Seq<(Seq<char>, Json)>,
    key: Seq<char>,
    value: Json,
    other: Seq<char>,
)
    requires
        key != other,
    ensures
        object_get(object_insert(members, key, value), other) == object_get(members, other),
    decreases members.len(),
{
    let after = object_insert(members, key, value);
    if members.len() == 0 {
        assert(after[0].0 == key);
        assert(after.drop_first() =~= Seq::empty());
        assert(object_get(after.drop_first(), other) is None);
    } else if members[0].0 == key {
        assert(after[0].0 == key);
        assert(after.drop_first() =~= members.drop_first());
    } else {
        lemma_insert_get_other(members.drop_first(), key, value, other);
        assert(after[0] == members[0]);
        assert(after.drop_first() =~= object_insert(members.drop_first(), key, value));
    }
}

/// Setting a member of an object gives an object in which that member reads
/// back as set and every other member reads as before.
pub proof fn lemma_with_member(document: Json, key: Seq<char>, value: Json)
    requires
        document is Object,
    ensures
        document.with_member(key, value) is Object,
        document.with_member(key, value).get(key) == Some(value),
        forall|other: Seq<char>|
            other != key ==> #[trigger] document.with_member(key, value).get(other) == document.get(
                other,
            ),
{
    let members = document->Object_0;
    lemma_insert_get_same(members, key, value);
    assert forall|other: Seq<char>| other != key implies #[trigger] document.with_member(
        key,
        value,
    ).get(other) == document.get(other) by {
        lemma_insert_get_other(members, key, value, other);
    }
}

/// Setting an optional member of an object: as [`lemma_with_member`] where a
/// value is given, and no change where none is.
pub proof fn lemma_with_optional(document: Json, key: Seq<char>, member: Option<Json>)
    requires
        document is Object,
    ensures
        document.with_optional(key, member) is Object,
        member is Some ==> document.with_optional(key, member).get(key) == member,
        member is None ==> document.with_optional(key, member) == document,
        forall|other: Seq<char>|
            other != key ==> #[trigger] document.with_optional(key, member).get(other)
                == document.get(other),
{
    match member {
        Some(m) => {
            lemma_with_member(document, key, m);
        },
        None => {},
    }
}

/// Setting a member whose name is new puts it behind all others.
pub proof fn lemma_insert_new(members: Seq<(Seq<char>, Json)>, key: Seq<char>, value: Json)
    requires
        forall|i: int| 0 <= i < members.len() ==> (#[trigger] members[i]).0 != key,
    ensures
        object_insert(members, key, value) == members.push((key, value)),
    decreases members.len(),
{
    if members.len() == 0 {
        assert(object_insert(members, key, value) =~= members.push((key, value)));
    } else {
        assert(members[0].0 != key);
        let rest = members.drop_first();
        assert forall|i: int| 0 <= i < rest.len() implies (#[trigger] rest[i]).0 != key by {
            assert(rest[i] == members[i + 1]);
        }
        lemma_insert_new(rest, key, value);
        assert(object_insert(members, key, value) =~= members.push((key, value)));
    }
}

/// The document that a `serde_json::Value` holds.
pub uninterp spec fn json_model(value: serde_json::Value) -> Json;

/// The document that `serde_json` reads from `text`; nothing where it rejects
/// the text.
pub uninterp spec fn json_parse(text: Seq<char>) -> Option<Json>;

/// The compact text that `serde_json` writes for a document.
pub uninterp spec fn json_text(document: Json) -> Seq<char>;

/// The members that a list of named values holds, in order.
pub open spec fn members_model(members: Seq<(String, serde_json::Value)>) -> Seq<(Seq<char>, Json)> {
    Seq::new(members.len(), |i: int| (members[i].0@, json_model(members[i].1)))
}

/// The documents that a list of values holds, in order.
pub open spec fn json_models(values: Seq<serde_json::Value>) -> Seq<Json> {
    Seq::new(values.len(), |i: int| json_model(values[i]))
}

/// The byte that ends every frame on the wire, as a character.
pub open spec fn separator() -> char {
    '\u{1e}'
}

/// Whether `text` is free of the record separator.
pub open spec fn separator_free(text: Seq<char>) -> bool {
    forall|i: int| 0 <= i < text.len() ==> text[i] != separator()
}

/// Reads a JSON document from text.
///
/// Trusted: `serde_json::from_str::<Value>` either rejects the text or gives
/// the document written in it, and which of the two depends on the text alone.
#[verifier::external_body]
pub(crate) fn parse_value(text: &str) -> (r: Result<serde_json::Value, serde_json::Error>)
    ensures
        r is Ok <==> json_parse(text@) is Some,
        r matches Ok(value) ==> json_parse(text@) == Some(json_model(value)),
{
    serde_json::from_str::<serde_json::Value>(text)
}

/// The message of a parse error.
///
/// Trusted: `to_string` on a `serde_json::Error` returns; nothing is claimed
/// of the message.
#[verifier::external_body]
pub(crate) fn error_message(error: &serde_json::Error) -> String {
    error.to_string()
}

/// Writes a document as compact JSON text.
///
/// Trusted: `to_string` on a `serde_json::Value` writes the document's compact
/// text, which depends on the document alone. The text is never empty, and it
/// holds no raw control character, the record separator included: the writer
/// escapes every character below U+0020 inside strings and emits none itself.
#[verifier::external_body]
pub(crate) fn value_text(value: &serde_json::Value) -> (r: String)
    ensures
        r@ == json_text(json_model(*value)),
        r@.len() > 0,
        separator_free(r@),
{
    value.to_string()
}

/// Looks a member up by its name.
///
/// Trusted: `Value::get` with a string index gives the member of that name
/// where the value is an object that has it, and nothing otherwise.
#[verifier::external_body]
pub(crate) fn value_get<'a>(value: &'a serde_json::Value, key: &str) -> (r: Option<
    &'a serde_json::Value,
>)
    ensures
        r is Some <==> json_model(*value).get(key@) is Some,
        r matches Some(member) ==> json_model(*value).get(key@) == Some(json_model(*member)),
{
    value.get(key)
}

/// Whether the document is `null`.
///
/// Trusted: `Value::is_null` is true of the null document alone.
#[verifier::external_body]
pub(crate) fn value_is_null(value: &serde_json::Value) -> (r: bool)
    ensures
        r == (json_model(*value) is Null),
{
    value.is_null()
}

/// Whether the document is an object.
///
/// Trusted: `Value::is_object` is true of objects alone.
#[verifier::external_body]
pub(crate) fn value_is_object(value: &serde_json::Value) -> (r: bool)
    ensures
        r == (json_model(*value) is Object),
{
    value.is_object()
}

/// The text of a string document.
///
/// Trusted: `Value::as_str` gives the text of a string and nothing for any
/// other document.
#[verifier::external_body]
pub(crate) fn value_as_str<'a>(value: &'a serde_json::Value) -> (r: Option<&'a str>)
    ensures
        r is Some <==> json_model(*value).as_text() is Some,
        r matches Some(s) ==> json_model(*value).as_text() == Some(s@),
{
    value.as_str()
}

/// The value of a boolean document.
///
/// Trusted: `Value::as_bool` gives the value of a boolean and nothing for any
/// other document.
#[verifier::external_body]
pub(crate) fn value_as_bool(value: &serde_json::Value) -> (r: Option<bool>)
    ensures
        r == json_model(*value).as_boolean(),
{
    value.as_bool()
}

/// The value of a non-negative integer document.
///
/// Trusted: `Value::as_u64` gives the value of a number held as a
/// non-negative 64-bit integer and nothing for any other document.
#[verifier::external_body]
pub(crate) fn value_as_u64(value: &serde_json::Value) -> (r: Option<u64>)
    ensures
        r == json_model(*value).as_unsigned(),
{
    value.as_u64()
}

/// The elements of an array document.
///
/// Trusted: `Value::as_array` gives the elements of an array, in order, and
/// nothing for any other document.
#[verifier::external_body]
pub(crate) fn value_as_array<'a>(value: &'a serde_json::Value) -> (r: Option<
    &'a Vec<serde_json::Value>,
>)
    ensures
        r is Some <==> json_model(*value).as_elements() is Some,
        r matches Some(items) ==> json_model(*value).as_elements() == Some(json_models(items@)),
{
    value.as_array()
}

/// The members of an object document, in the order in which they are kept.
///
/// Trusted: `Value::as_object` gives the map of an object and nothing for any
/// other document, and walking the map gives its members in their order.
#[verifier::external_body]
pub(crate) fn value_members(value: &serde_json::Value) -> (r: Option<
    Vec<(String, serde_json::Value)>,
>)
    ensures
        r is Some <==> json_model(*value) is Object,
        r matches Some(members) ==> json_model(*value) == Json::Object(members_model(members@)),
{
    let map = value.as_object()?;
    let mut members = Vec::new();
    for (name, member) in map.iter() {
        members.push((name.clone(), member.clone()));
    }
    Some(members)
}

/// A copy of a document.
///
/// Trusted: `clone` on a `serde_json::Value` gives a value that holds the same
/// document.
#[verifier::external_body]
pub(crate) fn value_clone(value: &serde_json::Value) -> (r: serde_json::Value)
    ensures
        json_model(r) == json_model(*value),
{
    value.clone()
}

/// The string document with the given text.
///
/// Trusted: `Value::from` on a `&str` gives the string document of that text.
#[verifier::external_body]
pub(crate) fn value_from_str(text: &str) -> (r: serde_json::Value)
    ensures
        json_model(r) == Json::Text(text@),
{
    serde_json::Value::from(text)
}

/// The boolean document.
///
/// Trusted: `Value::from` on a `bool` gives the boolean document of that
/// value.
#[verifier::external_body]
pub(crate) fn value_from_bool(b: bool) -> (r: serde_json::Value)
    ensures
        json_model(r) == Json::Bool(b),
{
    serde_json::Value::from(b)
}

/// The number document for a non-negative integer.
///
/// Trusted: `Value::from` on a `u64` gives the number held as that
/// non-negative integer.
#[verifier::external_body]
pub(crate) fn value_from_u64(n: u64) -> (r: serde_json::Value)
    ensures
        json_model(r) == Json::Number(JsonNumber::PosInt(n)),
{
    serde_json::Value::from(n)
}

/// The array document with the given elements.
///
/// Trusted: `Value::Array` holds the elements it is given, in order.
#[verifier::external_body]
pub(crate) fn value_from_vec(items: Vec<serde_json::Value>) -> (r: serde_json::Value)
    ensures
        json_model(r) == Json::Array(json_models(items@)),
{
    serde_json::Value::Array(items)
}

/// The object document without members.
///
/// Trusted: `Map::new` is empty, and `Value::Object` holds the map it is
/// given.
#[verifier::external_body]
pub(crate) fn value_object() -> (r: serde_json::Value)
    ensures
        json_model(r) == Json::Object(Seq::empty()),
{
    serde_json::Value::Object(serde_json::Map::new())
}

/// Sets a member of an object document.
///
/// Trusted: with insertion order preserved, `Map::insert` replaces the value
/// of a key that is present and keeps its place, and puts a new key last. A
/// value that is no object is handed back as it came.
#[verifier::external_body]
pub(crate) fn value_insert(object: serde_json::Value, key: &str, member: serde_json::Value) -> (r:
    serde_json::Value)
    ensures
        json_model(r) == json_model(object).with_member(key@, json_model(member)),
{
    match object {
        serde_json::Value::Object(mut members) => {
            members.insert(key.to_owned(), member);
            serde_json::Value::Object(members)
        },
        other => other,
    }
}

} // verus!
