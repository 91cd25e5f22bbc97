//! Reading the members of a JSON object into plain values.
//!
//! Each reader comes with a spec function over the [`Json`] model that says
//! what it returns. Optional members follow one rule: a member that is absent
//! or `null` counts as not given, a member of the wrong kind makes the whole
//! document malformed.

use crate::json::{
    json_model, json_models, lemma_insert_new, members_model, value_as_array, value_as_bool,
    value_as_str, value_as_u64, value_clone, value_from_str, value_get, value_insert,
    value_is_null, value_members, value_object, Json, JsonNumber,
};
use vstd::prelude::*;
use vstd::string::*;

verus! {

/// The texts that a list of strings holds, in order.
pub open spec fn texts_view(texts: Seq<String>) -> Seq<Seq<char>> {
    Seq::new(texts.len(), |i: int| texts[i]@)
}

/// The text of an optional string.
pub open spec fn optional_text_view(text: Option<String>) -> Option<Seq<char>> {
    match text {
        Some(s) => Some(s@),
        None => None,
    }
}

/// The document of an optional value.
pub open spec fn optional_json_view(value: Option<serde_json::Value>) -> Option<Json> {
    match value {
        Some(v) => Some(json_model(v)),
        None => None,
    }
}

/// The documents of an optional list of values.
pub open spec fn optional_jsons_view(values: Option<Vec<serde_json::Value>>) -> Option<Seq<Json>> {
    match values {
        Some(v) => Some(json_models(v@)),
        None => None,
    }
}

/// The texts of an optional list of strings.
pub open spec fn optional_texts_view(texts: Option<Vec<String>>) -> Option<Seq<Seq<char>>> {
    match texts {
        Some(v) => Some(texts_view(v@)),
        None => None,
    }
}

/// The texts of documents that are all strings; nothing if one is not.
pub open spec fn all_texts(items: Seq<Json>) -> Option<Seq<Seq<char>>>
    decreases items.len(),
{
    if items.len() == 0 {
        Some(Seq::empty())
    } else {
        match (all_texts(items.drop_last()), items.last()) {
            (Some(front), Json::Text(s)) => Some(front.push(s)),
            _ => None,
        }
    }
}

/// The string documents of the given texts.
pub open spec fn text_documents(texts: Seq<Seq<char>>) -> Seq<Json> {
    Seq::new(texts.len(), |i: int| Json::Text(texts[i]))
}

/// Reading the texts back from their string documents gives the texts.
pub proof fn lemma_all_texts_of_documents(texts: Seq<Seq<char>>)
    ensures
        all_texts(text_documents(texts)) == Some(texts),
    decreases texts.len(),
{
    if texts.len() > 0 {
        lemma_all_texts_of_documents(texts.drop_last());
        assert(text_documents(texts).drop_last() =~= text_documents(texts.drop_last()));
        assert(texts.drop_last().push(texts.last()) =~= texts);
    } else {
        assert(texts =~= Seq::empty());
    }
}

/// A required string member: its text, or nothing where the member is absent
/// or no string.
pub open spec fn required_text(document: Json, key: Seq<char>) -> Option<Seq<char>> {
    match document.get(key) {
        Some(Json::Text(s)) => Some(s),
        _ => None,
    }
}

/// An optional member of any kind.
pub open spec fn optional_member(document: Json, key: Seq<char>) -> Option<Json> {
    document.get_present(key)
}

/// An optional string member. The outer `None` marks a malformed document.
pub open spec fn optional_text(document: Json, key: Seq<char>) -> Option<Option<Seq<char>>> {
    match document.get_present(key) {
        None => Some(None),
        Some(Json::Text(s)) => Some(Some(s)),
        Some(_) => None,
    }
}

/// An optional array member. The outer `None` marks a malformed document.
pub open spec fn optional_elements(document: Json, key: Seq<char>) -> Option<Option<Seq<Json>>> {
    match document.get_present(key) {
        None => Some(None),
        Some(Json::Array(items)) => Some(Some(items)),
        Some(_) => None,
    }
}

/// An optional member that is an array of strings. The outer `None` marks a
/// malformed document.
pub open spec fn optional_texts(document: Json, key: Seq<char>) -> Option<Option<Seq<Seq<char>>>> {
    match document.get_present(key) {
        None => Some(None),
        Some(Json::Array(items)) => match all_texts(items) {
            Some(texts) => Some(Some(texts)),
            None => None,
        },
        Some(_) => None,
    }
}

/// An optional boolean member. The outer `None` marks a malformed document.
pub open spec fn optional_boolean(document: Json, key: Seq<char>) -> Option<Option<bool>> {
    match document.get_present(key) {
        None => Some(None),
        Some(Json::Bool(b)) => Some(Some(b)),
        Some(_) => None,
    }
}

/// A required member that is a non-negative integer of 64 bits.
pub open spec fn required_unsigned(document: Json, key: Seq<char>) -> Option<u64> {
    match document.get(key) {
        Some(Json::Number(JsonNumber::PosInt(n))) => Some(n),
        _ => None,
    }
}

/// The names of the members of hub messages are pairwise different.
pub proof fn lemma_member_names()
    ensures
        forall|i: int, j: int|
            0 <= i < member_names().len() && 0 <= j < member_names().len() && i != j
                ==> member_names()[i] != member_names()[j],
        member_names()[0] == "type"@,
        member_names()[1] == "headers"@,
        member_names()[2] == "invocationId"@,
        member_names()[3] == "target"@,
        member_names()[4] == "arguments"@,
        member_names()[5] == "streamIds"@,
        member_names()[6] == "result"@,
        member_names()[7] == "error"@,
        member_names()[8] == "item"@,
        member_names()[9] == "protocol"@,
        member_names()[10] == "version"@,
        member_names()[11] == "allowReconnect"@,
{
    reveal_strlit("type");
    reveal_strlit("headers");
    reveal_strlit("invocationId");
    reveal_strlit("target");
    reveal_strlit("arguments");
    reveal_strlit("streamIds");
    reveal_strlit("result");
    reveal_strlit("error");
    reveal_strlit("item");
    reveal_strlit("protocol");
    reveal_strlit("version");
    reveal_strlit("allowReconnect");
    let names = member_names();
    assert forall|i: int, j: int| 0 <= i < names.len() && 0 <= j < names.len() && i != j implies names[i]
        != names[j] by {
        assert(names[i].len() != names[j].len() || names[i][0] != names[j][0] || names[i][1]
            != names[j][1]);
    }
}

/// The names of the members of hub messages.
pub open spec fn member_names() -> Seq<Seq<char>> {
    seq![
        "type"@,
        "headers"@,
        "invocationId"@,
        "target"@,
        "arguments"@,
        "streamIds"@,
        "result"@,
        "error"@,
        "item"@,
        "protocol"@,
        "version"@,
        "allowReconnect"@,
    ]
}

/// The member `key` where it is present and not `null`.
pub fn read_present<'a>(value: &'a serde_json::Value, key: &str) -> (r: Option<
    &'a serde_json::Value,
>)
    ensures
        r is Some <==> json_model(*value).get_present(key@) is Some,
        r matches Some(member) ==> json_model(*value).get_present(key@) == Some(
            json_model(*member),
        ),
{
    match value_get(value, key) {
        Some(member) => {
            if value_is_null(member) {
                None
            } else {
                Some(member)
            }
        },
        None => None,
    }
}

/// Reads a required string member.
pub fn read_text(value: &serde_json::Value, key: &str) -> (r: Option<String>)
    ensures
        optional_text_view(r) == required_text(json_model(*value), key@),
{
    match value_get(value, key) {
        Some(member) => match value_as_str(member) {
            Some(s) => Some(String::from_str(s)),
            None => None,
        },
        None => None,
    }
}

/// Reads a required member that is a non-negative integer of 64 bits.
pub fn read_unsigned(value: &serde_json::Value, key: &str) -> (r: Option<u64>)
    ensures
        r == required_unsigned(json_model(*value), key@),
{
    match value_get(value, key) {
        Some(member) => value_as_u64(member),
        None => None,
    }
}

/// Reads an optional boolean member.
pub fn read_optional_boolean(value: &serde_json::Value, key: &str) -> (r: Option<Option<bool>>)
    ensures
        r == optional_boolean(json_model(*value), key@),
{
    match read_present(value, key) {
        Some(member) => match value_as_bool(member) {
            Some(b) => Some(Some(b)),
            None => None,
        },
        None => Some(None),
    }
}

/// Sets the member `key` where one is given.
pub fn insert_optional(object: serde_json::Value, key: &str, member: Option<serde_json::Value>) -> (r:
    serde_json::Value)
    ensures
        json_model(r) == json_model(object).with_optional(key@, optional_json_view(member)),
{
    match member {
        Some(m) => value_insert(object, key, m),
        None => object,
    }
}

/// Reads an optional member of any kind.
pub fn read_optional(value: &serde_json::Value, key: &str) -> (r: Option<serde_json::Value>)
    ensures
        optional_json_view(r) == optional_member(json_model(*value), key@),
{
    match read_present(value, key) {
        Some(member) => Some(value_clone(member)),
        None => None,
    }
}

/// Reads an optional string member.
pub fn read_optional_text(value: &serde_json::Value, key: &str) -> (r: Option<Option<String>>)
    ensures
        r is Some <==> optional_text(json_model(*value), key@) is Some,
        r matches Some(text) ==> optional_text(json_model(*value), key@) == Some(
            optional_text_view(text),
        ),
{
    match read_present(value, key) {
        Some(member) => match value_as_str(member) {
            Some(s) => Some(Some(String::from_str(s))),
            None => None,
        },
        None => Some(None),
    }
}

/// Copies a list of documents.
pub fn clone_values(items: &Vec<serde_json::Value>) -> (r: Vec<serde_json::Value>)
    ensures
        json_models(r@) == json_models(items@),
{
    let mut out: Vec<serde_json::Value> = Vec::new();
    let mut i: usize = 0;
    while i < items.len()
        invariant
            i <= items.len(),
            out.len() == i,
            forall|k: int| 0 <= k < i ==> json_model(out[k]) == json_model(items[k]),
        decreases items.len() - i,
    {
        out.push(value_clone(&items[i]));
        i += 1;
    }
    assert(json_models(out@) =~= json_models(items@));
    out
}

/// Reads an optional array member.
pub fn read_optional_elements(value: &serde_json::Value, key: &str) -> (r: Option<
    Option<Vec<serde_json::Value>>,
>)
    ensures
        r is Some <==> optional_elements(json_model(*value), key@) is Some,
        r matches Some(items) ==> optional_elements(json_model(*value), key@) == Some(
            optional_jsons_view(items),
        ),
{
    match read_present(value, key) {
        Some(member) => match value_as_array(member) {
            Some(items) => Some(Some(clone_values(items))),
            None => None,
        },
        None => Some(None),
    }
}

/// Reads the texts of a list of string documents.
pub fn read_texts(items: &Vec<serde_json::Value>) -> (r: Option<Vec<String>>)
    ensures
        optional_texts_view(r) == all_texts(json_models(items@)),
{
    let ghost models = json_models(items@);
    let mut out: Vec<String> = Vec::new();
    let mut i: usize = 0;
    while i < items.len()
        invariant
            i <= items.len(),
            models == json_models(items@),
            all_texts(models.take(i as int)) == Some(texts_view(out@)),
        decreases items.len() - i,
    {
        assert(models.take(i + 1).drop_last() =~= models.take(i as int));
        assert(models.take(i + 1).last() == json_model(items[i as int]));
        match value_as_str(&items[i]) {
            Some(s) => {
                let ghost before = texts_view(out@);
                out.push(String::from_str(s));
                assert(texts_view(out@) =~= before.push(s@));
            },
            None => {
                proof {
                    lemma_all_texts_prefix(models, i + 1);
                }
                return None;
            },
        }
        i += 1;
    }
    assert(models.take(i as int) =~= models);
    Some(out)
}

/// Once a prefix holds a document that is no string, the whole list does.
pub proof fn lemma_all_texts_prefix(items: Seq<Json>, n: int)
    requires
        0 <= n <= items.len(),
        all_texts(items.take(n)) is None,
    ensures
        all_texts(items) is None,
    decreases items.len() - n,
{
    if n < items.len() {
        assert(items.take(n + 1).drop_last() =~= items.take(n));
        lemma_all_texts_prefix(items, n + 1);
    } else {
        assert(items.take(n) =~= items);
    }
}

/// Reads an optional member that is an array of strings.
pub fn read_optional_texts(value: &serde_json::Value, key: &str) -> (r: Option<
    Option<Vec<String>>,
>)
    ensures
        r is Some <==> optional_texts(json_model(*value), key@) is Some,
        r matches Some(texts) ==> optional_texts(json_model(*value), key@) == Some(
            optional_texts_view(texts),
        ),
{
    match read_present(value, key) {
        Some(member) => match value_as_array(member) {
            Some(items) => match read_texts(items) {
                Some(texts) => Some(Some(texts)),
                None => None,
            },
            None => None,
        },
        None => Some(None),
    }
}

/// The names and texts of a list of headers.
pub open spec fn headers_view(headers: Seq<(String, String)>) -> Seq<(Seq<char>, Seq<char>)> {
    Seq::new(headers.len(), |i: int| (headers[i].0@, headers[i].1@))
}

/// The names and texts of optional headers.
pub open spec fn optional_headers_view(headers: Option<Vec<(String, String)>>) -> Option<
    Seq<(Seq<char>, Seq<char>)>,
> {
    match headers {
        Some(h) => Some(headers_view(h@)),
        None => None,
    }
}

/// Whether no name occurs twice among the headers.
pub open spec fn distinct_names(headers: Seq<(Seq<char>, Seq<char>)>) -> bool {
    forall|i: int, j: int|
        0 <= i < headers.len() && 0 <= j < headers.len() && i != j ==> headers[i].0 != headers[j].0
}

/// Whether optional headers would be read back as written: no name occurs
/// twice.
pub open spec fn writable_headers(headers: Option<Seq<(Seq<char>, Seq<char>)>>) -> bool {
    headers matches Some(h) ==> distinct_names(h)
}

/// The members that stand for headers: each text as a string document under
/// its name.
pub open spec fn text_members(headers: Seq<(Seq<char>, Seq<char>)>) -> Seq<(Seq<char>, Json)> {
    Seq::new(headers.len(), |i: int| (headers[i].0, Json::Text(headers[i].1)))
}

/// The object document of headers: the headers set one after the other, so
/// that of two headers with one name the later counts.
pub open spec fn headers_json(headers: Seq<(Seq<char>, Seq<char>)>) -> Json
    decreases headers.len(),
{
    if headers.len() == 0 {
        Json::Object(Seq::empty())
    } else {
        headers_json(headers.drop_last()).with_member(
            headers.last().0,
            Json::Text(headers.last().1),
        )
    }
}

/// The object document of optional headers.
pub open spec fn optional_headers_json(headers: Option<Seq<(Seq<char>, Seq<char>)>>) -> Option<
    Json,
> {
    match headers {
        Some(h) => Some(headers_json(h)),
        None => None,
    }
}

/// The headers that members stand for; nothing if a member is no string.
pub open spec fn all_text_members(members: Seq<(Seq<char>, Json)>) -> Option<
    Seq<(Seq<char>, Seq<char>)>,
>
    decreases members.len(),
{
    if members.len() == 0 {
        Some(Seq::empty())
    } else {
        match (all_text_members(members.drop_last()), members.last().1) {
            (Some(front), Json::Text(s)) => Some(front.push((members.last().0, s))),
            _ => None,
        }
    }
}

/// Optional headers: a member that must be an object of strings. The outer
/// `None` marks a malformed document.
pub open spec fn optional_headers(document: Json, key: Seq<char>) -> Option<
    Option<Seq<(Seq<char>, Seq<char>)>>,
> {
    match document.get_present(key) {
        None => Some(None),
        Some(Json::Object(members)) => match all_text_members(members) {
            Some(headers) => Some(Some(headers)),
            None => None,
        },
        Some(_) => None,
    }
}

/// Headers without a repeated name are written as one member each, in order.
pub proof fn lemma_headers_json(headers: Seq<(Seq<char>, Seq<char>)>)
    requires
        distinct_names(headers),
    ensures
        headers_json(headers) == Json::Object(text_members(headers)),
    decreases headers.len(),
{
    if headers.len() == 0 {
        assert(text_members(headers) =~= Seq::empty());
    } else {
        let front = headers.drop_last();
        assert(distinct_names(front)) by {
            assert forall|i: int, j: int|
                0 <= i < front.len() && 0 <= j < front.len() && i != j implies front[i].0
                != front[j].0 by {
                assert(headers[i].0 != headers[j].0);
            }
        }
        lemma_headers_json(front);
        let members = text_members(front);
        assert forall|i: int| 0 <= i < members.len() implies (#[trigger] members[i]).0
            != headers.last().0 by {
            assert(headers[i].0 != headers[headers.len() - 1].0);
        }
        lemma_insert_new(members, headers.last().0, Json::Text(headers.last().1));
        assert(members.push((headers.last().0, Json::Text(headers.last().1))) =~= text_members(
            headers,
        ));
    }
}

/// The members that stand for headers are read back as those headers.
pub proof fn lemma_all_text_members(headers: Seq<(Seq<char>, Seq<char>)>)
    ensures
        all_text_members(text_members(headers)) == Some(headers),
    decreases headers.len(),
{
    if headers.len() > 0 {
        lemma_all_text_members(headers.drop_last());
        assert(text_members(headers).drop_last() =~= text_members(headers.drop_last()));
        assert(headers.drop_last().push(headers.last()) =~= headers);
    } else {
        assert(headers =~= Seq::empty());
    }
}

/// Optional headers without a repeated name are read back from the member
/// that they were written to.
pub proof fn lemma_headers_round_trip(
    document: Json,
    key: Seq<char>,
    headers: Option<Seq<(Seq<char>, Seq<char>)>>,
)
    requires
        writable_headers(headers),
        document.get(key) == optional_headers_json(headers),
    ensures
        optional_headers(document, key) == Some(headers),
{
    match headers {
        Some(h) => {
            lemma_headers_json(h);
            lemma_all_text_members(h);
        },
        None => {},
    }
}

/// Once a prefix holds a member that is no string, the whole list does.
pub proof fn lemma_all_text_members_prefix(members: Seq<(Seq<char>, Json)>, n: int)
    requires
        0 <= n <= members.len(),
        all_text_members(members.take(n)) is None,
    ensures
        all_text_members(members) is None,
    decreases members.len() - n,
{
    if n < members.len() {
        assert(members.take(n + 1).drop_last() =~= members.take(n));
        lemma_all_text_members_prefix(members, n + 1);
    } else {
        assert(members.take(n) =~= members);
    }
}

/// Reads members as headers.
pub fn read_headers(members: &Vec<(String, serde_json::Value)>) -> (r: Option<Vec<(String, String)>>)
    ensures
        optional_headers_view(r) == all_text_members(members_model(members@)),
{
    let ghost models = members_model(members@);
    let mut out: Vec<(String, String)> = Vec::new();
    let mut i: usize = 0;
    assert(headers_view(out@) =~= Seq::empty());
    while i < members.len()
        invariant
            i <= members.len(),
            models == members_model(members@),
            all_text_members(models.take(i as int)) == Some(headers_view(out@)),
        decreases members.len() - i,
    {
        assert(models.take(i + 1).drop_last() =~= models.take(i as int));
        assert(models.take(i + 1).last() == (
            members[i as int].0@,
            json_model(members[i as int].1),
        ));
        match value_as_str(&members[i].1) {
            Some(s) => {
                let ghost before = headers_view(out@);
                out.push((members[i].0.clone(), String::from_str(s)));
                assert(headers_view(out@) =~= before.push((members[i as int].0@, s@)));
            },
            None => {
                proof {
                    lemma_all_text_members_prefix(models, i + 1);
                }
                return None;
            },
        }
        i += 1;
    }
    assert(models.take(i as int) =~= models);
    Some(out)
}

/// Reads optional headers.
pub fn read_optional_headers(value: &serde_json::Value, key: &str) -> (r: Option<
    Option<Vec<(String, String)>>,
>)
    ensures
        r is Some <==> optional_headers(json_model(*value), key@) is Some,
        r matches Some(headers) ==> optional_headers(json_model(*value), key@) == Some(
            optional_headers_view(headers),
        ),
{
    match read_present(value, key) {
        Some(member) => match value_members(member) {
            Some(members) => match read_headers(&members) {
                Some(headers) => Some(Some(headers)),
                None => None,
            },
            None => None,
        },
        None => Some(None),
    }
}

/// The object document of headers.
pub fn headers_value(headers: &Vec<(String, String)>) -> (r: serde_json::Value)
    ensures
        json_model(r) == headers_json(headers_view(headers@)),
{
    let ghost views = headers_view(headers@);
    let mut object = value_object();
    let mut i: usize = 0;
    assert(views.take(0) =~= Seq::empty());
    while i < headers.len()
        invariant
            i <= headers.len(),
            views == headers_view(headers@),
            json_model(object) == headers_json(views.take(i as int)),
        decreases headers.len() - i,
    {
        assert(views.take(i + 1).drop_last() =~= views.take(i as int));
        assert(views.take(i + 1).last() == (headers[i as int].0@, headers[i as int].1@));
        object = value_insert(object, headers[i].0.as_str(), value_from_str(headers[i].1.as_str()));
        i += 1;
    }
    assert(views.take(i as int) =~= views);
    object
}

/// The object document of optional headers.
pub fn optional_headers_value(headers: &Option<Vec<(String, String)>>) -> (r: Option<
    serde_json::Value,
>)
    ensures
        optional_json_view(r) == optional_headers_json(optional_headers_view(*headers)),
{
    match headers {
        Some(h) => Some(headers_value(h)),
        None => None,
    }
}

} // verus!
