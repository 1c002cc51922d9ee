//! JSON documents as the scan protocol reads them.

use crate::text::same_text;
use vstd::prelude::*;

verus! {

/// A JSON value.
///
/// A number is kept only as far as the protocol reads it: `Number(Some(n))`
/// is a non-negative integer that fits 64 bits, `Number(None)` any other
/// number. An object lists its members in the order in which the parser
/// hands them out.
#[derive(Debug, PartialEq, Eq)]
pub enum Json {
    Null,
    Bool(bool),
    Number(Option<u64>),
    Text(String),
    Array(Vec<Json>),
    Object(Vec<(String, Json)>),
}

/// `serde_json::Value`, as the parser hands it out. Nothing is read from
/// it here but through `json_from_value`.
#[verifier::external_type_specification]
#[verifier::external_body]
pub struct ExValue(serde_json::Value);

/// Name of the document that `serde_json::from_str` reads from a text:
/// `None` where it reports an error.
pub uninterp spec fn parsed_json(text: Seq<char>) -> Option<Json>;

/// Whether no object in `value`, at any depth, holds two members under the
/// same key.
pub open spec fn keys_distinct(value: Json) -> bool
    decreases value,
{
    match value {
        Json::Array(items) => forall|i: int|
            0 <= i < items@.len() ==> keys_distinct(#[trigger] items@[i]),
        Json::Object(members) => {
            &&& forall|i: int, j: int|
                0 <= i < members@.len() && 0 <= j < members@.len() && i != j
                    ==> (#[trigger] members@[i]).0@ != (#[trigger] members@[j]).0@
            &&& forall|i: int|
                0 <= i < members@.len() ==> keys_distinct((#[trigger] members@[i]).1)
        },
        _ => true,
    }
}

/// Name of what a `serde_json::Value` holds, written as a `Json`.
pub uninterp spec fn value_content(value: serde_json::Value) -> Json;

/// `serde_json::from_str` into a `serde_json::Value`: the value of the
/// document that `text` holds, or `None` where `text` is not one JSON
/// document. The contract only names the result.
#[verifier::external_body]
fn read_value(text: &str) -> (value: Option<serde_json::Value>)
    ensures
        match value {
            Some(v) => parsed_json(text@) == Some(value_content(v)),
            None => parsed_json(text@) is None,
        },
{
    serde_json::from_str::<serde_json::Value>(text).ok()
}

/// Rebuilds a `serde_json::Value` as a `Json`, variant by variant. Of a
/// number it keeps what `Number::as_u64` returns. The object of a
/// `serde_json::Value` is a map keyed by the members' names, so no object
/// of the result holds a key twice.
#[verifier::external_body]
fn json_from_value(value: &serde_json::Value) -> (json: Json)
    ensures
        json == value_content(*value),
        keys_distinct(json),
{
    match value {
        serde_json::Value::Null => Json::Null,
        serde_json::Value::Bool(flag) => Json::Bool(*flag),
        serde_json::Value::Number(number) => Json::Number(number.as_u64()),
        serde_json::Value::String(text) => Json::Text(text.clone()),
        serde_json::Value::Array(items) => Json::Array(items.iter().map(json_from_value).collect()),
        serde_json::Value::Object(members) => Json::Object(
            members.iter().map(|(key, member)| (key.clone(), json_from_value(member))).collect(),
        ),
    }
}

/// Reads `text` as one JSON document. No object of the document holds a
/// key twice.
pub fn parse_json(text: &str) -> (document: Option<Json>)
    ensures
        document == parsed_json(text@),
        document is Some ==> keys_distinct(document->0),
{
    match read_value(text) {
        Some(value) => Some(json_from_value(&value)),
        None => None,
    }
}

/// The first member of `members` under `key`, if there is one.
pub open spec fn first_member(members: Seq<(String, Json)>, key: Seq<char>) -> Option<Json>
    decreases members.len(),
{
    if members.len() == 0 {
        None
    } else if members[0].0@ == key {
        Some(members[0].1)
    } else {
        first_member(members.drop_first(), key)
    }
}

/// The member of an object under `key`; `None` of anything but an object
/// and of an object without that member.
pub open spec fn member(value: Json, key: Seq<char>) -> Option<Json> {
    match value {
        Json::Object(members) => first_member(members@, key),
        _ => None,
    }
}

/// The member under `key` of a value that may be absent.
pub open spec fn child(parent: Option<Json>, key: Seq<char>) -> Option<Json> {
    match parent {
        Some(value) => member(value, key),
        None => None,
    }
}

/// The characters of a value that is a string.
pub open spec fn text_of(value: Option<Json>) -> Option<Seq<char>> {
    match value {
        Some(Json::Text(text)) => Some(text@),
        _ => None,
    }
}

/// The number of a value that is a non-negative integer of 64 bits.
pub open spec fn count_of(value: Option<Json>) -> Option<u64> {
    match value {
        Some(Json::Number(Some(n))) => Some(n),
        _ => None,
    }
}

/// The members of a value that is an object.
pub open spec fn members_of(value: Option<Json>) -> Option<Seq<(String, Json)>> {
    match value {
        Some(Json::Object(members)) => Some(members@),
        _ => None,
    }
}

/// A member found in members that hold no key twice holds none twice
/// itself.
proof fn lemma_first_member_distinct(members: Seq<(String, Json)>, key: Seq<char>)
    requires
        forall|i: int| 0 <= i < members.len() ==> keys_distinct((#[trigger] members[i]).1),
    ensures
        first_member(members, key) is Some ==> keys_distinct(first_member(members, key)->0),
    decreases members.len(),
{
    if members.len() > 0 && members[0].0@ != key {
        let rest = members.drop_first();
        assert forall|i: int| 0 <= i < rest.len() implies keys_distinct((#[trigger] rest[i]).1) by {
            assert(rest[i] == members[i + 1]);
        }
        lemma_first_member_distinct(rest, key);
    }
}

/// What is found under a key in a value that holds no key twice holds none
/// twice either.
pub proof fn lemma_child_keys_distinct(parent: Option<Json>, key: Seq<char>)
    requires
        parent is Some ==> keys_distinct(parent->0),
    ensures
        child(parent, key) is Some ==> keys_distinct(child(parent, key)->0),
{
    match parent {
        Some(Json::Object(members)) => {
            lemma_first_member_distinct(members@, key);
        },
        _ => {},
    }
}

proof fn lemma_first_member_skips(members: Seq<(String, Json)>, key: Seq<char>, n: int)
    requires
        0 <= n <= members.len(),
        forall|j: int| 0 <= j < n ==> (#[trigger] members[j]).0@ != key,
    ensures
        first_member(members, key) == first_member(members.skip(n), key),
    decreases n,
{
    if n == 0 {
        assert(members.skip(0) =~= members);
    } else {
        lemma_first_member_skips(members, key, n - 1);
        let rest = members.skip(n - 1);
        assert(rest[0] == members[n - 1]);
        assert(rest.drop_first() =~= members.skip(n));
    }
}

/// The first member of `members` under `key`.
fn find_member<'a>(members: &'a Vec<(String, Json)>, key: &str) -> (found: Option<&'a Json>)
    ensures
        match found {
            Some(value) => first_member(members@, key@) == Some(*value),
            None => first_member(members@, key@) is None,
        },
{
    let mut i: usize = 0;
    while i < members.len()
        invariant
            i <= members.len(),
            forall|j: int| 0 <= j < i ==> (#[trigger] members@[j]).0@ != key@,
        decreases members.len() - i,
    {
        if same_text(members[i].0.as_str(), key) {
            proof {
                lemma_first_member_skips(members@, key@, i as int);
                assert(members@.skip(i as int)[0] == members@[i as int]);
            }
            return Some(&members[i].1);
        }
        i = i + 1;
    }
    proof {
        lemma_first_member_skips(members@, key@, members@.len() as int);
    }
    None
}

impl Json {
    /// The member under `key`.
    pub fn get<'a>(&'a self, key: &str) -> (found: Option<&'a Json>)
        ensures
            match found {
                Some(value) => member(*self, key@) == Some(*value),
                None => member(*self, key@) is None,
            },
    {
        match self {
            Json::Object(members) => find_member(members, key),
            _ => None,
        }
    }

    /// The characters of this value if it is a string.
    pub fn as_str<'a>(&'a self) -> (text: Option<&'a str>)
        ensures
            match text {
                Some(t) => text_of(Some(*self)) == Some(t@),
                None => text_of(Some(*self)) is None,
            },
    {
        match self {
            Json::Text(text) => Some(text.as_str()),
            _ => None,
        }
    }

    /// This value if it is a non-negative integer of 64 bits.
    pub fn as_u64(&self) -> (count: Option<u64>)
        ensures
            count == count_of(Some(*self)),
    {
        match self {
            Json::Number(Some(n)) => Some(*n),
            _ => None,
        }
    }

    /// The members of this value if it is an object.
    pub fn as_object<'a>(&'a self) -> (members: Option<&'a Vec<(String, Json)>>)
        ensures
            match members {
                Some(list) => members_of(Some(*self)) == Some(list@),
                None => members_of(Some(*self)) is None,
            },
    {
        match self {
            Json::Object(members) => Some(members),
            _ => None,
        }
    }
}

/// The member under `key` of a value that may be absent.
pub fn get_child<'a>(parent: Option<&'a Json>, key: &str) -> (found: Option<&'a Json>)
    ensures
        match found {
            Some(value) => child(reference_view(parent), key@) == Some(*value),
            None => child(reference_view(parent), key@) is None,
        },
{
    match parent {
        Some(value) => value.get(key),
        None => None,
    }
}

/// The value behind an optional reference.
pub open spec fn reference_view(value: Option<&Json>) -> Option<Json> {
    match value {
        Some(v) => Some(*v),
        None => None,
    }
}

} // verus!
