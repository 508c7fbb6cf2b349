//! JSON documents, held in `serde_json::Value`.
//!
//! A document is modelled by [`JsonTree`]; [`json_of`] names the tree that a value holds.
use serde_json::Value;
use vstd::prelude::*;
use vstd::string::*;

use crate::text;

verus! {

/// What a JSON value is.
pub enum JsonTree {
    Null,
    Bool(bool),
    /// A whole number that fits in 64 bits with a sign.
    Integer(i64),
    /// Any other number, as it is written.
    OtherNumber(Seq<char>),
    Text(Seq<char>),
    Array(Seq<JsonTree>),
    Object(Map<Seq<char>, JsonTree>),
}

impl JsonTree {
    /// The member `key` of an object.
    pub open spec fn member(self, key: Seq<char>) -> Option<JsonTree> {
        match self {
            JsonTree::Object(m) => if m.contains_key(key) {
                Some(m[key])
            } else {
                None
            },
            _ => None,
        }
    }

    /// The member `key` of an object, where it is a whole number of 64 bits.
    pub open spec fn member_integer(self, key: Seq<char>) -> Option<i64> {
        match self.member(key) {
            Some(t) => t.integer(),
            None => None,
        }
    }

    /// The member `key` of an object, where it is a string.
    pub open spec fn member_text(self, key: Seq<char>) -> Option<Seq<char>> {
        match self.member(key) {
            Some(t) => t.text(),
            None => None,
        }
    }

    /// The number, where this is a whole number of 64 bits.
    pub open spec fn integer(self) -> Option<i64> {
        match self {
            JsonTree::Integer(n) => Some(n),
            _ => None,
        }
    }

    /// The text, where this is a string.
    pub open spec fn text(self) -> Option<Seq<char>> {
        match self {
            JsonTree::Text(s) => Some(s),
            _ => None,
        }
    }
}

/// The names and values of a list of fields.
pub open spec fn field_texts(fields: Seq<(&'static str, String)>) -> Seq<(Seq<char>, Seq<char>)> {
    Seq::new(fields.len(), |i: int| (fields[i].0@, fields[i].1@))
}

/// No name occurs twice.
pub open spec fn distinct_names(fields: Seq<(Seq<char>, Seq<char>)>) -> bool {
    forall|i: int, j: int| 0 <= i < j < fields.len() ==> fields[i].0 != fields[j].0
}

/// The object that has these fields, each a string.
pub open spec fn object_of(fields: Seq<(Seq<char>, Seq<char>)>) -> JsonTree {
    JsonTree::Object(members_of(fields))
}

/// The members of the object that has these fields.
pub open spec fn members_of(fields: Seq<(Seq<char>, Seq<char>)>) -> Map<Seq<char>, JsonTree>
    decreases fields.len(),
{
    if fields.len() == 0 {
        Map::empty()
    } else {
        members_of(fields.drop_last()).insert(fields.last().0, JsonTree::Text(fields.last().1))
    }
}

/// An object whose members are strings.
pub open spec fn is_text_object(t: JsonTree) -> bool {
    t matches JsonTree::Object(m) && forall|k: Seq<char>|
        m.contains_key(k) ==> #[trigger] m[k] is Text
}

#[verifier::external_type_specification]
#[verifier::external_body]
pub struct ExValue(serde_json::Value);

#[verifier::external_type_specification]
#[verifier::external_body]
pub struct ExJsonError(serde_json::Error);

/// The tree that a `serde_json::Value` holds.
pub uninterp spec fn json_of(v: serde_json::Value) -> JsonTree;

/// What `serde_json::from_str` reads from a text: a document, or what is wrong with the text.
pub uninterp spec fn json_read(text: Seq<char>) -> Result<JsonTree, serde_json::Error>;

/// The document that a text holds, where it holds one.
pub open spec fn json_document(text: Seq<char>) -> Option<JsonTree> {
    match json_read(text) {
        Ok(t) => Some(t),
        Err(_) => None,
    }
}

/// The message of a `serde_json::Error`.
pub uninterp spec fn json_error_text(e: serde_json::Error) -> Seq<char>;

/// The compact text that `serde_json` writes for a document.
pub uninterp spec fn json_text(t: JsonTree) -> Seq<char>;

/// `serde_json::from_str` into a `Value`: the document that it reads from the text, or the error
/// that the text leads to.
#[verifier::external_body]
pub(crate) fn parse_json(text: &str) -> (r: Result<Value, serde_json::Error>)
    ensures
        match r {
            Ok(v) => json_read(text@) == Ok::<JsonTree, serde_json::Error>(json_of(v)),
            Err(e) => json_read(text@) == Err::<JsonTree, serde_json::Error>(e),
        },
{
    serde_json::from_str(text)
}

/// The `Display` of `serde_json::Error`.
#[verifier::external_body]
pub(crate) fn show_json_error(e: &serde_json::Error) -> (r: String)
    ensures
        r@ == json_error_text(*e),
{
    e.to_string()
}

/// `Value::to_string` on an object of strings: its compact text, the members in the order of their
/// names. The object is read back from that text as it was.
#[verifier::external_body]
pub(crate) fn show_json(v: &Value) -> (r: String)
    requires
        is_text_object(json_of(*v)),
    ensures
        r@ == json_text(json_of(*v)),
        json_document(r@) == Some(json_of(*v)),
{
    v.to_string()
}

/// `Value::get` with a string index: the member of an object.
#[verifier::external_body]
pub(crate) fn member<'a>(v: &'a Value, key: &str) -> (r: Option<&'a Value>)
    ensures
        match r {
            Some(w) => json_of(*v).member(key@) == Some(json_of(*w)),
            None => json_of(*v).member(key@) is None,
        },
{
    v.get(key)
}

/// `Value::as_i64`: a whole number of 64 bits, and nothing else.
#[verifier::external_body]
pub(crate) fn as_integer(v: &Value) -> (r: Option<i64>)
    ensures
        r == json_of(*v).integer(),
{
    v.as_i64()
}

/// `Value::as_str`: the text of a string, and nothing else.
#[verifier::external_body]
pub(crate) fn as_text(v: &Value) -> (r: Option<&str>)
    ensures
        match r {
            Some(s) => json_of(*v).text() == Some(s@),
            None => json_of(*v).text() is None,
        },
{
    v.as_str()
}

/// Collecting a `serde_json::Map`: the object with these fields, each a string.
#[verifier::external_body]
pub(crate) fn object(fields: Vec<(&'static str, String)>) -> (r: Value)
    requires
        distinct_names(field_texts(fields@)),
    ensures
        json_of(r) == object_of(field_texts(fields@)),
{
    Value::Object(fields.into_iter().map(|(k, v)| (k.to_string(), Value::String(v))).collect())
}

/// The member `key` of an object, where it is a whole number of 64 bits.
pub fn integer_member(v: &Value, key: &str) -> (r: Option<i64>)
    ensures
        r == json_of(*v).member_integer(key@),
{
    match member(v, key) {
        Some(w) => as_integer(w),
        None => None,
    }
}

/// The member `key` of an object, where it is a string.
pub fn text_member<'a>(v: &'a Value, key: &str) -> (r: Option<&'a str>)
    ensures
        match r {
            Some(s) => json_of(*v).member_text(key@) == Some(s@),
            None => json_of(*v).member_text(key@) is None,
        },
{
    match member(v, key) {
        Some(w) => as_text(w),
        None => None,
    }
}

/// An object made of fields is an object of strings.
pub proof fn lemma_object_of_texts(fields: Seq<(Seq<char>, Seq<char>)>)
    ensures
        is_text_object(object_of(fields)),
    decreases fields.len(),
{
    if fields.len() > 0 {
        lemma_object_of_texts(fields.drop_last());
        let before = members_of(fields.drop_last());
        let m = members_of(fields);
        assert forall|k: Seq<char>| m.contains_key(k) implies #[trigger] m[k] is Text by {
            if k != fields.last().0 {
                assert(before.contains_key(k));
                assert(before[k] is Text);
            }
        }
    }
}

/// The members of an object made of fields are its fields.
pub proof fn lemma_members_of(fields: Seq<(Seq<char>, Seq<char>)>, key: Seq<char>)
    requires
        distinct_names(fields),
    ensures
        members_of(fields).contains_key(key) <==> exists|i: int|
            0 <= i < fields.len() && #[trigger] fields[i].0 == key,
        forall|i: int|
            0 <= i < fields.len() && #[trigger] fields[i].0 == key ==> members_of(fields)[key]
                == JsonTree::Text(fields[i].1),
    decreases fields.len(),
{
    if fields.len() > 0 {
        let rest = fields.drop_last();
        lemma_members_of(rest, key);
        assert forall|i: int| 0 <= i < fields.len() && #[trigger] fields[i].0 == key implies
            members_of(fields).contains_key(key) && members_of(fields)[key] == JsonTree::Text(
            fields[i].1,
        ) by {
            if i < rest.len() {
                assert(rest[i].0 == key);
                assert(fields.last().0 != key);
            }
        }
        if members_of(fields).contains_key(key) {
            if fields.last().0 == key {
                assert(fields[fields.len() - 1].0 == key);
            } else {
                let i = choose|i: int| 0 <= i < rest.len() && #[trigger] rest[i].0 == key;
                assert(fields[i].0 == key);
            }
        }
    }
}

/// A document's member is read as a string or as a whole number where it is one, and not else.
pub proof fn law_members_are_read_by_their_kind(
    members: Map<Seq<char>, JsonTree>,
    key: Seq<char>,
    t: Seq<char>,
    n: i64,
)
    ensures
        JsonTree::Object(members.insert(key, JsonTree::Text(t))).member_text(key) == Some(t),
        JsonTree::Object(members.insert(key, JsonTree::Text(t))).member_integer(key) is None,
        JsonTree::Object(members.insert(key, JsonTree::Integer(n))).member_integer(key) == Some(n),
        JsonTree::Object(members.insert(key, JsonTree::Integer(n))).member_text(key) is None,
        JsonTree::Object(members.remove(key)).member(key) is None,
        JsonTree::Text(t).member(key) is None,
        JsonTree::Null.member(key) is None,
{
}

/// An object made of fields gives back each field's text under its name, and nothing under another
/// name.
pub proof fn law_fields_are_read_back(
    fields: Seq<(Seq<char>, Seq<char>)>,
    i: int,
    other: Seq<char>,
)
    requires
        distinct_names(fields),
        0 <= i < fields.len(),
        forall|k: int| 0 <= k < fields.len() ==> (#[trigger] fields[k]).0 != other,
    ensures
        object_of(fields).member_text(fields[i].0) == Some(fields[i].1),
        object_of(fields).member(other) is None,
{
    lemma_members_of(fields, fields[i].0);
    lemma_members_of(fields, other);
}

} // verus!
