//! JSON documents as trees.

use vstd::prelude::*;
use serde_json::Value;
use crate::scalar::Scalar;

verus! {

/// A JSON number, by the two readings of it that a stamped path needs.
///
/// A number read from a text has every reading that it admits: `1` has both,
/// `1.5` and `-1` only the second. A number made for writing has the one
/// reading it was made from, and is written as an integer where it has the
/// first.
#[derive(Clone, Copy, Debug, PartialEq, Eq, Structural)]
pub struct Number {
    /// The number as an integer that is not negative, where it is one that
    /// fits 64 bits.
    pub unsigned: Option<u64>,
    /// The number as a floating-point value.
    pub float: Option<Scalar>,
}

/// What is written for a number.
#[derive(Clone, Copy, Debug, PartialEq, Eq, Structural)]
pub enum Written {
    /// An integer.
    Integer(u64),
    /// A number with a fraction or an exponent.
    Float(Scalar),
    /// `null`: the number has no reading, or is an infinity or a NaN.
    Null,
}

impl Number {
    /// What is written for the number: the integer where it has that reading,
    /// else the floating-point value where it has that reading and is finite.
    pub open spec fn written_as(self) -> Written {
        match self.unsigned {
            Some(u) => Written::Integer(u),
            None => match self.float {
                Some(s) => if s.finite() {
                    Written::Float(s)
                } else {
                    Written::Null
                },
                None => Written::Null,
            },
        }
    }

    /// What is written for the number.
    pub fn written(&self) -> (w: Written)
        ensures
            w == self.written_as(),
    {
        match self.unsigned {
            Some(u) => Written::Integer(u),
            None => match self.float {
                Some(s) => if s.is_finite() {
                    Written::Float(s)
                } else {
                    Written::Null
                },
                None => Written::Null,
            },
        }
    }
}

/// A JSON document.
#[derive(Debug, PartialEq)]
pub enum Json {
    Null,
    Boolean(bool),
    Number(Number),
    Text(String),
    Array(Vec<Json>),
    /// The members of an object, in the order of the document.
    Object(Vec<Member>),
}

/// One member of a JSON object.
#[derive(Debug, PartialEq)]
pub struct Member {
    pub key: String,
    pub value: Json,
}

/// The mathematical value of a [`Json`] document.
#[verifier::ext_equal]
pub enum JsonView {
    Null,
    Boolean(bool),
    Number(Number),
    Text(Seq<char>),
    Array(Seq<JsonView>),
    Object(Seq<MemberView>),
}

/// The mathematical value of a [`Member`].
#[verifier::ext_equal]
pub struct MemberView {
    pub key: Seq<char>,
    pub value: JsonView,
}

/// The mathematical value of a document.
pub open spec fn json_view(doc: Json) -> JsonView
    decreases doc, 0nat,
{
    match doc {
        Json::Null => JsonView::Null,
        Json::Boolean(b) => JsonView::Boolean(b),
        Json::Number(n) => JsonView::Number(n),
        Json::Text(s) => JsonView::Text(s@),
        Json::Array(items) => JsonView::Array(items_view(items@, items@.len())),
        Json::Object(members) => JsonView::Object(members_view(members@, members@.len())),
    }
}

/// The mathematical values of the first `n` of `items`, in order.
pub open spec fn items_view(items: Seq<Json>, n: nat) -> Seq<JsonView>
    decreases items, n,
{
    if n == 0 || n > items.len() {
        Seq::empty()
    } else {
        items_view(items, (n - 1) as nat).push(json_view(items[n - 1]))
    }
}

/// The mathematical values of the first `n` of `members`, in order.
pub open spec fn members_view(members: Seq<Member>, n: nat) -> Seq<MemberView>
    decreases members, n,
{
    if n == 0 || n > members.len() {
        Seq::empty()
    } else {
        members_view(members, (n - 1) as nat).push(
            MemberView { key: members[n - 1].key@, value: json_view(members[n - 1].value) },
        )
    }
}

impl View for Json {
    type V = JsonView;

    open spec fn view(&self) -> JsonView {
        json_view(*self)
    }
}

impl View for Member {
    type V = MemberView;

    open spec fn view(&self) -> MemberView {
        MemberView { key: self.key@, value: self.value@ }
    }
}

/// The view of a vector of documents holds the views of its items.
pub proof fn lemma_items_view(items: Seq<Json>, n: nat)
    requires
        n <= items.len(),
    ensures
        items_view(items, n).len() == n,
        forall|i: int| 0 <= i < n ==> (#[trigger] items_view(items, n)[i]) == items[i]@,
    decreases n,
{
    if n > 0 {
        lemma_items_view(items, (n - 1) as nat);
    }
}

/// The view of a vector of members holds the views of its members.
pub proof fn lemma_members_view(members: Seq<Member>, n: nat)
    requires
        n <= members.len(),
    ensures
        members_view(members, n).len() == n,
        forall|i: int| 0 <= i < n ==> (#[trigger] members_view(members, n)[i]) == members[i]@,
    decreases n,
{
    if n > 0 {
        lemma_members_view(members, (n - 1) as nat);
    }
}

/// The value of the first member named `key` at or after position `start`.
pub open spec fn lookup_from(members: Seq<MemberView>, key: Seq<char>, start: int) -> Option<JsonView>
    decreases members.len() - start,
{
    if start < 0 || start >= members.len() {
        None
    } else if members[start].key == key {
        Some(members[start].value)
    } else {
        lookup_from(members, key, start + 1)
    }
}

/// The value of the first member named `key`, if there is one.
pub open spec fn lookup(members: Seq<MemberView>, key: Seq<char>) -> Option<JsonView> {
    lookup_from(members, key, 0)
}

/// A member is found under its name where no member before it has that name.
pub proof fn lemma_lookup_finds(members: Seq<MemberView>, key: Seq<char>, at: int)
    requires
        0 <= at < members.len(),
        members[at].key == key,
        forall|j: int| 0 <= j < at ==> (#[trigger] members[j]).key != key,
    ensures
        lookup(members, key) == Some(members[at].value),
{
    lemma_lookup_from_finds(members, key, 0, at);
}

proof fn lemma_lookup_from_finds(members: Seq<MemberView>, key: Seq<char>, start: int, at: int)
    requires
        0 <= start <= at < members.len(),
        members[at].key == key,
        forall|j: int| start <= j < at ==> (#[trigger] members[j]).key != key,
    ensures
        lookup_from(members, key, start) == Some(members[at].value),
    decreases at - start,
{
    if start < at {
        lemma_lookup_from_finds(members, key, start + 1, at);
    }
}

impl JsonView {
    /// The value of the member named `key`, where the document is an object
    /// that has one.
    pub open spec fn get(self, key: Seq<char>) -> Option<JsonView> {
        match self {
            JsonView::Object(members) => lookup(members, key),
            _ => None,
        }
    }
}

impl Json {
    /// The value of the member named `key`, where the document is an object
    /// that has one.
    ///
    /// In a document that [`parse`] has read no two members have one name.
    /// Of several members of one name, which only a document built by hand
    /// can have, the first counts.
    pub fn get(&self, key: &str) -> (found: Option<&Json>)
        ensures
            match found {
                Some(value) => self@.get(key@) == Some(value@),
                None => self@.get(key@) is None,
            },
    {
        match self {
            Json::Object(members) => {
                let wanted: String = key.to_owned();
                let ghost views = members_view(members@, members@.len());
                proof {
                    lemma_members_view(members@, members@.len());
                }
                let mut i: usize = 0;
                while i < members.len()
                    invariant
                        i <= members.len(),
                        wanted@ == key@,
                        self@.get(key@) == lookup(views, key@),
                        views.len() == members.len(),
                        forall|j: int| 0 <= j < members.len() ==> (#[trigger] views[j]) == members[j]@,
                        lookup(views, key@) == lookup_from(views, key@, i as int),
                    decreases members.len() - i,
                {
                    assert(views[i as int] == members[i as int]@);
                    if members[i].key == wanted {
                        return Some(&members[i].value);
                    }
                    i += 1;
                }
                None
            },
            _ => None,
        }
    }
}

/// Opaque: a JSON value as `serde_json` holds it.
#[verifier::external_type_specification]
#[verifier::external_body]
pub struct ExValue(Value);

/// Opaque: why `serde_json` rejected a text.
#[verifier::external_type_specification]
#[verifier::external_body]
pub struct ExSyntaxError(serde_json::Error);

/// The document that `serde_json::from_slice` reads from `bytes`, or nothing
/// where it rejects them.
pub uninterp spec fn parsed(bytes: Seq<u8>) -> Option<JsonView>;

/// The document that a `serde_json::Value` holds.
pub uninterp spec fn value_tree(value: Value) -> JsonView;

/// `serde_json::from_slice` at the type `serde_json::Value`. The outcome is a
/// function of the bytes alone; nothing more is claimed of it.
#[verifier::external_body]
fn parse_value(bytes: &[u8]) -> (r: Result<Value, serde_json::Error>)
    ensures
        match r {
            Ok(value) => parsed(bytes@) == Some(value_tree(value)),
            Err(_) => parsed(bytes@) is None,
        },
{
    serde_json::from_slice(bytes)
}

/// Copies a `serde_json::Value` into a [`Json`], node by node: each variant to
/// the variant of the same kind, an object's members in the order in which
/// `serde_json` iterates over them, a number with what `Number::as_u64` and
/// `Number::as_f64` return for it. The result is a function of the value.
#[verifier::external_body]
fn tree_of(value: &Value) -> (tree: Json)
    ensures
        tree@ == value_tree(*value),
{
    match value {
        Value::Null => Json::Null,
        Value::Bool(b) => Json::Boolean(*b),
        Value::Number(n) => Json::Number(
            Number { unsigned: n.as_u64(), float: n.as_f64().map(|x| Scalar { bits: x.to_bits() }) },
        ),
        Value::String(s) => Json::Text(s.clone()),
        Value::Array(items) => Json::Array(items.iter().map(tree_of).collect()),
        Value::Object(map) => Json::Object(
            map.iter().map(|(k, v)| Member { key: k.clone(), value: tree_of(v) }).collect(),
        ),
    }
}

/// Reads a JSON text.
///
/// Returns the document that `serde_json` reads from the bytes, or its error
/// where it rejects them.
///
/// A text that gives one object the same name twice is not rejected:
/// `serde_json` keeps one member of that name, with the value that the text
/// gives last, so the document has no trace of the repetition.
pub fn parse(bytes: &[u8]) -> (r: Result<Json, serde_json::Error>)
    ensures
        match r {
            Ok(doc) => parsed(bytes@) == Some(doc@),
            Err(_) => parsed(bytes@) is None,
        },
{
    match parse_value(bytes) {
        Ok(value) => Ok(tree_of(&value)),
        Err(e) => Err(e),
    }
}

} // verus!
