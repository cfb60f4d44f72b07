//! A JSON document as a tree of plain values, with its mathematical view.

use serde_json::Value;
use vstd::prelude::*;
use vstd::string::*;

verus! {

/// A JSON number: an unsigned integer, a negative integer, or anything else
/// (a fraction, an exponent, an integer too large for 64 bits), kept as text.
#[derive(Debug, PartialEq)]
pub enum JsonNumber {
    Unsigned(u64),
    Negative(i64),
    Float(String),
}

/// A JSON document.
#[derive(Debug, PartialEq)]
pub enum Json {
    Null,
    Bool(bool),
    Number(JsonNumber),
    Text(String),
    Array(Vec<Json>),
    Object(Vec<(String, Json)>),
}

/// The mathematical value of a [`JsonNumber`].
pub enum NumberView {
    Unsigned(u64),
    Negative(i64),
    Float(Seq<char>),
}

/// The mathematical value of a [`Json`] document. The members of an object
/// are kept in the order in which the document lists them.
pub enum JsonView {
    Null,
    Bool(bool),
    Number(NumberView),
    Text(Seq<char>),
    Array(Seq<JsonView>),
    Object(Seq<(Seq<char>, JsonView)>),
}

impl View for JsonNumber {
    type V = NumberView;

    open spec fn view(&self) -> NumberView {
        match self {
            JsonNumber::Unsigned(n) => NumberView::Unsigned(*n),
            JsonNumber::Negative(n) => NumberView::Negative(*n),
            JsonNumber::Float(text) => NumberView::Float(text@),
        }
    }
}

/// The view of a document, defined by recursion over the tree.
pub open spec fn document(json: Json) -> JsonView
    decreases json,
{
    match json {
        Json::Null => JsonView::Null,
        Json::Bool(b) => JsonView::Bool(b),
        Json::Number(n) => JsonView::Number(n@),
        Json::Text(text) => JsonView::Text(text@),
        Json::Array(items) => JsonView::Array(
            Seq::new(
                items.len() as nat,
                |i: int|
                    if 0 <= i < items.len() {
                        document(items[i])
                    } else {
                        JsonView::Null
                    },
            ),
        ),
        Json::Object(members) => JsonView::Object(
            Seq::new(
                members.len() as nat,
                |i: int|
                    if 0 <= i < members.len() {
                        (members[i].0@, document(members[i].1))
                    } else {
                        (Seq::empty(), JsonView::Null)
                    },
            ),
        ),
    }
}

impl View for Json {
    type V = JsonView;

    open spec fn view(&self) -> JsonView {
        document(*self)
    }
}

/// The first member of `members` that is called `name`, if there is one.
pub open spec fn lookup(members: Seq<(Seq<char>, JsonView)>, name: Seq<char>) -> Option<JsonView>
    decreases members.len(),
{
    if members.len() == 0 {
        None
    } else if members[0].0 == name {
        Some(members[0].1)
    } else {
        lookup(members.skip(1), name)
    }
}

impl JsonView {
    /// The member called `name` of an object; `None` for a document that is
    /// no object or has no such member.
    pub open spec fn member(self, name: Seq<char>) -> Option<JsonView> {
        match self {
            JsonView::Object(members) => lookup(members, name),
            _ => None,
        }
    }
}

/// `lookup` finds the first member with the name among the first `upto`
/// members, or else goes on with the rest.
proof fn lemma_lookup_split(members: Seq<(Seq<char>, JsonView)>, name: Seq<char>, upto: int)
    requires
        0 <= upto <= members.len(),
        forall|k: int| 0 <= k < upto ==> members[k].0 != name,
    ensures
        lookup(members, name) == lookup(members.skip(upto), name),
    decreases upto,
{
    if upto > 0 {
        lemma_lookup_split(members.skip(1), name, upto - 1);
        assert(members.skip(1).skip(upto - 1) =~= members.skip(upto));
    } else {
        assert(members.skip(0) =~= members);
    }
}

/// Where the first member called `name` stands in a list of members.
fn position_of(members: &Vec<(String, Json)>, name: &str) -> (found: Option<usize>)
    ensures
        match found {
            Some(at) => at < members.len() && members[at as int].0@ == name@ && forall|k: int|
                0 <= k < at ==> (#[trigger] members[k]).0@ != name@,
            None => forall|k: int| 0 <= k < members.len() ==> (#[trigger] members[k]).0@ != name@,
        },
{
    let mut i: usize = 0;
    while i < members.len()
        invariant
            i <= members.len(),
            forall|k: int| 0 <= k < i ==> (#[trigger] members[k]).0@ != name@,
        decreases members.len() - i,
    {
        if *members[i].0.as_str() == *name {
            return Some(i);
        }
        i += 1;
    }
    None
}

/// What `lookup` finds in the view of an object, given where the first
/// member with the name stands in the object itself.
proof fn lemma_lookup_at(object: Json, name: Seq<char>, found: Option<usize>)
    requires
        object is Object,
        match found {
            Some(at) => at < object->Object_0.len() && object->Object_0[at as int].0@ == name
                && forall|k: int| 0 <= k < at ==> (#[trigger] object->Object_0[k]).0@ != name,
            None => forall|k: int|
                0 <= k < object->Object_0.len() ==> (#[trigger] object->Object_0[k]).0@ != name,
        },
    ensures
        match found {
            Some(at) => object@.member(name) == Some(object->Object_0[at as int].1@),
            None => object@.member(name) is None,
        },
{
    let members = object->Object_0;
    let all = object@->Object_0;
    assert(all.len() == members.len());
    assert forall|k: int| 0 <= k < all.len() implies (#[trigger] all[k]) == (
        members[k].0@,
        members[k].1@,
    ) by {}
    match found {
        Some(at) => {
            assert forall|k: int| 0 <= k < at implies all[k].0 != name by {
                assert(members[k].0@ != name);
            }
            lemma_lookup_split(all, name, at as int);
        },
        None => {
            assert forall|k: int| 0 <= k < all.len() implies all[k].0 != name by {
                assert(members[k].0@ != name);
            }
            lemma_lookup_split(all, name, all.len() as int);
        },
    }
}

impl Json {
    /// The member called `name` of an object.
    pub fn member(&self, name: &str) -> (found: Option<&Json>)
        ensures
            match found {
                Some(value) => self@.member(name@) == Some(value@),
                None => self@.member(name@) is None,
            },
    {
        match self {
            Json::Object(members) => {
                let at = position_of(members, name);
                proof {
                    lemma_lookup_at(*self, name@, at);
                }
                match at {
                    Some(at) => Some(&members[at].1),
                    None => None,
                }
            },
            _ => None,
        }
    }

    /// An object with one member.
    pub fn single(name: &str, value: Json) -> (object: Json)
        ensures
            object@ == JsonView::Object(seq![(name@, value@)]),
    {
        let mut members: Vec<(String, Json)> = Vec::new();
        members.push((String::from_str(name), value));
        let object = Json::Object(members);
        assert(object@->Object_0 =~= seq![(name@, value@)]);
        object
    }

    /// Takes the member called `name` out of an object.
    pub fn into_member(self, name: &str) -> (found: Option<Json>)
        ensures
            match found {
                Some(value) => self@.member(name@) == Some(value@),
                None => self@.member(name@) is None,
            },
    {
        match self {
            Json::Object(members) => {
                let at = position_of(&members, name);
                proof {
                    lemma_lookup_at(self, name@, at);
                }
                match at {
                    Some(at) => {
                        let mut members = members;
                        let (_, value) = members.swap_remove(at);
                        Some(value)
                    },
                    None => None,
                }
            },
            _ => None,
        }
    }

    /// Takes the only item out of an array of one.
    pub fn into_single_item(self) -> (found: Option<Json>)
        ensures
            match found {
                Some(value) => self@ == JsonView::Array(seq![value@]),
                None => !(self@ is Array && self@->Array_0.len() == 1),
            },
    {
        match self {
            Json::Array(items) => {
                let mut items = items;
                if items.len() == 1 {
                    let found = items.pop();
                    assert(self@->Array_0 =~= seq![found->0@]);
                    found
                } else {
                    None
                }
            },
            _ => None,
        }
    }
}

/// `serde_json::Value`, the document tree that the parser builds.
#[verifier::external_type_specification]
#[verifier::external_body]
pub struct ExValue(serde_json::Value);

/// The document that a `serde_json::Value` holds.
pub uninterp spec fn value_document(value: Value) -> JsonView;

/// What `serde_json::from_str` makes of a text when asked for a `Value`:
/// the document that the text denotes, or `None` where it reports an error.
pub uninterp spec fn parsed_document(text: Seq<char>) -> Option<JsonView>;

/// Calls `serde_json::from_str` for a `Value`. The result depends on the
/// text alone: the value read from it, or nothing where the call fails.
#[verifier::external_body]
fn parse_value(text: &str) -> (parsed: Option<Value>)
    ensures
        match parsed {
            Some(value) => parsed_document(text@) == Some(value_document(value)),
            None => parsed_document(text@) is None,
        },
{
    serde_json::from_str::<Value>(text).ok()
}

/// Moves a `serde_json::Value` into a [`Json`], variant by variant: the
/// result holds the same document. A number becomes `Unsigned` where
/// `as_u64` gives it, `Negative` where only `as_i64` does, and otherwise
/// `Float` with the text that `to_string` writes for it. The members of an
/// object come in the order in which its map hands them out.
#[verifier::external_body]
fn json_from_value(value: Value) -> (json: Json)
    ensures
        json@ == value_document(value),
{
    match value {
        Value::Null => Json::Null,
        Value::Bool(b) => Json::Bool(b),
        Value::Number(n) => Json::Number(match (n.as_u64(), n.as_i64()) {
            (Some(u), _) => JsonNumber::Unsigned(u),
            (None, Some(i)) => JsonNumber::Negative(i),
            (None, None) => JsonNumber::Float(n.to_string()),
        }),
        Value::String(s) => Json::Text(s),
        Value::Array(a) => Json::Array(a.into_iter().map(json_from_value).collect()),
        Value::Object(m) => Json::Object(m.into_iter().map(|(k, v)| (k, json_from_value(v))).collect()),
    }
}

impl Json {
    /// Reads a document from JSON text; `None` where the text is no JSON.
    pub fn parse(text: &str) -> (parsed: Option<Json>)
        ensures
            match parsed {
                Some(json) => parsed_document(text@) == Some(json@),
                None => parsed_document(text@) is None,
            },
    {
        match parse_value(text) {
            Some(value) => Some(json_from_value(value)),
            None => None,
        }
    }
}

} // verus!
