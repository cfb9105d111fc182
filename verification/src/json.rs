//! JSON documents as plain data, and the parser that produces them.

use serde_json::Value;
use vstd::prelude::*;

verus! {

/// A JSON document.
///
/// Numbers are split by what a reader can take from them: a non-negative
/// integer, a negative integer, or a number that is not an integer in the
/// range of the two (its value is not kept).
#[derive(Debug, PartialEq, Eq)]
pub enum Json {
    Null,
    Bool(bool),
    Unsigned(u64),
    Negative(i64),
    Decimal,
    Text(String),
    Array(Vec<Json>),
    Object(Vec<(String, Json)>),
}

/// The mathematical value of a [`Json`] document.
pub enum JsonView {
    Null,
    Bool(bool),
    Unsigned(u64),
    Negative(i64),
    Decimal,
    Text(Seq<char>),
    Array(Seq<JsonView>),
    Object(Seq<(Seq<char>, JsonView)>),
}

/// The value of a document, item by item and member by member.
pub open spec fn value_of(doc: Json) -> JsonView
    decreases doc,
{
    match doc {
        Json::Null => JsonView::Null,
        Json::Bool(b) => JsonView::Bool(b),
        Json::Unsigned(n) => JsonView::Unsigned(n),
        Json::Negative(n) => JsonView::Negative(n),
        Json::Decimal => JsonView::Decimal,
        Json::Text(s) => JsonView::Text(s@),
        Json::Array(items) => JsonView::Array(
            Seq::new(
                items@.len(),
                |i: int|
                    if 0 <= i < items@.len() {
                        value_of(items@[i])
                    } else {
                        JsonView::Null
                    },
            ),
        ),
        Json::Object(members) => JsonView::Object(
            Seq::new(
                members@.len(),
                |i: int|
                    if 0 <= i < members@.len() {
                        (members@[i].0@, value_of(members@[i].1))
                    } else {
                        (Seq::empty(), JsonView::Null)
                    },
            ),
        ),
    }
}

impl View for Json {
    type V = JsonView;

    open spec fn view(&self) -> JsonView {
        value_of(*self)
    }
}

/// The members of an object, by value.
pub type Members = Seq<(Seq<char>, JsonView)>;

/// The values of a list of documents.
pub open spec fn items_view(items: Seq<Json>) -> Seq<JsonView> {
    Seq::new(items.len(), |i: int| items[i]@)
}

/// The values of a list of named documents.
pub open spec fn members_view(members: Seq<(String, Json)>) -> Members {
    Seq::new(members.len(), |i: int| (members[i].0@, members[i].1@))
}

/// The value of an outcome: that of what it holds, on either side.
pub open spec fn viewed<T: View, E: View>(outcome: Result<T, E>) -> Result<T::V, E::V> {
    match outcome {
        Ok(value) => Ok(value@),
        Err(error) => Err(error@),
    }
}

/// Member `i` is the first one named `key`.
pub open spec fn is_first_named(members: Members, key: Seq<char>, i: int) -> bool {
    &&& 0 <= i < members.len()
    &&& members[i].0 == key
    &&& forall|j: int| 0 <= j < i ==> (#[trigger] members[j]).0 != key
}

/// The value of the first member named `key`, if there is one.
pub open spec fn member(members: Members, key: Seq<char>) -> Option<JsonView> {
    if exists|i: int| is_first_named(members, key, i) {
        Some(members[choose|i: int| is_first_named(members, key, i)].1)
    } else {
        None
    }
}

/// An array's value lists the values of its items.
pub proof fn lemma_array_view(items: Vec<Json>)
    ensures
        Json::Array(items)@ == JsonView::Array(items_view(items@)),
{
    assert(Json::Array(items)@->Array_0 =~= items_view(items@));
}

/// An object's value lists its members' names and values.
pub proof fn lemma_object_view(members: Vec<(String, Json)>)
    ensures
        Json::Object(members)@ == JsonView::Object(members_view(members@)),
{
    assert(Json::Object(members)@->Object_0 =~= members_view(members@));
}

/// At most one member is the first of its name.
pub proof fn lemma_first_named_unique(members: Members, key: Seq<char>, i: int, j: int)
    requires
        is_first_named(members, key, i),
        is_first_named(members, key, j),
    ensures
        i == j,
{
    if i < j {
        assert(members[i].0 != key);
    } else if j < i {
        assert(members[j].0 != key);
    }
}

impl Json {
    /// The members of an object; `None` for any other document.
    pub fn members(&self) -> (found: Option<&Vec<(String, Json)>>)
        ensures
            match found {
                Some(members) => self@ == JsonView::Object(members_view(members@)),
                None => !(self@ is Object),
            },
    {
        match self {
            Json::Object(members) => {
                proof {
                    lemma_object_view(*members);
                }
                Some(members)
            },
            _ => None,
        }
    }

    /// The items of an array; `None` for any other document.
    pub fn items(&self) -> (found: Option<&Vec<Json>>)
        ensures
            match found {
                Some(items) => self@ == JsonView::Array(items_view(items@)),
                None => !(self@ is Array),
            },
    {
        match self {
            Json::Array(items) => {
                proof {
                    lemma_array_view(*items);
                }
                Some(items)
            },
            _ => None,
        }
    }

    /// The characters of a text; `None` for any other document.
    pub fn text(&self) -> (found: Option<&String>)
        ensures
            match found {
                Some(text) => self@ == JsonView::Text(text@),
                None => !(self@ is Text),
            },
    {
        match self {
            Json::Text(text) => Some(text),
            _ => None,
        }
    }

    /// The number of a non-negative integer; `None` for any other document.
    pub fn unsigned(&self) -> (found: Option<u64>)
        ensures
            match found {
                Some(n) => self@ == JsonView::Unsigned(n),
                None => !(self@ is Unsigned),
            },
    {
        match self {
            Json::Unsigned(n) => Some(*n),
            _ => None,
        }
    }
}

/// Finds the first member named `key`.
pub fn find<'a>(members: &'a Vec<(String, Json)>, key: &str) -> (found: Option<&'a Json>)
    ensures
        match found {
            Some(value) => member(members_view(members@), key@) == Some(value@),
            None => member(members_view(members@), key@) is None,
        },
{
    let wanted = String::from_str(key);
    let ghost all = members_view(members@);
    let mut i: usize = 0;
    while i < members.len()
        invariant
            i <= members.len(),
            all == members_view(members@),
            wanted@ == key@,
            forall|j: int| 0 <= j < i ==> (#[trigger] all[j]).0 != key@,
        decreases members.len() - i,
    {
        if members[i].0 == wanted {
            proof {
                let at = i as int;
                assert(is_first_named(all, key@, at));
                let chosen = choose|k: int| is_first_named(all, key@, k);
                lemma_first_named_unique(all, key@, at, chosen);
            }
            return Some(&members[i].1);
        }
        i += 1;
    }
    proof {
        assert forall|k: int| !is_first_named(all, key@, k) by {
            if 0 <= k < all.len() {
                assert(all[k].0 != key@);
            }
        }
    }
    None
}

/// What `serde_json::from_str` makes of a text when asked for a
/// `serde_json::Value`: the document it reads, or the text of the error it
/// reports. Nothing more is assumed of it.
pub uninterp spec fn json_parse(text: Seq<char>) -> Result<JsonView, Seq<char>>;

/// `serde_json::Value`, the parser's own document type. It is only handed
/// from the parser to [`json_of_value`]; nothing is known of what it holds.
#[verifier::external_type_specification]
#[verifier::external_body]
pub struct ExValue(Value);

/// Copies a `serde_json::Value` into a [`Json`], variant by variant. A number
/// becomes `Unsigned` where `Number::as_u64` gives it, `Negative` where only
/// `Number::as_i64` does, and `Decimal` otherwise. Members of an object come
/// in the order in which `serde_json::Map::iter` hands them out.
///
/// Not verified, and nothing is claimed of the result.
#[verifier::external_body]
fn json_of_value(value: &Value) -> Json {
    match value {
        Value::Null => Json::Null,
        Value::Bool(b) => Json::Bool(*b),
        Value::Number(n) => match (n.as_u64(), n.as_i64()) {
            (Some(u), _) => Json::Unsigned(u),
            (None, Some(i)) => Json::Negative(i),
            (None, None) => Json::Decimal,
        },
        Value::String(s) => Json::Text(s.clone()),
        Value::Array(a) => Json::Array(a.iter().map(json_of_value).collect()),
        Value::Object(m) => {
            Json::Object(m.iter().map(|(k, v)| (k.clone(), json_of_value(v))).collect())
        },
    }
}

/// Parses a text with `serde_json::from_str`.
///
/// Not verified. The contract only gives the outcome its name: the same text
/// always parses to the same document or fails with the same message, and
/// [`json_parse`] stands for that outcome.
#[verifier::external_body]
pub(crate) fn parse_json(text: &str) -> (parsed: Result<Json, String>)
    ensures
        viewed(parsed) == json_parse(text@),
{
    match serde_json::from_str::<Value>(text) {
        Ok(value) => Ok(json_of_value(&value)),
        Err(error) => Err(error.to_string()),
    }
}

} // verus!
