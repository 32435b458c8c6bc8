//! JSON values.
//!
//! A message of the protocol is a JSON text. The library works on the value
//! that the text denotes: a tree of nulls, booleans, numbers, strings,
//! arrays and objects. An object keeps its members in the order in which
//! they were written.
use vstd::prelude::*;

use crate::text::same_text;

verus! {

/// A JSON number: an integer that fits sixty-four bits, or the text of any
/// other number.
#[derive(Debug, PartialEq)]
pub enum Number {
    /// An integer that is not negative.
    PosInt(u64),
    /// A negative integer.
    NegInt(i64),
    /// A number with a fraction or an exponent, as it is written.
    Float(String),
}

/// A JSON value.
#[derive(Debug, PartialEq)]
pub enum Json {
    Null,
    Bool(bool),
    Number(Number),
    String(String),
    Array(Vec<Json>),
    Object(Vec<(String, Json)>),
}

/// What a number is.
pub ghost enum NumberView {
    PosInt(u64),
    NegInt(i64),
    Float(Seq<char>),
}

/// What a JSON value is.
pub ghost enum JsonView {
    Null,
    Bool(bool),
    Number(NumberView),
    String(Seq<char>),
    Array(Seq<JsonView>),
    Object(Seq<(Seq<char>, JsonView)>),
}

impl View for Number {
    type V = NumberView;

    open spec fn view(&self) -> NumberView {
        match self {
            Number::PosInt(n) => NumberView::PosInt(*n),
            Number::NegInt(n) => NumberView::NegInt(*n),
            Number::Float(text) => NumberView::Float(text@),
        }
    }
}

/// What a JSON value is.
pub open spec fn json_view(json: Json) -> JsonView
    decreases json,
{
    match json {
        Json::Null => JsonView::Null,
        Json::Bool(b) => JsonView::Bool(b),
        Json::Number(n) => JsonView::Number(n@),
        Json::String(text) => JsonView::String(text@),
        Json::Array(items) => JsonView::Array(
            Seq::new(
                items@.len(),
                |i: int|
                    if 0 <= i < items@.len() {
                        json_view(items@[i])
                    } else {
                        JsonView::Null
                    },
            ),
        ),
        Json::Object(members) => JsonView::Object(
            Seq::new(
                members@.len(),
                |i: int|
                    if 0 <= i < members@.len() {
                        (members@[i].0@, json_view(members@[i].1))
                    } else {
                        (Seq::empty(), JsonView::Null)
                    },
            ),
        ),
    }
}

impl View for Json {
    type V = JsonView;

    open spec fn view(&self) -> JsonView {
        json_view(*self)
    }
}

impl Number {
    /// A copy of this number.
    pub fn duplicate(&self) -> (copy: Number)
        ensures
            copy@ == self@,
    {
        match self {
            Number::PosInt(n) => Number::PosInt(*n),
            Number::NegInt(n) => Number::NegInt(*n),
            Number::Float(text) => Number::Float(text.clone()),
        }
    }
}

/// What the items of an array are.
pub open spec fn items_view(items: Seq<Json>) -> Seq<JsonView> {
    Seq::new(items.len(), |i: int| items[i]@)
}

/// What the members of an object are.
pub open spec fn members_view(members: Seq<(String, Json)>) -> Seq<(Seq<char>, JsonView)> {
    Seq::new(members.len(), |i: int| (members[i].0@, members[i].1@))
}

/// An array is its items, and an object its members.
pub proof fn lemma_json_view(json: Json)
    ensures
        json matches Json::Array(items) ==> json@ == JsonView::Array(items_view(items@)),
        json matches Json::Object(members) ==> json@ == JsonView::Object(members_view(members@)),
{
    reveal_with_fuel(json_view, 2);
    match json {
        Json::Array(items) => {
            assert(json@->Array_0 =~= items_view(items@));
        },
        Json::Object(members) => {
            assert(json@->Object_0 =~= members_view(members@));
        },
        _ => {},
    }
}

fn duplicate_items(items: &Vec<Json>) -> (copies: Vec<Json>)
    ensures
        items_view(copies@) == items_view(items@),
    decreases items,
{
    let mut copies: Vec<Json> = Vec::new();
    let mut i: usize = 0;
    while i < items.len()
        invariant
            i <= items.len(),
            copies.len() == i,
            forall|j: int| 0 <= j < i ==> copies[j]@ == items[j]@,
        decreases items.len() - i,
    {
        copies.push(items[i].duplicate());
        i += 1;
    }
    assert(items_view(copies@) =~= items_view(items@));
    copies
}

fn duplicate_members(members: &Vec<(String, Json)>) -> (copies: Vec<(String, Json)>)
    ensures
        members_view(copies@) == members_view(members@),
    decreases members,
{
    let mut copies: Vec<(String, Json)> = Vec::new();
    let mut i: usize = 0;
    while i < members.len()
        invariant
            i <= members.len(),
            copies.len() == i,
            forall|j: int|
                0 <= j < i ==> copies[j].0@ == members[j].0@ && copies[j].1@ == members[j].1@,
        decreases members.len() - i,
    {
        copies.push((members[i].0.clone(), members[i].1.duplicate()));
        i += 1;
    }
    assert(members_view(copies@) =~= members_view(members@));
    copies
}

/// The value of the first member from `from` on that has the key.
pub open spec fn lookup(members: Seq<(Seq<char>, JsonView)>, key: Seq<char>, from: int) -> Option<
    JsonView,
>
    decreases members.len() - from,
{
    if from < 0 || from >= members.len() {
        None
    } else if members[from].0 == key {
        Some(members[from].1)
    } else {
        lookup(members, key, from + 1)
    }
}

impl JsonView {
    /// The value of the first member with the key, for an object that has
    /// such a member.
    pub open spec fn get(self, key: Seq<char>) -> Option<JsonView> {
        match self {
            JsonView::Object(members) => lookup(members, key, 0),
            _ => None,
        }
    }

    /// Whether this is an object with a member of that key.
    pub open spec fn has(self, key: Seq<char>) -> bool {
        self.get(key) is Some
    }
}

/// A lookup finds a member that has the key, where none before it has.
pub proof fn lemma_lookup_finds(
    members: Seq<(Seq<char>, JsonView)>,
    key: Seq<char>,
    from: int,
    at: int,
)
    requires
        0 <= from <= at < members.len(),
        members[at].0 == key,
        forall|i: int| from <= i < at ==> members[i].0 != key,
    ensures
        lookup(members, key, from) == Some(members[at].1),
    decreases at - from,
{
    if from < at {
        lemma_lookup_finds(members, key, from + 1, at);
    }
}

/// A lookup finds nothing where no member has the key.
pub proof fn lemma_lookup_misses(members: Seq<(Seq<char>, JsonView)>, key: Seq<char>, from: int)
    requires
        0 <= from,
        forall|i: int| from <= i < members.len() ==> members[i].0 != key,
    ensures
        lookup(members, key, from) is None,
    decreases members.len() - from,
{
    if from < members.len() {
        lemma_lookup_misses(members, key, from + 1);
    }
}

impl Json {
    /// The value of the first member with the key, for an object that has
    /// such a member.
    pub fn get(&self, key: &str) -> (value: Option<&Json>)
        ensures
            match value {
                Some(found) => self@.get(key@) == Some(found@),
                None => self@.get(key@) is None,
            },
    {
        match self {
            Json::Object(members) => {
                proof {
                    lemma_json_view(*self);
                }
                let mut i: usize = 0;
                while i < members.len()
                    invariant
                        i <= members.len(),
                        self@ == JsonView::Object(members_view(members@)),
                        forall|j: int| 0 <= j < i ==> members_view(members@)[j].0 != key@,
                    decreases members.len() - i,
                {
                    if same_text(members[i].0.as_str(), key) {
                        proof {
                            lemma_lookup_finds(members_view(members@), key@, 0, i as int);
                        }
                        return Some(&members[i].1);
                    }
                    i += 1;
                }
                proof {
                    lemma_lookup_misses(members_view(members@), key@, 0);
                }
                None
            },
            _ => None,
        }
    }

    /// The text of a string.
    pub fn as_str(&self) -> (text: Option<&str>)
        ensures
            match text {
                Some(found) => self@ == JsonView::String(found@),
                None => !(self@ is String),
            },
    {
        match self {
            Json::String(text) => Some(text.as_str()),
            _ => None,
        }
    }

    /// The items of an array.
    pub fn as_array(&self) -> (items: Option<&Vec<Json>>)
        ensures
            match items {
                Some(found) => self@ == JsonView::Array(items_view(found@)),
                None => !(self@ is Array),
            },
    {
        proof {
            lemma_json_view(*self);
        }
        match self {
            Json::Array(items) => Some(items),
            _ => None,
        }
    }

    /// The members of an object.
    pub fn as_object(&self) -> (members: Option<&Vec<(String, Json)>>)
        ensures
            match members {
                Some(found) => self@ == JsonView::Object(members_view(found@)),
                None => !(self@ is Object),
            },
    {
        proof {
            lemma_json_view(*self);
        }
        match self {
            Json::Object(members) => Some(members),
            _ => None,
        }
    }

    /// The string of a text.
    pub fn string(text: &str) -> (json: Json)
        ensures
            json@ == JsonView::String(text@),
    {
        Json::String(text.to_owned())
    }

    /// The array of the items.
    pub fn array(items: Vec<Json>) -> (json: Json)
        ensures
            json@ == JsonView::Array(items_view(items@)),
    {
        let json = Json::Array(items);
        proof {
            lemma_json_view(json);
        }
        json
    }

    /// The object of the members.
    pub fn object(members: Vec<(String, Json)>) -> (json: Json)
        ensures
            json@ == JsonView::Object(members_view(members@)),
    {
        let json = Json::Object(members);
        proof {
            lemma_json_view(json);
        }
        json
    }

    /// A copy of this value.
    pub fn duplicate(&self) -> (copy: Json)
        ensures
            copy@ == self@,
        decreases self,
    {
        match self {
            Json::Null => Json::Null,
            Json::Bool(b) => Json::Bool(*b),
            Json::Number(n) => Json::Number(n.duplicate()),
            Json::String(text) => Json::String(text.clone()),
            Json::Array(items) => {
                let copy = Json::Array(duplicate_items(items));
                proof {
                    lemma_json_view(copy);
                    lemma_json_view(*self);
                }
                copy
            },
            Json::Object(members) => {
                let copy = Json::Object(duplicate_members(members));
                proof {
                    lemma_json_view(copy);
                    lemma_json_view(*self);
                }
                copy
            },
        }
    }
}

} // verus!
