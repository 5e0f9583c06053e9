//! JSON data as the tools and the dispatcher read and build it.
//!
//! `Json` is a tree of plain values. Its model, `JsonModel`, holds strings as
//! sequences of characters and arrays and objects as sequences. An object is a
//! list of members in the order in which they were written; where a key occurs
//! more than once, the last occurrence is the one that a lookup finds.

use vstd::prelude::*;

verus! {

/// A JSON number: a non-negative integer, a negative integer, or a real
/// number held by the bits of its IEEE 754 double-precision form. The
/// library compares and copies numbers and never computes with a real one.
#[derive(Debug, Clone, Copy, PartialEq, Eq)]
pub enum Number {
    PosInt(u64),
    NegInt(i64),
    Float(u64),
}

/// A JSON value.
#[derive(Debug, PartialEq)]
pub enum Json {
    Null,
    Bool(bool),
    Number(Number),
    Text(String),
    Array(Vec<Json>),
    Object(Vec<Member>),
}

/// A member of a JSON object: a key and the value under it.
#[derive(Debug, PartialEq)]
pub struct Member {
    pub key: String,
    pub value: Json,
}

/// Model of a [`Json`] value.
pub enum JsonModel {
    Null,
    Bool(bool),
    Number(Number),
    Text(Seq<char>),
    Array(Seq<JsonModel>),
    Object(Seq<(Seq<char>, JsonModel)>),
}

/// The value under the last member of `members` whose key is `key`.
pub open spec fn lookup(members: Seq<(Seq<char>, JsonModel)>, key: Seq<char>) -> Option<
    JsonModel,
>
    decreases members.len(),
{
    if members.len() == 0 {
        None
    } else if members.last().0 == key {
        Some(members.last().1)
    } else {
        lookup(members.drop_last(), key)
    }
}

/// The text of a string value, or `fallback` for any other value.
pub open spec fn text_or(value: JsonModel, fallback: Seq<char>) -> Seq<char> {
    match value.as_str() {
        Some(text) => text,
        None => fallback,
    }
}

/// The value of a non-negative integer, or `fallback` for any other value.
pub open spec fn number_or(value: JsonModel, fallback: u64) -> u64 {
    match value.as_u64() {
        Some(n) => n,
        None => fallback,
    }
}

impl JsonModel {
    /// The member of an object under `key`; `None` for a missing key and for
    /// a value that is no object.
    pub open spec fn get(self, key: Seq<char>) -> Option<JsonModel> {
        match self {
            JsonModel::Object(members) => lookup(members, key),
            _ => None,
        }
    }

    /// The member under `key`, or `Null` where `get` finds none.
    pub open spec fn index(self, key: Seq<char>) -> JsonModel {
        match self.get(key) {
            Some(value) => value,
            None => JsonModel::Null,
        }
    }

    /// The characters of a string value.
    pub open spec fn as_str(self) -> Option<Seq<char>> {
        match self {
            JsonModel::Text(s) => Some(s),
            _ => None,
        }
    }

    /// The value of a non-negative integer.
    pub open spec fn as_u64(self) -> Option<u64> {
        match self {
            JsonModel::Number(Number::PosInt(n)) => Some(n),
            _ => None,
        }
    }

    /// The items of an array.
    pub open spec fn as_array(self) -> Option<Seq<JsonModel>> {
        match self {
            JsonModel::Array(items) => Some(items),
            _ => None,
        }
    }
}

/// The model of a value: strings by their characters, arrays and objects by
/// the models of what they hold, in order.
pub open spec fn json_model(value: Json) -> JsonModel
    decreases value,
{
    match value {
        Json::Null => JsonModel::Null,
        Json::Bool(b) => JsonModel::Bool(b),
        Json::Number(n) => JsonModel::Number(n),
        Json::Text(s) => JsonModel::Text(s@),
        Json::Array(items) => JsonModel::Array(
            Seq::new(
                items@.len(),
                |i: int|
                    if 0 <= i < items@.len() {
                        json_model(items@[i])
                    } else {
                        JsonModel::Null
                    },
            ),
        ),
        Json::Object(members) => JsonModel::Object(
            Seq::new(
                members@.len(),
                |i: int|
                    if 0 <= i < members@.len() {
                        (members@[i].key@, json_model(members@[i].value))
                    } else {
                        (Seq::empty(), JsonModel::Null)
                    },
            ),
        ),
    }
}

impl DeepView for Json {
    type V = JsonModel;

    open spec fn deep_view(&self) -> JsonModel {
        json_model(*self)
    }
}

impl View for Json {
    type V = JsonModel;

    open spec fn view(&self) -> JsonModel {
        self.deep_view()
    }
}

impl DeepView for Member {
    type V = (Seq<char>, JsonModel);

    open spec fn deep_view(&self) -> (Seq<char>, JsonModel) {
        (self.key@, self.value.deep_view())
    }
}

impl View for Member {
    type V = (Seq<char>, JsonModel);

    open spec fn view(&self) -> (Seq<char>, JsonModel) {
        self.deep_view()
    }
}

/// The model of an array's items is the sequence of the items' models.
pub proof fn lemma_array_model(items: Vec<Json>)
    ensures
        Json::Array(items)@ == JsonModel::Array(items.deep_view()),
{
    assert(Json::Array(items)@->Array_0 =~= items.deep_view());
}

/// The model of an object's members is the sequence of the members' models.
pub proof fn lemma_object_model(members: Vec<Member>)
    ensures
        Json::Object(members)@ == JsonModel::Object(members.deep_view()),
{
    assert(Json::Object(members)@->Object_0 =~= members.deep_view());
}

impl Member {
    /// A member with the given key and value.
    pub fn new(key: &str, value: Json) -> (r: Member)
        ensures
            r@ == (key@, value@),
    {
        Member { key: key.to_string(), value }
    }
}

impl Json {
    /// A string value.
    pub fn text(s: &str) -> (r: Json)
        ensures
            r@ == JsonModel::Text(s@),
    {
        Json::Text(s.to_string())
    }

    /// A non-negative integer value.
    pub fn unsigned(n: u64) -> (r: Json)
        ensures
            r@ == JsonModel::Number(Number::PosInt(n)),
    {
        Json::Number(Number::PosInt(n))
    }

    /// An array of the given items.
    pub fn array(items: Vec<Json>) -> (r: Json)
        ensures
            r@ == JsonModel::Array(items.deep_view()),
    {
        proof {
            lemma_array_model(items);
        }
        Json::Array(items)
    }

    /// An object of the given members.
    pub fn object(members: Vec<Member>) -> (r: Json)
        ensures
            r@ == JsonModel::Object(members.deep_view()),
    {
        proof {
            lemma_object_model(members);
        }
        Json::Object(members)
    }

    /// The member of an object under `key`. `None` for a missing key and for
    /// a value that is no object.
    pub fn get(&self, key: &str) -> (r: Option<&Json>)
        ensures
            r.deep_view() == self@.get(key@),
    {
        match self {
            Json::Object(members) => {
                proof {
                    lemma_object_model(*members);
                }
                let wanted = key.to_string();
                let ghost all = members.deep_view();
                let mut i: usize = members.len();
                assert(all.take(i as int) =~= all);
                while i > 0
                    invariant
                        i <= members@.len(),
                        all == members.deep_view(),
                        self@.get(key@) == lookup(all, key@),
                        wanted@ == key@,
                        lookup(all, key@) == lookup(all.take(i as int), key@),
                    decreases i,
                {
                    i = i - 1;
                    proof {
                        let upto = all.take(i + 1);
                        assert(upto.last() == all[i as int]);
                        assert(upto.drop_last() =~= all.take(i as int));
                    }
                    if members[i].key == wanted {
                        assert(all[i as int] == (key@, members@[i as int].value@));
                        return Some(&members[i].value);
                    }
                }
                None
            },
            _ => None,
        }
    }

    /// The member under `key`, or `Null` where `get` finds none.
    pub fn index(&self, key: &str) -> (r: &Json)
        ensures
            r@ == self@.index(key@),
    {
        match self.get(key) {
            Some(value) => value,
            None => &Json::Null,
        }
    }

    /// The characters of a string value; `None` for any other value.
    pub fn as_str(&self) -> (r: Option<&str>)
        ensures
            r.deep_view() == self@.as_str(),
    {
        match self {
            Json::Text(s) => Some(s.as_str()),
            _ => None,
        }
    }

    /// The value of a non-negative integer; `None` for any other value.
    pub fn as_u64(&self) -> (r: Option<u64>)
        ensures
            r == self@.as_u64(),
    {
        match self {
            Json::Number(Number::PosInt(n)) => Some(*n),
            _ => None,
        }
    }

    /// The items of an array; `None` for any other value.
    pub fn as_array(&self) -> (r: Option<&Vec<Json>>)
        ensures
            r.deep_view() == self@.as_array(),
    {
        match self {
            Json::Array(items) => {
                proof {
                    lemma_array_model(*items);
                }
                Some(items)
            },
            _ => None,
        }
    }

    /// A copy of the value.
    pub fn duplicate(&self) -> (r: Json)
        ensures
            r@ == self@,
        decreases self,
    {
        match self {
            Json::Null => Json::Null,
            Json::Bool(b) => Json::Bool(*b),
            Json::Number(n) => Json::Number(*n),
            Json::Text(s) => Json::Text(s.clone()),
            Json::Array(items) => {
                let mut copy: Vec<Json> = Vec::new();
                let mut i: usize = 0;
                while i < items.len()
                    invariant
                        *self == Json::Array(*items),
                        i <= items@.len(),
                        copy@.len() == i,
                        forall|j: int| 0 <= j < i ==> copy@[j]@ == items@[j]@,
                    decreases items@.len() - i,
                {
                    proof {
                        assert(decreases_to!(*self => self->Array_0));
                        assert(decreases_to!(*items => items@[i as int]));
                    }
                    copy.push(items[i].duplicate());
                    i = i + 1;
                }
                proof {
                    lemma_array_model(*items);
                    lemma_array_model(copy);
                    assert(copy.deep_view() =~= items.deep_view());
                }
                Json::Array(copy)
            },
            Json::Object(members) => {
                let mut copy: Vec<Member> = Vec::new();
                let mut i: usize = 0;
                while i < members.len()
                    invariant
                        *self == Json::Object(*members),
                        i <= members@.len(),
                        copy@.len() == i,
                        forall|j: int| 0 <= j < i ==> copy@[j]@ == members@[j]@,
                    decreases members@.len() - i,
                {
                    proof {
                        assert(decreases_to!(*self => self->Object_0));
                        assert(decreases_to!(*members => members@[i as int]));
                        assert(decreases_to!(members@[i as int] => members@[i as int].value));
                    }
                    let member = Member {
                        key: members[i].key.clone(),
                        value: members[i].value.duplicate(),
                    };
                    copy.push(member);
                    i = i + 1;
                }
                proof {
                    lemma_object_model(*members);
                    lemma_object_model(copy);
                    assert(copy.deep_view() =~= members.deep_view());
                }
                Json::Object(copy)
            },
        }
    }
}

} // verus!
