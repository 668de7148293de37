//! JSON values as the protocol sees them.

use vstd::prelude::*;
use vstd::string::*;
use crate::text::{parse_unsigned, same_text, unsigned_value};

verus! {

/// A JSON value. A number is held as its decimal text, an object as its
/// members in the order they were written.
#[derive(Debug, PartialEq, Eq)]
pub enum Json {
    Null,
    Bool(bool),
    Number(String),
    Text(String),
    Array(Vec<Json>),
    Object(Vec<(String, Json)>),
}

/// The mathematical value of a [`Json`].
pub enum JsonValue {
    Null,
    Bool(bool),
    Number(Seq<char>),
    Text(Seq<char>),
    Array(Seq<JsonValue>),
    Object(Seq<(Seq<char>, JsonValue)>),
}

/// The values of the items of an array.
pub open spec fn items_of(items: Seq<Json>) -> Seq<JsonValue>
    decreases items,
{
    Seq::new(
        items.len(),
        |i: int|
            if 0 <= i < items.len() {
                items[i]@
            } else {
                JsonValue::Null
            },
    )
}

/// The keys and values of the members of an object.
pub open spec fn members_of(members: Seq<(String, Json)>) -> Seq<(Seq<char>, JsonValue)>
    decreases members,
{
    Seq::new(
        members.len(),
        |i: int|
            if 0 <= i < members.len() {
                (members[i].0@, members[i].1@)
            } else {
                (Seq::empty(), JsonValue::Null)
            },
    )
}

impl View for Json {
    type V = JsonValue;

    open spec fn view(&self) -> JsonValue
        decreases self,
    {
        match self {
            Json::Null => JsonValue::Null,
            Json::Bool(b) => JsonValue::Bool(*b),
            Json::Number(text) => JsonValue::Number(text@),
            Json::Text(text) => JsonValue::Text(text@),
            Json::Array(items) => JsonValue::Array(items_of(items@)),
            Json::Object(members) => JsonValue::Object(members_of(members@)),
        }
    }
}

/// The value of the last member under `key`, if there is one: a later member
/// replaces an earlier one of the same key.
pub open spec fn find(members: Seq<(Seq<char>, JsonValue)>, key: Seq<char>) -> Option<JsonValue>
    decreases members.len(),
{
    if members.len() == 0 {
        None
    } else if members.last().0 == key {
        Some(members.last().1)
    } else {
        find(members.drop_last(), key)
    }
}

impl JsonValue {
    /// The member under `key` of an object that has one.
    pub open spec fn lookup(self, key: Seq<char>) -> Option<JsonValue> {
        match self {
            JsonValue::Object(members) => find(members, key),
            _ => None,
        }
    }

    /// The member under `key`, or null where there is none: where the value is
    /// no object, or has no such member.
    pub open spec fn member(self, key: Seq<char>) -> JsonValue {
        match self.lookup(key) {
            Some(value) => value,
            None => JsonValue::Null,
        }
    }

    /// The characters of a string.
    pub open spec fn as_text(self) -> Option<Seq<char>> {
        match self {
            JsonValue::Text(text) => Some(text),
            _ => None,
        }
    }

    /// A number that is written as an unsigned integer of 64 bits.
    pub open spec fn as_unsigned(self) -> Option<u64> {
        match self {
            JsonValue::Number(text) => unsigned_value(text),
            _ => None,
        }
    }

    /// The truth value of a boolean.
    pub open spec fn as_flag(self) -> Option<bool> {
        match self {
            JsonValue::Bool(b) => Some(b),
            _ => None,
        }
    }
}

impl Clone for Json {
    fn clone(&self) -> (copy: Self)
        ensures
            copy@ == self@,
        decreases self,
    {
        match self {
            Json::Null => Json::Null,
            Json::Bool(b) => Json::Bool(*b),
            Json::Number(text) => Json::Number(text.clone()),
            Json::Text(text) => Json::Text(text.clone()),
            Json::Array(items) => {
                let mut copies: Vec<Json> = Vec::new();
                let mut i: usize = 0;
                while i < items.len()
                    invariant
                        i <= items.len(),
                        copies.len() == i,
                        forall|k: int| 0 <= k < i ==> (#[trigger] copies[k])@ == items[k]@,
                        forall|k: int|
                            0 <= k < items.len() ==> decreases_to!(self => #[trigger] items[k]),
                    decreases items.len() - i,
                {
                    copies.push(items[i].clone());
                    i += 1;
                }
                assert(items_of(copies@) =~= items_of(items@));
                Json::Array(copies)
            },
            Json::Object(members) => {
                let mut copies: Vec<(String, Json)> = Vec::new();
                let mut i: usize = 0;
                while i < members.len()
                    invariant
                        i <= members.len(),
                        copies.len() == i,
                        forall|k: int|
                            0 <= k < i ==> (#[trigger] copies[k]).0@ == members[k].0@
                                && copies[k].1@ == members[k].1@,
                        forall|k: int|
                            0 <= k < members.len() ==> decreases_to!(self => (#[trigger] members[k]).1),
                    decreases members.len() - i,
                {
                    copies.push((members[i].0.clone(), members[i].1.clone()));
                    i += 1;
                }
                assert(members_of(copies@) =~= members_of(members@));
                Json::Object(copies)
            },
        }
    }
}

/// One member of an object: `value` under `key`.
pub fn member(key: &str, value: Json) -> (entry: (String, Json))
    ensures
        entry.0@ == key@,
        entry.1 == value,
{
    (String::from_str(key), value)
}

impl Json {
    /// The string that holds the characters of `text`.
    pub fn text(text: &str) -> (json: Json)
        ensures
            json@ == JsonValue::Text(text@),
    {
        Json::Text(String::from_str(text))
    }

    /// The member under `key` of an object that has one.
    pub fn get(&self, key: &str) -> (found: Option<&Json>)
        ensures
            match found {
                Some(value) => self@.lookup(key@) == Some(value@),
                None => self@.lookup(key@) is None,
            },
    {
        match self {
            Json::Object(members) => {
                let ghost all = members_of(members@);
                let mut i: usize = members.len();
                assert(all.take(i as int) =~= all);
                while i > 0
                    invariant
                        i <= members.len(),
                        all == members_of(members@),
                        self@ == JsonValue::Object(all),
                        find(all, key@) == find(all.take(i as int), key@),
                    decreases i,
                {
                    i -= 1;
                    let ghost prefix = all.take(i + 1);
                    assert(prefix.last() == (members[i as int].0@, members[i as int].1@));
                    assert(prefix.drop_last() =~= all.take(i as int));
                    if same_text(members[i].0.as_str(), key) {
                        return Some(&members[i].1);
                    }
                }
                assert(all.take(0).len() == 0);
                None
            },
            _ => None,
        }
    }

    /// The characters of a string.
    pub fn as_str(&self) -> (text: Option<&str>)
        ensures
            match text {
                Some(t) => self@.as_text() == Some(t@),
                None => self@.as_text() is None,
            },
    {
        match self {
            Json::Text(text) => Some(text.as_str()),
            _ => None,
        }
    }

    /// A number that is written as an unsigned integer of 64 bits.
    pub fn as_u64(&self) -> (number: Option<u64>)
        ensures
            number == self@.as_unsigned(),
    {
        match self {
            Json::Number(text) => parse_unsigned(text.as_str()),
            _ => None,
        }
    }

    /// The truth value of a boolean.
    pub fn as_bool(&self) -> (flag: Option<bool>)
        ensures
            flag == self@.as_flag(),
    {
        match self {
            Json::Bool(b) => Some(*b),
            _ => None,
        }
    }
}

} // verus!
