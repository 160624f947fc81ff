//! Loosely structured provider payloads.
//!
//! A [`Json`] value is a tree of plain data. Numbers are held as [`Fixed`];
//! an object keeps its members in the order they were written, and a name is
//! looked up from the front.

use vstd::prelude::*;
use crate::fixed::Fixed;
use crate::text::str_eq;

verus! {

/// A value of the kind that providers send: null, a truth value, a number,
/// text, a list, or a record of named members.
#[derive(Debug)]
pub enum Json {
    Null,
    Bool(bool),
    Number(Fixed),
    Text(String),
    Array(Vec<Json>),
    Object(Vec<(String, Json)>),
}

/// The position of the first member called `key`, or the number of members
/// where none is.
pub open spec fn key_index<V>(members: Seq<(String, V)>, key: Seq<char>) -> nat
    decreases members.len(),
{
    if members.len() == 0 || members[0].0@ == key {
        0
    } else {
        1 + key_index(members.skip(1), key)
    }
}

/// A position before which no member is called `key`, and which is the end
/// or a member called `key`, is the position that `key_index` gives.
pub proof fn lemma_key_index<V>(members: Seq<(String, V)>, key: Seq<char>, k: int)
    requires
        0 <= k <= members.len(),
        forall|i: int| 0 <= i < k ==> (#[trigger] members[i]).0@ != key,
        k == members.len() || members[k].0@ == key,
    ensures
        key_index(members, key) == k,
    decreases k,
{
    if k > 0 {
        let rest = members.skip(1);
        assert forall|i: int| 0 <= i < k - 1 implies (#[trigger] rest[i]).0@ != key by {}
        lemma_key_index(rest, key, k - 1);
    }
}

/// The position of the first member called `key`, or the number of members
/// where none is.
pub fn find_member<V>(members: &Vec<(String, V)>, key: &str) -> (i: usize)
    ensures
        i == key_index(members@, key@),
        i <= members@.len(),
{
    let mut i: usize = 0;
    while i < members.len()
        invariant
            i <= members.len(),
            forall|k: int| 0 <= k < i ==> (#[trigger] members@[k]).0@ != key@,
        decreases members.len() - i,
    {
        if str_eq(members[i].0.as_str(), key) {
            proof {
                lemma_key_index(members@, key@, i as int);
            }
            return i;
        }
        i = i + 1;
    }
    proof {
        lemma_key_index(members@, key@, i as int);
    }
    i
}

impl Json {
    /// The member called `key` of an object; `None` for anything else.
    pub open spec fn field(self, key: Seq<char>) -> Option<Json> {
        match self {
            Json::Object(members) => {
                let i = key_index(members@, key);
                if i < members@.len() {
                    Some(members@[i as int].1)
                } else {
                    None
                }
            },
            _ => None,
        }
    }

    /// The characters of a string value.
    pub open spec fn text(self) -> Option<Seq<char>> {
        match self {
            Json::Text(s) => Some(s@),
            _ => None,
        }
    }

    /// The elements of an array.
    pub open spec fn items(self) -> Option<Seq<Json>> {
        match self {
            Json::Array(items) => Some(items@),
            _ => None,
        }
    }

    /// The truth value of a boolean.
    pub open spec fn flag(self) -> Option<bool> {
        match self {
            Json::Bool(b) => Some(b),
            _ => None,
        }
    }

    /// The value of a number.
    pub open spec fn number(self) -> Option<Fixed> {
        match self {
            Json::Number(n) => Some(n),
            _ => None,
        }
    }

    /// The member called `key`, if this is an object that has one.
    pub fn get(&self, key: &str) -> (r: Option<&Json>)
        ensures
            match r {
                Some(v) => self.field(key@) == Some(*v),
                None => self.field(key@) is None,
            },
    {
        match self {
            Json::Object(members) => {
                let i = find_member(members, key);
                if i < members.len() {
                    Some(&members[i].1)
                } else {
                    None
                }
            },
            _ => None,
        }
    }

    /// The string, if this is one.
    pub fn as_str(&self) -> (r: Option<&str>)
        ensures
            match r {
                Some(s) => self.text() == Some(s@),
                None => self.text() is None,
            },
    {
        match self {
            Json::Text(s) => Some(s.as_str()),
            _ => None,
        }
    }

    /// The elements, if this is an array.
    pub fn as_array(&self) -> (r: Option<&Vec<Json>>)
        ensures
            match r {
                Some(items) => self.items() == Some(items@),
                None => self.items() is None,
            },
    {
        match self {
            Json::Array(items) => Some(items),
            _ => None,
        }
    }

    /// The truth value, if this is a boolean.
    pub fn as_bool(&self) -> (r: Option<bool>)
        ensures
            r == self.flag(),
    {
        match self {
            Json::Bool(b) => Some(*b),
            _ => None,
        }
    }

    /// The value, if this is a number.
    pub fn as_number(&self) -> (r: Option<Fixed>)
        ensures
            r == self.number(),
    {
        match self {
            Json::Number(n) => Some(*n),
            _ => None,
        }
    }
}

} // verus!
