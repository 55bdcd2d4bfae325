//! The library's own model of the self-describing documents that the server
//! exchanges: a tree of objects, sequences and scalars.  All lookups into a
//! document are verified against the spec functions defined here.
//!
//! Numbers that fit a signed 64-bit integer are held as `Int`; any other
//! number (too large, or not an integer) is held as `OtherNum`, of which
//! nothing more is known — the commands read only booleans, strings and
//! small integers.

use vstd::prelude::*;
use crate::strutil::str_eq;

verus! {

/// One node of a document tree.
#[derive(Debug, PartialEq)]
pub enum Json {
    Null,
    Bool(bool),
    Int(i64),
    /// A number that is not representable as `i64`.
    OtherNum,
    Str(String),
    Arr(Vec<Json>),
    Obj(Vec<(String, Json)>),
}

/// First binding of `key` among `fields`, if any.
pub open spec fn lookup_field(fields: Seq<(String, Json)>, key: Seq<char>) -> Option<Json>
    decreases fields.len(),
{
    if fields.len() == 0 {
        None
    } else if fields[0].0@ == key {
        Some(fields[0].1)
    } else {
        lookup_field(fields.drop_first(), key)
    }
}

/// The member `key` of `j`, when `j` is an object that has it.
pub open spec fn spec_get(j: Json, key: Seq<char>) -> Option<Json> {
    match j {
        Json::Obj(fields) => lookup_field(fields@, key),
        _ => None,
    }
}

/// The view of `j` when it is a string.
pub open spec fn spec_as_str(j: Json) -> Option<Seq<char>> {
    match j {
        Json::Str(s) => Some(s@),
        _ => None,
    }
}

/// The value of `j` when it is an integer.
pub open spec fn spec_as_i64(j: Json) -> Option<i64> {
    match j {
        Json::Int(n) => Some(n),
        _ => None,
    }
}

/// The value of `j` when it is a boolean.
pub open spec fn spec_as_bool(j: Json) -> Option<bool> {
    match j {
        Json::Bool(b) => Some(b),
        _ => None,
    }
}

/// The elements of `j` when it is a sequence.
pub open spec fn spec_as_arr(j: Json) -> Option<Seq<Json>> {
    match j {
        Json::Arr(items) => Some(items@),
        _ => None,
    }
}

/// String member `key` of object `j`, as a character sequence.
pub open spec fn spec_get_str(j: Json, key: Seq<char>) -> Option<Seq<char>> {
    match spec_get(j, key) {
        Some(v) => spec_as_str(v),
        None => None,
    }
}

/// Boolean member `key` of object `j`.
pub open spec fn spec_get_bool(j: Json, key: Seq<char>) -> Option<bool> {
    match spec_get(j, key) {
        Some(v) => spec_as_bool(v),
        None => None,
    }
}

/// Integer member `key` of object `j`.
pub open spec fn spec_get_i64(j: Json, key: Seq<char>) -> Option<i64> {
    match spec_get(j, key) {
        Some(v) => spec_as_i64(v),
        None => None,
    }
}

/// Sequence member `key` of object `j`.
pub open spec fn spec_get_arr(j: Json, key: Seq<char>) -> Option<Seq<Json>> {
    match spec_get(j, key) {
        Some(v) => spec_as_arr(v),
        None => None,
    }
}

/// String member `key`, with `default` standing in when it is absent or not
/// a string.
pub open spec fn spec_get_str_or(j: Json, key: Seq<char>, default: Seq<char>) -> Seq<char> {
    match spec_get_str(j, key) {
        Some(s) => s,
        None => default,
    }
}

/// Boolean member `key`, with `default` standing in when it is absent or not
/// a boolean.
pub open spec fn spec_get_bool_or(j: Json, key: Seq<char>, default: bool) -> bool {
    match spec_get_bool(j, key) {
        Some(b) => b,
        None => default,
    }
}

/// Member `k2` of the object member `k1` of `j`.
pub open spec fn spec_get2(j: Json, k1: Seq<char>, k2: Seq<char>) -> Option<Json> {
    match spec_get(j, k1) {
        Some(v) => spec_get(v, k2),
        None => None,
    }
}

impl Json {
    /// Member `key` of this node, when the node is an object that has it.
    pub fn get<'a>(&'a self, key: &str) -> (r: Option<&'a Json>)
        ensures
            match r {
                Some(v) => spec_get(*self, key@) == Some(*v),
                None => spec_get(*self, key@) is None,
            },
    {
        match self {
            Json::Obj(fields) => {
                let n = fields.len();
                proof {
                    assert(fields@.skip(0) =~= fields@);
                }
                let mut i: usize = 0;
                while i < n
                    invariant
                        *self == Json::Obj(*fields),
                        n == fields@.len(),
                        i <= n,
                        lookup_field(fields@, key@) == lookup_field(fields@.skip(i as int), key@),
                    decreases n - i,
                {
                    proof {
                        assert(fields@.skip(i as int)[0] == fields@[i as int]);
                    }
                    if str_eq(fields[i].0.as_str(), key) {
                        proof {
                            assert(lookup_field(fields@.skip(i as int), key@)
                                == Some(fields@[i as int].1));
                        }
                        return Some(&fields[i].1);
                    }
                    proof {
                        assert(fields@.skip(i as int).drop_first() =~= fields@.skip(i as int + 1));
                    }
                    i += 1;
                }
                proof {
                    assert(fields@.skip(n as int) =~= Seq::<(String, Json)>::empty());
                }
                None
            },
            _ => None,
        }
    }

    /// This node's characters, when it is a string.
    pub fn as_str<'a>(&'a self) -> (r: Option<&'a str>)
        ensures
            match r {
                Some(s) => spec_as_str(*self) == Some(s@),
                None => spec_as_str(*self) is None,
            },
    {
        match self {
            Json::Str(s) => Some(s.as_str()),
            _ => None,
        }
    }

    /// This node's value, when it is an integer.
    pub fn as_i64(&self) -> (r: Option<i64>)
        ensures
            r == spec_as_i64(*self),
    {
        match self {
            Json::Int(n) => Some(*n),
            _ => None,
        }
    }

    /// This node's value, when it is a boolean.
    pub fn as_bool(&self) -> (r: Option<bool>)
        ensures
            r == spec_as_bool(*self),
    {
        match self {
            Json::Bool(b) => Some(*b),
            _ => None,
        }
    }

    /// This node's elements, when it is a sequence.
    pub fn as_arr<'a>(&'a self) -> (r: Option<&'a Vec<Json>>)
        ensures
            match r {
                Some(items) => spec_as_arr(*self) == Some(items@),
                None => spec_as_arr(*self) is None,
            },
    {
        match self {
            Json::Arr(items) => Some(items),
            _ => None,
        }
    }

    /// Is this node a number?  Mirrors the loose typing of the document:
    /// both representable and unrepresentable numbers answer yes.
    pub fn is_number(&self) -> (r: bool)
        ensures
            r == (*self matches Json::Int(_) || *self matches Json::OtherNum),
    {
        match self {
            Json::Int(_) => true,
            Json::OtherNum => true,
            _ => false,
        }
    }

    /// String member `key`, when present.
    pub fn get_str<'a>(&'a self, key: &str) -> (r: Option<&'a str>)
        ensures
            match r {
                Some(s) => spec_get_str(*self, key@) == Some(s@),
                None => spec_get_str(*self, key@) is None,
            },
    {
        match self.get(key) {
            Some(v) => v.as_str(),
            None => None,
        }
    }

    /// String member `key`, with `default` standing in when absent.
    pub fn get_str_or<'a>(&'a self, key: &str, default: &'a str) -> (r: &'a str)
        ensures
            r@ == spec_get_str_or(*self, key@, default@),
    {
        match self.get_str(key) {
            Some(s) => s,
            None => default,
        }
    }

    /// Boolean member `key`, with `default` standing in when absent.
    pub fn get_bool_or(&self, key: &str, default: bool) -> (r: bool)
        ensures
            r == spec_get_bool_or(*self, key@, default),
    {
        match self.get(key) {
            Some(v) => match v.as_bool() {
                Some(b) => b,
                None => default,
            },
            None => default,
        }
    }

    /// Integer member `key`, when present.
    pub fn get_i64(&self, key: &str) -> (r: Option<i64>)
        ensures
            r == spec_get_i64(*self, key@),
    {
        match self.get(key) {
            Some(v) => v.as_i64(),
            None => None,
        }
    }

    /// Member `k2` of the object member `k1`, when present.
    pub fn get2<'a>(&'a self, k1: &str, k2: &str) -> (r: Option<&'a Json>)
        ensures
            match r {
                Some(v) => spec_get2(*self, k1@, k2@) == Some(*v),
                None => spec_get2(*self, k1@, k2@) is None,
            },
    {
        match self.get(k1) {
            Some(v) => v.get(k2),
            None => None,
        }
    }
}

} // verus!
