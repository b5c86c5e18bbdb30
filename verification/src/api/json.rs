//! JSON values as the service's responses hold them, and how they are read.
use vstd::prelude::*;
use crate::utils::text::{decimal, push_char, push_decimal, str_equal};

verus! {

/// A JSON value. Object members keep their order; a key occurs at most once.
#[derive(Debug)]
pub enum Json {
    Null,
    Bool(bool),
    /// A non-negative integer.
    PosInt(u64),
    /// A negative integer.
    NegInt(i64),
    /// A number with a fraction or an exponent; its value is never read.
    Float,
    Str(String),
    Array(Vec<Json>),
    Object(Vec<(String, Json)>),
}

/// The member `key` of an object's members, from position `i` on.
pub open spec fn find_from(members: Seq<(String, Json)>, key: Seq<char>, i: int) -> Option<Json>
    decreases members.len() - i,
{
    if i < 0 || i >= members.len() {
        None
    } else if members[i].0@ == key {
        Some(members[i].1)
    } else {
        find_from(members, key, i + 1)
    }
}

/// `v.get(key)`: the member `key` when `v` is an object that has it.
pub open spec fn jfind(v: Json, key: Seq<char>) -> Option<Json> {
    match v {
        Json::Object(m) => find_from(m@, key, 0),
        _ => None,
    }
}

/// `v[key]`: the member `key`, or null.
pub open spec fn jget(v: Json, key: Seq<char>) -> Json {
    match jfind(v, key) {
        Some(x) => x,
        None => Json::Null,
    }
}

pub open spec fn jstr(v: Json) -> Option<Seq<char>> {
    match v {
        Json::Str(s) => Some(s@),
        _ => None,
    }
}

pub open spec fn ju64(v: Json) -> Option<u64> {
    match v {
        Json::PosInt(u) => Some(u),
        _ => None,
    }
}

pub open spec fn ji64(v: Json) -> Option<i64> {
    match v {
        Json::PosInt(u) => if u <= i64::MAX { Some(u as i64) } else { None },
        Json::NegInt(i) => Some(i),
        _ => None,
    }
}

pub open spec fn jbool(v: Json) -> Option<bool> {
    match v {
        Json::Bool(b) => Some(b),
        _ => None,
    }
}

pub open spec fn jarray(v: Json) -> Option<Seq<Json>> {
    match v {
        Json::Array(a) => Some(a@),
        _ => None,
    }
}

/// The elements of an array; nothing when `v` is not one.
pub open spec fn jarray_or_empty(v: Json) -> Seq<Json> {
    match v {
        Json::Array(a) => a@,
        _ => Seq::empty(),
    }
}

/// The decimal representation of a signed integer, as `to_string` gives it.
pub open spec fn signed_decimal(i: int) -> Seq<char> {
    if i < 0 {
        seq!['-'] + decimal((-i) as nat)
    } else {
        decimal(i as nat)
    }
}

impl Json {
    /// `self.get(key)`.
    pub fn find(&self, key: &str) -> (r: Option<&Json>)
        ensures
            match r {
                Some(x) => jfind(*self, key@) == Some(*x),
                None => jfind(*self, key@) is None,
            },
    {
        match self {
            Json::Object(m) => {
                let n = m.len();
                assert(jfind(*self, key@) == find_from(m@, key@, 0));
                let mut i: usize = 0;
                while i < n
                    invariant
                        n == m@.len(),
                        i <= n,
                        find_from(m@, key@, 0) == find_from(m@, key@, i as int),
                        jfind(*self, key@) == find_from(m@, key@, 0),
                    decreases n - i,
                {
                    if str_equal(m[i].0.as_str(), key) {
                        assert(find_from(m@, key@, i as int) == Some(m@[i as int].1));
                        return Some(&m[i].1);
                    }
                    i = i + 1;
                }
                None
            },
            _ => None,
        }
    }

    /// `self[key]`.
    pub fn get(&self, key: &str) -> (r: &Json)
        ensures
            *r == jget(*self, key@),
    {
        match self.find(key) {
            Some(x) => x,
            None => &Json::Null,
        }
    }

    pub fn is_null(&self) -> (r: bool)
        ensures
            r == (*self is Null),
    {
        match self {
            Json::Null => true,
            _ => false,
        }
    }

    pub fn as_str(&self) -> (r: Option<&str>)
        ensures
            match r {
                Some(s) => jstr(*self) == Some(s@),
                None => jstr(*self) is None,
            },
    {
        match self {
            Json::Str(s) => Some(s.as_str()),
            _ => None,
        }
    }

    pub fn as_u64(&self) -> (r: Option<u64>)
        ensures
            r == ju64(*self),
    {
        match self {
            Json::PosInt(u) => Some(*u),
            _ => None,
        }
    }

    pub fn as_i64(&self) -> (r: Option<i64>)
        ensures
            r == ji64(*self),
    {
        match self {
            Json::PosInt(u) => if *u <= 9223372036854775807u64 {
                Some(*u as i64)
            } else {
                None
            },
            Json::NegInt(i) => Some(*i),
            _ => None,
        }
    }

    pub fn as_bool(&self) -> (r: Option<bool>)
        ensures
            r == jbool(*self),
    {
        match self {
            Json::Bool(b) => Some(*b),
            _ => None,
        }
    }

    pub fn as_array(&self) -> (r: Option<&Vec<Json>>)
        ensures
            match r {
                Some(a) => jarray(*self) == Some(a@),
                None => jarray(*self) is None,
            },
    {
        match self {
            Json::Array(a) => Some(a),
            _ => None,
        }
    }
}

/// Appends the decimal representation of a signed integer.
pub fn push_signed_decimal(s: &mut String, i: i64)
    ensures
        final(s)@ == old(s)@ + signed_decimal(i as int),
{
    if i < 0 {
        push_char(s, '-');
        let magnitude: u64 = if i == -9223372036854775808i64 {
            9223372036854775808u64
        } else {
            (-i) as u64
        };
        push_decimal(s, magnitude);
    } else {
        push_decimal(s, i as u64);
    }
}

} // verus!
