//! The library's model of a decoded JSON value, and typed access to object fields.
use vstd::prelude::*;
use crate::error::Error;
use crate::text::{parse_id, spec_parse_id, str_eq};

verus! {

/// A decoded JSON value. Numbers are kept as the library reads them: non-negative
/// integers exactly, negative integers as `i64`, and other numbers without their value.
#[derive(Debug)]
pub enum Json {
    Null,
    Bool(bool),
    UInt(u64),
    NegInt(i64),
    Fraction,
    Str(String),
    Array(Vec<Json>),
    Object(Vec<(String, Json)>),
}

/// The value of `key` in an object's fields; where a key repeats, its last value.
pub open spec fn lookup(fields: Seq<(String, Json)>, key: Seq<char>) -> Option<Json>
    decreases fields.len(),
{
    if fields.len() == 0 {
        None
    } else if fields.last().0@ == key {
        Some(fields.last().1)
    } else {
        lookup(fields.drop_last(), key)
    }
}

/// The value of `key` in `j`, if `j` is an object that has it.
pub open spec fn member(j: Json, key: Seq<char>) -> Option<Json> {
    match j {
        Json::Object(fields) => lookup(fields@, key),
        _ => None,
    }
}

/// A required string field.
pub open spec fn str_field(j: Json, key: Seq<char>) -> Option<String> {
    match member(j, key) {
        Some(Json::Str(s)) => Some(s),
        _ => None,
    }
}

/// An optional string field: absent or null gives `Some(None)`; any other
/// non-string value gives `None`.
pub open spec fn opt_str_field(j: Json, key: Seq<char>) -> Option<Option<String>> {
    match member(j, key) {
        None => Some(None),
        Some(Json::Null) => Some(None),
        Some(Json::Str(s)) => Some(Some(s)),
        _ => None,
    }
}

/// A required non-negative integer field.
pub open spec fn u64_field(j: Json, key: Seq<char>) -> Option<u64> {
    match member(j, key) {
        Some(Json::UInt(n)) => Some(n),
        _ => None,
    }
}

/// An optional non-negative integer field, in the manner of `opt_str_field`.
pub open spec fn opt_u64_field(j: Json, key: Seq<char>) -> Option<Option<u64>> {
    match member(j, key) {
        None => Some(None),
        Some(Json::Null) => Some(None),
        Some(Json::UInt(n)) => Some(Some(n)),
        _ => None,
    }
}

/// A required boolean field.
pub open spec fn bool_field(j: Json, key: Seq<char>) -> Option<bool> {
    match member(j, key) {
        Some(Json::Bool(b)) => Some(b),
        _ => None,
    }
}

/// An optional boolean field, in the manner of `opt_str_field`.
pub open spec fn opt_bool_field(j: Json, key: Seq<char>) -> Option<Option<bool>> {
    match member(j, key) {
        None => Some(None),
        Some(Json::Null) => Some(None),
        Some(Json::Bool(b)) => Some(Some(b)),
        _ => None,
    }
}

/// An optional identifier: `None` when the string is absent, `Some(None)` when
/// it is present and not decimal.
pub open spec fn opt_id(s: Option<String>) -> Option<Option<u64>> {
    match s {
        None => Some(None),
        Some(t) => match spec_parse_id(t@) {
            Some(n) => Some(Some(n)),
            None => None,
        },
    }
}

/// The index of the last field named `key`.
pub fn position(fields: &Vec<(String, Json)>, key: &str) -> (r: Option<usize>)
    ensures
        match r {
            Some(i) => i < fields@.len() && fields@[i as int].0@ == key@ && lookup(fields@, key@)
                == Some(fields@[i as int].1),
            None => lookup(fields@, key@) is None,
        },
{
    let mut i: usize = fields.len();
    assert(fields@.subrange(0, i as int) =~= fields@);
    while i > 0
        invariant
            i <= fields@.len(),
            lookup(fields@, key@) == lookup(fields@.subrange(0, i as int), key@),
        decreases i,
    {
        assert(fields@.subrange(0, i as int).drop_last() =~= fields@.subrange(0, i - 1));
        if str_eq(fields[i - 1].0.as_str(), key) {
            return Some(i - 1);
        }
        i = i - 1;
    }
    assert(fields@.subrange(0, 0) =~= Seq::<(String, Json)>::empty());
    None
}

/// Looks up `key` among an object's fields, as `lookup` states.
pub fn find<'a>(fields: &'a Vec<(String, Json)>, key: &str) -> (r: Option<&'a Json>)
    ensures
        match r {
            Some(v) => lookup(fields@, key@) == Some(*v),
            None => lookup(fields@, key@) is None,
        },
{
    match position(fields, key) {
        Some(i) => Some(&fields[i].1),
        None => None,
    }
}

impl Json {
    /// The value of `key`, if this is an object that has it.
    pub fn member(&self, key: &str) -> (r: Option<&Json>)
        ensures
            match r {
                Some(v) => member(*self, key@) == Some(*v),
                None => member(*self, key@) is None,
            },
    {
        match self {
            Json::Object(fields) => find(fields, key),
            _ => None,
        }
    }

    /// Reads a required string field.
    pub fn str_field(&self, key: &str) -> (r: Result<String, Error>)
        ensures
            r == match str_field(*self, key@) {
                Some(s) => Ok(s),
                None => Err(Error::InvalidField),
            },
    {
        match self.member(key) {
            Some(Json::Str(s)) => Ok(s.clone()),
            _ => Err(Error::InvalidField),
        }
    }

    /// Reads an optional string field.
    pub fn opt_str_field(&self, key: &str) -> (r: Result<Option<String>, Error>)
        ensures
            r == match opt_str_field(*self, key@) {
                Some(s) => Ok(s),
                None => Err(Error::InvalidField),
            },
    {
        match self.member(key) {
            None => Ok(None),
            Some(Json::Null) => Ok(None),
            Some(Json::Str(s)) => Ok(Some(s.clone())),
            _ => Err(Error::InvalidField),
        }
    }

    /// Reads a required non-negative integer field.
    pub fn u64_field(&self, key: &str) -> (r: Result<u64, Error>)
        ensures
            r == match u64_field(*self, key@) {
                Some(n) => Ok(n),
                None => Err(Error::InvalidField),
            },
    {
        match self.member(key) {
            Some(Json::UInt(n)) => Ok(*n),
            _ => Err(Error::InvalidField),
        }
    }

    /// Reads an optional non-negative integer field.
    pub fn opt_u64_field(&self, key: &str) -> (r: Result<Option<u64>, Error>)
        ensures
            r == match opt_u64_field(*self, key@) {
                Some(n) => Ok(n),
                None => Err(Error::InvalidField),
            },
    {
        match self.member(key) {
            None => Ok(None),
            Some(Json::Null) => Ok(None),
            Some(Json::UInt(n)) => Ok(Some(*n)),
            _ => Err(Error::InvalidField),
        }
    }

    /// Reads a required boolean field.
    pub fn bool_field(&self, key: &str) -> (r: Result<bool, Error>)
        ensures
            r == match bool_field(*self, key@) {
                Some(b) => Ok(b),
                None => Err(Error::InvalidField),
            },
    {
        match self.member(key) {
            Some(Json::Bool(b)) => Ok(*b),
            _ => Err(Error::InvalidField),
        }
    }

    /// Reads an optional boolean field.
    pub fn opt_bool_field(&self, key: &str) -> (r: Result<Option<bool>, Error>)
        ensures
            r == match opt_bool_field(*self, key@) {
                Some(b) => Ok(b),
                None => Err(Error::InvalidField),
            },
    {
        match self.member(key) {
            None => Ok(None),
            Some(Json::Null) => Ok(None),
            Some(Json::Bool(b)) => Ok(Some(*b)),
            _ => Err(Error::InvalidField),
        }
    }
}

/// Parses a required identifier.
pub fn parse_required_id(s: &String) -> (r: Result<u64, Error>)
    ensures
        r == match spec_parse_id(s@) {
            Some(n) => Ok(n),
            None => Err(Error::InvalidId),
        },
{
    match parse_id(s.as_str()) {
        Some(n) => Ok(n),
        None => Err(Error::InvalidId),
    }
}

/// Parses an optional identifier.
pub fn parse_optional_id(s: &Option<String>) -> (r: Result<Option<u64>, Error>)
    ensures
        r == match opt_id(*s) {
            Some(n) => Ok(n),
            None => Err(Error::InvalidId),
        },
{
    match s {
        None => Ok(None),
        Some(t) => match parse_id(t.as_str()) {
            Some(n) => Ok(Some(n)),
            None => Err(Error::InvalidId),
        },
    }
}

} // verus!
