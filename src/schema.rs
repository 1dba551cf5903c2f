//! Reading typed fields out of JSON objects. An optional field that is absent
//! or `null` reads as `None`; a required one that is absent or `null` is an
//! error; a value of the wrong kind is an error in both cases.

use vstd::prelude::*;
use crate::json::{Json, member, find_member};

verus! {

/// Why a JSON document does not have the shape that was expected of it.
#[derive(Clone, Debug)]
pub enum DecodeError {
    /// The text is not a JSON document.
    Malformed,
    /// A value that should be an object is not one.
    NotAnObject,
    /// A required field, named here, is absent or `null`.
    Missing(String),
    /// A field, named here, holds a value of the wrong kind.
    WrongType(String),
}

/// The names of optional string values.
pub open spec fn opt_view(o: Option<String>) -> Option<Seq<char>> {
    match o {
        Some(s) => Some(s@),
        None => None,
    }
}

/// The string held by member `key`, if it is one.
pub open spec fn str_at(j: Json, key: Seq<char>) -> Option<Seq<char>> {
    match member(j, key) {
        Some(Json::Str(s)) => Some(s@),
        _ => None,
    }
}

/// The `u32` held by member `key`, if it holds a number that fits.
pub open spec fn u32_at(j: Json, key: Seq<char>) -> Option<u32> {
    match member(j, key) {
        Some(Json::Number(Some(n))) => if n <= u32::MAX {
            Some(n as u32)
        } else {
            None
        },
        _ => None,
    }
}

/// The boolean held by member `key`, if it is one.
pub open spec fn bool_at(j: Json, key: Seq<char>) -> Option<bool> {
    match member(j, key) {
        Some(Json::Bool(b)) => Some(b),
        _ => None,
    }
}

/// Member `key` is absent, `null` or a string.
pub open spec fn opt_str_ok(j: Json, key: Seq<char>) -> bool {
    member(j, key) is None || str_at(j, key) is Some
}

/// Member `key` is absent, `null` or a number that fits in a `u32`.
pub open spec fn opt_u32_ok(j: Json, key: Seq<char>) -> bool {
    member(j, key) is None || u32_at(j, key) is Some
}

/// Member `key` is absent, `null` or a boolean.
pub open spec fn opt_bool_ok(j: Json, key: Seq<char>) -> bool {
    member(j, key) is None || bool_at(j, key) is Some
}

/// The error for member `key` of `j`, where it is absent or of the wrong kind.
pub open spec fn field_error(j: Json, key: Seq<char>, e: DecodeError) -> bool {
    if member(j, key) is None {
        e matches DecodeError::Missing(k) && k@ == key
    } else {
        e matches DecodeError::WrongType(k) && k@ == key
    }
}

/// A field that is absent or `null` reads as no value, whatever its kind:
/// an optional field decodes to `None`, never to a zero, `false` or an empty
/// string, and a required one is missing.
pub proof fn lemma_absent_field_is_none(j: Json, key: Seq<char>)
    requires
        member(j, key) is None,
    ensures
        opt_str_ok(j, key),
        str_at(j, key) is None,
        opt_u32_ok(j, key),
        u32_at(j, key) is None,
        opt_bool_ok(j, key),
        bool_at(j, key) is None,
{
}

/// An optional string field.
pub fn opt_str(j: &Json, key: &str) -> (r: Result<Option<String>, DecodeError>)
    ensures
        r is Ok <==> opt_str_ok(*j, key@),
        r matches Ok(v) ==> opt_view(v) == str_at(*j, key@),
        r matches Err(e) ==> e matches DecodeError::WrongType(k) && k@ == key@,
{
    match find_member(j, key) {
        None => Ok(None),
        Some(Json::Str(s)) => Ok(Some(s.clone())),
        Some(_) => Err(DecodeError::WrongType(key.to_owned())),
    }
}

/// A required string field.
pub fn req_str(j: &Json, key: &str) -> (r: Result<String, DecodeError>)
    ensures
        r is Ok <==> str_at(*j, key@) is Some,
        r matches Ok(v) ==> str_at(*j, key@) == Some(v@),
        r matches Err(e) ==> field_error(*j, key@, e),
{
    match find_member(j, key) {
        None => Err(DecodeError::Missing(key.to_owned())),
        Some(Json::Str(s)) => Ok(s.clone()),
        Some(_) => Err(DecodeError::WrongType(key.to_owned())),
    }
}

fn read_u32(v: &Json) -> (r: Option<u32>)
    ensures
        r == (match *v {
            Json::Number(Some(n)) => if n <= u32::MAX {
                Some(n as u32)
            } else {
                None
            },
            _ => None,
        }),
{
    match v {
        Json::Number(Some(n)) => if *n <= 0xffff_ffffu64 {
            Some(*n as u32)
        } else {
            None
        },
        _ => None,
    }
}

/// An optional `u32` field.
pub fn opt_u32(j: &Json, key: &str) -> (r: Result<Option<u32>, DecodeError>)
    ensures
        r is Ok <==> opt_u32_ok(*j, key@),
        r matches Ok(v) ==> v == u32_at(*j, key@),
        r matches Err(e) ==> e matches DecodeError::WrongType(k) && k@ == key@,
{
    match find_member(j, key) {
        None => Ok(None),
        Some(v) => match read_u32(v) {
            Some(n) => Ok(Some(n)),
            None => Err(DecodeError::WrongType(key.to_owned())),
        },
    }
}

/// A required `u32` field.
pub fn req_u32(j: &Json, key: &str) -> (r: Result<u32, DecodeError>)
    ensures
        r is Ok <==> u32_at(*j, key@) is Some,
        r matches Ok(v) ==> u32_at(*j, key@) == Some(v),
        r matches Err(e) ==> field_error(*j, key@, e),
{
    match find_member(j, key) {
        None => Err(DecodeError::Missing(key.to_owned())),
        Some(v) => match read_u32(v) {
            Some(n) => Ok(n),
            None => Err(DecodeError::WrongType(key.to_owned())),
        },
    }
}

/// An optional boolean field.
pub fn opt_bool(j: &Json, key: &str) -> (r: Result<Option<bool>, DecodeError>)
    ensures
        r is Ok <==> opt_bool_ok(*j, key@),
        r matches Ok(v) ==> v == bool_at(*j, key@),
        r matches Err(e) ==> e matches DecodeError::WrongType(k) && k@ == key@,
{
    match find_member(j, key) {
        None => Ok(None),
        Some(Json::Bool(b)) => Ok(Some(*b)),
        Some(_) => Err(DecodeError::WrongType(key.to_owned())),
    }
}

/// A required member that must be an object; it is handed back for decoding.
pub fn req_object<'a>(j: &'a Json, key: &str) -> (r: Result<&'a Json, DecodeError>)
    ensures
        r is Ok <==> (member(*j, key@) matches Some(v) && v is Object),
        r matches Ok(v) ==> member(*j, key@) == Some(*v),
        r matches Err(e) ==> field_error(*j, key@, e),
{
    match find_member(j, key) {
        None => Err(DecodeError::Missing(key.to_owned())),
        Some(v) => match v {
            Json::Object(_) => Ok(v),
            _ => Err(DecodeError::WrongType(key.to_owned())),
        },
    }
}

} // verus!
