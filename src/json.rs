//! A JSON document model that the rest of the library reads and writes, and
//! the lookups of object members that decoding is built on.

use vstd::prelude::*;

verus! {

/// A JSON value.
#[derive(Debug)]
pub enum Json {
    Null,
    Bool(bool),
    /// A number, with its value where it is a non-negative integer that fits
    /// in a `u64`, and `None` for any other number.
    Number(Option<u64>),
    Str(String),
    Array(Vec<Json>),
    /// The members of an object, in document order.
    Object(Vec<(String, Json)>),
}

/// The value that serde_json reads from `text`, or `None` where `text` is not
/// a JSON document.
pub uninterp spec fn parsed_json(text: Seq<char>) -> Option<Json>;

/// The compact JSON text that serde_json writes for `j`.
pub uninterp spec fn json_text(j: Json) -> Seq<char>;

#[verifier::external_type_specification]
#[verifier::external_body]
pub struct ExValue(serde_json::Value);

/// Relies on serde_json::from_str::<serde_json::Value>: the parsed document,
/// or an error, depends on the text alone.
#[verifier::external_body]
pub(crate) fn parse_json(text: &str) -> (r: Option<Json>)
    ensures
        r == parsed_json(text@),
{
    serde_json::from_str::<serde_json::Value>(text).ok().map(from_value)
}

/// Relies on serde_json's `Display` for `serde_json::Value`: the compact
/// text of a document depends on the document alone.
#[verifier::external_body]
pub(crate) fn render_json(j: &Json) -> (r: String)
    ensures
        r@ == json_text(*j),
{
    to_value(j).to_string()
}

/// Relies on serde_json::Number::as_u64 to read a number; moves every other
/// variant of serde_json::Value into the matching variant of `Json`.
#[verifier::external_body]
fn from_value(v: serde_json::Value) -> Json {
    match v {
        serde_json::Value::Null => Json::Null,
        serde_json::Value::Bool(b) => Json::Bool(b),
        serde_json::Value::Number(n) => Json::Number(n.as_u64()),
        serde_json::Value::String(s) => Json::Str(s),
        serde_json::Value::Array(a) => Json::Array(a.into_iter().map(from_value).collect()),
        serde_json::Value::Object(o) => Json::Object(
            o.into_iter().map(|(k, x)| (k, from_value(x))).collect(),
        ),
    }
}

/// Relies on serde_json::Number's `From<u64>` to write a number; moves every
/// other variant of `Json` into the matching variant of serde_json::Value.
#[verifier::external_body]
fn to_value(j: &Json) -> serde_json::Value {
    match j {
        Json::Null | Json::Number(None) => serde_json::Value::Null,
        Json::Bool(b) => serde_json::Value::Bool(*b),
        Json::Number(Some(n)) => serde_json::Value::Number((*n).into()),
        Json::Str(s) => serde_json::Value::String(s.clone()),
        Json::Array(a) => serde_json::Value::Array(a.iter().map(to_value).collect()),
        Json::Object(o) => serde_json::Value::Object(
            o.iter().map(|(k, x)| (k.clone(), to_value(x))).collect(),
        ),
    }
}

/// The first member named `key` among `fields`.
pub open spec fn lookup(fields: Seq<(String, Json)>, key: Seq<char>) -> Option<Json>
    decreases fields.len(),
{
    if fields.len() == 0 {
        None
    } else if fields[0].0@ == key {
        Some(fields[0].1)
    } else {
        lookup(fields.drop_first(), key)
    }
}

/// The member `key` of `j` where `j` is an object that has it with a value
/// other than `null`; absent and `null` members are alike.
pub open spec fn member(j: Json, key: Seq<char>) -> Option<Json> {
    match j {
        Json::Object(fields) => match lookup(fields@, key) {
            Some(Json::Null) => None,
            found => found,
        },
        _ => None,
    }
}

proof fn lemma_lookup_step(fields: Seq<(String, Json)>, i: int, key: Seq<char>)
    requires
        0 <= i < fields.len(),
    ensures
        lookup(fields.skip(i), key) == (if fields[i].0@ == key {
            Some(fields[i].1)
        } else {
            lookup(fields.skip(i + 1), key)
        }),
{
    assert(fields.skip(i).drop_first() =~= fields.skip(i + 1));
}

/// The member at `i` is the first one named `key`.
pub proof fn lemma_lookup_first(fields: Seq<(String, Json)>, i: int, key: Seq<char>)
    requires
        0 <= i < fields.len(),
        fields[i].0@ == key,
        forall|k: int| 0 <= k < i ==> #[trigger] fields[k].0@ != key,
    ensures
        lookup(fields, key) == Some(fields[i].1),
    decreases i,
{
    if i > 0 {
        let rest = fields.drop_first();
        assert forall|k: int| 0 <= k < i - 1 implies #[trigger] rest[k].0@ != key by {
            assert(rest[k] == fields[k + 1]);
        }
        lemma_lookup_first(rest, i - 1, key);
    }
}

/// The member `key` of `j`, as `member` states it.
pub fn find_member<'a>(j: &'a Json, key: &str) -> (r: Option<&'a Json>)
    ensures
        match r {
            Some(v) => member(*j, key@) == Some(*v),
            None => member(*j, key@) is None,
        },
{
    match j {
        Json::Object(fields) => {
            let k = key.to_owned();
            let mut i: usize = 0;
            assert(fields@.skip(0) =~= fields@);
            while i < fields.len()
                invariant
                    0 <= i <= fields@.len(),
                    k@ == key@,
                    *j == Json::Object(*fields),
                    lookup(fields@, key@) == lookup(fields@.skip(i as int), key@),
                decreases fields@.len() - i,
            {
                proof {
                    lemma_lookup_step(fields@, i as int, key@);
                }
                if fields[i].0.eq(&k) {
                    match &fields[i].1 {
                        Json::Null => {
                            return None;
                        },
                        v => {
                            return Some(v);
                        },
                    }
                }
                i = i + 1;
            }
            assert(fields@.skip(i as int).len() == 0);
            None
        },
        _ => None,
    }
}

} // verus!
