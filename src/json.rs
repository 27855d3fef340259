//! A plain model of JSON documents, read from bytes by serde_json.

use vstd::prelude::*;
use crate::text::str_eq;

verus! {

#[verifier::external_type_specification]
#[verifier::external_body]
pub struct ExJsonValue(serde_json::Value);

/// A JSON document. Numbers keep the text that serde_json gives them.
#[derive(Debug, PartialEq, Eq)]
pub enum Json {
    Null,
    Bool(bool),
    Number(String),
    Str(String),
    Array(Vec<Json>),
    Object(Vec<(String, Json)>),
}

/// Where a document stopped being JSON: line and column, both from 1.
#[derive(Debug, Clone, Copy, PartialEq, Eq)]
pub struct JsonSyntaxError {
    pub line: usize,
    pub column: usize,
}

/// The document that `b` holds, if `b` is well-formed JSON.
pub uninterp spec fn json_decode(b: Seq<u8>) -> Option<Json>;

/// Relies on serde_json::from_slice into serde_json::Value: it succeeds
/// exactly on well-formed documents, and the document depends on the
/// bytes alone.
#[verifier::external_body]
pub fn parse_json(b: &[u8]) -> (r: Result<Json, JsonSyntaxError>)
    ensures
        r is Ok <==> json_decode(b@) is Some,
        r matches Ok(j) ==> json_decode(b@) == Some(j),
{
    match serde_json::from_slice::<serde_json::Value>(b) {
        Ok(v) => Ok(json_from_value(v)),
        Err(e) => Err(JsonSyntaxError { line: e.line(), column: e.column() }),
    }
}

/// Copies a serde_json::Value into the model, variant by variant.
#[verifier::external_body]
fn json_from_value(v: serde_json::Value) -> Json {
    match v {
        serde_json::Value::Null => Json::Null,
        serde_json::Value::Bool(b) => Json::Bool(b),
        serde_json::Value::Number(n) => Json::Number(n.to_string()),
        serde_json::Value::String(s) => Json::Str(s),
        serde_json::Value::Array(a) => Json::Array(a.into_iter().map(json_from_value).collect()),
        serde_json::Value::Object(m) => Json::Object(
            m.into_iter().map(|(k, x)| (k, json_from_value(x))).collect(),
        ),
    }
}

/// The value of the first member named `key`.
pub open spec fn member(members: Seq<(String, Json)>, key: Seq<char>) -> Option<Json>
    decreases members.len(),
{
    if members.len() == 0 {
        None
    } else if members[0].0@ == key {
        Some(members[0].1)
    } else {
        member(members.drop_first(), key)
    }
}

/// The member `key` of an object; nothing for any other document.
pub open spec fn field(j: Json, key: Seq<char>) -> Option<Json> {
    match j {
        Json::Object(m) => member(m@, key),
        _ => None,
    }
}

/// The text of a string document.
pub open spec fn text(j: Option<Json>) -> Option<Seq<char>> {
    match j {
        Some(Json::Str(s)) => Some(s@),
        _ => None,
    }
}

impl Json {
    /// The member `key` of an object.
    pub fn get(&self, key: &str) -> (r: Option<&Json>)
        ensures
            r is None <==> field(*self, key@) is None,
            r matches Some(x) ==> field(*self, key@) == Some(*x),
    {
        match self {
            Json::Object(m) => {
                let mut i: usize = 0;
                proof {
                    assert(m@.subrange(0, m@.len() as int) =~= m@);
                }
                while i < m.len()
                    invariant
                        i <= m@.len(),
                        field(*self, key@) == member(m@, key@),
                        member(m@, key@) == member(m@.subrange(i as int, m@.len() as int), key@),
                    decreases m@.len() - i,
                {
                    proof {
                        assert(m@.subrange(i as int, m@.len() as int).drop_first()
                            =~= m@.subrange(i + 1, m@.len() as int));
                    }
                    if str_eq(m[i].0.as_str(), key) {
                        proof {
                            let sub = m@.subrange(i as int, m@.len() as int);
                            assert(sub[0] == m@[i as int]);
                            assert(sub.len() > 0);
                            assert(sub[0].0@ == key@);
                            assert(member(sub, key@) == Some(m@[i as int].1));
                        }
                        return Some(&m[i].1);
                    }
                    i = i + 1;
                }
                proof {
                    assert(m@.subrange(i as int, m@.len() as int).len() == 0);
                }
                None
            },
            _ => None,
        }
    }

    /// The member `key` of an object, taken out of it.
    pub fn take(self, key: &str) -> (r: Option<Json>)
        ensures
            r == field(self, key@),
    {
        let ghost whole = self;
        match self {
            Json::Object(m) => {
                let mut m = m;
                let ghost ms = m@;
                let mut i: usize = 0;
                proof {
                    assert(ms.subrange(0, ms.len() as int) =~= ms);
                }
                while i < m.len()
                    invariant
                        m@ == ms,
                        whole == self,
                        i <= ms.len(),
                        field(whole, key@) == member(ms, key@),
                        member(ms, key@) == member(ms.subrange(i as int, ms.len() as int), key@),
                    decreases ms.len() - i,
                {
                    proof {
                        assert(ms.subrange(i as int, ms.len() as int).drop_first()
                            =~= ms.subrange(i + 1, ms.len() as int));
                    }
                    if str_eq(m[i].0.as_str(), key) {
                        proof {
                            let sub = ms.subrange(i as int, ms.len() as int);
                            assert(sub[0] == ms[i as int]);
                            assert(sub.len() > 0);
                            assert(sub[0].0@ == key@);
                            assert(member(sub, key@) == Some(ms[i as int].1));
                        }
                        let kv = m.remove(i);
                        return Some(kv.1);
                    }
                    i = i + 1;
                }
                proof {
                    assert(ms.subrange(i as int, ms.len() as int).len() == 0);
                }
                None
            },
            _ => None,
        }
    }

    pub fn is_object(&self) -> (r: bool)
        ensures
            r == (*self is Object),
    {
        match self {
            Json::Object(_) => true,
            _ => false,
        }
    }

    /// The text of a string document.
    pub fn as_str(&self) -> (r: Option<&String>)
        ensures
            r is None <==> !(*self is Str),
            r matches Some(s) ==> *self == Json::Str(*s),
    {
        match self {
            Json::Str(s) => Some(s),
            _ => None,
        }
    }

    /// The entries of an array document.
    pub fn as_array(&self) -> (r: Option<&Vec<Json>>)
        ensures
            r is None <==> !(*self is Array),
            r matches Some(a) ==> *self == Json::Array(*a),
    {
        match self {
            Json::Array(a) => Some(a),
            _ => None,
        }
    }

    /// The text of the string member `key`.
    pub fn str_field(&self, key: &str) -> (r: Option<String>)
        ensures
            crate::text::opt_view(r) == text(field(*self, key@)),
    {
        match self.get(key) {
            Some(Json::Str(s)) => Some(s.as_str().to_owned()),
            _ => None,
        }
    }
}

} // verus!
