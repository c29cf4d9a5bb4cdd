//! A plain model of JSON documents, and field lookup inside objects.
use vstd::prelude::*;

verus! {

/// A JSON value as the decoders of this library read it.
///
/// Numbers that are integers in the range of `i64` are kept as `Int`; any
/// other number (a fraction, an exponent form, a large unsigned) is `OtherNum`.
pub enum Json {
    Null,
    Bool(bool),
    Int(i64),
    OtherNum,
    Str(String),
    Arr(Vec<Json>),
    Obj(Vec<(String, Json)>),
}

/// `serde_json::Value`, a parsed JSON document; only carried into `Json`.
#[verifier::external_type_specification]
#[verifier::external_body]
pub struct ExValue(serde_json::Value);

/// What `serde_json::from_str` yields for a text, as a `Json`: `None` where
/// the text is not one well-formed JSON document.
pub uninterp spec fn json_of(text: Seq<char>) -> Option<Json>;

/// Relies on `serde_json::from_str::<serde_json::Value>`: it parses a text into a
/// JSON value, or fails with an error whose message is returned here.
#[verifier::external_body]
pub(crate) fn parse_json(text: &str) -> (r: Result<Json, String>)
    ensures
        match r {
            Ok(j) => json_of(text@) == Some(j),
            Err(_) => json_of(text@).is_none(),
        },
{
    match serde_json::from_str::<serde_json::Value>(text) {
        Ok(v) => Ok(from_value(v)),
        Err(e) => Err(e.to_string()),
    }
}

/// Relies on the variants of `serde_json::Value` and `Number::as_i64`: moves
/// a parsed value into the library's model, one variant for one variant.
#[verifier::external_body]
fn from_value(v: serde_json::Value) -> Json {
    match v {
        serde_json::Value::Null => Json::Null,
        serde_json::Value::Bool(b) => Json::Bool(b),
        serde_json::Value::Number(n) => match n.as_i64() {
            Some(i) => Json::Int(i),
            None => Json::OtherNum,
        },
        serde_json::Value::String(s) => Json::Str(s),
        serde_json::Value::Array(a) => Json::Arr(a.into_iter().map(from_value).collect()),
        serde_json::Value::Object(m) => Json::Obj(m.into_iter().map(|(k, x)| (k, from_value(x))).collect()),
    }
}

/// The value of the first member of `ms`, from index `i` on, whose key is `key`.
pub open spec fn member_from(ms: Seq<(String, Json)>, key: Seq<char>, i: int) -> Option<Json>
    decreases ms.len() - i,
{
    if i < 0 || i >= ms.len() {
        None
    } else if ms[i].0@ == key {
        Some(ms[i].1)
    } else {
        member_from(ms, key, i + 1)
    }
}

/// The value of the first member of an object whose key is `key`.
pub open spec fn member(ms: Seq<(String, Json)>, key: Seq<char>) -> Option<Json> {
    member_from(ms, key, 0)
}

/// An optional borrowed value, as an optional value.
pub open spec fn owned(v: Option<&Json>) -> Option<Json> {
    match v {
        Some(x) => Some(*x),
        None => None,
    }
}

/// A string member's text.
pub open spec fn str_value(v: Option<Json>) -> Option<Seq<char>> {
    match v {
        Some(Json::Str(s)) => Some(s@),
        _ => None,
    }
}

/// An integer member that fits in `i32`.
pub open spec fn i32_value(v: Option<Json>) -> Option<int> {
    match v {
        Some(Json::Int(n)) => if i32::MIN <= n <= i32::MAX {
            Some(n as int)
        } else {
            None
        },
        _ => None,
    }
}

/// A boolean member.
pub open spec fn bool_value(v: Option<Json>) -> Option<bool> {
    match v {
        Some(Json::Bool(b)) => Some(b),
        _ => None,
    }
}

/// Whether a JSON value is a string.
pub open spec fn is_str(j: Json) -> bool {
    j is Str
}

/// The text of a JSON string (empty for any other value).
pub open spec fn str_text(j: Json) -> Seq<char> {
    match j {
        Json::Str(s) => s@,
        _ => Seq::empty(),
    }
}

/// An array member whose elements are all strings, as their texts in order.
pub open spec fn strs_value(v: Option<Json>) -> Option<Seq<Seq<char>>> {
    match v {
        Some(Json::Arr(items)) => if forall|k: int| 0 <= k < items@.len() ==> is_str(#[trigger] items@[k]) {
            Some(items@.map_values(|x: Json| str_text(x)))
        } else {
            None
        },
        _ => None,
    }
}

/// Finds the value of the first member of `ms` whose key is `key`.
pub fn find_member<'a>(ms: &'a Vec<(String, Json)>, key: &str) -> (r: Option<&'a Json>)
    ensures
        match r {
            Some(v) => member(ms@, key@) == Some(*v),
            None => member(ms@, key@).is_none(),
        },
{
    let want = String::from_str(key);
    let mut i: usize = 0;
    while i < ms.len()
        invariant
            i <= ms@.len(),
            want@ == key@,
            member(ms@, key@) == member_from(ms@, key@, i as int),
        decreases ms@.len() - i,
    {
        if ms[i].0 == want {
            return Some(&ms[i].1);
        }
        i = i + 1;
    }
    None
}

/// Reads a string member as an owned `String`.
pub fn get_str(v: Option<&Json>) -> (r: Option<String>)
    ensures
        match r {
            Some(s) => str_value(owned(v)) == Some(s@),
            None => str_value(owned(v)).is_none(),
        },
{
    match v {
        Some(Json::Str(s)) => Some(s.clone()),
        _ => None,
    }
}

/// Reads an integer member that fits in `i32`.
pub fn get_i32(v: Option<&Json>) -> (r: Option<i32>)
    ensures
        match r {
            Some(n) => i32_value(owned(v)) == Some(n as int),
            None => i32_value(owned(v)).is_none(),
        },
{
    match v {
        Some(Json::Int(n)) => if i32::MIN as i64 <= *n && *n <= i32::MAX as i64 {
            Some(*n as i32)
        } else {
            None
        },
        _ => None,
    }
}

/// Reads a boolean member.
pub fn get_bool(v: Option<&Json>) -> (r: Option<bool>)
    ensures
        r == bool_value(owned(v)),
{
    match v {
        Some(Json::Bool(b)) => Some(*b),
        _ => None,
    }
}

/// Reads an array member whose elements are all strings.
pub fn get_strs(v: Option<&Json>) -> (r: Option<Vec<String>>)
    ensures
        match r {
            Some(ss) => strs_value(owned(v)) == Some(ss@.map_values(|s: String| s@)),
            None => strs_value(owned(v)).is_none(),
        },
{
    let j = match v {
        Some(j) => j,
        None => return None,
    };
    match j {
        Json::Arr(items) => {
            let mut out: Vec<String> = Vec::new();
            let mut i: usize = 0;
            while i < items.len()
                invariant
                    i <= items@.len(),
                    owned(v) == Some(Json::Arr(*items)),
                    out@.len() == i,
                    forall|k: int| 0 <= k < i ==> is_str(#[trigger] items@[k]),
                    forall|k: int| 0 <= k < i ==> out@[k]@ == str_text(#[trigger] items@[k]),
                decreases items@.len() - i,
            {
                match &items[i] {
                    Json::Str(s) => out.push(s.clone()),
                    _ => {
                        assert(!is_str(items@[i as int]));
                        assert(!(forall|k: int| 0 <= k < items@.len() ==> is_str(#[trigger] items@[k])));
                        return None;
                    },
                }
                i = i + 1;
            }
            assert(out@.map_values(|s: String| s@) =~= items@.map_values(|x: Json| str_text(x)));
            Some(out)
        },
        _ => None,
    }
}

} // verus!
