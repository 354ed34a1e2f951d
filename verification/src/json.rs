//! A JSON document as plain values, the lookups that read it, and decimal
//! number text.

use vstd::prelude::*;
use crate::text::same_text;

verus! {

/// A JSON value. Numbers keep their text; objects keep their members in order.
#[derive(Debug)]
pub enum Json {
    Null,
    Bool(bool),
    Number(String),
    Str(String),
    Array(Vec<Json>),
    Object(Vec<(String, Json)>),
}

/// The value of the first member named `key` at or after member `i`.
pub open spec fn member_from(es: Seq<(String, Json)>, key: Seq<char>, i: int) -> Option<Json>
    decreases es.len() - i,
{
    if i < 0 || i >= es.len() {
        None
    } else if es[i].0@ == key {
        Some(es[i].1)
    } else {
        member_from(es, key, i + 1)
    }
}

/// The member `key` of an object (`None` for a missing member or a value
/// that is not an object).
pub open spec fn member(j: Json, key: Seq<char>) -> Option<Json> {
    match j {
        Json::Object(es) => member_from(es@, key, 0),
        _ => None,
    }
}

/// The first element of an array (`None` for an empty array or a value
/// that is not an array).
pub open spec fn first_elem(j: Json) -> Option<Json> {
    match j {
        Json::Array(v) => if v@.len() > 0 {
            Some(v@[0])
        } else {
            None
        },
        _ => None,
    }
}

/// The text of a string value.
pub open spec fn text_of(j: Json) -> Option<Seq<char>> {
    match j {
        Json::Str(s) => Some(s@),
        _ => None,
    }
}

/// `member` through an optional value.
pub open spec fn and_member(o: Option<Json>, key: Seq<char>) -> Option<Json> {
    match o {
        Some(j) => member(j, key),
        None => None,
    }
}

/// `first_elem` through an optional value.
pub open spec fn and_first(o: Option<Json>) -> Option<Json> {
    match o {
        Some(j) => first_elem(j),
        None => None,
    }
}

/// `text_of` through an optional value.
pub open spec fn and_text(o: Option<Json>) -> Option<Seq<char>> {
    match o {
        Some(j) => text_of(j),
        None => None,
    }
}

impl Json {
    /// The member `key` of an object.
    pub fn get(&self, key: &str) -> (r: Option<&Json>)
        ensures
            r matches Some(x) ==> member(*self, key@) == Some(*x),
            r is None ==> member(*self, key@) is None,
    {
        match self {
            Json::Object(es) => {
                let mut i: usize = 0;
                while i < es.len()
                    invariant
                        i <= es@.len(),
                        member(*self, key@) == member_from(es@, key@, 0),
                        member_from(es@, key@, 0) == member_from(es@, key@, i as int),
                    decreases es.len() - i,
                {
                    if same_text(es[i].0.as_str(), key) {
                        return Some(&es[i].1);
                    }
                    i += 1;
                }
                None
            },
            _ => None,
        }
    }

    /// The first element of an array.
    pub fn first(&self) -> (r: Option<&Json>)
        ensures
            r matches Some(x) ==> first_elem(*self) == Some(*x),
            r is None ==> first_elem(*self) is None,
    {
        match self {
            Json::Array(v) => {
                if v.len() > 0 {
                    Some(&v[0])
                } else {
                    None
                }
            },
            _ => None,
        }
    }

    /// The elements of an array.
    pub fn elements(&self) -> (r: Option<&Vec<Json>>)
        ensures
            r matches Some(v) ==> *self == Json::Array(*v),
            r is None ==> !(*self is Array),
    {
        match self {
            Json::Array(v) => Some(v),
            _ => None,
        }
    }

    /// The text of a string value.
    pub fn as_str(&self) -> (r: Option<&str>)
        ensures
            r matches Some(s) ==> text_of(*self) == Some(s@),
            r is None ==> text_of(*self) is None,
    {
        match self {
            Json::Str(s) => Some(s.as_str()),
            _ => None,
        }
    }
}

/// The value of a decimal digit character.
pub open spec fn digit_value(c: char) -> nat {
    ((c as int) - ('0' as int)) as nat
}

/// The value of a text of decimal digits (`None` when empty or when any
/// character is not a digit).
pub open spec fn digits_value(s: Seq<char>) -> Option<nat>
    decreases s.len(),
{
    if s.len() == 0 {
        None
    } else {
        let c = s.last();
        if '0' <= c <= '9' {
            let d = digit_value(c);
            if s.len() == 1 {
                Some(d)
            } else {
                match digits_value(s.drop_last()) {
                    Some(v) => Some(v * 10 + d),
                    None => None,
                }
            }
        } else {
            None
        }
    }
}

/// What `str::parse::<u32>` gives: an optional `+` then decimal digits,
/// up to `u32::MAX`; nothing else.
pub open spec fn u32_of_text(s: Seq<char>) -> Option<u32> {
    let t = if s.len() > 0 && s[0] == '+' {
        s.drop_first()
    } else {
        s
    };
    match digits_value(t) {
        Some(v) => if v <= u32::MAX {
            Some(v as u32)
        } else {
            None
        },
        None => None,
    }
}

/// Read a `u32` from text (see `u32_of_text`).
pub fn parse_u32(s: &str) -> (r: Option<u32>)
    ensures
        r == u32_of_text(s@),
{
    let n = s.unicode_len();
    let mut i: usize = 0;
    if n > 0 && s.get_char(0) == '+' {
        i = 1;
    }
    let ghost t = if s@.len() > 0 && s@[0] == '+' {
        s@.drop_first()
    } else {
        s@
    };
    assert(t == s@.subrange(i as int, n as int));
    if i >= n {
        assert(t.len() == 0);
        return None;
    }
    let mut v: u64 = 0;
    let start = i;
    while i < n
        invariant
            start < n,
            start <= i <= n,
            n == s@.len(),
            t == s@.subrange(start as int, n as int),
            t == (if s@.len() > 0 && s@[0] == '+' {
                s@.drop_first()
            } else {
                s@
            }),
            v <= u32::MAX,
            i > start ==> digits_value(s@.subrange(start as int, i as int)) == Some(v as nat),
            i == start ==> v == 0,
        decreases n - i,
    {
        let c = s.get_char(i);
        let ghost pre = s@.subrange(start as int, i as int);
        let ghost next = s@.subrange(start as int, i + 1);
        assert(next.drop_last() == pre);
        assert(next.last() == c);
        assert(t[(i - start) as int] == c);
        if !('0' <= c && c <= '9') {
            proof {
                lemma_digits_none(t, (i - start) as int);
            }
            return None;
        }
        let d = (c as u64) - ('0' as u64);
        let nv = v * 10 + d;
        assert(digits_value(next) == Some(nv as nat));
        assert(t.take((i + 1 - start) as int) == next);
        if nv > 4294967295 {
            proof {
                lemma_digits_too_big(t, (i + 1 - start) as int, nv as nat);
            }
            return None;
        }
        v = nv;
        i += 1;
    }
    assert(s@.subrange(start as int, n as int) == t);
    Some(v as u32)
}

/// A non-digit in the text makes it no number.
proof fn lemma_digits_none(t: Seq<char>, k: int)
    requires
        0 <= k < t.len(),
        !('0' <= t[k] <= '9'),
    ensures
        digits_value(t) is None,
    decreases t.len(),
{
    if k < t.len() - 1 {
        lemma_digits_none(t.drop_last(), k);
    }
}

/// A number whose leading digits already exceed `u32::MAX` does too.
proof fn lemma_digits_too_big(t: Seq<char>, k: int, v: nat)
    requires
        1 <= k <= t.len(),
        digits_value(t.take(k)) == Some(v),
        v > u32::MAX,
    ensures
        digits_value(t) is None || digits_value(t)->0 > u32::MAX,
    decreases t.len() - k,
{
    if k < t.len() {
        let t2 = t.take(k + 1);
        assert(t2.drop_last() == t.take(k));
        if '0' <= t[k] <= '9' {
            assert(digits_value(t2) == Some(v * 10 + digit_value(t[k])));
            lemma_digits_too_big(t, k + 1, v * 10 + digit_value(t[k]));
        } else {
            lemma_digits_none(t, k);
        }
    } else {
        assert(t.take(k) == t);
    }
}

/// `serde_json`'s value type, carried through the conversions below.
#[verifier::external_type_specification]
#[verifier::external_body]
pub struct ExJsonValue(serde_json::Value);

/// What `serde_json::from_str` reads from a text as a `serde_json::Value`:
/// the document, or the text of the error it reports.
pub uninterp spec fn json_text_doc(text: Seq<char>) -> Result<Json, Seq<char>>;

/// The compact JSON text that `serde_json::Value`'s `Display` writes for
/// the value that a document stands for.
pub uninterp spec fn json_written(j: Json) -> Seq<char>;

/// Converts a `serde_json` value into the document model, one variant for
/// one (a number keeps the text `serde_json` writes for it, an object its
/// members in the map's order).
#[verifier::external_body]
fn doc_of_value(v: &serde_json::Value) -> Json {
    match v {
        serde_json::Value::Null => Json::Null,
        serde_json::Value::Bool(b) => Json::Bool(*b),
        serde_json::Value::Number(n) => Json::Number(n.to_string()),
        serde_json::Value::String(t) => Json::Str(t.clone()),
        serde_json::Value::Array(a) => Json::Array(a.iter().map(doc_of_value).collect()),
        serde_json::Value::Object(m) => Json::Object(m.iter().map(|(k, x)| (k.clone(), doc_of_value(x))).collect()),
    }
}

/// Converts a document back into a `serde_json` value, one variant for one
/// (a number from its text, `Null` when the text is not a JSON number).
#[verifier::external_body]
fn value_of_doc(j: &Json) -> serde_json::Value {
    match j {
        Json::Null => serde_json::Value::Null,
        Json::Bool(b) => serde_json::Value::Bool(*b),
        Json::Number(n) => n.parse::<serde_json::Number>().map_or(serde_json::Value::Null, serde_json::Value::Number),
        Json::Str(t) => serde_json::Value::String(t.clone()),
        Json::Array(a) => serde_json::Value::Array(a.iter().map(value_of_doc).collect()),
        Json::Object(m) => serde_json::Value::Object(m.iter().map(|(k, x)| (k.clone(), value_of_doc(x))).collect()),
    }
}

/// Calls `serde_json::from_str` for a `serde_json::Value`; the result is
/// the named reading of `text` (the error as its `Display` text).
#[verifier::external_body]
pub(crate) fn parse_json_text(text: &str) -> (r: Result<Json, String>)
    ensures
        match r {
            Ok(j) => json_text_doc(text@) == Ok::<Json, Seq<char>>(j),
            Err(m) => json_text_doc(text@) == Err::<Json, Seq<char>>(m@),
        },
{
    match serde_json::from_str::<serde_json::Value>(text) {
        Ok(v) => Ok(doc_of_value(&v)),
        Err(e) => Err(e.to_string()),
    }
}

/// Calls `serde_json::Value`'s `to_string` on the value that `j` stands
/// for; the result is the named text of `j`.
#[verifier::external_body]
pub(crate) fn json_text(j: &Json) -> (r: String)
    ensures
        r@ == json_written(*j),
{
    value_of_doc(j).to_string()
}

} // verus!
