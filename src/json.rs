//! A JSON document as plain values, and the calls into `serde_json`,
//! `chrono` and `num-decimal` that reading a body relies on.
use vstd::prelude::*;

use chrono::DateTime;
use chrono::FixedOffset;
use num_decimal::Num;
use serde_json::Value;

verus! {

#[verifier::external_type_specification]
#[verifier::external_body]
pub struct ExValue(Value);

#[verifier::external_type_specification]
#[verifier::external_body]
pub struct ExJsonError(serde_json::Error);

#[verifier::external_type_specification]
#[verifier::external_body]
pub struct ExNum(Num);

/// A JSON value. Numbers keep the form that serde_json read them in: an
/// unsigned integer, a negative integer, or a float as the text that
/// Rust's `Display` writes for it. Object members are in key order.
#[derive(Debug)]
pub enum JsonView {
    Null,
    Bool(bool),
    UInt(u64),
    Int(i64),
    Float(String),
    Str(String),
    Array(Vec<JsonView>),
    Object(Vec<(String, JsonView)>),
}

/// The document that serde_json reads from a byte string, if it reads one.
pub uninterp spec fn json_of(bytes: Seq<u8>) -> Option<JsonView>;

/// No two members share a key.
pub open spec fn keys_distinct(members: Seq<(String, JsonView)>) -> bool {
    forall|i: int, j: int|
        0 <= i < members.len() && 0 <= j < members.len() && i != j ==> members[i].0@ != members[j].0@
}

/// The value of the first member under `key`.
pub open spec fn find_member(members: Seq<(String, JsonView)>, key: Seq<char>) -> Option<JsonView>
    decreases members.len(),
{
    if members.len() == 0 {
        None
    } else if members[0].0@ == key {
        Some(members[0].1)
    } else {
        find_member(members.drop_first(), key)
    }
}

/// The member of an object under `key`; nothing for any other value.
pub open spec fn lookup(v: JsonView, key: Seq<char>) -> Option<JsonView> {
    match v {
        JsonView::Object(members) => find_member(members@, key),
        _ => None,
    }
}

/// Relies on `serde_json::Value`: one `JsonView` for each `Value`, variant
/// for variant.
#[verifier::external_body]
fn view_of(v: &Value) -> JsonView {
    match v {
        Value::Null => JsonView::Null,
        Value::Bool(b) => JsonView::Bool(*b),
        Value::Number(n) => match (n.as_u64(), n.as_i64()) {
            (Some(u), _) => JsonView::UInt(u),
            (None, Some(i)) => JsonView::Int(i),
            _ => JsonView::Float(n.as_f64().unwrap_or_default().to_string()),
        },
        Value::String(s) => JsonView::Str(s.clone()),
        Value::Array(a) => JsonView::Array(a.iter().map(view_of).collect()),
        Value::Object(m) => JsonView::Object(m.iter().map(|(k, x)| (k.clone(), view_of(x))).collect()),
    }
}

/// Relies on `serde_json::from_slice` (into a `Value`): the outcome depends
/// on the bytes alone, and an object read from them (a `Map`) holds each
/// key once.
#[verifier::external_body]
pub(crate) fn parse_document(body: &[u8]) -> (r: Result<JsonView, serde_json::Error>)
    ensures
        r is Ok <==> json_of(body@) is Some,
        r is Ok ==> r->Ok_0 == json_of(body@)->0,
        r is Ok ==> forall|key: Seq<char>|
            #[trigger] lookup(r->Ok_0, key) matches Some(JsonView::Object(ms)) ==> keys_distinct(ms@),
{
    serde_json::from_slice::<Value>(body).map(|v| view_of(&v))
}

/// The time stamp that a text names, as Unix seconds and nanoseconds.
pub uninterp spec fn timestamp_of(text: Seq<char>) -> Option<(i64, u32)>;

/// Relies on chrono's RFC 3339 parsing (`DateTime<FixedOffset>::from_str`,
/// which its `Deserialize` for `DateTime<Utc>` uses), then `timestamp` and
/// `timestamp_subsec_nanos`.
#[verifier::external_body]
pub(crate) fn parse_timestamp(text: &str) -> (r: Option<(i64, u32)>)
    ensures
        r == timestamp_of(text@),
{
    text.parse::<DateTime<FixedOffset>>().ok().map(|t| (t.timestamp(), t.timestamp_subsec_nanos()))
}

/// The decimal that a text names.
pub uninterp spec fn decimal_of_text(text: Seq<char>) -> Option<Num>;

/// Relies on `Num::from_str`, which num-decimal's `Deserialize` uses for
/// strings and floats.
#[verifier::external_body]
pub(crate) fn parse_decimal(text: &str) -> (r: Option<Num>)
    ensures
        r == decimal_of_text(text@),
{
    text.parse::<Num>().ok()
}

/// The decimal of an unsigned integer.
pub uninterp spec fn decimal_of_u64(n: u64) -> Num;

/// Relies on `Num::from(u64)`, which num-decimal's `Deserialize` uses.
#[verifier::external_body]
pub(crate) fn decimal_from_u64(n: u64) -> (r: Num)
    ensures
        r == decimal_of_u64(n),
{
    Num::from(n)
}

/// The decimal of a signed integer.
pub uninterp spec fn decimal_of_i64(n: i64) -> Num;

/// Relies on `Num::from(i64)`, which num-decimal's `Deserialize` uses.
#[verifier::external_body]
pub(crate) fn decimal_from_i64(n: i64) -> (r: Num)
    ensures
        r == decimal_of_i64(n),
{
    Num::from(n)
}

/// The member under `key`, as `lookup` gives it.
pub fn member<'a>(v: &'a JsonView, key: &String) -> (r: Option<&'a JsonView>)
    ensures
        r is Some <==> lookup(*v, key@) is Some,
        r is Some ==> *r->0 == lookup(*v, key@)->0,
{
    match v {
        JsonView::Object(members) => {
            let mut i: usize = 0;
            proof {
                assert(members@.subrange(0, members@.len() as int) =~= members@);
            }
            while i < members.len()
                invariant
                    i <= members@.len(),
                    *v == JsonView::Object(*members),
                    find_member(members@, key@) == find_member(members@.subrange(i as int, members@.len() as int), key@),
                decreases members@.len() - i,
            {
                proof {
                    assert(members@.subrange(i as int, members@.len() as int).drop_first() =~= members@.subrange(
                        i + 1,
                        members@.len() as int,
                    ));
                }
                if members[i].0.eq(key) {
                    proof {
                        assert(members@.subrange(i as int, members@.len() as int)[0] == members@[i as int]);
                    }
                    return Some(&members[i].1);
                }
                i = i + 1;
            }
            proof {
                assert(members@.subrange(i as int, members@.len() as int).len() == 0);
            }
            None
        },
        _ => None,
    }
}

/// The number of an unsigned-integer member, as serde_json's `as_u64`.
pub open spec fn u64_member(v: Option<JsonView>) -> Option<u64> {
    match v {
        Some(JsonView::UInt(n)) => Some(n),
        _ => None,
    }
}

/// The text of a string member.
pub open spec fn str_member(v: Option<JsonView>) -> Option<Seq<char>> {
    match v {
        Some(JsonView::Str(s)) => Some(s@),
        _ => None,
    }
}

/// The decimal of a number member, or of a string member that names one.
pub open spec fn decimal_member(v: Option<JsonView>) -> Option<Num> {
    match v {
        Some(JsonView::UInt(n)) => Some(decimal_of_u64(n)),
        Some(JsonView::Int(n)) => Some(decimal_of_i64(n)),
        Some(JsonView::Float(t)) => decimal_of_text(t@),
        Some(JsonView::Str(t)) => decimal_of_text(t@),
        _ => None,
    }
}

/// Reads an unsigned-integer member.
pub fn read_u64(v: Option<&JsonView>) -> (r: Option<u64>)
    ensures
        r == u64_member(match v { Some(x) => Some(*x), None => None }),
{
    match v {
        Some(JsonView::UInt(n)) => Some(*n),
        _ => None,
    }
}

/// Reads a string member.
pub fn read_str(v: Option<&JsonView>) -> (r: Option<String>)
    ensures
        r is Some <==> str_member(match v { Some(x) => Some(*x), None => None }) is Some,
        r is Some ==> r->0@ == str_member(match v { Some(x) => Some(*x), None => None })->0,
{
    match v {
        Some(JsonView::Str(s)) => Some(s.clone()),
        _ => None,
    }
}

/// Reads a decimal member.
pub fn read_decimal(v: Option<&JsonView>) -> (r: Option<Num>)
    ensures
        r == decimal_member(match v { Some(x) => Some(*x), None => None }),
{
    match v {
        Some(JsonView::UInt(n)) => Some(decimal_from_u64(*n)),
        Some(JsonView::Int(n)) => Some(decimal_from_i64(*n)),
        Some(JsonView::Float(t)) => parse_decimal(t.as_str()),
        Some(JsonView::Str(t)) => parse_decimal(t.as_str()),
        _ => None,
    }
}

} // verus!
