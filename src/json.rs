//! A small JSON document model for the payloads that are posted to webhooks.
use vstd::prelude::*;

verus! {

/// A JSON value as it is posted: text, a boolean, an array, or an object whose
/// members keep the order in which they were added.
pub enum Json {
    Text(String),
    Flag(bool),
    List(Vec<Json>),
    Object(Vec<(String, Json)>),
}

/// `j` is the JSON string `s`.
pub open spec fn is_text(j: Json, s: Seq<char>) -> bool {
    match j {
        Json::Text(x) => x@ == s,
        _ => false,
    }
}

/// `j` is the JSON boolean `b`.
pub open spec fn is_flag(j: Json, b: bool) -> bool {
    match j {
        Json::Flag(x) => x == b,
        _ => false,
    }
}

/// The members of an object (empty for any other value).
pub open spec fn fields(j: Json) -> Seq<(String, Json)> {
    match j {
        Json::Object(v) => v@,
        _ => Seq::empty(),
    }
}

/// The elements of an array (empty for any other value).
pub open spec fn elems(j: Json) -> Seq<Json> {
    match j {
        Json::List(v) => v@,
        _ => Seq::empty(),
    }
}

/// `j` is an object whose member names are exactly `keys`, in that order.
pub open spec fn has_keys(j: Json, keys: Seq<Seq<char>>) -> bool {
    &&& j is Object
    &&& fields(j).len() == keys.len()
    &&& forall|i: int| 0 <= i < keys.len() ==> (#[trigger] fields(j)[i]).0@ == keys[i]
}

/// The value of the `i`-th member of an object.
pub open spec fn member(j: Json, i: int) -> Json {
    fields(j)[i].1
}

/// `j` is an array of `n` elements.
pub open spec fn is_list(j: Json, n: int) -> bool {
    j is List && elems(j).len() == n
}

/// A JSON string holding a copy of `s`.
pub fn text(s: &str) -> (r: Json)
    ensures
        is_text(r, s@),
{
    Json::Text(s.to_owned())
}

/// An object member named `name`.
pub fn entry(name: &str, value: Json) -> (r: (String, Json))
    ensures
        r.0@ == name@,
        r.1 == value,
{
    (name.to_owned(), value)
}

} // verus!

verus! {

/// `j` is the object `{"tag": tag, "content": s}`.
pub open spec fn tagged_ok(j: Json, tag: Seq<char>, s: Seq<char>) -> bool {
    &&& has_keys(j, seq!["tag"@, "content"@])
    &&& is_text(member(j, 0), tag)
    &&& is_text(member(j, 1), s)
}

/// Builds `{"tag": tag, "content": s}`.
pub fn tagged(tag: &str, s: &str) -> (r: Json)
    ensures
        tagged_ok(r, tag@, s@),
{
    let mut v = Vec::new();
    v.push(entry("tag", text(tag)));
    v.push(entry("content", text(s)));
    let r = Json::Object(v);
    assert(fields(r) =~= v@);
    r
}

} // verus!
