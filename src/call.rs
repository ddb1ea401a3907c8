//! A remote method call (its name and params), the building blocks of params
//! objects, and the unwrapping of result fields.

use vstd::prelude::*;
use crate::error::Error;
use crate::json::{field_of, json_view, Json, JsonView};

verus! {

/// A call of a remote method: its name and its params.
#[derive(Debug)]
pub struct Call {
    pub method: String,
    pub params: Json,
}

/// The model of an object's members.
pub open spec fn members_view(m: Seq<(String, Json)>) -> Seq<(Seq<char>, JsonView)> {
    Seq::new(m.len(), |i: int| (m[i].0@, json_view(m[i].1)))
}

/// The member `key` holding the string `v`, when there is one.
pub open spec fn opt_member(key: Seq<char>, v: Option<&str>) -> Seq<(Seq<char>, JsonView)> {
    match v {
        Some(s) => seq![(key, JsonView::Str(s@))],
        None => seq![],
    }
}

/// An array of strings.
pub open spec fn strings_view(items: Seq<String>) -> JsonView {
    JsonView::Array(Seq::new(items.len(), |i: int| JsonView::Str(items[i]@)))
}

impl Json {
    /// A string value.
    pub fn string(s: &str) -> (r: Json)
        ensures
            r@ == JsonView::Str(s@),
    {
        Json::Str(String::from_str(s))
    }

    /// An integer value.
    pub fn integer(n: i64) -> (r: Json)
        ensures
            r@ == JsonView::Int(n as int),
    {
        Json::Int(n)
    }

    /// A boolean value.
    pub fn boolean(b: bool) -> (r: Json)
        ensures
            r@ == JsonView::Bool(b),
    {
        Json::Bool(b)
    }

    /// An object with the given members, in order.
    pub fn object(members: Vec<(String, Json)>) -> (r: Json)
        ensures
            r@ == JsonView::Object(members_view(members@)),
    {
        let r = Json::Object(members);
        proof {
            assert(r@->Object_0 =~= members_view(members@));
        }
        r
    }

    /// An array of strings.
    pub fn strings(items: &Vec<String>) -> (r: Json)
        ensures
            r@ == strings_view(items@),
    {
        let mut out: Vec<Json> = Vec::new();
        let mut i: usize = 0;
        while i < items.len()
            invariant
                i <= items.len(),
                out@.len() == i,
                forall|k: int| 0 <= k < i ==> json_view(#[trigger] out@[k]) == JsonView::Str(items@[k]@),
            decreases items.len() - i,
        {
            out.push(Json::string(items[i].as_str()));
            i = i + 1;
        }
        let r = Json::Array(out);
        proof {
            assert(r@->Array_0 =~= strings_view(items@)->Array_0);
        }
        r
    }
}

/// Appends the member `key` holding `value`.
pub fn push_member(members: &mut Vec<(String, Json)>, key: &str, value: Json)
    ensures
        members_view(final(members)@) == members_view(old(members)@).push((key@, value@)),
{
    members.push((String::from_str(key), value));
    proof {
        assert(members_view(final(members)@) =~= members_view(old(members)@).push((key@, value@)));
    }
}

/// Appends the member `key` holding the string `value`, when there is one.
pub fn push_opt_member(members: &mut Vec<(String, Json)>, key: &str, value: Option<&str>)
    ensures
        members_view(final(members)@) == members_view(old(members)@) + opt_member(key@, value),
{
    match value {
        Some(s) => {
            push_member(members, key, Json::string(s));
            assert(members_view(final(members)@) =~= members_view(old(members)@) + opt_member(key@, value));
        },
        None => {
            assert(members_view(final(members)@) =~= members_view(old(members)@) + opt_member(key@, value));
        },
    }
}

/// The field `key` of a result, which the method always returns: fails with
/// `InvalidResponse` when the result has no such field.
pub fn required_field(result: &Json, key: &str) -> (r: Result<Json, Error>)
    ensures
        match field_of(result@, key@) {
            Some(v) => r matches Ok(x) && x@ == v,
            None => r == Err::<Json, Error>(Error::InvalidResponse),
        },
{
    match result.field(&String::from_str(key)) {
        Some(v) => Ok(v.deep_copy()),
        None => Err(Error::InvalidResponse),
    }
}

/// The field `key` of a result, absent when the result has no such field.
pub fn optional_field(result: &Json, key: &str) -> (r: Option<Json>)
    ensures
        match field_of(result@, key@) {
            Some(v) => r matches Some(x) && x@ == v,
            None => r is None,
        },
{
    match result.field(&String::from_str(key)) {
        Some(v) => Some(v.deep_copy()),
        None => None,
    }
}

} // verus!
