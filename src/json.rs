//! A structured JSON value, its mathematical model, and the text form
//! produced and read by `serde_json`.

use vstd::prelude::*;

verus! {

broadcast use vstd::std_specs::vec::group_vec_axioms;

/// A JSON value as the library builds and reads it.
///
/// An integer that fits in `i64` is held as `Int`; any other number keeps the
/// text that stands for it in JSON (`Num`). Object members keep their order.
#[derive(Debug)]
pub enum Json {
    Null,
    Bool(bool),
    Int(i64),
    Num(String),
    Str(String),
    Array(Vec<Json>),
    Object(Vec<(String, Json)>),
}

/// The mathematical model of a [`Json`] value.
pub enum JsonView {
    Null,
    Bool(bool),
    Int(int),
    Num(Seq<char>),
    Str(Seq<char>),
    Array(Seq<JsonView>),
    Object(Seq<(Seq<char>, JsonView)>),
}

pub open spec fn json_view(j: Json) -> JsonView
    decreases j,
{
    match j {
        Json::Null => JsonView::Null,
        Json::Bool(b) => JsonView::Bool(b),
        Json::Int(n) => JsonView::Int(n as int),
        Json::Num(s) => JsonView::Num(s@),
        Json::Str(s) => JsonView::Str(s@),
        Json::Array(items) => JsonView::Array(
            Seq::new(
                items.len() as nat,
                |i: int|
                    if 0 <= i < items.len() {
                        json_view(items[i])
                    } else {
                        JsonView::Null
                    },
            ),
        ),
        Json::Object(members) => JsonView::Object(
            Seq::new(
                members.len() as nat,
                |i: int|
                    if 0 <= i < members.len() {
                        (members[i].0@, json_view(members[i].1))
                    } else {
                        (Seq::empty(), JsonView::Null)
                    },
            ),
        ),
    }
}

impl View for Json {
    type V = JsonView;

    open spec fn view(&self) -> JsonView {
        json_view(*self)
    }
}


/// The value of the first member named `key`, if any.
pub open spec fn member_of(members: Seq<(Seq<char>, JsonView)>, key: Seq<char>) -> Option<JsonView>
    decreases members.len(),
{
    if members.len() == 0 {
        None
    } else if members[0].0 == key {
        Some(members[0].1)
    } else {
        member_of(members.drop_first(), key)
    }
}

/// The value of the member named `key` when `v` is an object holding one;
/// `None` for any other value.
pub open spec fn field_of(v: JsonView, key: Seq<char>) -> Option<JsonView> {
    match v {
        JsonView::Object(members) => member_of(members, key),
        _ => None,
    }
}

impl Json {
    /// A copy of the whole tree.
    pub fn deep_copy(&self) -> (r: Json)
        ensures
            r@ == self@,
        decreases self,
    {
        match self {
            Json::Null => Json::Null,
            Json::Bool(b) => Json::Bool(*b),
            Json::Int(n) => Json::Int(*n),
            Json::Num(s) => Json::Num(s.clone()),
            Json::Str(s) => Json::Str(s.clone()),
            Json::Array(items) => {
                let mut out: Vec<Json> = Vec::new();
                let mut i: usize = 0;
                while i < items.len()
                    invariant
                        i <= items.len(),
                        *self == Json::Array(*items),
                        out@.len() == i,
                        forall|k: int| 0 <= k < i ==> json_view(#[trigger] out@[k]) == json_view(items@[k]),
                    decreases items.len() - i,
                {
                    proof {
                        assert(decreases_to!(*items => items[i as int]));
                        assert(decreases_to!(*self => (*self)->Array_0));
                        assert(decreases_to!(*self => items[i as int]));
                    }
                    let c = items[i].deep_copy();
                    out.push(c);
                    i = i + 1;
                }
                let r = Json::Array(out);
                proof {
                    assert(json_view(r) == json_view(*self)) by {
                        let a = json_view(r)->Array_0;
                        let b = json_view(*self)->Array_0;
                        assert(a =~= b);
                    }
                }
                r
            },
            Json::Object(members) => {
                let mut out: Vec<(String, Json)> = Vec::new();
                let mut i: usize = 0;
                while i < members.len()
                    invariant
                        i <= members.len(),
                        *self == Json::Object(*members),
                        out@.len() == i,
                        forall|k: int|
                            0 <= k < i ==> (#[trigger] out@[k]).0@ == members@[k].0@ && json_view(out@[k].1)
                                == json_view(members@[k].1),
                    decreases members.len() - i,
                {
                    let key = members[i].0.clone();
                    proof {
                        assert(decreases_to!(*members => members[i as int]));
                        assert(decreases_to!(members[i as int] => members[i as int].1));
                        assert(decreases_to!(*self => (*self)->Object_0));
                        assert(decreases_to!(*self => members[i as int].1));
                    }
                    let c = members[i].1.deep_copy();
                    out.push((key, c));
                    i = i + 1;
                }
                let r = Json::Object(out);
                proof {
                    assert(json_view(r) == json_view(*self)) by {
                        let a = json_view(r)->Object_0;
                        let b = json_view(*self)->Object_0;
                        assert(a =~= b);
                    }
                }
                r
            },
        }
    }

    /// The value of the first member named `key`, when `self` is an object
    /// holding one.
    pub fn field(&self, key: &String) -> (r: Option<&Json>)
        ensures
            match r {
                Some(v) => field_of(self@, key@) == Some(v@),
                None => field_of(self@, key@) is None,
            },
    {
        match self {
            Json::Object(members) => {
                let ghost s = json_view(*self)->Object_0;
                assert(s.skip(0) =~= s);
                let mut i: usize = 0;
                while i < members.len()
                    invariant
                        i <= members.len(),
                        s == json_view(*self)->Object_0,
                        s.len() == members.len(),
                        forall|k: int| 0 <= k < s.len() ==> #[trigger] s[k] == (members@[k].0@, json_view(members@[k].1)),
                        field_of(self@, key@) == member_of(s.skip(i as int), key@),
                    decreases members.len() - i,
                {
                    proof {
                        assert(s.skip(i as int).drop_first() =~= s.skip(i + 1));
                        assert(s.skip(i as int)[0] == s[i as int]);
                    }
                    if members[i].0 == *key {
                        return Some(&members[i].1);
                    }
                    i = i + 1;
                }
                None
            },
            _ => None,
        }
    }
}

/// The JSON text that `serde_json` prints for a value.
pub uninterp spec fn json_text(v: JsonView) -> Seq<char>;

/// The value that `serde_json` reads from a text, `None` when the text is not
/// well-formed JSON.
pub uninterp spec fn json_parse(text: Seq<char>) -> Option<JsonView>;

#[verifier::external_type_specification]
#[verifier::external_body]
pub struct ExSerdeValue(serde_json::Value);

impl Json {
    /// Converts into `serde_json`'s value type, one node for one node, for
    /// `print_json`. A `Num` whose text is no JSON number becomes null.
    #[verifier::external_body]
    fn into_serde(&self) -> serde_json::Value {
        match self {
            Json::Null => serde_json::Value::Null,
            Json::Bool(b) => serde_json::Value::Bool(*b),
            Json::Int(n) => serde_json::Value::from(*n),
            Json::Num(s) => s.parse().map(serde_json::Value::Number).unwrap_or(serde_json::Value::Null),
            Json::Str(s) => serde_json::Value::String(s.clone()),
            Json::Array(items) => serde_json::Value::Array(items.iter().map(Json::into_serde).collect()),
            Json::Object(members) => serde_json::Value::Object(
                members.iter().map(|(k, v)| (k.clone(), v.into_serde())).collect(),
            ),
        }
    }

    /// Converts from `serde_json`'s value type, one node for one node, for
    /// `parse_json`.
    #[verifier::external_body]
    fn from_serde(v: serde_json::Value) -> Json {
        match v {
            serde_json::Value::Null => Json::Null,
            serde_json::Value::Bool(b) => Json::Bool(b),
            serde_json::Value::Number(n) => n.as_i64().map_or_else(|| Json::Num(n.to_string()), Json::Int),
            serde_json::Value::String(s) => Json::Str(s),
            serde_json::Value::Array(items) => Json::Array(items.into_iter().map(Json::from_serde).collect()),
            serde_json::Value::Object(m) => Json::Object(m.into_iter().map(|(k, v)| (k, Json::from_serde(v))).collect()),
        }
    }
}

/// Relies on `serde_json::to_string`, which prints a value as compact JSON
/// text; printing a `serde_json::Value` does not fail.
#[verifier::external_body]
pub(crate) fn print_json(j: &Json) -> (r: String)
    ensures
        r@ == json_text(j@),
{
    serde_json::to_string(&j.into_serde()).unwrap_or_default()
}

/// Relies on `serde_json::from_str`, which reads JSON text into a value and
/// fails on text that is not well-formed JSON.
#[verifier::external_body]
pub(crate) fn parse_json(text: &str) -> (r: Option<Json>)
    ensures
        match r {
            Some(v) => json_parse(text@) == Some(v@),
            None => json_parse(text@) is None,
        },
{
    serde_json::from_str::<serde_json::Value>(text).ok().map(Json::from_serde)
}

} // verus!
