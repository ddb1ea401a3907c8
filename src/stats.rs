//! Statistics: user counts, channel counts, etc.

use vstd::prelude::*;
use crate::call::{Call, members_view, push_member};
use crate::json::{Json, JsonView};

verus! {

/// Get basic statistical information.
pub fn get(object_detail_level: i32) -> (r: Call)
    ensures
        r.method@ == "stats.get"@,
        r.params@ == JsonView::Object(
            seq![
                ("object_detail_level"@, JsonView::Int(object_detail_level as int)),
            ],
        ),
{
    let mut m: Vec<(String, Json)> = Vec::new();
    proof {
        assert(members_view(m@) =~= seq![]);
    }
    push_member(&mut m, "object_detail_level", Json::integer(object_detail_level as i64));
    proof {
        assert(members_view(m@) =~= seq![
            ("object_detail_level"@, JsonView::Int(object_detail_level as int)),
        ]);
    }
    Call { method: String::from_str("stats.get"), params: Json::object(m) }
}

} // verus!
