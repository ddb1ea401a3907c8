//! Name ban (QLine) operations.

use vstd::prelude::*;
use crate::call::{Call, members_view, push_member, opt_member, push_opt_member};
use crate::json::{Json, JsonView};

verus! {

/// Add a name ban (QLine). Without a duration the ban is permanent (`"0"`).
pub fn add(name: &str, reason: &str, duration: Option<&str>, set_by: Option<&str>) -> (r: Call)
    ensures
        r.method@ == "name_ban.add"@,
        r.params@ == JsonView::Object(
            seq![
                ("name"@, JsonView::Str(name@)),
                ("reason"@, JsonView::Str(reason@)),
                ("duration_string"@, JsonView::Str(match duration { Some(d) => d@, None => "0"@ })),
            ] + opt_member("set_by"@, set_by),
        ),
{
    let mut m: Vec<(String, Json)> = Vec::new();
    proof {
        assert(members_view(m@) =~= seq![]);
    }
    push_member(&mut m, "name", Json::string(name));
    push_member(&mut m, "reason", Json::string(reason));
    let value = match duration {
        Some(d) => Json::string(d),
        None => Json::string("0"),
    };
    push_member(&mut m, "duration_string", value);
    push_opt_member(&mut m, "set_by", set_by);
    proof {
        assert(members_view(m@) =~= seq![
            ("name"@, JsonView::Str(name@)),
            ("reason"@, JsonView::Str(reason@)),
            ("duration_string"@, JsonView::Str(match duration { Some(d) => d@, None => "0"@ })),
        ] + opt_member("set_by"@, set_by));
    }
    Call { method: String::from_str("name_ban.add"), params: Json::object(m) }
}

/// Delete a ban.
pub fn delete(name: &str) -> (r: Call)
    ensures
        r.method@ == "name_ban.del"@,
        r.params@ == JsonView::Object(
            seq![
                ("name"@, JsonView::Str(name@)),
            ],
        ),
{
    let mut m: Vec<(String, Json)> = Vec::new();
    proof {
        assert(members_view(m@) =~= seq![]);
    }
    push_member(&mut m, "name", Json::string(name));
    proof {
        assert(members_view(m@) =~= seq![
            ("name"@, JsonView::Str(name@)),
        ]);
    }
    Call { method: String::from_str("name_ban.del"), params: Json::object(m) }
}

/// Get a list of all bans.
pub fn get_all() -> (r: Call)
    ensures
        r.method@ == "name_ban.list"@,
        r.params@ == JsonView::Null,
{
    Call { method: String::from_str("name_ban.list"), params: Json::Null }
}

/// Get a specific ban.
pub fn get(name: &str) -> (r: Call)
    ensures
        r.method@ == "name_ban.get"@,
        r.params@ == JsonView::Object(
            seq![
                ("name"@, JsonView::Str(name@)),
            ],
        ),
{
    let mut m: Vec<(String, Json)> = Vec::new();
    proof {
        assert(members_view(m@) =~= seq![]);
    }
    push_member(&mut m, "name", Json::string(name));
    proof {
        assert(members_view(m@) =~= seq![
            ("name"@, JsonView::Str(name@)),
        ]);
    }
    Call { method: String::from_str("name_ban.get"), params: Json::object(m) }
}

} // verus!
