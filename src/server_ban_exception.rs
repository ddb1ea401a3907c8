//! Server ban exception operations.

use vstd::prelude::*;
use crate::call::{Call, members_view, push_member, opt_member, push_opt_member};
use crate::json::{Json, JsonView};

verus! {

/// Add a ban exception.
pub fn add(
    name: &str,
    exception_types: &str,
    reason: &str,
    set_by: Option<&str>,
    duration: Option<&str>,
) -> (r: Call)
    ensures
        r.method@ == "server_ban_exception.add"@,
        r.params@ == JsonView::Object(
            seq![
                ("name"@, JsonView::Str(name@)),
                ("exception_types"@, JsonView::Str(exception_types@)),
                ("reason"@, JsonView::Str(reason@)),
            ] + opt_member("set_by"@, set_by) + opt_member("duration_string"@, duration),
        ),
{
    let mut m: Vec<(String, Json)> = Vec::new();
    proof {
        assert(members_view(m@) =~= seq![]);
    }
    push_member(&mut m, "name", Json::string(name));
    push_member(&mut m, "exception_types", Json::string(exception_types));
    push_member(&mut m, "reason", Json::string(reason));
    push_opt_member(&mut m, "set_by", set_by);
    push_opt_member(&mut m, "duration_string", duration);
    proof {
        assert(members_view(m@) =~= seq![
            ("name"@, JsonView::Str(name@)),
            ("exception_types"@, JsonView::Str(exception_types@)),
            ("reason"@, JsonView::Str(reason@)),
        ] + opt_member("set_by"@, set_by) + opt_member("duration_string"@, duration));
    }
    Call { method: String::from_str("server_ban_exception.add"), params: Json::object(m) }
}

/// Delete a ban exception.
pub fn delete(name: &str) -> (r: Call)
    ensures
        r.method@ == "server_ban_exception.del"@,
        r.params@ == JsonView::Object(
            seq![
                ("name"@, JsonView::Str(name@)),
            ],
        ),
{
    let mut m: Vec<(String, Json)> = Vec::new();
    proof {
        assert(members_view(m@) =~= seq![]);
    }
    push_member(&mut m, "name", Json::string(name));
    proof {
        assert(members_view(m@) =~= seq![
            ("name"@, JsonView::Str(name@)),
        ]);
    }
    Call { method: String::from_str("server_ban_exception.del"), params: Json::object(m) }
}

/// Get a list of all exceptions.
pub fn get_all() -> (r: Call)
    ensures
        r.method@ == "server_ban_exception.list"@,
        r.params@ == JsonView::Null,
{
    Call { method: String::from_str("server_ban_exception.list"), params: Json::Null }
}

/// Get a specific ban exception.
pub fn get(name: &str) -> (r: Call)
    ensures
        r.method@ == "server_ban_exception.get"@,
        r.params@ == JsonView::Object(
            seq![
                ("name"@, JsonView::Str(name@)),
            ],
        ),
{
    let mut m: Vec<(String, Json)> = Vec::new();
    proof {
        assert(members_view(m@) =~= seq![]);
    }
    push_member(&mut m, "name", Json::string(name));
    proof {
        assert(members_view(m@) =~= seq![
            ("name"@, JsonView::Str(name@)),
        ]);
    }
    Call { method: String::from_str("server_ban_exception.get"), params: Json::object(m) }
}

} // verus!
