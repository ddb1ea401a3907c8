//! Server ban operations.

use vstd::prelude::*;
use crate::call::{Call, members_view, push_member};
use crate::json::{Json, JsonView};

verus! {

/// Add a ban.
pub fn add(name: &str, ban_type: &str, duration: &str, reason: &str) -> (r: Call)
    ensures
        r.method@ == "server_ban.add"@,
        r.params@ == JsonView::Object(
            seq![
                ("name"@, JsonView::Str(name@)),
                ("type"@, JsonView::Str(ban_type@)),
                ("reason"@, JsonView::Str(reason@)),
                ("duration_string"@, JsonView::Str(duration@)),
            ],
        ),
{
    let mut m: Vec<(String, Json)> = Vec::new();
    proof {
        assert(members_view(m@) =~= seq![]);
    }
    push_member(&mut m, "name", Json::string(name));
    push_member(&mut m, "type", Json::string(ban_type));
    push_member(&mut m, "reason", Json::string(reason));
    push_member(&mut m, "duration_string", Json::string(duration));
    proof {
        assert(members_view(m@) =~= seq![
            ("name"@, JsonView::Str(name@)),
            ("type"@, JsonView::Str(ban_type@)),
            ("reason"@, JsonView::Str(reason@)),
            ("duration_string"@, JsonView::Str(duration@)),
        ]);
    }
    Call { method: String::from_str("server_ban.add"), params: Json::object(m) }
}

/// Delete a ban.
pub fn delete(name: &str, ban_type: &str) -> (r: Call)
    ensures
        r.method@ == "server_ban.del"@,
        r.params@ == JsonView::Object(
            seq![
                ("name"@, JsonView::Str(name@)),
                ("type"@, JsonView::Str(ban_type@)),
            ],
        ),
{
    let mut m: Vec<(String, Json)> = Vec::new();
    proof {
        assert(members_view(m@) =~= seq![]);
    }
    push_member(&mut m, "name", Json::string(name));
    push_member(&mut m, "type", Json::string(ban_type));
    proof {
        assert(members_view(m@) =~= seq![
            ("name"@, JsonView::Str(name@)),
            ("type"@, JsonView::Str(ban_type@)),
        ]);
    }
    Call { method: String::from_str("server_ban.del"), params: Json::object(m) }
}

/// Get a list of all bans.
pub fn get_all() -> (r: Call)
    ensures
        r.method@ == "server_ban.list"@,
        r.params@ == JsonView::Null,
{
    Call { method: String::from_str("server_ban.list"), params: Json::Null }
}

/// Get a specific ban.
pub fn get(name: &str, ban_type: &str) -> (r: Call)
    ensures
        r.method@ == "server_ban.get"@,
        r.params@ == JsonView::Object(
            seq![
                ("name"@, JsonView::Str(name@)),
                ("type"@, JsonView::Str(ban_type@)),
            ],
        ),
{
    let mut m: Vec<(String, Json)> = Vec::new();
    proof {
        assert(members_view(m@) =~= seq![]);
    }
    push_member(&mut m, "name", Json::string(name));
    push_member(&mut m, "type", Json::string(ban_type));
    proof {
        assert(members_view(m@) =~= seq![
            ("name"@, JsonView::Str(name@)),
            ("type"@, JsonView::Str(ban_type@)),
        ]);
    }
    Call { method: String::from_str("server_ban.get"), params: Json::object(m) }
}

} // verus!
