//! Spamfilter operations.

use vstd::prelude::*;
use crate::call::{Call, members_view, push_member};
use crate::json::{Json, JsonView};

verus! {

/// Add a spamfilter.
pub fn add(
    name: &str,
    match_type: &str,
    spamfilter_targets: &str,
    ban_action: &str,
    ban_duration: &str,
    reason: &str,
) -> (r: Call)
    ensures
        r.method@ == "spamfilter.add"@,
        r.params@ == JsonView::Object(
            seq![
                ("name"@, JsonView::Str(name@)),
                ("match_type"@, JsonView::Str(match_type@)),
                ("spamfilter_targets"@, JsonView::Str(spamfilter_targets@)),
                ("ban_action"@, JsonView::Str(ban_action@)),
                ("ban_duration"@, JsonView::Str(ban_duration@)),
                ("reason"@, JsonView::Str(reason@)),
            ],
        ),
{
    let mut m: Vec<(String, Json)> = Vec::new();
    proof {
        assert(members_view(m@) =~= seq![]);
    }
    push_member(&mut m, "name", Json::string(name));
    push_member(&mut m, "match_type", Json::string(match_type));
    push_member(&mut m, "spamfilter_targets", Json::string(spamfilter_targets));
    push_member(&mut m, "ban_action", Json::string(ban_action));
    push_member(&mut m, "ban_duration", Json::string(ban_duration));
    push_member(&mut m, "reason", Json::string(reason));
    proof {
        assert(members_view(m@) =~= seq![
            ("name"@, JsonView::Str(name@)),
            ("match_type"@, JsonView::Str(match_type@)),
            ("spamfilter_targets"@, JsonView::Str(spamfilter_targets@)),
            ("ban_action"@, JsonView::Str(ban_action@)),
            ("ban_duration"@, JsonView::Str(ban_duration@)),
            ("reason"@, JsonView::Str(reason@)),
        ]);
    }
    Call { method: String::from_str("spamfilter.add"), params: Json::object(m) }
}

/// Delete a spamfilter.
pub fn delete(
    name: &str,
    match_type: &str,
    spamfilter_targets: &str,
    ban_action: &str,
) -> (r: Call)
    ensures
        r.method@ == "spamfilter.del"@,
        r.params@ == JsonView::Object(
            seq![
                ("name"@, JsonView::Str(name@)),
                ("match_type"@, JsonView::Str(match_type@)),
                ("spamfilter_targets"@, JsonView::Str(spamfilter_targets@)),
                ("ban_action"@, JsonView::Str(ban_action@)),
            ],
        ),
{
    let mut m: Vec<(String, Json)> = Vec::new();
    proof {
        assert(members_view(m@) =~= seq![]);
    }
    push_member(&mut m, "name", Json::string(name));
    push_member(&mut m, "match_type", Json::string(match_type));
    push_member(&mut m, "spamfilter_targets", Json::string(spamfilter_targets));
    push_member(&mut m, "ban_action", Json::string(ban_action));
    proof {
        assert(members_view(m@) =~= seq![
            ("name"@, JsonView::Str(name@)),
            ("match_type"@, JsonView::Str(match_type@)),
            ("spamfilter_targets"@, JsonView::Str(spamfilter_targets@)),
            ("ban_action"@, JsonView::Str(ban_action@)),
        ]);
    }
    Call { method: String::from_str("spamfilter.del"), params: Json::object(m) }
}

/// Get a list of all spamfilters.
pub fn get_all() -> (r: Call)
    ensures
        r.method@ == "spamfilter.list"@,
        r.params@ == JsonView::Null,
{
    Call { method: String::from_str("spamfilter.list"), params: Json::Null }
}

/// Get a specific spamfilter.
pub fn get(
    name: &str,
    match_type: &str,
    spamfilter_targets: &str,
    ban_action: &str,
) -> (r: Call)
    ensures
        r.method@ == "spamfilter.get"@,
        r.params@ == JsonView::Object(
            seq![
                ("name"@, JsonView::Str(name@)),
                ("match_type"@, JsonView::Str(match_type@)),
                ("spamfilter_targets"@, JsonView::Str(spamfilter_targets@)),
                ("ban_action"@, JsonView::Str(ban_action@)),
            ],
        ),
{
    let mut m: Vec<(String, Json)> = Vec::new();
    proof {
        assert(members_view(m@) =~= seq![]);
    }
    push_member(&mut m, "name", Json::string(name));
    push_member(&mut m, "match_type", Json::string(match_type));
    push_member(&mut m, "spamfilter_targets", Json::string(spamfilter_targets));
    push_member(&mut m, "ban_action", Json::string(ban_action));
    proof {
        assert(members_view(m@) =~= seq![
            ("name"@, JsonView::Str(name@)),
            ("match_type"@, JsonView::Str(match_type@)),
            ("spamfilter_targets"@, JsonView::Str(spamfilter_targets@)),
            ("ban_action"@, JsonView::Str(ban_action@)),
        ]);
    }
    Call { method: String::from_str("spamfilter.get"), params: Json::object(m) }
}

} // verus!
