//! Channel operations: listing, looking up and changing channels.

use vstd::prelude::*;
use crate::call::{Call, members_view, push_member, opt_member, push_opt_member};
use crate::json::{Json, JsonView};

verus! {

/// Get a list of channels.
pub fn get_all(object_detail_level: i32) -> (r: Call)
    ensures
        r.method@ == "channel.list"@,
        r.params@ == JsonView::Object(
            seq![
                ("object_detail_level"@, JsonView::Int(object_detail_level as int)),
            ],
        ),
{
    let mut m: Vec<(String, Json)> = Vec::new();
    proof {
        assert(members_view(m@) =~= seq![]);
    }
    push_member(&mut m, "object_detail_level", Json::integer(object_detail_level as i64));
    proof {
        assert(members_view(m@) =~= seq![
            ("object_detail_level"@, JsonView::Int(object_detail_level as int)),
        ]);
    }
    Call { method: String::from_str("channel.list"), params: Json::object(m) }
}

/// Get a channel object.
pub fn get(channel: &str, object_detail_level: i32) -> (r: Call)
    ensures
        r.method@ == "channel.get"@,
        r.params@ == JsonView::Object(
            seq![
                ("channel"@, JsonView::Str(channel@)),
                ("object_detail_level"@, JsonView::Int(object_detail_level as int)),
            ],
        ),
{
    let mut m: Vec<(String, Json)> = Vec::new();
    proof {
        assert(members_view(m@) =~= seq![]);
    }
    push_member(&mut m, "channel", Json::string(channel));
    push_member(&mut m, "object_detail_level", Json::integer(object_detail_level as i64));
    proof {
        assert(members_view(m@) =~= seq![
            ("channel"@, JsonView::Str(channel@)),
            ("object_detail_level"@, JsonView::Int(object_detail_level as int)),
        ]);
    }
    Call { method: String::from_str("channel.get"), params: Json::object(m) }
}

/// Set and unset modes on a channel.
pub fn set_mode(channel: &str, modes: &str, parameters: &str) -> (r: Call)
    ensures
        r.method@ == "channel.set_mode"@,
        r.params@ == JsonView::Object(
            seq![
                ("channel"@, JsonView::Str(channel@)),
                ("modes"@, JsonView::Str(modes@)),
                ("parameters"@, JsonView::Str(parameters@)),
            ],
        ),
{
    let mut m: Vec<(String, Json)> = Vec::new();
    proof {
        assert(members_view(m@) =~= seq![]);
    }
    push_member(&mut m, "channel", Json::string(channel));
    push_member(&mut m, "modes", Json::string(modes));
    push_member(&mut m, "parameters", Json::string(parameters));
    proof {
        assert(members_view(m@) =~= seq![
            ("channel"@, JsonView::Str(channel@)),
            ("modes"@, JsonView::Str(modes@)),
            ("parameters"@, JsonView::Str(parameters@)),
        ]);
    }
    Call { method: String::from_str("channel.set_mode"), params: Json::object(m) }
}

/// Set the channel topic.
pub fn set_topic(channel: &str, topic: &str, set_by: Option<&str>, set_at: Option<&str>) -> (r: Call)
    ensures
        r.method@ == "channel.set_topic"@,
        r.params@ == JsonView::Object(
            seq![
                ("channel"@, JsonView::Str(channel@)),
                ("topic"@, JsonView::Str(topic@)),
            ] + opt_member("set_by"@, set_by) + opt_member("set_at"@, set_at),
        ),
{
    let mut m: Vec<(String, Json)> = Vec::new();
    proof {
        assert(members_view(m@) =~= seq![]);
    }
    push_member(&mut m, "channel", Json::string(channel));
    push_member(&mut m, "topic", Json::string(topic));
    push_opt_member(&mut m, "set_by", set_by);
    push_opt_member(&mut m, "set_at", set_at);
    proof {
        assert(members_view(m@) =~= seq![
            ("channel"@, JsonView::Str(channel@)),
            ("topic"@, JsonView::Str(topic@)),
        ] + opt_member("set_by"@, set_by) + opt_member("set_at"@, set_at));
    }
    Call { method: String::from_str("channel.set_topic"), params: Json::object(m) }
}

/// Kick a user from the channel.
pub fn kick(channel: &str, nick: &str, reason: &str) -> (r: Call)
    ensures
        r.method@ == "channel.kick"@,
        r.params@ == JsonView::Object(
            seq![
                ("nick"@, JsonView::Str(nick@)),
                ("channel"@, JsonView::Str(channel@)),
                ("reason"@, JsonView::Str(reason@)),
            ],
        ),
{
    let mut m: Vec<(String, Json)> = Vec::new();
    proof {
        assert(members_view(m@) =~= seq![]);
    }
    push_member(&mut m, "nick", Json::string(nick));
    push_member(&mut m, "channel", Json::string(channel));
    push_member(&mut m, "reason", Json::string(reason));
    proof {
        assert(members_view(m@) =~= seq![
            ("nick"@, JsonView::Str(nick@)),
            ("channel"@, JsonView::Str(channel@)),
            ("reason"@, JsonView::Str(reason@)),
        ]);
    }
    Call { method: String::from_str("channel.kick"), params: Json::object(m) }
}

} // verus!
