//! User operations: listing, looking up and changing users.

use vstd::prelude::*;
use crate::call::{Call, members_view, push_member, opt_member, push_opt_member};
use crate::json::{Json, JsonView};

verus! {

/// Get a list of all users.
pub fn get_all(object_detail_level: i32) -> (r: Call)
    ensures
        r.method@ == "user.list"@,
        r.params@ == JsonView::Object(
            seq![
                ("object_detail_level"@, JsonView::Int(object_detail_level as int)),
            ],
        ),
{
    let mut m: Vec<(String, Json)> = Vec::new();
    proof {
        assert(members_view(m@) =~= seq![]);
    }
    push_member(&mut m, "object_detail_level", Json::integer(object_detail_level as i64));
    proof {
        assert(members_view(m@) =~= seq![
            ("object_detail_level"@, JsonView::Int(object_detail_level as int)),
        ]);
    }
    Call { method: String::from_str("user.list"), params: Json::object(m) }
}

/// Get a user object.
pub fn get(nick: &str, object_detail_level: i32) -> (r: Call)
    ensures
        r.method@ == "user.get"@,
        r.params@ == JsonView::Object(
            seq![
                ("nick"@, JsonView::Str(nick@)),
                ("object_detail_level"@, JsonView::Int(object_detail_level as int)),
            ],
        ),
{
    let mut m: Vec<(String, Json)> = Vec::new();
    proof {
        assert(members_view(m@) =~= seq![]);
    }
    push_member(&mut m, "nick", Json::string(nick));
    push_member(&mut m, "object_detail_level", Json::integer(object_detail_level as i64));
    proof {
        assert(members_view(m@) =~= seq![
            ("nick"@, JsonView::Str(nick@)),
            ("object_detail_level"@, JsonView::Int(object_detail_level as int)),
        ]);
    }
    Call { method: String::from_str("user.get"), params: Json::object(m) }
}

/// Set the nickname of a user (changes the nick).
pub fn set_nick(nick: &str, newnick: &str) -> (r: Call)
    ensures
        r.method@ == "user.set_nick"@,
        r.params@ == JsonView::Object(
            seq![
                ("nick"@, JsonView::Str(nick@)),
                ("newnick"@, JsonView::Str(newnick@)),
            ],
        ),
{
    let mut m: Vec<(String, Json)> = Vec::new();
    proof {
        assert(members_view(m@) =~= seq![]);
    }
    push_member(&mut m, "nick", Json::string(nick));
    push_member(&mut m, "newnick", Json::string(newnick));
    proof {
        assert(members_view(m@) =~= seq![
            ("nick"@, JsonView::Str(nick@)),
            ("newnick"@, JsonView::Str(newnick@)),
        ]);
    }
    Call { method: String::from_str("user.set_nick"), params: Json::object(m) }
}

/// Set the username/ident of a user.
pub fn set_username(nick: &str, username: &str) -> (r: Call)
    ensures
        r.method@ == "user.set_username"@,
        r.params@ == JsonView::Object(
            seq![
                ("nick"@, JsonView::Str(nick@)),
                ("username"@, JsonView::Str(username@)),
            ],
        ),
{
    let mut m: Vec<(String, Json)> = Vec::new();
    proof {
        assert(members_view(m@) =~= seq![]);
    }
    push_member(&mut m, "nick", Json::string(nick));
    push_member(&mut m, "username", Json::string(username));
    proof {
        assert(members_view(m@) =~= seq![
            ("nick"@, JsonView::Str(nick@)),
            ("username"@, JsonView::Str(username@)),
        ]);
    }
    Call { method: String::from_str("user.set_username"), params: Json::object(m) }
}

/// Set the realname/gecos of a user.
pub fn set_realname(nick: &str, realname: &str) -> (r: Call)
    ensures
        r.method@ == "user.set_realname"@,
        r.params@ == JsonView::Object(
            seq![
                ("nick"@, JsonView::Str(nick@)),
                ("realname"@, JsonView::Str(realname@)),
            ],
        ),
{
    let mut m: Vec<(String, Json)> = Vec::new();
    proof {
        assert(members_view(m@) =~= seq![]);
    }
    push_member(&mut m, "nick", Json::string(nick));
    push_member(&mut m, "realname", Json::string(realname));
    proof {
        assert(members_view(m@) =~= seq![
            ("nick"@, JsonView::Str(nick@)),
            ("realname"@, JsonView::Str(realname@)),
        ]);
    }
    Call { method: String::from_str("user.set_realname"), params: Json::object(m) }
}

/// Set a virtual host (vhost) on the user.
pub fn set_vhost(nick: &str, vhost: &str) -> (r: Call)
    ensures
        r.method@ == "user.set_vhost"@,
        r.params@ == JsonView::Object(
            seq![
                ("nick"@, JsonView::Str(nick@)),
                ("vhost"@, JsonView::Str(vhost@)),
            ],
        ),
{
    let mut m: Vec<(String, Json)> = Vec::new();
    proof {
        assert(members_view(m@) =~= seq![]);
    }
    push_member(&mut m, "nick", Json::string(nick));
    push_member(&mut m, "vhost", Json::string(vhost));
    proof {
        assert(members_view(m@) =~= seq![
            ("nick"@, JsonView::Str(nick@)),
            ("vhost"@, JsonView::Str(vhost@)),
        ]);
    }
    Call { method: String::from_str("user.set_vhost"), params: Json::object(m) }
}

/// Change the user modes of a user.
pub fn set_mode(nick: &str, mode: &str, hidden: bool) -> (r: Call)
    ensures
        r.method@ == "user.set_mode"@,
        r.params@ == JsonView::Object(
            seq![
                ("nick"@, JsonView::Str(nick@)),
                ("modes"@, JsonView::Str(mode@)),
                ("hidden"@, JsonView::Bool(hidden)),
            ],
        ),
{
    let mut m: Vec<(String, Json)> = Vec::new();
    proof {
        assert(members_view(m@) =~= seq![]);
    }
    push_member(&mut m, "nick", Json::string(nick));
    push_member(&mut m, "modes", Json::string(mode));
    push_member(&mut m, "hidden", Json::boolean(hidden));
    proof {
        assert(members_view(m@) =~= seq![
            ("nick"@, JsonView::Str(nick@)),
            ("modes"@, JsonView::Str(mode@)),
            ("hidden"@, JsonView::Bool(hidden)),
        ]);
    }
    Call { method: String::from_str("user.set_mode"), params: Json::object(m) }
}

/// Change the snomask of a user (oper).
pub fn set_snomask(nick: &str, snomask: &str, hidden: bool) -> (r: Call)
    ensures
        r.method@ == "user.set_snomask"@,
        r.params@ == JsonView::Object(
            seq![
                ("nick"@, JsonView::Str(nick@)),
                ("snomask"@, JsonView::Str(snomask@)),
                ("hidden"@, JsonView::Bool(hidden)),
            ],
        ),
{
    let mut m: Vec<(String, Json)> = Vec::new();
    proof {
        assert(members_view(m@) =~= seq![]);
    }
    push_member(&mut m, "nick", Json::string(nick));
    push_member(&mut m, "snomask", Json::string(snomask));
    push_member(&mut m, "hidden", Json::boolean(hidden));
    proof {
        assert(members_view(m@) =~= seq![
            ("nick"@, JsonView::Str(nick@)),
            ("snomask"@, JsonView::Str(snomask@)),
            ("hidden"@, JsonView::Bool(hidden)),
        ]);
    }
    Call { method: String::from_str("user.set_snomask"), params: Json::object(m) }
}

/// Make user an IRC Operator (oper).
pub fn set_oper(
    nick: &str,
    oper_account: &str,
    oper_class: &str,
    class: Option<&str>,
    modes: Option<&str>,
    snomask: Option<&str>,
    vhost: Option<&str>,
) -> (r: Call)
    ensures
        r.method@ == "user.set_oper"@,
        r.params@ == JsonView::Object(
            seq![
                ("nick"@, JsonView::Str(nick@)),
                ("oper_account"@, JsonView::Str(oper_account@)),
                ("oper_class"@, JsonView::Str(oper_class@)),
            ] + opt_member("class"@, class) + opt_member("modes"@, modes) + opt_member("snomask"@, snomask) + opt_member("vhost"@, vhost),
        ),
{
    let mut m: Vec<(String, Json)> = Vec::new();
    proof {
        assert(members_view(m@) =~= seq![]);
    }
    push_member(&mut m, "nick", Json::string(nick));
    push_member(&mut m, "oper_account", Json::string(oper_account));
    push_member(&mut m, "oper_class", Json::string(oper_class));
    push_opt_member(&mut m, "class", class);
    push_opt_member(&mut m, "modes", modes);
    push_opt_member(&mut m, "snomask", snomask);
    push_opt_member(&mut m, "vhost", vhost);
    proof {
        assert(members_view(m@) =~= seq![
            ("nick"@, JsonView::Str(nick@)),
            ("oper_account"@, JsonView::Str(oper_account@)),
            ("oper_class"@, JsonView::Str(oper_class@)),
        ] + opt_member("class"@, class) + opt_member("modes"@, modes) + opt_member("snomask"@, snomask) + opt_member("vhost"@, vhost));
    }
    Call { method: String::from_str("user.set_oper"), params: Json::object(m) }
}

/// Join a user to a channel.
pub fn join(nick: &str, channel: &str, key: Option<&str>, force: bool) -> (r: Call)
    ensures
        r.method@ == "user.join"@,
        r.params@ == JsonView::Object(
            seq![
                ("nick"@, JsonView::Str(nick@)),
                ("channel"@, JsonView::Str(channel@)),
                ("force"@, JsonView::Bool(force)),
            ] + opt_member("key"@, key),
        ),
{
    let mut m: Vec<(String, Json)> = Vec::new();
    proof {
        assert(members_view(m@) =~= seq![]);
    }
    push_member(&mut m, "nick", Json::string(nick));
    push_member(&mut m, "channel", Json::string(channel));
    push_member(&mut m, "force", Json::boolean(force));
    push_opt_member(&mut m, "key", key);
    proof {
        assert(members_view(m@) =~= seq![
            ("nick"@, JsonView::Str(nick@)),
            ("channel"@, JsonView::Str(channel@)),
            ("force"@, JsonView::Bool(force)),
        ] + opt_member("key"@, key));
    }
    Call { method: String::from_str("user.join"), params: Json::object(m) }
}

/// Part a user from a channel.
pub fn part(nick: &str, channel: &str, force: bool) -> (r: Call)
    ensures
        r.method@ == "user.part"@,
        r.params@ == JsonView::Object(
            seq![
                ("nick"@, JsonView::Str(nick@)),
                ("channel"@, JsonView::Str(channel@)),
                ("force"@, JsonView::Bool(force)),
            ],
        ),
{
    let mut m: Vec<(String, Json)> = Vec::new();
    proof {
        assert(members_view(m@) =~= seq![]);
    }
    push_member(&mut m, "nick", Json::string(nick));
    push_member(&mut m, "channel", Json::string(channel));
    push_member(&mut m, "force", Json::boolean(force));
    proof {
        assert(members_view(m@) =~= seq![
            ("nick"@, JsonView::Str(nick@)),
            ("channel"@, JsonView::Str(channel@)),
            ("force"@, JsonView::Bool(force)),
        ]);
    }
    Call { method: String::from_str("user.part"), params: Json::object(m) }
}

/// Quit a user from IRC. Pretends it is a normal QUIT.
pub fn quit(nick: &str, reason: &str) -> (r: Call)
    ensures
        r.method@ == "user.quit"@,
        r.params@ == JsonView::Object(
            seq![
                ("nick"@, JsonView::Str(nick@)),
                ("reason"@, JsonView::Str(reason@)),
            ],
        ),
{
    let mut m: Vec<(String, Json)> = Vec::new();
    proof {
        assert(members_view(m@) =~= seq![]);
    }
    push_member(&mut m, "nick", Json::string(nick));
    push_member(&mut m, "reason", Json::string(reason));
    proof {
        assert(members_view(m@) =~= seq![
            ("nick"@, JsonView::Str(nick@)),
            ("reason"@, JsonView::Str(reason@)),
        ]);
    }
    Call { method: String::from_str("user.quit"), params: Json::object(m) }
}

/// Kill a user from IRC. Shows that the user is forcefully removed.
pub fn kill(nick: &str, reason: &str) -> (r: Call)
    ensures
        r.method@ == "user.kill"@,
        r.params@ == JsonView::Object(
            seq![
                ("nick"@, JsonView::Str(nick@)),
                ("reason"@, JsonView::Str(reason@)),
            ],
        ),
{
    let mut m: Vec<(String, Json)> = Vec::new();
    proof {
        assert(members_view(m@) =~= seq![]);
    }
    push_member(&mut m, "nick", Json::string(nick));
    push_member(&mut m, "reason", Json::string(reason));
    proof {
        assert(members_view(m@) =~= seq![
            ("nick"@, JsonView::Str(nick@)),
            ("reason"@, JsonView::Str(reason@)),
        ]);
    }
    Call { method: String::from_str("user.kill"), params: Json::object(m) }
}

} // verus!
