//! Server operations.

use vstd::prelude::*;
use crate::call::{members_view, push_member, Call};
use crate::json::{Json, JsonView};

verus! {

/// Get a list of all servers.
pub fn get_all() -> (r: Call)
    ensures
        r.method@ == "server.list"@,
        r.params@ == JsonView::Null,
{
    Call { method: String::from_str("server.list"), params: Json::Null }
}

/// Get a server object: the named server, or the one the client is
/// connected to when no name is given (params null).
pub fn get(server: Option<&str>) -> (r: Call)
    ensures
        r.method@ == "server.get"@,
        r.params@ == match server {
            Some(s) => JsonView::Object(seq![("server"@, JsonView::Str(s@))]),
            None => JsonView::Null,
        },
{
    let params = match server {
        Some(s) => {
            let mut m: Vec<(String, Json)> = Vec::new();
            proof {
                assert(members_view(m@) =~= seq![]);
            }
            push_member(&mut m, "server", Json::string(s));
            proof {
                assert(members_view(m@) =~= seq![("server"@, JsonView::Str(s@))]);
            }
            Json::object(m)
        },
        None => Json::Null,
    };
    Call { method: String::from_str("server.get"), params }
}

} // verus!
