//! Log operations.

use vstd::prelude::*;
use crate::call::{Call, members_view, push_member, strings_view};
use crate::json::{Json, JsonView};

verus! {

/// Subscribe to log events. Any previous subscriptions are overwritten.
pub fn subscribe(sources: Vec<String>) -> (r: Call)
    ensures
        r.method@ == "log.subscribe"@,
        r.params@ == JsonView::Object(seq![("sources"@, strings_view(sources@))]),
{
    let mut m: Vec<(String, Json)> = Vec::new();
    proof {
        assert(members_view(m@) =~= seq![]);
    }
    push_member(&mut m, "sources", Json::strings(&sources));
    proof {
        assert(members_view(m@) =~= seq![("sources"@, strings_view(sources@))]);
    }
    Call { method: String::from_str("log.subscribe"), params: Json::object(m) }
}

/// Unsubscribe from all log events.
pub fn unsubscribe() -> (r: Call)
    ensures
        r.method@ == "log.unsubscribe"@,
        r.params@ == JsonView::Null,
{
    Call { method: String::from_str("log.unsubscribe"), params: Json::Null }
}

/// Get past log events, of the given sources or of all (params null).
pub fn get_all(sources: Option<Vec<String>>) -> (r: Call)
    ensures
        r.method@ == "log.list"@,
        r.params@ == match sources {
            Some(v) => JsonView::Object(seq![("sources"@, strings_view(v@))]),
            None => JsonView::Null,
        },
{
    let params = match sources {
        Some(v) => {
            let mut m: Vec<(String, Json)> = Vec::new();
            proof {
                assert(members_view(m@) =~= seq![]);
            }
            push_member(&mut m, "sources", Json::strings(&v));
            proof {
                assert(members_view(m@) =~= seq![("sources"@, strings_view(v@))]);
            }
            Json::object(m)
        },
        None => Json::Null,
    };
    Call { method: String::from_str("log.list"), params }
}

} // verus!
