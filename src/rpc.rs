//! RPC meta operations.

use vstd::prelude::*;
use crate::call::{Call, members_view, push_member};
use crate::envelope::{request_envelope, request_view};
use crate::json::{Json, JsonView};

verus! {

/// Get information on all RPC modules loaded.
pub fn info() -> (r: Call)
    ensures
        r.method@ == "rpc.info"@,
        r.params@ == JsonView::Null,
{
    Call { method: String::from_str("rpc.info"), params: Json::Null }
}

/// Set the name of the issuer (requires UnrealIRCd 6.0.8+).
pub fn set_issuer(name: &str) -> (r: Call)
    ensures
        r.method@ == "rpc.set_issuer"@,
        r.params@ == JsonView::Object(seq![("name"@, JsonView::Str(name@))]),
{
    let mut m: Vec<(String, Json)> = Vec::new();
    proof {
        assert(members_view(m@) =~= seq![]);
    }
    push_member(&mut m, "name", Json::string(name));
    proof {
        assert(members_view(m@) =~= seq![("name"@, JsonView::Str(name@))]);
    }
    Call { method: String::from_str("rpc.set_issuer"), params: Json::object(m) }
}

/// Delete a timer (requires UnrealIRCd 6.1.0+).
pub fn del_timer(timer_id: &str) -> (r: Call)
    ensures
        r.method@ == "rpc.del_timer"@,
        r.params@ == JsonView::Object(seq![("timer_id"@, JsonView::Str(timer_id@))]),
{
    let mut m: Vec<(String, Json)> = Vec::new();
    proof {
        assert(members_view(m@) =~= seq![]);
    }
    push_member(&mut m, "timer_id", Json::string(timer_id));
    proof {
        assert(members_view(m@) =~= seq![("timer_id"@, JsonView::Str(timer_id@))]);
    }
    Call { method: String::from_str("rpc.del_timer"), params: Json::object(m) }
}

pub assume_specification<T>[ rand::random::<T> ]() -> (r: T)
    where
        rand::distributions::Standard: rand::distributions::Distribution<T>,
;

/// The request id of a timer given none: 100000 plus the remainder of
/// `random` divided by 900000, the remainder taking the sign of `random`.
pub open spec fn default_timer_id(random: int) -> int {
    if random >= 0 {
        100000 + random % 900000
    } else {
        100000 - (-random) % 900000
    }
}

/// The request id of a timer: the one given, else one derived from `random`.
pub fn timer_request_id(id: Option<i64>, random: i64) -> (r: i64)
    ensures
        r == match id {
            Some(n) => n as int,
            None => default_timer_id(random as int),
        },
{
    match id {
        Some(n) => n,
        None => if random >= 0 {
            100000 + ((random as u64) % 900000) as i64
        } else {
            let magnitude: u64 = ((-(random + 1)) as u64) + 1;
            100000 - (magnitude % 900000) as i64
        },
    }
}

/// The params of `rpc.add_timer`: the timer's id, its period, and the
/// request it runs.
pub open spec fn timer_params(
    timer_id: Seq<char>,
    every_msec: int,
    method: Seq<char>,
    params: JsonView,
    request_id: int,
) -> JsonView {
    JsonView::Object(
        seq![
            ("timer_id"@, JsonView::Str(timer_id)),
            ("every_msec"@, JsonView::Int(every_msec)),
            ("request"@, request_view(method, params, request_id)),
        ],
    )
}

/// Add a timer that runs `method` with `params` every `every_msec`
/// milliseconds, its request carrying `request_id` (requires UnrealIRCd
/// 6.1.0+).
pub fn add_timer_with_id(timer_id: &str, every_msec: i64, method: &str, params: Json, request_id: i64) -> (r: Call)
    ensures
        r.method@ == "rpc.add_timer"@,
        r.params@ == timer_params(timer_id@, every_msec as int, method@, params@, request_id as int),
{
    let ghost pv = params@;
    let request = request_envelope(method, params, request_id);
    let mut m: Vec<(String, Json)> = Vec::new();
    proof {
        assert(members_view(m@) =~= seq![]);
    }
    push_member(&mut m, "timer_id", Json::string(timer_id));
    push_member(&mut m, "every_msec", Json::integer(every_msec));
    push_member(&mut m, "request", request);
    proof {
        assert(members_view(m@) =~= timer_params(timer_id@, every_msec as int, method@, pv, request_id as int)->Object_0);
    }
    Call { method: String::from_str("rpc.add_timer"), params: Json::object(m) }
}

/// Add a timer (requires UnrealIRCd 6.1.0+). Without an id, its request
/// carries one derived from a random number (see `default_timer_id`).
pub fn add_timer(timer_id: &str, every_msec: i64, method: &str, params: Json, id: Option<i64>) -> (r: Call)
    ensures
        r.method@ == "rpc.add_timer"@,
        exists|request_id: int|
            r.params@ == timer_params(timer_id@, every_msec as int, method@, params@, request_id) && match id {
                Some(n) => request_id == n as int,
                None => exists|random: i64| request_id == default_timer_id(random as int),
            },
{
    let random: i64 = match id {
        Some(_) => 0,
        None => rand::random::<i64>(),
    };
    let request_id = timer_request_id(id, random);
    let r = add_timer_with_id(timer_id, every_msec, method, params, request_id);
    proof {
        if id is None {
            assert(request_id as int == default_timer_id(random as int));
        }
        assert(r.params@ == timer_params(timer_id@, every_msec as int, method@, params@, request_id as int));
    }
    r
}

} // verus!
