use unrealircd_rpc::envelope::encode_request;
use unrealircd_rpc::rpc::{add_timer, add_timer_with_id, timer_request_id};
use unrealircd_rpc::{channel, log, name_ban, rpc, server, server_ban, server_ban_exception, spamfilter, stats, user, Call, Json};

fn params_text(call: Call) -> String {
    let text = encode_request("m", call.params, 0);
    let start = text.find("\"params\":").unwrap() + "\"params\":".len();
    let end = text.rfind(",\"id\":0}").unwrap();
    text[start..end].to_string()
}

#[test]
fn user_calls() {
    let c = user::get_all(2);
    assert_eq!(c.method, "user.list");
    assert_eq!(params_text(c), r#"{"object_detail_level":2}"#);
    let c = user::set_mode("bob", "+i", true);
    assert_eq!(c.method, "user.set_mode");
    assert_eq!(params_text(c), r#"{"nick":"bob","modes":"+i","hidden":true}"#);
    let c = user::set_oper("bob", "acct", "netadmin", None, Some("+x"), None, Some("v.host"));
    assert_eq!(params_text(c), r#"{"nick":"bob","oper_account":"acct","oper_class":"netadmin","modes":"+x","vhost":"v.host"}"#);
    let c = user::join("bob", "#a", Some("k"), false);
    assert_eq!(params_text(c), r##"{"nick":"bob","channel":"#a","force":false,"key":"k"}"##);
    let c = user::kill("bob", "bye");
    assert_eq!(c.method, "user.kill");
    assert_eq!(params_text(c), r#"{"nick":"bob","reason":"bye"}"#);
}

#[test]
fn channel_calls() {
    let c = channel::set_topic("#a", "hi", Some("me"), None);
    assert_eq!(c.method, "channel.set_topic");
    assert_eq!(params_text(c), r##"{"channel":"#a","topic":"hi","set_by":"me"}"##);
    let c = channel::kick("#a", "bob", "out");
    assert_eq!(params_text(c), r##"{"nick":"bob","channel":"#a","reason":"out"}"##);
}

#[test]
fn ban_calls() {
    let c = server_ban::add("*@1.2.3.4", "gline", "1d", "spam");
    assert_eq!(c.method, "server_ban.add");
    assert_eq!(params_text(c), r#"{"name":"*@1.2.3.4","type":"gline","reason":"spam","duration_string":"1d"}"#);
    let c = name_ban::add("bad*", "no", None, None);
    assert_eq!(params_text(c), r#"{"name":"bad*","reason":"no","duration_string":"0"}"#);
    let c = name_ban::add("bad*", "no", Some("1h"), Some("me"));
    assert_eq!(params_text(c), r#"{"name":"bad*","reason":"no","duration_string":"1h","set_by":"me"}"#);
    let c = server_ban_exception::add("~a:x", "kline", "ok", None, Some("2d"));
    assert_eq!(params_text(c), r#"{"name":"~a:x","exception_types":"kline","reason":"ok","duration_string":"2d"}"#);
    let c = spamfilter::delete("x", "simple", "p", "kill");
    assert_eq!(c.method, "spamfilter.del");
    assert_eq!(params_text(c), r#"{"name":"x","match_type":"simple","spamfilter_targets":"p","ban_action":"kill"}"#);
    let c = server_ban::get_all();
    assert_eq!(c.method, "server_ban.list");
    assert_eq!(params_text(c), "null");
}

#[test]
fn server_log_stats_calls() {
    assert_eq!(params_text(server::get(None)), "null");
    assert_eq!(params_text(server::get(Some("irc.example"))), r#"{"server":"irc.example"}"#);
    let c = log::subscribe(vec!["all".to_string(), "!debug".to_string()]);
    assert_eq!(params_text(c), r#"{"sources":["all","!debug"]}"#);
    assert_eq!(params_text(log::get_all(None)), "null");
    assert_eq!(log::unsubscribe().method, "log.unsubscribe");
    assert_eq!(params_text(stats::get(1)), r#"{"object_detail_level":1}"#);
}

#[test]
fn rpc_calls() {
    assert_eq!(params_text(rpc::set_issuer("admin")), r#"{"name":"admin"}"#);
    assert_eq!(rpc::info().method, "rpc.info");
    let c = add_timer_with_id("t1", 1000, "stats.get", Json::Null, 123456);
    assert_eq!(c.method, "rpc.add_timer");
    assert_eq!(
        params_text(c),
        r#"{"timer_id":"t1","every_msec":1000,"request":{"jsonrpc":"2.0","method":"stats.get","params":null,"id":123456}}"#
    );
    let c = add_timer("t2", 5, "rpc.info", Json::Null, Some(9));
    assert!(params_text(c).ends_with(r#""id":9}}"#));
    let c = add_timer("t3", 5, "rpc.info", Json::Null, None);
    assert!(params_text(c).starts_with(r#"{"timer_id":"t3""#));
}

#[test]
fn timer_ids() {
    assert_eq!(timer_request_id(Some(42), 7), 42);
    assert_eq!(timer_request_id(None, 5), 100005);
    assert_eq!(timer_request_id(None, 900001), 100001);
    assert_eq!(timer_request_id(None, -5), 99995);
    assert_eq!(timer_request_id(None, i64::MIN), 100000 - (i64::MIN % 900000).abs());
}
