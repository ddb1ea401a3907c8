use unrealircd_rpc::auth::{auth_header_for, basic_header};
use unrealircd_rpc::call::{optional_field, required_field};
use unrealircd_rpc::envelope::{decode, encode_request, read_envelope, Reply};
use unrealircd_rpc::{user, Error, Json};

fn text_of(j: Json) -> String {
    encode_request("m", j, 0)
}

#[test]
fn encode_then_decode_user_get() {
    let call = user::get("bob", 2);
    assert_eq!(call.method, "user.get");
    let text = encode_request(&call.method, call.params, 7);
    assert_eq!(
        text,
        r#"{"jsonrpc":"2.0","method":"user.get","params":{"nick":"bob","object_detail_level":2},"id":7}"#
    );
    let envelope = decode(r#"{"result":{"client":{"nick":"bob"}},"id":7}"#).unwrap();
    assert_eq!(envelope.id, Some(7));
    let result = match envelope.reply {
        Reply::Value(v) => v,
        other => panic!("unexpected {:?}", other),
    };
    let client = optional_field(&result, "client").unwrap();
    assert_eq!(text_of(client), r#"{"jsonrpc":"2.0","method":"m","params":{"nick":"bob"},"id":0}"#);
}

#[test]
fn both_or_neither_is_protocol_violation() {
    let both = decode(r#"{"jsonrpc":"2.0","result":1,"error":{"code":1,"message":"x"},"id":1}"#);
    assert_eq!(both.unwrap_err(), Error::ProtocolViolation);
    let neither = decode(r#"{"jsonrpc":"2.0","id":1}"#);
    assert_eq!(neither.unwrap_err(), Error::ProtocolViolation);
    let scalar = decode("5");
    assert_eq!(scalar.unwrap_err(), Error::ProtocolViolation);
}

#[test]
fn malformed_payloads() {
    assert_eq!(decode("{\"result\":").unwrap_err(), Error::MalformedPayload);
    assert_eq!(decode(r#"{"error":{"code":"x","message":"m"}}"#).unwrap_err(), Error::MalformedPayload);
    assert_eq!(decode(r#"{"error":"bad"}"#).unwrap_err(), Error::MalformedPayload);
}

#[test]
fn error_record_and_null_result() {
    match decode(r#"{"error":{"code":-32601,"message":"Method not found"},"id":null}"#).unwrap() {
        e => {
            assert_eq!(e.id, None);
            match e.reply {
                Reply::Failure { code, message } => {
                    assert_eq!(code, -32601);
                    assert_eq!(message, "Method not found");
                }
                other => panic!("unexpected {:?}", other),
            }
        }
    }
    let e = decode(r#"{"result":null,"id":"x"}"#).unwrap();
    assert_eq!(e.id, None);
    assert!(matches!(e.reply, Reply::Value(Json::Null)));
}

#[test]
fn numbers_keep_their_form() {
    let e = decode(r#"{"result":[1,-2,1.5,18446744073709551615]}"#).unwrap();
    let v = match e.reply {
        Reply::Value(v) => v,
        other => panic!("unexpected {:?}", other),
    };
    match &v {
        Json::Array(items) => {
            assert!(matches!(items[0], Json::Int(1)));
            assert!(matches!(items[1], Json::Int(-2)));
            assert!(matches!(&items[2], Json::Num(s) if s == "1.5"));
            assert!(matches!(&items[3], Json::Num(s) if s == "18446744073709551615"));
        }
        other => panic!("unexpected {:?}", other),
    }
    assert_eq!(
        text_of(v.deep_copy()),
        r#"{"jsonrpc":"2.0","method":"m","params":[1,-2,1.5,18446744073709551615],"id":0}"#
    );
}

#[test]
fn read_envelope_on_values() {
    let v = Json::object(vec![("result".to_string(), Json::string("ok")), ("id".to_string(), Json::integer(4))]);
    let e = read_envelope(&v).unwrap();
    assert_eq!(e.id, Some(4));
    assert!(matches!(e.reply, Reply::Value(Json::Str(ref s)) if s == "ok"));
}

#[test]
fn required_and_optional_fields() {
    let result = Json::object(vec![("list".to_string(), Json::Array(vec![Json::integer(1)]))]);
    assert!(matches!(required_field(&result, "list"), Ok(Json::Array(ref v)) if v.len() == 1));
    assert_eq!(required_field(&result, "tkl").unwrap_err(), Error::InvalidResponse);
    assert!(optional_field(&result, "tkl").is_none());
    assert!(optional_field(&Json::Bool(true), "list").is_none());
}

#[test]
fn auth_header_encodes_login() {
    assert_eq!(auth_header_for("user:pass"), "Basic dXNlcjpwYXNz");
    assert_eq!(auth_header_for(""), "Basic ");
    assert_eq!(auth_header_for("a:b"), "Basic YTpi");
    assert_eq!(basic_header("abc"), "Basic abc");
}
