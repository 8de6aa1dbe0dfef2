use vault::secrets::aws::Lease;
use vault::{Error, Json, LeasedData, Response, Secret, TokenType};

fn s(text: &str) -> Json {
    Json::Str(text.to_string())
}

fn obj(members: Vec<(&str, Json)>) -> Json {
    Json::Object(members.into_iter().map(|(k, v)| (k.to_string(), v)).collect())
}

fn envelope(data: Option<Json>) -> Json {
    let mut members = vec![
        ("request_id", s("req-1")),
        ("lease_id", s("lease-7")),
        ("renewable", Json::Bool(true)),
        ("lease_duration", Json::Int(3600)),
    ];
    if let Some(d) = data {
        members.push(("data", d));
    }
    obj(members)
}

fn decoded(v: Json) -> Response {
    match Response::from_json(v) {
        Ok(r) => r,
        Err(_) => panic!("the reply should decode"),
    }
}

#[test]
fn secret_renders_redacted() {
    let secret = Secret::from("hunter2".to_string());
    assert_eq!(secret.redacted(), "***");
    assert_eq!(secret.as_str(), "hunter2");
    assert!(secret == Secret("hunter2".to_string()));
    assert!(secret != Secret("other".to_string()));
    let other = Secret::from(String::new());
    assert_eq!(other.redacted(), "***");
}

#[test]
fn error_reply_joins_messages_in_order() {
    let r = Response::Error { errors: vec!["first".to_string(), "second".to_string(), "third".to_string()] };
    match r.ok() {
        Err(Error::VaultError(m)) => assert_eq!(m, "first; second; third"),
        _ => panic!("expected a service error"),
    }
    let one = Response::Error { errors: vec!["permission denied".to_string()] };
    match one.data_value() {
        Err(Error::VaultError(m)) => assert_eq!(m, "permission denied"),
        _ => panic!("expected a service error"),
    }
    let none = Response::Error { errors: vec![] };
    match none.data::<Lease>() {
        Err(Error::VaultError(m)) => assert_eq!(m, ""),
        _ => panic!("expected a service error"),
    }
}

#[test]
fn empty_reply_has_no_data() {
    assert!(matches!(Response::Empty.ok(), Ok(None)));
    assert!(matches!(Response::Empty.data_value(), Err(Error::MissingData(_))));
    assert!(matches!(Response::Empty.data::<Lease>(), Err(Error::MissingData(_))));
    match Response::Empty.leased_data::<Lease>() {
        Err(Error::MissingData(b)) => assert!(matches!(*b, Response::Empty)),
        _ => panic!("expected missing data"),
    }
}

#[test]
fn data_reply_without_payload_is_missing_data() {
    let r = decoded(envelope(None));
    match r.data_value() {
        Err(Error::MissingData(b)) => assert!(matches!(*b, Response::Response(_))),
        _ => panic!("expected missing data"),
    }
    let null_payload = decoded(envelope(Some(Json::Null)));
    assert!(matches!(null_payload.data::<Lease>(), Err(Error::MissingData(_))));
    match r.ok() {
        Ok(Some(d)) => {
            assert_eq!(d.request_id, "req-1");
            assert_eq!(d.lease_id, "lease-7");
            assert!(d.renewable);
            assert_eq!(d.lease_duration, 3600);
            assert!(d.data.is_none());
        },
        _ => panic!("expected the envelope"),
    }
}

#[test]
fn typed_payload_decodes_or_fails_with_decode_error() {
    let good = decoded(envelope(Some(obj(vec![("lease", s("1h0m0s")), ("lease_max", s("24h0m0s"))]))));
    match good.data::<Lease>() {
        Ok(l) => {
            assert_eq!(l.lease, "1h0m0s");
            assert_eq!(l.lease_max, "24h0m0s");
        },
        Err(_) => panic!("the payload fits"),
    }
    let bad = decoded(envelope(Some(obj(vec![("lease", Json::Int(5))]))));
    assert!(matches!(bad.data::<Lease>(), Err(Error::JsonError(_))));
    let not_object = decoded(envelope(Some(s("text"))));
    assert!(matches!(not_object.data::<Lease>(), Err(Error::JsonError(_))));
    match not_object.data_value() {
        Ok(Json::Str(t)) => assert_eq!(t, "text"),
        _ => panic!("the raw payload is there"),
    }
}

#[test]
fn leased_data_keeps_lease() {
    let r = decoded(envelope(Some(obj(vec![("lease", s("1h")), ("lease_max", s("2h"))]))));
    match r.leased_data::<Lease>() {
        Ok(l) => {
            assert_eq!(l.lease_id, "lease-7");
            assert!(l.renewable);
            assert_eq!(l.lease_duration, 3600);
            let inner: Lease = l.unwrap();
            assert_eq!(inner.lease, "1h");
        },
        Err(_) => panic!("the payload fits"),
    }
    let plain = LeasedData { lease_id: String::new(), renewable: false, lease_duration: 0, data: 42u8 };
    assert_eq!(plain.unwrap(), 42);
}

#[test]
fn error_shape_is_tried_first() {
    let both = obj(vec![
        ("errors", Json::Array(vec![s("boom")])),
        ("request_id", s("x")),
        ("lease_id", s("")),
        ("renewable", Json::Bool(false)),
        ("lease_duration", Json::Int(0)),
    ]);
    match decoded(both) {
        Response::Error { errors } => assert_eq!(errors, vec!["boom".to_string()]),
        _ => panic!("expected the error shape"),
    }
}

#[test]
fn neither_shape_is_a_decode_error() {
    assert!(matches!(Response::from_json(Json::Null), Err(Error::JsonError(_))));
    assert!(matches!(Response::from_json(obj(vec![("errors", Json::Int(1))])), Err(Error::JsonError(_))));
    let missing_lease = obj(vec![("request_id", s("x")), ("renewable", Json::Bool(false)), ("lease_duration", Json::Int(0))]);
    assert!(matches!(Response::from_json(missing_lease), Err(Error::JsonError(_))));
    let negative = obj(vec![
        ("request_id", s("x")),
        ("lease_id", s("")),
        ("renewable", Json::Bool(false)),
        ("lease_duration", Json::Int(-1)),
    ]);
    assert!(matches!(Response::from_json(negative), Err(Error::JsonError(_))));
}

#[test]
fn authentication_block_is_decoded() {
    let auth = obj(vec![
        ("client_token", s("s.abc")),
        ("accessor", s("acc")),
        ("policies", Json::Array(vec![s("default"), s("admin")])),
        ("token_policies", Json::Array(vec![s("default")])),
        ("metadata", obj(vec![("user", s("ann"))])),
        ("lease_duration", Json::Int(60)),
        ("renewable", Json::Bool(true)),
        ("entity_id", s("ent")),
        ("token_type", s("batch")),
    ]);
    let reply = obj(vec![
        ("request_id", s("x")),
        ("lease_id", s("")),
        ("renewable", Json::Bool(false)),
        ("lease_duration", Json::Int(0)),
        ("warnings", Json::Array(vec![s("careful")])),
        ("auth", auth),
    ]);
    match decoded(reply).ok() {
        Ok(Some(d)) => {
            assert_eq!(d.warnings, Some(vec!["careful".to_string()]));
            let a = match d.auth {
                Some(a) => a,
                None => panic!("auth is there"),
            };
            assert_eq!(a.client_token.as_str(), "s.abc");
            assert_eq!(a.client_token.redacted(), "***");
            assert_eq!(a.policies, vec!["default".to_string(), "admin".to_string()]);
            assert_eq!(a.metadata, vec![("user".to_string(), "ann".to_string())]);
            assert!(a.token_type == TokenType::Batch);
        },
        _ => panic!("expected the envelope"),
    }
}

#[test]
fn missing_data_carries_the_reply() {
    let r = decoded(envelope(None));
    match r.data::<Lease>() {
        Err(Error::MissingData(b)) => match *b {
            Response::Response(d) => {
                assert_eq!(d.request_id, "req-1");
                assert_eq!(d.lease_id, "lease-7");
                assert!(d.renewable);
                assert_eq!(d.lease_duration, 3600);
                assert!(d.data.is_none());
            },
            _ => panic!("the data reply is carried"),
        },
        _ => panic!("expected missing data"),
    }
    match r.leased_data::<Lease>() {
        Err(Error::MissingData(b)) => assert!(matches!(*b, Response::Response(ref d) if d.lease_id == "lease-7")),
        _ => panic!("expected missing data"),
    }
}

#[test]
fn secret_equality_follows_text() {
    assert!(Secret::from("a".to_string()) == Secret::from("a".to_string()));
    assert!(Secret::from("a".to_string()) != Secret::from("b".to_string()));
}
