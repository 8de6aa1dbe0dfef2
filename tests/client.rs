use vault::client::environment_variable_or_provided;
use vault::{Call, Client, Error, Json, Method, Response};

fn client() -> Client {
    match Client::new(Some("http://127.0.0.1:8200".to_string()), Some("12345".to_string()), false) {
        Ok(c) => c,
        Err(_) => panic!("address and token are given"),
    }
}

#[test]
fn new_requires_address_and_token() {
    assert!(matches!(Client::new(None, Some("t".to_string()), false), Err(Error::MissingAddress)));
    assert!(matches!(Client::new(Some("http://a".to_string()), None, false), Err(Error::MissingToken)));
    assert!(matches!(Client::new(None, None, true), Err(Error::MissingAddress)));
    let c = client();
    assert_eq!(c.address(), "http://127.0.0.1:8200");
    assert_eq!(c.token().as_str(), "12345");
    assert!(!c.revoke_self_on_drop());
}

#[test]
fn explicit_value_wins_over_environment() {
    let given = environment_variable_or_provided(Some("a".to_string()), Some("b".to_string()));
    assert_eq!(given, Some("a".to_string()));
    let env = environment_variable_or_provided(None, Some("b".to_string()));
    assert_eq!(env, Some("b".to_string()));
    assert_eq!(environment_variable_or_provided(None, None), None);
}

#[test]
fn can_read_self_capabilities() {
    let c = client();
    let call = Call::get("/auth/token/lookup-self");
    assert!(call.method == Method::Get);
    assert!(call.response_expected);
    let req = match c.build_request(call) {
        Ok(r) => r,
        Err(_) => panic!("the address is valid"),
    };
    assert_eq!(req.url, "http://127.0.0.1:8200/v1//auth/token/lookup-self");
    assert_eq!(req.header.0, "X-Vault-Token");
    assert_eq!(req.header.1, "12345");
    assert!(req.body.is_none());
    assert_eq!(req.method.as_str(), "GET");
}

#[test]
fn can_list_kv() {
    let c = client();
    let call = Call::list("secrets");
    let req = match c.build_request(call) {
        Ok(r) => r,
        Err(_) => panic!("the address is valid"),
    };
    assert_eq!(req.url, "http://127.0.0.1:8200/v1/secrets");
    assert_eq!(req.method.as_str(), "LIST");
    assert!(req.response_expected);
}

#[test]
fn request_path_joins_under_v1() {
    let c = match Client::new(Some("https://vault.example.com:8200/ui/".to_string()), Some("t".to_string()), true) {
        Ok(c) => c,
        Err(_) => panic!("address and token are given"),
    };
    let req = match c.build_request(Call::post("secret/data/app", Json::Bool(true), true)) {
        Ok(r) => r,
        Err(_) => panic!("the address is valid"),
    };
    assert_eq!(req.url, "https://vault.example.com:8200/v1/secret/data/app");
    assert_eq!(req.method.as_str(), "POST");
    assert!(matches!(req.body, Some(Json::Bool(true))));
    assert!(c.revoke_self_on_drop());
}

#[test]
fn malformed_address_fails_on_first_use() {
    let c = match Client::new(Some("not a url".to_string()), Some("t".to_string()), false) {
        Ok(c) => c,
        Err(_) => panic!("the address is not checked at construction"),
    };
    assert!(matches!(c.build_request(Call::get("sys/mounts")), Err(Error::UrlParseError(_))));
    assert!(matches!(c.build_revoke_self_request(), Err(Error::UrlParseError(_))));
}

#[test]
fn revoke_self_request_posts_without_body() {
    let req = match client().build_revoke_self_request() {
        Ok(r) => r,
        Err(_) => panic!("the address is valid"),
    };
    assert_eq!(req.url, "http://127.0.0.1:8200/v1/auth/token/revoke-self");
    assert_eq!(req.method.as_str(), "POST");
    assert!(req.body.is_none());
    assert!(!req.response_expected);
}

#[test]
fn write_without_response_rejects_any_body() {
    assert!(matches!(Client::empty_response(String::new()), Ok(Response::Empty)));
    match Client::empty_response("{\"data\":{}}".to_string()) {
        Err(Error::UnexpectedResponse(b)) => assert_eq!(b, "{\"data\":{}}"),
        _ => panic!("a body must be rejected"),
    }
    match Client::empty_response(" ".to_string()) {
        Err(Error::UnexpectedResponse(b)) => assert_eq!(b, " "),
        _ => panic!("a body must be rejected"),
    }
    assert!(Client::execute_request_no_body(String::new()).is_ok());
    assert!(matches!(Client::execute_request_no_body("x".to_string()), Err(Error::UnexpectedResponse(_))));
}

#[test]
fn verbs_compose_primitive_calls() {
    let d = Call::delete("kv/a", false);
    assert!(d.method == Method::Delete);
    assert!(matches!(d.payload, Some(Json::Null)));
    assert!(!d.response_expected);
    assert_eq!(d.path, "kv/a");
    let p = Call::put("kv/a", Json::Int(1), true);
    assert!(p.method == Method::Put && p.response_expected);
    let q = Call::get_with_query("kv/a", vec![("k".to_string(), "v".to_string())]);
    assert!(q.method == Method::Get);
    assert_eq!(q.query, Some(vec![("k".to_string(), "v".to_string())]));
    let r = Call::read("kv/a", Method::Post);
    assert!(r.method == Method::Post && r.payload.is_none() && r.response_expected);
    let w = Call::write("kv/a", Json::Null, Method::Put, false);
    assert!(w.method == Method::Put && !w.response_expected);
    assert_eq!(Method::Delete.as_str(), "DELETE");
    assert_eq!(Method::Put.as_str(), "PUT");
}

#[test]
fn reply_follows_the_expectation() {
    assert!(matches!(Client::reply(false, String::new(), Err(Error::JsonError("empty".to_string()))), Ok(Response::Empty)));
    assert!(matches!(Client::reply(false, "{}".to_string(), Ok(Json::Object(vec![]))), Err(Error::UnexpectedResponse(b)) if b == "{}"));
    assert!(matches!(Client::reply(true, "oops".to_string(), Err(Error::JsonError("bad".to_string()))), Err(Error::JsonError(m)) if m == "bad"));
    let errors = Json::Object(vec![("errors".to_string(), Json::Array(vec![Json::Str("denied".to_string())]))]);
    match Client::reply(true, "{...}".to_string(), Ok(errors)) {
        Ok(Response::Error { errors }) => assert_eq!(errors, vec!["denied".to_string()]),
        _ => panic!("expected the error reply"),
    }
}
