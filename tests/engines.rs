use vault::secrets::aws::{
    configure_lease, configure_root, default_max_retries, generate_credentials, read_lease,
    rotate_root, Credentials, CredentialsRequest, Lease, RootCredentials,
};
use vault::secrets::transit::{
    configure_key, create_key, delete_key, key_names, list_keys, read_key, ConfigureKey,
    CreateKey, EncryptPayload, Key, KeyType,
};
use vault::sys::mounts::{
    disable, enable, get, list, mounts_from, trim_trailing_slashes_of, tune, ListingVisibility,
    SecretEngine, SecretsEngineConfig, SecretsEngineTune,
};
use vault::{Call, Client, Error, FromJson, Json, Method, Response};

fn s(text: &str) -> Json {
    Json::Str(text.to_string())
}

fn obj(members: Vec<(&str, Json)>) -> Json {
    Json::Object(members.into_iter().map(|(k, v)| (k.to_string(), v)).collect())
}

fn member<'a>(j: &'a Json, key: &str) -> Option<&'a Json> {
    match j {
        Json::Object(fs) => fs.iter().find(|(k, _)| k == key).map(|(_, v)| v),
        _ => None,
    }
}

fn reply(data: Json) -> Response {
    let v = obj(vec![
        ("request_id", s("r")),
        ("lease_id", s("")),
        ("renewable", Json::Bool(false)),
        ("lease_duration", Json::Int(0)),
        ("data", data),
    ]);
    match Response::from_json(v) {
        Ok(r) => r,
        Err(_) => panic!("the reply should decode"),
    }
}

fn mount_record(kind: &str) -> Json {
    obj(vec![
        ("type", s(kind)),
        ("description", s("")),
        ("accessor", s("kv_1234")),
        ("config", obj(vec![("default_lease_ttl", Json::Int(0)), ("force_no_cache", Json::Bool(false)), ("max_lease_ttl", Json::Int(0))])),
        ("local", Json::Bool(false)),
    ])
}

fn engines(r: Response) -> Vec<(String, SecretEngine)> {
    match mounts_from(r) {
        Ok(v) => v,
        Err(_) => panic!("the listing should decode"),
    }
}

#[test]
fn can_list_mounts() {
    let call = list();
    assert_eq!(call.path, "sys/mounts");
    assert!(call.method == Method::Get);
    let listing = engines(reply(obj(vec![("kv/", mount_record("kv")), ("sys/", mount_record("system"))])));
    assert_eq!(listing.len(), 2);
    assert_eq!(listing[0].0, "kv");
    assert_eq!(listing[0].1.path, "kv");
    assert_eq!(listing[0].1.engine_type, "kv");
    assert_eq!(listing[1].0, "sys");
    assert_eq!(listing[1].1.path, "sys");
    let config = match &listing[0].1.config {
        Some(c) => c,
        None => panic!("config is there"),
    };
    assert_eq!(config.default_lease_ttl, Some(0));
    assert_eq!(config.force_no_cache, Some(false));
    assert_eq!(config.local, None);
}

#[test]
fn mount_listing_errors() {
    assert!(matches!(mounts_from(reply(s("x"))), Err(Error::JsonError(_))));
    assert!(matches!(mounts_from(reply(obj(vec![("kv/", s("x"))]))), Err(Error::JsonError(_))));
    assert!(matches!(mounts_from(reply(obj(vec![("kv/", obj(vec![("description", s(""))]))]))), Err(Error::JsonError(_))));
    assert!(matches!(mounts_from(Response::Empty), Err(Error::MissingData(_))));
    match mounts_from(Response::Error { errors: vec!["a".to_string(), "b".to_string()] }) {
        Err(Error::VaultError(m)) => assert_eq!(m, "a; b"),
        _ => panic!("expected a service error"),
    }
    assert_eq!(trim_trailing_slashes_of("a/b//"), "a/b");
    assert_eq!(trim_trailing_slashes_of("///"), "");
    assert_eq!(trim_trailing_slashes_of("kv"), "kv");
}

#[test]
fn can_mount_and_unmount_kv() {
    let path = "3f2a9c".to_string();
    let engine = SecretEngine { path: path.clone(), engine_type: "kv".to_string(), ..Default::default() };
    let call = enable(&engine);
    assert_eq!(call.path, "sys/mounts/3f2a9c");
    assert!(call.method == Method::Post);
    assert!(!call.response_expected);
    let body = match &call.payload {
        Some(b) => b,
        None => panic!("the record is sent"),
    };
    assert!(matches!(member(body, "path"), Some(Json::Str(p)) if p == "3f2a9c"));
    assert!(matches!(member(body, "type"), Some(Json::Str(t)) if t == "kv"));
    assert!(member(body, "description").is_none());
    assert!(matches!(Client::empty_response(String::new()).map(|r| r.ok()), Ok(Ok(None))));

    let listed = engines(reply(obj(vec![("3f2a9c/", mount_record("kv")), ("sys/", mount_record("system"))])));
    assert!(listed.iter().any(|(k, _)| *k == path));

    let get_call = get(&path);
    assert_eq!(get_call.path, "sys/mounts/3f2a9c/tune");
    let tuned = SecretsEngineTune { description: Some("hello world".to_string()), ..Default::default() };
    let tune_call = tune(&path, &tuned);
    assert_eq!(tune_call.path, "sys/mounts/3f2a9c/tune");
    let tune_body = match &tune_call.payload {
        Some(b) => b,
        None => panic!("the tuning is sent"),
    };
    assert!(matches!(member(tune_body, "description"), Some(Json::Str(d)) if d == "hello world"));
    assert!(member(tune_body, "max_lease_ttl").is_none());

    let off = disable(&path);
    assert_eq!(off.path, "sys/mounts/3f2a9c");
    assert!(off.method == Method::Delete);
    assert!(matches!(off.payload, Some(Json::Null)));

    let after = engines(reply(obj(vec![("sys/", mount_record("system"))])));
    assert!(!after.iter().any(|(k, _)| *k == path));
}

#[test]
fn tune_sends_null_description_when_absent() {
    let t = SecretsEngineTune { max_lease_ttl: Some(60), listing_visibility: Some(ListingVisibility::Hidden), ..Default::default() };
    let j = t.to_json();
    assert!(matches!(member(&j, "description"), Some(Json::Null)));
    assert!(matches!(member(&j, "max_lease_ttl"), Some(Json::Int(60))));
    assert!(matches!(member(&j, "listing_visibility"), Some(Json::Str(v)) if v == "hidden"));
}

#[test]
fn engine_config_round_trips() {
    let c = SecretsEngineConfig {
        default_lease_ttl: Some(30),
        audit_non_hmac_request_keys: Some(vec!["a".to_string()]),
        options: Some(vec![("version".to_string(), "2".to_string())]),
        seal_wrap: Some(true),
        ..Default::default()
    };
    let back = match SecretsEngineConfig::from_json(&c.to_json()) {
        Ok(b) => b,
        Err(_) => panic!("round trip"),
    };
    assert!(back == c);
}

#[test]
fn can_create_key() {
    let create = CreateKey { name: "test".to_string(), key_type: KeyType::RSA4096, ..Default::default() };
    let call = create_key("transit-1", &create);
    assert_eq!(call.path, "transit-1/keys/test");
    assert!(call.method == Method::Post);
    assert!(!call.response_expected);
    let body = match &call.payload {
        Some(b) => b,
        None => panic!("the key is sent"),
    };
    assert!(member(body, "name").is_none());
    assert!(matches!(member(body, "type"), Some(Json::Str(t)) if t == "rsa-4096"));
    let response = match Client::empty_response(String::new()) {
        Ok(r) => r,
        Err(_) => panic!("an empty reply is accepted"),
    };
    assert!(matches!(response.ok(), Ok(None)));

    let read = read_key("transit-1", "test");
    assert_eq!(read.path, "transit-1/keys/test");
    let key_reply = reply(obj(vec![
        ("name", s("test")),
        ("derived", Json::Bool(false)),
        ("exportable", Json::Bool(false)),
        ("allow_plaintext_backup", Json::Bool(false)),
        ("type", s("rsa-4096")),
        ("deletion_allowed", Json::Bool(false)),
        ("keys", obj(vec![("1", obj(vec![("name", s("rsa-4096"))]))])),
        ("min_decryption_version", Json::Int(1)),
        ("min_encryption_version", Json::Int(0)),
        ("supports_encryption", Json::Bool(true)),
        ("supports_decryption", Json::Bool(true)),
        ("supports_derivation", Json::Bool(false)),
        ("supports_signing", Json::Bool(true)),
    ]));
    let key: Key = match key_reply.data() {
        Ok(k) => k,
        Err(_) => panic!("the key decodes"),
    };
    assert!(key.key_type == KeyType::RSA4096);
    assert_eq!(key.name, "test");
    assert_eq!(key.keys.len(), 1);
    assert_eq!(key.keys[0].0, "1");

    let listing = list_keys("transit-1");
    assert_eq!(listing.path, "transit-1/keys");
    assert!(listing.method == Method::List);
    let keys = match key_names(&reply(obj(vec![("keys", Json::Array(vec![s("test")]))]))) {
        Ok(k) => k,
        Err(_) => panic!("the listing decodes"),
    };
    assert_eq!(vec!["test"], keys);
}

#[test]
fn key_listing_shape_errors() {
    assert!(matches!(key_names(&reply(obj(vec![]))), Err(Error::MalformedResponse)));
    assert!(matches!(key_names(&reply(obj(vec![("keys", s("test"))]))), Err(Error::MalformedResponse)));
    assert!(matches!(key_names(&reply(obj(vec![("keys", Json::Array(vec![s("a"), Json::Int(2)]))]))), Err(Error::MalformedResponse)));
    assert!(matches!(key_names(&reply(Json::Array(vec![]))), Err(Error::JsonError(_))));
    assert!(matches!(key_names(&Response::Empty), Err(Error::MissingData(_))));
}

#[test]
fn key_calls() {
    let d = delete_key("transit", "k");
    assert_eq!(d.path, "transit/keys/k");
    assert!(d.method == Method::Delete);
    let cfg = ConfigureKey { deletion_allowed: Some(true), min_decryption_version: Some(2), ..Default::default() };
    let c = configure_key("transit", "k", &cfg);
    assert_eq!(c.path, "transit/keys/k/config");
    let body = match &c.payload {
        Some(b) => b,
        None => panic!("the configuration is sent"),
    };
    assert!(matches!(member(body, "deletion_allowed"), Some(Json::Bool(true))));
    assert!(matches!(member(body, "min_decryption_version"), Some(Json::Int(2))));
    assert!(member(body, "exportable").is_none());
    assert_eq!(KeyType::default().as_str(), "aes256-gcm96");
    assert_eq!(KeyType::ChaCha20Poly1305AEAD.as_str(), "chacha20-poly1305");
    assert!(matches!(KeyType::from_json(&s("ed25519")), Ok(KeyType::ED25519)));
    assert!(matches!(KeyType::from_json(&s("rsa-1024")), Err(Error::JsonError(_))));
}

#[test]
fn encrypt_payload_bytes_are_base64() {
    let p = EncryptPayload { plaintext: b"hello", nonce: None, context: Some(b"ctx") };
    let j = p.to_json();
    assert!(matches!(member(&j, "plaintext"), Some(Json::Str(t)) if t == "aGVsbG8="));
    assert!(matches!(member(&j, "nonce"), Some(Json::Null)));
    assert!(matches!(member(&j, "context"), Some(Json::Str(t)) if t == "Y3R4"));
}

#[test]
fn can_configure() {
    let config = RootCredentials {
        max_retries: -1,
        access_key: "aaa".to_string(),
        secret_key: "aaa".to_string(),
        region: None,
        iam_endpoint: Some("http://aws_iam:5000".to_string()),
        sts_endpoint: Some("http://aws_sts:8000".to_string()),
    };
    let root = configure_root("aws-1", &config);
    assert_eq!(root.path, "aws-1/config/root");
    assert!(!root.response_expected);
    let body = match &root.payload {
        Some(b) => b,
        None => panic!("the credentials are sent"),
    };
    assert!(matches!(member(body, "max_retries"), Some(Json::Int(-1))));
    assert!(matches!(member(body, "iam_endpoint"), Some(Json::Str(e)) if e == "http://aws_iam:5000"));
    assert!(member(body, "region").is_none());
    let empty = match Client::empty_response(String::new()) {
        Ok(r) => r,
        Err(_) => panic!("an empty reply is accepted"),
    };
    assert!(matches!(empty.ok(), Ok(None)));

    let lease = Lease { lease: "1h".to_string(), lease_max: "24h".to_string() };
    let set = configure_lease("aws-1", &lease);
    assert_eq!(set.path, "aws-1/config/lease");
    let sent = match &set.payload {
        Some(b) => b,
        None => panic!("the lease is sent"),
    };
    assert!(matches!(member(sent, "lease"), Some(Json::Str(l)) if l == "1h"));
    assert!(matches!(member(sent, "lease_max"), Some(Json::Str(l)) if l == "24h"));

    let read = read_lease("aws-1");
    assert_eq!(read.path, "aws-1/config/lease");
    assert!(read.method == Method::Get);
    let actual_lease: Lease = match reply(obj(vec![("lease", s("1h0m0s")), ("lease_max", s("24h0m0s"))])).data() {
        Ok(l) => l,
        Err(_) => panic!("the lease decodes"),
    };
    assert_eq!(actual_lease.lease, "1h0m0s");
    assert_eq!(actual_lease.lease_max, "24h0m0s");
}

#[test]
fn credentials_and_rotation() {
    let r = rotate_root("aws");
    assert_eq!(r.path, "aws/config/rotate-root");
    assert!(r.method == Method::Post && r.response_expected);
    let req = CredentialsRequest { role_arn: None, ttl: Some("15m".to_string()) };
    let g = generate_credentials("aws", "deploy", &req);
    assert_eq!(g.path, "aws/creds/deploy");
    assert_eq!(g.query, Some(vec![("ttl".to_string(), "15m".to_string())]));
    let creds = match reply(obj(vec![("access_key", s("AK")), ("secret_key", s("SK")), ("security_token", Json::Null)])).leased_data::<Credentials>() {
        Ok(c) => c,
        Err(_) => panic!("the credentials decode"),
    };
    assert_eq!(creds.data.access_key, "AK");
    assert_eq!(creds.data.security_token, None);
    assert_eq!(default_max_retries(), -1);
    let both = CredentialsRequest { role_arn: Some("arn:aws:iam::1:role/x".to_string()), ttl: Some("1h".to_string()) };
    let q = generate_credentials("aws", "deploy", &both);
    assert_eq!(
        q.query,
        Some(vec![("role_arn".to_string(), "arn:aws:iam::1:role/x".to_string()), ("ttl".to_string(), "1h".to_string())])
    );
    let none = CredentialsRequest { role_arn: None, ttl: None };
    assert_eq!(generate_credentials("aws", "deploy", &none).query, Some(vec![]));
    let call: Call = Call::get("x");
    assert!(call.query.is_none());
}
