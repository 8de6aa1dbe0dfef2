//! The AWS secrets engine: root credentials, lease configuration and credentials.
use vstd::prelude::*;

use crate::client::{sub_path, Call, Method};
use crate::error::Error;
use crate::json::{
    empty_object, field_of, field_str, field_str_opt, opt_str_member, opt_str_value, put_field,
    put_opt_str, put_str, shape_error, str_value, FromJson, Json,
};

verus! {

/// Root credentials that the engine uses to reach AWS.
#[derive(Debug, PartialEq, Eq)]
pub struct RootCredentials {
    /// Retries for recoverable errors; -1 falls back to the AWS SDK's default.
    pub max_retries: i64,
    /// AWS access key identifier.
    pub access_key: String,
    /// AWS secret access key.
    pub secret_key: String,
    /// AWS region.
    pub region: Option<String>,
    /// Custom IAM endpoint.
    pub iam_endpoint: Option<String>,
    /// Custom STS endpoint.
    pub sts_endpoint: Option<String>,
}

impl RootCredentials {
    /// Whether `j` is the body these credentials are sent as: every member, the
    /// optional ones left out when they have no value.
    pub open spec fn encoded_as(&self, j: Json) -> bool {
        match j {
            Json::Object(fs) => {
                &&& field_of(fs@, "max_retries"@) == Some(Json::Int(self.max_retries as i128))
                &&& field_of(fs@, "access_key"@) == Some(Json::Str(self.access_key))
                &&& field_of(fs@, "secret_key"@) == Some(Json::Str(self.secret_key))
                &&& opt_str_member(field_of(fs@, "region"@), self.region)
                &&& opt_str_member(field_of(fs@, "iam_endpoint"@), self.iam_endpoint)
                &&& opt_str_member(field_of(fs@, "sts_endpoint"@), self.sts_endpoint)
            },
            _ => false,
        }
    }

    /// The JSON body.
    pub fn to_json(&self) -> (r: Json)
        ensures
            self.encoded_as(r),
    {
        proof {
            reveal_strlit("max_retries");
            reveal_strlit("access_key");
            reveal_strlit("secret_key");
            reveal_strlit("region");
            reveal_strlit("iam_endpoint");
            reveal_strlit("sts_endpoint");
            assert("max_retries"@.len() == 11 && "access_key"@.len() == 10 && "secret_key"@.len()
                == 10 && "region"@.len() == 6 && "iam_endpoint"@.len() == 12
                && "sts_endpoint"@.len() == 12);
            assert("access_key"@[0] != "secret_key"@[0]);
            assert("iam_endpoint"@[0] != "sts_endpoint"@[0]);
        }
        let mut fs = empty_object();
        put_opt_str(&mut fs, "sts_endpoint", &self.sts_endpoint);
        put_opt_str(&mut fs, "iam_endpoint", &self.iam_endpoint);
        put_opt_str(&mut fs, "region", &self.region);
        put_str(&mut fs, "secret_key", &self.secret_key);
        put_str(&mut fs, "access_key", &self.access_key);
        put_field(&mut fs, String::from_str("max_retries"), Json::Int(self.max_retries as i128));
        Json::Object(fs)
    }
}

/// The retry count that falls back to the AWS SDK's own default.
pub fn default_max_retries() -> (r: i64)
    ensures
        r == -1,
{
    -1
}

/// Lease configuration of the engine. The durations are strings with a time suffix,
/// passed through as they are.
#[derive(Debug, PartialEq, Eq)]
pub struct Lease {
    /// Lease duration.
    pub lease: String,
    /// Maximum lease duration.
    pub lease_max: String,
}

impl FromJson for Lease {
    open spec fn decodable(v: Json) -> bool {
        match v {
            Json::Object(fs) => str_value(field_of(fs@, "lease"@)) is Some && str_value(
                field_of(fs@, "lease_max"@),
            ) is Some,
            _ => false,
        }
    }

    open spec fn decodes_to(v: Json, x: Lease) -> bool {
        match v {
            Json::Object(fs) => str_value(field_of(fs@, "lease"@)) == Some(x.lease) && str_value(
                field_of(fs@, "lease_max"@),
            ) == Some(x.lease_max),
            _ => false,
        }
    }

    fn from_json(v: &Json) -> (r: Result<Lease, Error>) {
        match v {
            Json::Object(fs) => {
                let lease = field_str(fs, "lease")?;
                let lease_max = field_str(fs, "lease_max")?;
                Ok(Lease { lease, lease_max })
            },
            _ => Err(shape_error("expected an object")),
        }
    }
}

impl Lease {
    /// The JSON body; it reads back as the same lease.
    pub fn to_json(&self) -> (r: Json)
        ensures
            Lease::decodable(r),
            Lease::decodes_to(r, *self),
    {
        proof {
            reveal_strlit("lease");
            reveal_strlit("lease_max");
            assert("lease"@.len() != "lease_max"@.len());
        }
        let mut fs = empty_object();
        put_str(&mut fs, "lease_max", &self.lease_max);
        put_str(&mut fs, "lease", &self.lease);
        Json::Object(fs)
    }
}

/// A role of the engine; it has no settings of its own yet.
#[derive(Debug, PartialEq, Eq)]
pub struct Role {}

impl FromJson for Role {
    open spec fn decodable(v: Json) -> bool {
        v is Object
    }

    open spec fn decodes_to(v: Json, x: Role) -> bool {
        true
    }

    fn from_json(v: &Json) -> (r: Result<Role, Error>) {
        match v {
            Json::Object(_) => Ok(Role {  }),
            _ => Err(shape_error("expected an object")),
        }
    }
}

/// Parameters of a request for credentials.
#[derive(Debug, PartialEq, Eq)]
pub struct CredentialsRequest {
    /// ARN of the role to assume.
    pub role_arn: Option<String>,
    /// Time to live of the STS token, with a duration suffix.
    pub ttl: Option<String>,
}

impl CredentialsRequest {
    /// Whether `q` is the query for this request: `role_arn`, then `ttl`, each with its
    /// value and only when it has one.
    pub open spec fn is_query(&self, q: Seq<(String, String)>) -> bool {
        match (self.role_arn, self.ttl) {
            (None, None) => q.len() == 0,
            (Some(a), None) => q.len() == 1 && q[0].0@ == "role_arn"@ && q[0].1 == a,
            (None, Some(t)) => q.len() == 1 && q[0].0@ == "ttl"@ && q[0].1 == t,
            (Some(a), Some(t)) => q.len() == 2 && q[0].0@ == "role_arn"@ && q[0].1 == a
                && q[1].0@ == "ttl"@ && q[1].1 == t,
        }
    }

    /// The query parameters: one for each parameter that has a value, in order.
    pub fn to_query(&self) -> (r: Vec<(String, String)>)
        ensures
            self.is_query(r@),
    {
        let mut r: Vec<(String, String)> = Vec::new();
        match &self.role_arn {
            Some(a) => r.push((String::from_str("role_arn"), a.clone())),
            None => {},
        }
        match &self.ttl {
            Some(t) => r.push((String::from_str("ttl"), t.clone())),
            None => {},
        }
        r
    }
}

/// Credentials issued by the engine.
#[derive(Debug, PartialEq, Eq)]
pub struct Credentials {
    /// AWS access key.
    pub access_key: String,
    /// AWS secret key.
    pub secret_key: String,
    /// AWS security token, if any.
    pub security_token: Option<String>,
}

impl FromJson for Credentials {
    open spec fn decodable(v: Json) -> bool {
        match v {
            Json::Object(fs) => {
                &&& str_value(field_of(fs@, "access_key"@)) is Some
                &&& str_value(field_of(fs@, "secret_key"@)) is Some
                &&& opt_str_value(field_of(fs@, "security_token"@)) is Some
            },
            _ => false,
        }
    }

    open spec fn decodes_to(v: Json, x: Credentials) -> bool {
        match v {
            Json::Object(fs) => {
                &&& str_value(field_of(fs@, "access_key"@)) == Some(x.access_key)
                &&& str_value(field_of(fs@, "secret_key"@)) == Some(x.secret_key)
                &&& opt_str_value(field_of(fs@, "security_token"@)) == Some(x.security_token)
            },
            _ => false,
        }
    }

    fn from_json(v: &Json) -> (r: Result<Credentials, Error>) {
        match v {
            Json::Object(fs) => {
                let access_key = field_str(fs, "access_key")?;
                let secret_key = field_str(fs, "secret_key")?;
                let security_token = field_str_opt(fs, "security_token")?;
                Ok(Credentials { access_key, secret_key, security_token })
            },
            _ => Err(shape_error("expected an object")),
        }
    }
}

/// Configures the root credentials of the engine mounted at `path`.
pub fn configure_root(path: &str, config: &RootCredentials) -> (r: Call)
    ensures
        r.path@ == path@ + "/config/root"@,
        r.method == Method::Post,
        r.query is None,
        r.payload matches Some(j) && config.encoded_as(j),
        !r.response_expected,
{
    let p = sub_path(path, "/config/root");
    Call::post(p.as_str(), config.to_json(), false)
}

/// Rotates the root credentials of the engine mounted at `path`.
pub fn rotate_root(path: &str) -> (r: Call)
    ensures
        r.path@ == path@ + "/config/rotate-root"@,
        r.method == Method::Post,
        r.query is None,
        r.payload is None,
        r.response_expected,
{
    let p = sub_path(path, "/config/rotate-root");
    Call::read(p.as_str(), Method::Post)
}

/// Configures the lease of the engine mounted at `path`.
pub fn configure_lease(path: &str, lease: &Lease) -> (r: Call)
    ensures
        r.path@ == path@ + "/config/lease"@,
        r.method == Method::Post,
        r.query is None,
        r.payload matches Some(j) && Lease::decodes_to(j, *lease),
        !r.response_expected,
{
    let p = sub_path(path, "/config/lease");
    Call::post(p.as_str(), lease.to_json(), false)
}

/// Reads the lease of the engine mounted at `path`; the reply's payload reads as a `Lease`.
pub fn read_lease(path: &str) -> (r: Call)
    ensures
        r.path@ == path@ + "/config/lease"@,
        r.method == Method::Get,
        r.query is None,
        r.payload is None,
        r.response_expected,
{
    let p = sub_path(path, "/config/lease");
    Call::get(p.as_str())
}

/// Requests credentials for `role` of the engine mounted at `path`; the reply's payload
/// reads as leased `Credentials`.
pub fn generate_credentials(path: &str, role: &str, request: &CredentialsRequest) -> (r: Call)
    ensures
        r.path@ == path@ + "/creds/"@ + role@,
        r.method == Method::Get,
        r.query matches Some(q) && request.is_query(q@),
        r.payload is None,
        r.response_expected,
{
    let p = sub_path(path, "/creds/");
    let p = sub_path(p.as_str(), role);
    Call::get_with_query(p.as_str(), request.to_query())
}

} // verus!
