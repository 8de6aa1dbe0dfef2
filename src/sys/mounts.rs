//! Mounting, listing, tuning and unmounting secrets engines.
use vstd::prelude::*;

use crate::client::{sub_path, Call, Method};
use crate::error::Error;
use crate::json::{
    empty_object, field_bool_opt, field_decode_opt, field_of, field_str, field_str_opt,
    field_string_pairs_opt, field_strings_opt, field_u64_opt, opt_bool_value,
    opt_member_decodable, opt_member_decodes_to, opt_str_value, opt_string_pairs_is,
    opt_string_pairs_value, opt_strings_is, opt_strings_value, opt_u64_member, opt_u64_value,
    put_field, put_opt_bool, put_opt_str, put_opt_string_pairs, put_opt_strings, put_opt_u64,
    put_str, shape_error, str_value, text_eq, FromJson, Json,
};
use crate::response::{joined, Response};

verus! {

/// Whether a mount is shown in the listing for the UI.
#[derive(Debug, Clone, Copy, PartialEq, Eq, Structural)]
pub enum ListingVisibility {
    /// Shown.
    Unauth,
    /// Hidden.
    Hidden,
}

/// The name a visibility goes by on the wire.
pub open spec fn visibility_name(v: ListingVisibility) -> Seq<char> {
    match v {
        ListingVisibility::Unauth => "unauth"@,
        ListingVisibility::Hidden => "hidden"@,
    }
}

impl FromJson for ListingVisibility {
    open spec fn decodable(v: Json) -> bool {
        v is Str && (v->Str_0@ == "unauth"@ || v->Str_0@ == "hidden"@)
    }

    open spec fn decodes_to(v: Json, x: ListingVisibility) -> bool {
        visibility_name(x) == v->Str_0@
    }

    fn from_json(v: &Json) -> (r: Result<ListingVisibility, Error>) {
        match v {
            Json::Str(s) => {
                if text_eq(s.as_str(), "unauth") {
                    Ok(ListingVisibility::Unauth)
                } else if text_eq(s.as_str(), "hidden") {
                    Ok(ListingVisibility::Hidden)
                } else {
                    Err(shape_error("unknown listing visibility"))
                }
            },
            _ => Err(shape_error("expected a listing visibility")),
        }
    }
}

impl ListingVisibility {
    /// The wire form; it reads back as the same visibility.
    pub fn to_json(&self) -> (r: Json)
        ensures
            ListingVisibility::decodable(r),
            ListingVisibility::decodes_to(r, *self),
    {
        match self {
            ListingVisibility::Unauth => Json::Str(String::from_str("unauth")),
            ListingVisibility::Hidden => Json::Str(String::from_str("hidden")),
        }
    }
}

/// An optional visibility member that is left out when there is no value.
pub open spec fn opt_visibility_member(j: Option<Json>, v: Option<ListingVisibility>) -> bool {
    match v {
        Some(x) => j is Some && ListingVisibility::decodable(j->Some_0)
            && ListingVisibility::decodes_to(j->Some_0, x),
        None => j is None,
    }
}

/// Sets the visibility member when there is a value.
fn put_opt_visibility(fs: &mut Vec<(String, Json)>, key: &str, value: Option<ListingVisibility>)
    ensures
        value is Some ==> opt_visibility_member(field_of(final(fs)@, key@), value),
        value is None ==> field_of(final(fs)@, key@) == field_of(old(fs)@, key@),
        forall|k: Seq<char>| k != key@ ==> field_of(final(fs)@, k) == field_of(old(fs)@, k),
{
    match value {
        Some(v) => put_field(fs, String::from_str(key), v.to_json()),
        None => {},
    }
}

/// Configuration of a mounted engine.
#[derive(Debug, PartialEq, Eq)]
pub struct SecretsEngineConfig {
    /// Default lease duration, in seconds.
    pub default_lease_ttl: Option<u64>,
    /// Maximum lease duration, in seconds.
    pub max_lease_ttl: Option<u64>,
    /// Disables caching.
    pub force_no_cache: Option<bool>,
    /// Keys of request data that audit devices do not HMAC.
    pub audit_non_hmac_request_keys: Option<Vec<String>>,
    /// Keys of response data that audit devices do not HMAC.
    pub audit_non_hmac_response_keys: Option<Vec<String>>,
    /// Whether the mount is shown in the listing for the UI.
    pub listing_visibility: Option<ListingVisibility>,
    /// Request headers passed on to the plugin.
    pub passthrough_request_headers: Option<Vec<String>>,
    /// Response headers the plugin may set.
    pub allowed_response_headers: Option<Vec<String>>,
    /// Options specific to the kind of engine.
    pub options: Option<Vec<(String, String)>>,
    /// Whether the mount is local only, not replicated.
    pub local: Option<bool>,
    /// Whether values of the mount are wrapped by the seal.
    pub seal_wrap: Option<bool>,
}

impl Default for SecretsEngineConfig {
    fn default() -> (r: SecretsEngineConfig)
        ensures
            r.default_lease_ttl is None,
            r.max_lease_ttl is None,
            r.force_no_cache is None,
            r.audit_non_hmac_request_keys is None,
            r.audit_non_hmac_response_keys is None,
            r.listing_visibility is None,
            r.passthrough_request_headers is None,
            r.allowed_response_headers is None,
            r.options is None,
            r.local is None,
            r.seal_wrap is None,
    {
        SecretsEngineConfig {
            default_lease_ttl: None,
            max_lease_ttl: None,
            force_no_cache: None,
            audit_non_hmac_request_keys: None,
            audit_non_hmac_response_keys: None,
            listing_visibility: None,
            passthrough_request_headers: None,
            allowed_response_headers: None,
            options: None,
            local: None,
            seal_wrap: None,
        }
    }
}

impl FromJson for SecretsEngineConfig {
    open spec fn decodable(v: Json) -> bool {
        match v {
            Json::Object(fs) => {
                &&& opt_u64_value(field_of(fs@, "default_lease_ttl"@)) is Some
                &&& opt_u64_value(field_of(fs@, "max_lease_ttl"@)) is Some
                &&& opt_bool_value(field_of(fs@, "force_no_cache"@)) is Some
                &&& opt_strings_value(field_of(fs@, "audit_non_hmac_request_keys"@)) is Some
                &&& opt_strings_value(field_of(fs@, "audit_non_hmac_response_keys"@)) is Some
                &&& opt_member_decodable::<ListingVisibility>(field_of(fs@, "listing_visibility"@))
                &&& opt_strings_value(field_of(fs@, "passthrough_request_headers"@)) is Some
                &&& opt_strings_value(field_of(fs@, "allowed_response_headers"@)) is Some
                &&& opt_string_pairs_value(field_of(fs@, "options"@)) is Some
                &&& opt_bool_value(field_of(fs@, "local"@)) is Some
                &&& opt_bool_value(field_of(fs@, "seal_wrap"@)) is Some
            },
            _ => false,
        }
    }

    open spec fn decodes_to(v: Json, x: SecretsEngineConfig) -> bool {
        match v {
            Json::Object(fs) => {
                &&& opt_u64_value(field_of(fs@, "default_lease_ttl"@)) == Some(x.default_lease_ttl)
                &&& opt_u64_value(field_of(fs@, "max_lease_ttl"@)) == Some(x.max_lease_ttl)
                &&& opt_bool_value(field_of(fs@, "force_no_cache"@)) == Some(x.force_no_cache)
                &&& opt_strings_is(field_of(fs@, "audit_non_hmac_request_keys"@), x.audit_non_hmac_request_keys)
                &&& opt_strings_is(field_of(fs@, "audit_non_hmac_response_keys"@), x.audit_non_hmac_response_keys)
                &&& opt_member_decodes_to(field_of(fs@, "listing_visibility"@), x.listing_visibility)
                &&& opt_strings_is(field_of(fs@, "passthrough_request_headers"@), x.passthrough_request_headers)
                &&& opt_strings_is(field_of(fs@, "allowed_response_headers"@), x.allowed_response_headers)
                &&& opt_string_pairs_is(field_of(fs@, "options"@), x.options)
                &&& opt_bool_value(field_of(fs@, "local"@)) == Some(x.local)
                &&& opt_bool_value(field_of(fs@, "seal_wrap"@)) == Some(x.seal_wrap)
            },
            _ => false,
        }
    }

    fn from_json(v: &Json) -> (r: Result<SecretsEngineConfig, Error>) {
        let fs = match v {
            Json::Object(fs) => fs,
            _ => {
                return Err(shape_error("expected an object"));
            },
        };
        let default_lease_ttl = field_u64_opt(fs, "default_lease_ttl")?;
        let max_lease_ttl = field_u64_opt(fs, "max_lease_ttl")?;
        let force_no_cache = field_bool_opt(fs, "force_no_cache")?;
        let audit_non_hmac_request_keys = field_strings_opt(fs, "audit_non_hmac_request_keys")?;
        let audit_non_hmac_response_keys = field_strings_opt(fs, "audit_non_hmac_response_keys")?;
        let listing_visibility = field_decode_opt::<ListingVisibility>(fs, "listing_visibility")?;
        let passthrough_request_headers = field_strings_opt(fs, "passthrough_request_headers")?;
        let allowed_response_headers = field_strings_opt(fs, "allowed_response_headers")?;
        let options = field_string_pairs_opt(fs, "options")?;
        let local = field_bool_opt(fs, "local")?;
        let seal_wrap = field_bool_opt(fs, "seal_wrap")?;
        Ok(
            SecretsEngineConfig {
                default_lease_ttl,
                max_lease_ttl,
                force_no_cache,
                audit_non_hmac_request_keys,
                audit_non_hmac_response_keys,
                listing_visibility,
                passthrough_request_headers,
                allowed_response_headers,
                options,
                local,
                seal_wrap,
            },
        )
    }
}

impl SecretsEngineConfig {
    /// The JSON form, with the settings that have a value; it reads back as the same
    /// configuration.
    pub fn to_json(&self) -> (r: Json)
        ensures
            SecretsEngineConfig::decodable(r),
            SecretsEngineConfig::decodes_to(r, *self),
    {
        proof {
            reveal_strlit("default_lease_ttl");
            reveal_strlit("max_lease_ttl");
            reveal_strlit("force_no_cache");
            reveal_strlit("audit_non_hmac_request_keys");
            reveal_strlit("audit_non_hmac_response_keys");
            reveal_strlit("listing_visibility");
            reveal_strlit("passthrough_request_headers");
            reveal_strlit("allowed_response_headers");
            reveal_strlit("options");
            reveal_strlit("local");
            reveal_strlit("seal_wrap");
            assert("default_lease_ttl"@.len() == 17 && "max_lease_ttl"@.len() == 13 && "force_no_cache"@.len() == 14 && "audit_non_hmac_request_keys"@.len() == 27 && "audit_non_hmac_response_keys"@.len() == 28 && "listing_visibility"@.len() == 18 && "passthrough_request_headers"@.len() == 27 && "allowed_response_headers"@.len() == 24 && "options"@.len() == 7 && "local"@.len() == 5 && "seal_wrap"@.len() == 9);
            assert("audit_non_hmac_request_keys"@[0] != "passthrough_request_headers"@[0]);
        }
        let mut fs = empty_object();
        put_opt_bool(&mut fs, "seal_wrap", self.seal_wrap);
        put_opt_bool(&mut fs, "local", self.local);
        put_opt_string_pairs(&mut fs, "options", &self.options);
        put_opt_strings(&mut fs, "allowed_response_headers", &self.allowed_response_headers);
        put_opt_strings(&mut fs, "passthrough_request_headers", &self.passthrough_request_headers);
        put_opt_visibility(&mut fs, "listing_visibility", self.listing_visibility);
        put_opt_strings(&mut fs, "audit_non_hmac_response_keys", &self.audit_non_hmac_response_keys);
        put_opt_strings(&mut fs, "audit_non_hmac_request_keys", &self.audit_non_hmac_request_keys);
        put_opt_bool(&mut fs, "force_no_cache", self.force_no_cache);
        put_opt_u64(&mut fs, "max_lease_ttl", self.max_lease_ttl);
        put_opt_u64(&mut fs, "default_lease_ttl", self.default_lease_ttl);
        Json::Object(fs)
    }
}

/// A mounted secrets engine.
#[derive(Debug, PartialEq, Eq)]
pub struct SecretEngine {
    /// Path of the mount.
    pub path: String,
    /// Kind of engine.
    pub engine_type: String,
    /// Description of the mount.
    pub description: Option<String>,
    /// Configuration of the mount.
    pub config: Option<SecretsEngineConfig>,
}

impl Default for SecretEngine {
    fn default() -> (r: SecretEngine)
        ensures
            r.path@ == Seq::<char>::empty(),
            r.engine_type@ == Seq::<char>::empty(),
            r.description is None,
            r.config is None,
    {
        SecretEngine { path: String::new(), engine_type: String::new(), description: None, config: None }
    }
}

/// Whether the members of a mount record other than its path fit: a `type`, and
/// optionally a `description` and a `config`.
pub open spec fn engine_rest_decodable(fs: Seq<(String, Json)>) -> bool {
    &&& str_value(field_of(fs, "type"@)) is Some
    &&& opt_str_value(field_of(fs, "description"@)) is Some
    &&& opt_member_decodable::<SecretsEngineConfig>(field_of(fs, "config"@))
}

/// Whether `x` is what the members of a mount record other than its path read as.
pub open spec fn engine_rest_decodes_to(fs: Seq<(String, Json)>, x: SecretEngine) -> bool {
    &&& str_value(field_of(fs, "type"@)) == Some(x.engine_type)
    &&& opt_str_value(field_of(fs, "description"@)) == Some(x.description)
    &&& opt_member_decodes_to(field_of(fs, "config"@), x.config)
}

impl FromJson for SecretEngine {
    open spec fn decodable(v: Json) -> bool {
        match v {
            Json::Object(fs) => str_value(field_of(fs@, "path"@)) is Some && engine_rest_decodable(fs@),
            _ => false,
        }
    }

    open spec fn decodes_to(v: Json, x: SecretEngine) -> bool {
        match v {
            Json::Object(fs) => str_value(field_of(fs@, "path"@)) == Some(x.path)
                && engine_rest_decodes_to(fs@, x),
            _ => false,
        }
    }

    fn from_json(v: &Json) -> (r: Result<SecretEngine, Error>) {
        let fs = match v {
            Json::Object(fs) => fs,
            _ => {
                return Err(shape_error("expected an object"));
            },
        };
        let path = field_str(fs, "path")?;
        let engine_type = field_str(fs, "type")?;
        let description = field_str_opt(fs, "description")?;
        let config = field_decode_opt::<SecretsEngineConfig>(fs, "config")?;
        Ok(SecretEngine { path, engine_type, description, config })
    }
}

impl SecretEngine {
    /// The JSON form, path included; it reads back as the same mount.
    pub fn to_json(&self) -> (r: Json)
        ensures
            SecretEngine::decodable(r),
            SecretEngine::decodes_to(r, *self),
    {
        proof {
            reveal_strlit("path");
            reveal_strlit("type");
            reveal_strlit("description");
            reveal_strlit("config");
            assert("path"@.len() == 4 && "type"@.len() == 4 && "description"@.len() == 11 && "config"@.len() == 6);
            assert("path"@[0] != "type"@[0]);
        }
        let mut fs = empty_object();
        match &self.config {
            Some(c) => put_field(&mut fs, String::from_str("config"), c.to_json()),
            None => {},
        }
        put_opt_str(&mut fs, "description", &self.description);
        put_str(&mut fs, "type", &self.engine_type);
        put_str(&mut fs, "path", &self.path);
        Json::Object(fs)
    }
}

/// Tuning parameters of a mount.
#[derive(Debug, PartialEq, Eq)]
pub struct SecretsEngineTune {
    /// Description of the mount; sent as null when there is none.
    pub description: Option<String>,
    /// Default lease duration, in seconds.
    pub default_lease_ttl: Option<u64>,
    /// Maximum lease duration, in seconds.
    pub max_lease_ttl: Option<u64>,
    /// Keys of request data that audit devices do not HMAC.
    pub audit_non_hmac_request_keys: Option<Vec<String>>,
    /// Keys of response data that audit devices do not HMAC.
    pub audit_non_hmac_response_keys: Option<Vec<String>>,
    /// Whether the mount is shown in the listing for the UI.
    pub listing_visibility: Option<ListingVisibility>,
    /// Request headers passed on to the plugin.
    pub passthrough_request_headers: Option<Vec<String>>,
    /// Response headers the plugin may set.
    pub allowed_response_headers: Option<Vec<String>>,
}

impl Default for SecretsEngineTune {
    fn default() -> (r: SecretsEngineTune)
        ensures
            r.description is None,
            r.default_lease_ttl is None,
            r.max_lease_ttl is None,
            r.audit_non_hmac_request_keys is None,
            r.audit_non_hmac_response_keys is None,
            r.listing_visibility is None,
            r.passthrough_request_headers is None,
            r.allowed_response_headers is None,
    {
        SecretsEngineTune {
            description: None,
            default_lease_ttl: None,
            max_lease_ttl: None,
            audit_non_hmac_request_keys: None,
            audit_non_hmac_response_keys: None,
            listing_visibility: None,
            passthrough_request_headers: None,
            allowed_response_headers: None,
        }
    }
}

impl SecretsEngineTune {
    /// Whether `j` is the body for these parameters: the description always (null when
    /// there is none), the others when they have a value.
    pub open spec fn encoded_as(&self, j: Json) -> bool {
        match j {
            Json::Object(fs) => {
                &&& match self.description {
                    Some(d) => field_of(fs@, "description"@) == Some(Json::Str(d)),
                    None => field_of(fs@, "description"@) == Some(Json::Null),
                }
                &&& opt_u64_member(field_of(fs@, "default_lease_ttl"@), self.default_lease_ttl)
                &&& opt_u64_member(field_of(fs@, "max_lease_ttl"@), self.max_lease_ttl)
                &&& opt_strings_member(field_of(fs@, "audit_non_hmac_request_keys"@), self.audit_non_hmac_request_keys)
                &&& opt_strings_member(field_of(fs@, "audit_non_hmac_response_keys"@), self.audit_non_hmac_response_keys)
                &&& opt_visibility_member(field_of(fs@, "listing_visibility"@), self.listing_visibility)
                &&& opt_strings_member(field_of(fs@, "passthrough_request_headers"@), self.passthrough_request_headers)
                &&& opt_strings_member(field_of(fs@, "allowed_response_headers"@), self.allowed_response_headers)
            },
            _ => false,
        }
    }

    /// The JSON body.
    pub fn to_json(&self) -> (r: Json)
        ensures
            self.encoded_as(r),
    {
        proof {
            reveal_strlit("description");
            reveal_strlit("default_lease_ttl");
            reveal_strlit("max_lease_ttl");
            reveal_strlit("audit_non_hmac_request_keys");
            reveal_strlit("audit_non_hmac_response_keys");
            reveal_strlit("listing_visibility");
            reveal_strlit("passthrough_request_headers");
            reveal_strlit("allowed_response_headers");
            assert("description"@.len() == 11 && "default_lease_ttl"@.len() == 17 && "max_lease_ttl"@.len() == 13 && "audit_non_hmac_request_keys"@.len() == 27 && "audit_non_hmac_response_keys"@.len() == 28 && "listing_visibility"@.len() == 18 && "passthrough_request_headers"@.len() == 27 && "allowed_response_headers"@.len() == 24);
            assert("audit_non_hmac_request_keys"@[0] != "passthrough_request_headers"@[0]);
        }
        let mut fs = empty_object();
        put_opt_strings(&mut fs, "allowed_response_headers", &self.allowed_response_headers);
        put_opt_strings(&mut fs, "passthrough_request_headers", &self.passthrough_request_headers);
        put_opt_visibility(&mut fs, "listing_visibility", self.listing_visibility);
        put_opt_strings(&mut fs, "audit_non_hmac_response_keys", &self.audit_non_hmac_response_keys);
        put_opt_strings(&mut fs, "audit_non_hmac_request_keys", &self.audit_non_hmac_request_keys);
        put_opt_u64(&mut fs, "max_lease_ttl", self.max_lease_ttl);
        put_opt_u64(&mut fs, "default_lease_ttl", self.default_lease_ttl);
        match &self.description {
            Some(d) => put_str(&mut fs, "description", d),
            None => put_field(&mut fs, String::from_str("description"), Json::Null),
        }
        Json::Object(fs)
    }
}

/// An optional array-of-strings member that is left out when there is no value.
pub open spec fn opt_strings_member(j: Option<Json>, v: Option<Vec<String>>) -> bool {
    match v {
        Some(w) => crate::json::strings_value(j) == Some(w@),
        None => j is None,
    }
}

/// A path with its trailing separators removed, as the listing's keys are read.
pub open spec fn trim_trailing_slashes(s: Seq<char>) -> Seq<char>
    decreases s.len(),
{
    if s.len() > 0 && s.last() == '/' {
        trim_trailing_slashes(s.drop_last())
    } else {
        s
    }
}

/// Removes the trailing path separators of `s`.
pub fn trim_trailing_slashes_of(s: &str) -> (r: String)
    ensures
        r@ == trim_trailing_slashes(s@),
{
    let mut n = s.unicode_len();
    assert(s@.subrange(0, n as int) =~= s@);
    loop
        invariant
            n <= s@.len(),
            trim_trailing_slashes(s@.subrange(0, n as int)) == trim_trailing_slashes(s@),
        ensures
            n <= s@.len(),
            trim_trailing_slashes(s@.subrange(0, n as int)) == trim_trailing_slashes(s@),
            n == 0 || s@[n - 1] != '/',
        decreases n,
    {
        if n == 0 {
            break;
        }
        if s.get_char(n - 1) != '/' {
            break;
        }
        assert(s@.subrange(0, n as int).drop_last() =~= s@.subrange(0, n - 1));
        n -= 1;
    }
    let t = s.substring_char(0, n);
    String::from_str(t)
}

/// Whether every entry of a mount listing is a record whose members, its path aside, fit.
pub open spec fn listing_decodable(es: Seq<(String, Json)>) -> bool {
    forall|j: int|
        0 <= j < es.len() ==> (#[trigger] es[j]).1 is Object && engine_rest_decodable(
            es[j].1->Object_0@,
        )
}

/// What the `j`-th entry of a mount listing reads as: its key without trailing
/// separators, and a record whose path is that key.
pub open spec fn listing_entry_decodes_to(es: Seq<(String, Json)>, j: int, e: (String, SecretEngine)) -> bool {
    &&& e.0@ == trim_trailing_slashes(es[j].0@)
    &&& e.1.path == e.0
    &&& engine_rest_decodes_to(es[j].1->Object_0@, e.1)
}

/// Reads the reply to a mount listing. The service keys each record by its path with a
/// trailing separator and leaves the path out of the record; the key, trimmed, is put
/// back into the record as its `path` before the record is read.
pub fn mounts_from(response: Response) -> (r: Result<Vec<(String, SecretEngine)>, Error>)
    ensures
        match response {
            Response::Error { errors } => r matches Err(Error::VaultError(m)) && m@ == joined(
                errors@,
            ),
            Response::Empty => r matches Err(Error::MissingData(b)) && *b == Response::Empty,
            Response::Response(d) => match d.data {
                None => r matches Err(Error::MissingData(b)) && *b == response,
                Some(Json::Object(es)) => if listing_decodable(es@) {
                    r matches Ok(v) && v@.len() == es@.len() && forall|j: int|
                        0 <= j < es@.len() ==> listing_entry_decodes_to(es@, j, #[trigger] v@[j])
                } else {
                    r matches Err(Error::JsonError(_))
                },
                Some(_) => r matches Err(Error::JsonError(_)),
            },
        },
{
    let d = match response {
        Response::Error { errors } => {
            return Err(Error::VaultError(crate::response::join_errors(&errors)));
        },
        Response::Empty => {
            return Err(Error::MissingData(Box::new(Response::Empty)));
        },
        Response::Response(d) => d,
    };
    if d.data.is_none() {
        return Err(Error::MissingData(Box::new(Response::Response(d))));
    }
    let es = match d.data {
        Some(Json::Object(es)) => es,
        _ => {
            return Err(shape_error("expected an object of mounts"));
        },
    };
    let ghost es0 = es@;
    let n = es.len();
    let mut rest = es;
    let mut out: Vec<(String, SecretEngine)> = Vec::new();
    let mut i: usize = 0;
    while i < n
        invariant
            response matches Response::Response(dd) && dd.data matches Some(Json::Object(ee))
                && ee@ == es0,
            n == es0.len(),
            0 <= i <= n,
            rest@ == es0.subrange(i as int, n as int),
            out@.len() == i,
            forall|j: int| 0 <= j < i ==> listing_entry_decodes_to(es0, j, #[trigger] out@[j]),
            forall|j: int|
                0 <= j < i ==> (#[trigger] es0[j]).1 is Object && engine_rest_decodable(
                    es0[j].1->Object_0@,
                ),
        decreases n - i,
    {
        let (key, value) = rest.remove(0);
        assert(key == es0[i as int].0 && value == es0[i as int].1);
        let mut fs = match value {
            Json::Object(fs) => fs,
            _ => {
                return Err(shape_error("expected a mount record"));
            },
        };
        proof {
            reveal_strlit("path");
            reveal_strlit("type");
            reveal_strlit("description");
            reveal_strlit("config");
            assert("path"@.len() == 4 && "type"@.len() == 4 && "description"@.len() == 11 && "config"@.len() == 6);
            assert("path"@[0] != "type"@[0]);
        }
        let ghost fs0 = fs@;
        let path = trim_trailing_slashes_of(key.as_str());
        put_field(&mut fs, String::from_str("path"), Json::Str(path.clone()));
        assert(engine_rest_decodable(fs@) == engine_rest_decodable(fs0));
        let engine = match SecretEngine::from_json(&Json::Object(fs)) {
            Ok(e) => e,
            Err(e) => {
                return Err(e);
            },
        };
        out.push((path, engine));
        i += 1;
    }
    Ok(out)
}

/// Lists the mounted engines; `mounts_from` reads the reply.
pub fn list() -> (r: Call)
    ensures
        r.path@ == "sys/mounts"@,
        r.method == Method::Get,
        r.query is None,
        r.payload is None,
        r.response_expected,
{
    Call::get("sys/mounts")
}

/// The path of the mount at `path` in the system backend.
pub open spec fn mount_path(path: Seq<char>) -> Seq<char> {
    "sys/mounts/"@ + path
}

/// Mounts an engine at its path; the body is the whole record, path included, and the
/// reply is empty.
pub fn enable(engine: &SecretEngine) -> (r: Call)
    ensures
        r.path@ == mount_path(engine.path@),
        r.method == Method::Post,
        r.query is None,
        r.payload matches Some(j) && SecretEngine::decodes_to(j, *engine),
        !r.response_expected,
{
    let p = sub_path("sys/mounts/", engine.path.as_str());
    Call::post(p.as_str(), engine.to_json(), false)
}

/// Unmounts the engine at `path`; the reply is empty.
pub fn disable(path: &str) -> (r: Call)
    ensures
        r.path@ == mount_path(path@),
        r.method == Method::Delete,
        r.query is None,
        r.payload == Some(Json::Null),
        !r.response_expected,
{
    let p = sub_path("sys/mounts/", path);
    Call::delete(p.as_str(), false)
}

/// Reads the configuration of the mount at `path`; the reply's payload reads as a
/// `SecretsEngineConfig`.
pub fn get(path: &str) -> (r: Call)
    ensures
        r.path@ == mount_path(path@) + "/tune"@,
        r.method == Method::Get,
        r.query is None,
        r.payload is None,
        r.response_expected,
{
    let p = sub_path("sys/mounts/", path);
    let p = sub_path(p.as_str(), "/tune");
    Call::get(p.as_str())
}

/// Tunes the mount at `path`; the reply is empty.
pub fn tune(path: &str, config: &SecretsEngineTune) -> (r: Call)
    ensures
        r.path@ == mount_path(path@) + "/tune"@,
        r.method == Method::Post,
        r.query is None,
        r.payload matches Some(j) && config.encoded_as(j),
        !r.response_expected,
{
    let p = sub_path("sys/mounts/", path);
    let p = sub_path(p.as_str(), "/tune");
    Call::post(p.as_str(), config.to_json(), false)
}

} // verus!
