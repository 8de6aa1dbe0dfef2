use vstd::prelude::*;

use crate::error::Error;
use crate::json::{
    bool_value, field_bool, field_decode, field_decode_opt, field_of, field_str, field_string_pairs,
    field_strings, field_strings_opt, field_u64, find_field, member_decodable, opt_member_decodable,
    opt_member_decodes_to, opt_strings_value, json_same, shape_error, str_value, string_pairs_value,
    strings_value, take_field, text_eq, u64_value, copy_string_pairs, copy_strings, FromJson, Json,
};
use crate::secret::Secret;

verus! {

/// The reply envelope of every call, told apart by its shape.
pub enum Response {
    /// The service reported errors.
    Error {
        /// The messages, in the order the service gave them.
        errors: Vec<String>,
    },
    /// A successful reply that carries an envelope of data.
    Response(ResponseData),
    /// A successful reply without a body, as deletes give.
    Empty,
}

/// The envelope of a successful reply.
pub struct ResponseData {
    /// Request identifier.
    pub request_id: String,
    /// Lease identifier of the secret.
    pub lease_id: String,
    /// Whether the lease can be renewed.
    pub renewable: bool,
    /// Lease duration, in seconds.
    pub lease_duration: u64,
    /// Warnings, if any.
    pub warnings: Option<Vec<String>>,
    /// Authentication data, for calls that issue a token.
    pub auth: Option<Authentication>,
    /// The payload, if any.
    pub data: Option<Json>,
}

/// A decoded payload together with the lease it was issued under.
pub struct LeasedData<T> {
    /// Lease identifier of the secret.
    pub lease_id: String,
    /// Whether the lease can be renewed.
    pub renewable: bool,
    /// Lease duration, in seconds.
    pub lease_duration: u64,
    /// The decoded payload.
    pub data: T,
}

impl<T> LeasedData<T> {
    /// Drops the lease data and returns the payload.
    pub fn unwrap(self) -> (r: T)
        ensures
            r == self.data,
    {
        self.data
    }
}

/// Authentication data issued with a token.
#[derive(Clone)]
pub struct Authentication {
    /// The token itself.
    pub client_token: Secret,
    /// The token's accessor.
    pub accessor: String,
    /// Policies of the token, those from identity included.
    pub policies: Vec<String>,
    /// Policies assigned to the token directly.
    pub token_policies: Vec<String>,
    /// Free-form metadata.
    pub metadata: Vec<(String, String)>,
    /// Lease duration of the token, in seconds.
    pub lease_duration: u64,
    /// Whether the token can be renewed.
    pub renewable: bool,
    /// Identifier of the entity.
    pub entity_id: String,
    /// Kind of token.
    pub token_type: TokenType,
}

/// Kind of token.
#[derive(Debug, Clone, Copy, PartialEq, Eq, Structural)]
pub enum TokenType {
    /// Long-lived service token.
    Service,
    /// Short-lived batch token.
    Batch,
}

impl FromJson for TokenType {
    open spec fn decodable(v: Json) -> bool {
        v == Json::Str(v->Str_0) && (v->Str_0@ == "service"@ || v->Str_0@ == "batch"@)
    }

    open spec fn decodes_to(v: Json, x: TokenType) -> bool {
        x == (if v->Str_0@ == "service"@ {
            TokenType::Service
        } else {
            TokenType::Batch
        })
    }

    fn from_json(v: &Json) -> (r: Result<TokenType, Error>) {
        match v {
            Json::Str(s) => {
                if text_eq(s.as_str(), "service") {
                    Ok(TokenType::Service)
                } else if text_eq(s.as_str(), "batch") {
                    Ok(TokenType::Batch)
                } else {
                    Err(shape_error("unknown token type"))
                }
            },
            _ => Err(shape_error("expected a token type")),
        }
    }
}

impl FromJson for Authentication {
    open spec fn decodable(v: Json) -> bool {
        match v {
            Json::Object(fs) => {
                &&& str_value(field_of(fs@, "client_token"@)) is Some
                &&& str_value(field_of(fs@, "accessor"@)) is Some
                &&& strings_value(field_of(fs@, "policies"@)) is Some
                &&& strings_value(field_of(fs@, "token_policies"@)) is Some
                &&& string_pairs_value(field_of(fs@, "metadata"@)) is Some
                &&& u64_value(field_of(fs@, "lease_duration"@)) is Some
                &&& bool_value(field_of(fs@, "renewable"@)) is Some
                &&& str_value(field_of(fs@, "entity_id"@)) is Some
                &&& member_decodable::<TokenType>(field_of(fs@, "token_type"@))
            },
            _ => false,
        }
    }

    open spec fn decodes_to(v: Json, x: Authentication) -> bool {
        match v {
            Json::Object(fs) => {
                &&& str_value(field_of(fs@, "client_token"@)) == Some(x.client_token.0)
                &&& str_value(field_of(fs@, "accessor"@)) == Some(x.accessor)
                &&& strings_value(field_of(fs@, "policies"@)) == Some(x.policies@)
                &&& strings_value(field_of(fs@, "token_policies"@)) == Some(x.token_policies@)
                &&& string_pairs_value(field_of(fs@, "metadata"@)) == Some(x.metadata@)
                &&& u64_value(field_of(fs@, "lease_duration"@)) == Some(x.lease_duration)
                &&& bool_value(field_of(fs@, "renewable"@)) == Some(x.renewable)
                &&& str_value(field_of(fs@, "entity_id"@)) == Some(x.entity_id)
                &&& TokenType::decodes_to(field_of(fs@, "token_type"@)->Some_0, x.token_type)
            },
            _ => false,
        }
    }

    fn from_json(v: &Json) -> (r: Result<Authentication, Error>) {
        let fs = match v {
            Json::Object(fs) => fs,
            _ => {
                return Err(shape_error("expected an object"));
            },
        };
        let client_token = field_str(fs, "client_token")?;
        let accessor = field_str(fs, "accessor")?;
        let policies = field_strings(fs, "policies")?;
        let token_policies = field_strings(fs, "token_policies")?;
        let metadata = field_string_pairs(fs, "metadata")?;
        let lease_duration = field_u64(fs, "lease_duration")?;
        let renewable = field_bool(fs, "renewable")?;
        let entity_id = field_str(fs, "entity_id")?;
        let token_type = field_decode::<TokenType>(fs, "token_type")?;
        Ok(
            Authentication {
                client_token: Secret(client_token),
                accessor,
                policies,
                token_policies,
                metadata,
                lease_duration,
                renewable,
                entity_id,
                token_type,
            },
        )
    }
}

/// Two authentication blocks with the same contents.
pub open spec fn same_authentication(a: Authentication, b: Authentication) -> bool {
    &&& a.client_token == b.client_token
    &&& a.accessor == b.accessor
    &&& a.policies@ == b.policies@
    &&& a.token_policies@ == b.token_policies@
    &&& a.metadata@ == b.metadata@
    &&& a.lease_duration == b.lease_duration
    &&& a.renewable == b.renewable
    &&& a.entity_id == b.entity_id
    &&& a.token_type == b.token_type
}

impl Authentication {
    /// A copy of the block.
    pub fn duplicate(&self) -> (r: Authentication)
        ensures
            same_authentication(*self, r),
    {
        Authentication {
            client_token: Secret(self.client_token.0.clone()),
            accessor: self.accessor.clone(),
            policies: copy_strings(&self.policies),
            token_policies: copy_strings(&self.token_policies),
            metadata: copy_string_pairs(&self.metadata),
            lease_duration: self.lease_duration,
            renewable: self.renewable,
            entity_id: self.entity_id.clone(),
            token_type: self.token_type,
        }
    }
}

/// Two envelopes with the same contents: the same fields, warnings and authentication
/// block, and either both without payload or both with the same payload.
pub open spec fn same_envelope(a: ResponseData, b: ResponseData) -> bool {
    &&& a.request_id == b.request_id
    &&& a.lease_id == b.lease_id
    &&& a.renewable == b.renewable
    &&& a.lease_duration == b.lease_duration
    &&& match (a.warnings, b.warnings) {
        (None, None) => true,
        (Some(x), Some(y)) => x@ == y@,
        _ => false,
    }
    &&& match (a.auth, b.auth) {
        (None, None) => true,
        (Some(x), Some(y)) => same_authentication(x, y),
        _ => false,
    }
    &&& match (a.data, b.data) {
        (None, None) => true,
        (Some(x), Some(y)) => json_same(x, y),
        _ => false,
    }
}

/// Two replies with the same contents: an error reply with the same messages, an empty
/// reply, or data replies with the same envelope.
pub open spec fn same_reply(a: Response, b: Response) -> bool {
    match (a, b) {
        (Response::Error { errors: x }, Response::Error { errors: y }) => x@ == y@,
        (Response::Empty, Response::Empty) => true,
        (Response::Response(x), Response::Response(y)) => same_envelope(x, y),
        _ => false,
    }
}

/// What the `data` member of an envelope holds: nothing when it is missing or null.
pub open spec fn payload_value(j: Option<Json>) -> Option<Json> {
    match j {
        Some(Json::Null) => None,
        _ => j,
    }
}

/// Whether the members of an object have the shape of a data envelope.
pub open spec fn envelope_decodable(fs: Seq<(String, Json)>) -> bool {
    &&& str_value(field_of(fs, "request_id"@)) is Some
    &&& str_value(field_of(fs, "lease_id"@)) is Some
    &&& bool_value(field_of(fs, "renewable"@)) is Some
    &&& u64_value(field_of(fs, "lease_duration"@)) is Some
    &&& opt_strings_value(field_of(fs, "warnings"@)) is Some
    &&& opt_member_decodable::<Authentication>(field_of(fs, "auth"@))
}

/// Whether `d` is what the members of an object read as.
pub open spec fn envelope_decodes_to(fs: Seq<(String, Json)>, d: ResponseData) -> bool {
    &&& str_value(field_of(fs, "request_id"@)) == Some(d.request_id)
    &&& str_value(field_of(fs, "lease_id"@)) == Some(d.lease_id)
    &&& bool_value(field_of(fs, "renewable"@)) == Some(d.renewable)
    &&& u64_value(field_of(fs, "lease_duration"@)) == Some(d.lease_duration)
    &&& match d.warnings {
        None => opt_strings_value(field_of(fs, "warnings"@)) == Some(None::<Seq<String>>),
        Some(w) => opt_strings_value(field_of(fs, "warnings"@)) == Some(Some(w@)),
    }
    &&& opt_member_decodes_to(field_of(fs, "auth"@), d.auth)
    &&& d.data == payload_value(field_of(fs, "data"@))
}

/// The messages of a reply of the error shape: an object whose `errors` member is a
/// list of strings.
pub open spec fn error_shape(v: Json) -> Option<Seq<String>> {
    match v {
        Json::Object(fs) => strings_value(field_of(fs@, "errors"@)),
        _ => None,
    }
}

/// Whether a reply body decodes at all: the error shape, or else the data shape.
pub open spec fn response_decodable(v: Json) -> bool {
    error_shape(v) is Some || (v is Object && envelope_decodable(v->Object_0@))
}

/// Whether `r` is what a reply body decodes to. The error shape is tried first.
pub open spec fn response_decodes_to(v: Json, r: Response) -> bool {
    match error_shape(v) {
        Some(msgs) => r is Error && r->Error_errors@ == msgs,
        None => r is Response && envelope_decodes_to(v->Object_0@, r->Response_0),
    }
}

/// The messages of an error reply, joined with "; ", in their order.
pub open spec fn joined(msgs: Seq<String>) -> Seq<char>
    decreases msgs.len(),
{
    if msgs.len() == 0 {
        Seq::empty()
    } else if msgs.len() == 1 {
        msgs[0]@
    } else {
        joined(msgs.drop_last()) + "; "@ + msgs.last()@
    }
}

/// Joins the messages of an error reply with "; ".
pub fn join_errors(errors: &Vec<String>) -> (r: String)
    ensures
        r@ == joined(errors@),
{
    let mut out = String::new();
    let mut i: usize = 0;
    while i < errors.len()
        invariant
            0 <= i <= errors@.len(),
            out@ == joined(errors@.subrange(0, i as int)),
        decreases errors@.len() - i,
    {
        let ghost prefix = errors@.subrange(0, i as int + 1);
        assert(prefix.drop_last() =~= errors@.subrange(0, i as int));
        if i > 0 {
            out.append("; ");
        } else {
            assert(errors@.subrange(0, 0) =~= Seq::<String>::empty());
            assert(out@ =~= Seq::<char>::empty());
        }
        out.append(errors[i].as_str());
        proof {
            if i == 0 {
                assert(out@ =~= prefix[0]@);
            }
        }
        i += 1;
    }
    assert(errors@.subrange(0, errors@.len() as int) =~= errors@);
    out
}

impl ResponseData {
    /// Reads the members of an object of the data shape; the payload is moved out of them.
    pub fn from_members(fs: Vec<(String, Json)>) -> (r: Result<ResponseData, Error>)
        ensures
            match r {
                Ok(d) => envelope_decodable(fs@) && envelope_decodes_to(fs@, d),
                Err(e) => !envelope_decodable(fs@) && e is JsonError,
            },
    {
        let mut fs = fs;
        let request_id = field_str(&fs, "request_id")?;
        let lease_id = field_str(&fs, "lease_id")?;
        let renewable = field_bool(&fs, "renewable")?;
        let lease_duration = field_u64(&fs, "lease_duration")?;
        let warnings = field_strings_opt(&fs, "warnings")?;
        let auth = field_decode_opt::<Authentication>(&fs, "auth")?;
        let data = match take_field(&mut fs, "data") {
            Some(Json::Null) => None,
            other => other,
        };
        Ok(ResponseData { request_id, lease_id, renewable, lease_duration, warnings, auth, data })
    }

    /// A copy of the envelope.
    pub fn duplicate(&self) -> (r: ResponseData)
        ensures
            same_envelope(*self, r),
    {
        ResponseData {
            request_id: self.request_id.clone(),
            lease_id: self.lease_id.clone(),
            renewable: self.renewable,
            lease_duration: self.lease_duration,
            warnings: match &self.warnings {
                Some(w) => Some(copy_strings(w)),
                None => None,
            },
            auth: match &self.auth {
                Some(a) => Some(a.duplicate()),
                None => None,
            },
            data: match &self.data {
                Some(j) => Some(j.duplicate()),
                None => None,
            },
        }
    }
}

impl Response {
    /// Decodes a reply body: the error shape first, then the data shape; a body of
    /// neither shape is a decode error.
    pub fn from_json(v: Json) -> (r: Result<Response, Error>)
        ensures
            match r {
                Ok(resp) => response_decodable(v) && response_decodes_to(v, resp),
                Err(e) => !response_decodable(v) && e is JsonError,
            },
    {
        let ghost v0 = v;
        match v {
            Json::Object(fs) => {
                let errors = match find_field(&fs, "errors") {
                    Some(Json::Array(items)) => match crate::json::strings_in(items) {
                        Ok(errors) => Some(errors),
                        Err(_) => None,
                    },
                    _ => None,
                };
                match errors {
                    Some(errors) => Ok(Response::Error { errors }),
                    None => {
                        assert(error_shape(v0) is None);
                        match ResponseData::from_members(fs) {
                            Ok(d) => Ok(Response::Response(d)),
                            Err(e) => Err(e),
                        }
                    },
                }
            },
            _ => Err(shape_error("expected an object")),
        }
    }

    /// A copy of the reply.
    pub fn duplicate(&self) -> (r: Response)
        ensures
            same_reply(*self, r),
    {
        match self {
            Response::Error { errors } => Response::Error { errors: copy_strings(errors) },
            Response::Response(d) => Response::Response(d.duplicate()),
            Response::Empty => Response::Empty,
        }
    }

    /// Turns the reply into a `Result`: an error reply is a service error carrying its
    /// joined messages; a data reply is its envelope; an empty reply is "no data".
    pub fn ok(self) -> (r: Result<Option<ResponseData>, Error>)
        ensures
            match self {
                Response::Error { errors } => r matches Err(Error::VaultError(m)) && m@ == joined(
                    errors@,
                ),
                Response::Response(d) => r == Ok::<Option<ResponseData>, Error>(Some(d)),
                Response::Empty => r == Ok::<Option<ResponseData>, Error>(None),
            },
    {
        match self {
            Response::Error { errors } => Err(Error::VaultError(join_errors(&errors))),
            Response::Response(data) => Ok(Some(data)),
            Response::Empty => Ok(None),
        }
    }

    /// The payload of a data reply; an error reply is a service error, and a reply
    /// without payload is missing data.
    pub fn data_value(&self) -> (r: Result<&Json, Error>)
        ensures
            match self {
                Response::Error { errors } => r matches Err(Error::VaultError(m)) && m@ == joined(
                    errors@,
                ),
                Response::Empty => r matches Err(Error::MissingData(b)) && *b == Response::Empty,
                Response::Response(d) => match d.data {
                    None => r matches Err(Error::MissingData(b)) && same_reply(*self, *b),
                    Some(p) => r matches Ok(j) && *j == p,
                },
            },
    {
        match self {
            Response::Error { errors } => Err(Error::VaultError(join_errors(errors))),
            Response::Empty => Err(Error::MissingData(Box::new(Response::Empty))),
            Response::Response(data) => match &data.data {
                None => Err(Error::MissingData(Box::new(self.duplicate()))),
                Some(p) => Ok(p),
            },
        }
    }

    /// Decodes the payload of a data reply as a `T`. Beyond the failures of
    /// `data_value`, a payload that does not fit `T` is a decode error.
    pub fn data<T: FromJson>(&self) -> (r: Result<T, Error>)
        ensures
            match self {
                Response::Error { errors } => r matches Err(Error::VaultError(m)) && m@ == joined(
                    errors@,
                ),
                Response::Empty => r matches Err(Error::MissingData(b)) && *b == Response::Empty,
                Response::Response(d) => match d.data {
                    None => r matches Err(Error::MissingData(b)) && same_reply(*self, *b),
                    Some(p) => match r {
                        Ok(x) => T::decodable(p) && T::decodes_to(p, x),
                        Err(e) => !T::decodable(p) && e is JsonError,
                    },
                },
            },
    {
        match self.data_value() {
            Ok(p) => T::from_json(p),
            Err(e) => Err(e),
        }
    }

    /// Like `data`, and keeps the lease data of the envelope beside the payload.
    pub fn leased_data<T: FromJson>(&self) -> (r: Result<LeasedData<T>, Error>)
        ensures
            match self {
                Response::Error { errors } => r matches Err(Error::VaultError(m)) && m@ == joined(
                    errors@,
                ),
                Response::Empty => r matches Err(Error::MissingData(b)) && *b == Response::Empty,
                Response::Response(d) => match d.data {
                    None => r matches Err(Error::MissingData(b)) && same_reply(*self, *b),
                    Some(p) => match r {
                        Ok(x) => {
                            &&& T::decodable(p)
                            &&& T::decodes_to(p, x.data)
                            &&& x.lease_id == d.lease_id
                            &&& x.renewable == d.renewable
                            &&& x.lease_duration == d.lease_duration
                        },
                        Err(e) => !T::decodable(p) && e is JsonError,
                    },
                },
            },
    {
        match self {
            Response::Response(d) => match &d.data {
                Some(p) => {
                    let data = T::from_json(p)?;
                    Ok(
                        LeasedData {
                            lease_id: d.lease_id.clone(),
                            renewable: d.renewable,
                            lease_duration: d.lease_duration,
                            data,
                        },
                    )
                },
                None => Err(Error::MissingData(Box::new(self.duplicate()))),
            },
            Response::Error { errors } => Err(Error::VaultError(join_errors(errors))),
            Response::Empty => Err(Error::MissingData(Box::new(Response::Empty))),
        }
    }
}

} // verus!
