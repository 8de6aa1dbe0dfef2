use vstd::prelude::*;

use crate::error::Error;
use crate::json::Json;
use crate::response::{response_decodable, response_decodes_to, Response};
use crate::secret::Secret;

verus! {

/// The URL that `url::Url::join` gives for `reference` resolved against the absolute
/// URL that `url::Url::parse` reads from `base`, serialized; `None` where either fails.
pub uninterp spec fn resolved_url(base: Seq<char>, reference: Seq<char>) -> Option<Seq<char>>;

/// Relies on `url::Url::parse` (reads `base` as an absolute URL) and `url::Url::join`
/// (resolves `reference` against it), and on `String::from(Url)` for the serialization.
#[verifier::external_body]
fn resolve_url(base: &str, reference: &str) -> (r: Result<String, url::ParseError>)
    ensures
        match r {
            Ok(u) => resolved_url(base@, reference@) == Some(u@),
            Err(_) => resolved_url(base@, reference@) is None,
        },
{
    match url::Url::parse(base) {
        Ok(u) => u.join(reference).map(String::from),
        Err(e) => Err(e),
    }
}

/// The HTTP verbs the service is spoken to with. `List` is the service's own verb.
#[derive(Debug, Clone, Copy, PartialEq, Eq, Structural)]
pub enum Method {
    Get,
    Post,
    Put,
    Delete,
    List,
}

/// The name a verb goes by on the wire.
pub open spec fn method_name(m: Method) -> Seq<char> {
    match m {
        Method::Get => "GET"@,
        Method::Post => "POST"@,
        Method::Put => "PUT"@,
        Method::Delete => "DELETE"@,
        Method::List => "LIST"@,
    }
}

impl Method {
    /// The name of the verb on the wire.
    pub fn as_str(&self) -> (r: &'static str)
        ensures
            r@ == method_name(*self),
    {
        match self {
            Method::Get => "GET",
            Method::Post => "POST",
            Method::Put => "PUT",
            Method::Delete => "DELETE",
            Method::List => "LIST",
        }
    }
}

/// One primitive call against a path of the service: what to send, and whether a
/// body is expected back.
pub struct Call {
    /// The path, relative to the `/v1/` prefix.
    pub path: String,
    /// The verb.
    pub method: Method,
    /// Query parameters, if any.
    pub query: Option<Vec<(String, String)>>,
    /// The JSON body, if any.
    pub payload: Option<Json>,
    /// Whether the reply carries a body to decode; when not, a non-empty reply is an error.
    pub response_expected: bool,
}

impl Call {
    /// Reads a path with the given verb.
    pub fn read(path: &str, method: Method) -> (r: Call)
        ensures
            r.path@ == path@,
            r.method == method,
            r.query is None,
            r.payload is None,
            r.response_expected,
    {
        Call {
            path: String::from_str(path),
            method,
            query: None,
            payload: None,
            response_expected: true,
        }
    }

    /// Reads a path with the given verb and query parameters.
    pub fn read_with_query(path: &str, method: Method, query: Vec<(String, String)>) -> (r: Call)
        ensures
            r.path@ == path@,
            r.method == method,
            r.query == Some(query),
            r.payload is None,
            r.response_expected,
    {
        Call {
            path: String::from_str(path),
            method,
            query: Some(query),
            payload: None,
            response_expected: true,
        }
    }

    /// Writes a JSON body to a path with the given verb.
    pub fn write(path: &str, payload: Json, method: Method, response_expected: bool) -> (r: Call)
        ensures
            r.path@ == path@,
            r.method == method,
            r.query is None,
            r.payload == Some(payload),
            r.response_expected == response_expected,
    {
        Call { path: String::from_str(path), method, query: None, payload: Some(payload), response_expected }
    }

    /// `read` with GET.
    pub fn get(path: &str) -> (r: Call)
        ensures
            r.path@ == path@,
            r.method == Method::Get,
            r.query is None,
            r.payload is None,
            r.response_expected,
    {
        Call::read(path, Method::Get)
    }

    /// `read_with_query` with GET.
    pub fn get_with_query(path: &str, query: Vec<(String, String)>) -> (r: Call)
        ensures
            r.path@ == path@,
            r.method == Method::Get,
            r.query == Some(query),
            r.payload is None,
            r.response_expected,
    {
        Call::read_with_query(path, Method::Get, query)
    }

    /// `read` with LIST.
    pub fn list(path: &str) -> (r: Call)
        ensures
            r.path@ == path@,
            r.method == Method::List,
            r.query is None,
            r.payload is None,
            r.response_expected,
    {
        Call::read(path, Method::List)
    }

    /// `write` with POST.
    pub fn post(path: &str, payload: Json, response_expected: bool) -> (r: Call)
        ensures
            r.path@ == path@,
            r.method == Method::Post,
            r.query is None,
            r.payload == Some(payload),
            r.response_expected == response_expected,
    {
        Call::write(path, payload, Method::Post, response_expected)
    }

    /// `write` with PUT.
    pub fn put(path: &str, payload: Json, response_expected: bool) -> (r: Call)
        ensures
            r.path@ == path@,
            r.method == Method::Put,
            r.query is None,
            r.payload == Some(payload),
            r.response_expected == response_expected,
    {
        Call::write(path, payload, Method::Put, response_expected)
    }

    /// `write` with DELETE and an empty placeholder body (JSON `null`).
    pub fn delete(path: &str, response_expected: bool) -> (r: Call)
        ensures
            r.path@ == path@,
            r.method == Method::Delete,
            r.query is None,
            r.payload == Some(Json::Null),
            r.response_expected == response_expected,
    {
        Call::write(path, Json::Null, Method::Delete, response_expected)
    }
}

/// A path followed by a suffix.
pub fn sub_path(path: &str, suffix: &str) -> (r: String)
    ensures
        r@ == path@ + suffix@,
{
    String::from_str(path).concat(suffix)
}

/// The header that carries the token on every request.
pub open spec fn token_header_name() -> Seq<char> {
    "X-Vault-Token"@
}

/// The path, under the service address, that `path` is reached at.
pub open spec fn api_path(path: Seq<char>) -> Seq<char> {
    "/v1/"@ + path
}

/// The path at which a token revokes itself.
pub open spec fn revoke_self_path() -> Seq<char> {
    "/v1/auth/token/revoke-self"@
}

/// An authenticated HTTP request, ready for a transport to send.
pub struct HttpRequest {
    /// The verb.
    pub method: Method,
    /// The absolute URL.
    pub url: String,
    /// Name and value of the authentication header.
    pub header: (String, String),
    /// Query parameters, if any.
    pub query: Option<Vec<(String, String)>>,
    /// The JSON body, if any.
    pub body: Option<Json>,
    /// Whether the reply carries a body to decode.
    pub response_expected: bool,
}

/// The connection settings of a client: service address, token, and whether the
/// token is revoked when the client is disposed of.
pub struct Client {
    token: Secret,
    address: String,
    revoke_self_on_drop: bool,
}

/// The value given explicitly, or else the one from the environment.
pub fn environment_variable_or_provided(alternative: Option<String>, environment: Option<String>) -> (r:
    Option<String>)
    ensures
        r == (if alternative is Some {
            alternative
        } else {
            environment
        }),
{
    match alternative {
        Some(s) => Some(s),
        None => environment,
    }
}

impl Client {
    /// The service address the client was made with.
    pub closed spec fn spec_address(&self) -> Seq<char> {
        self.address@
    }

    /// The token the client was made with.
    pub closed spec fn spec_token(&self) -> Seq<char> {
        self.token@
    }

    /// Whether the client revokes its token when disposed of.
    pub closed spec fn spec_revoke_self_on_drop(&self) -> bool {
        self.revoke_self_on_drop
    }

    /// Makes a client; the address and the token are both required. The address is
    /// not checked here: a malformed one fails on first use.
    pub fn new(vault_address: Option<String>, vault_token: Option<String>, revoke_self_on_drop: bool) -> (r:
        Result<Client, Error>)
        ensures
            vault_address is None ==> r matches Err(Error::MissingAddress),
            vault_address is Some && vault_token is None ==> r matches Err(Error::MissingToken),
            vault_address is Some && vault_token is Some ==> (r matches Ok(c) && c.spec_address()
                == vault_address->Some_0@ && c.spec_token() == vault_token->Some_0@
                && c.spec_revoke_self_on_drop() == revoke_self_on_drop),
    {
        let address = match vault_address {
            Some(a) => a,
            None => {
                return Err(Error::MissingAddress);
            },
        };
        let token = match vault_token {
            Some(t) => t,
            None => {
                return Err(Error::MissingToken);
            },
        };
        Ok(Client { token: Secret(token), address, revoke_self_on_drop })
    }

    /// The service address.
    pub fn address(&self) -> (r: &str)
        ensures
            r@ == self.spec_address(),
    {
        self.address.as_str()
    }

    /// The token.
    pub fn token(&self) -> (r: &Secret)
        ensures
            r@ == self.spec_token(),
    {
        &self.token
    }

    /// Whether the client revokes its token when disposed of.
    pub fn revoke_self_on_drop(&self) -> (r: bool)
        ensures
            r == self.spec_revoke_self_on_drop(),
    {
        self.revoke_self_on_drop
    }

    /// The authentication header.
    fn token_header(&self) -> (r: (String, String))
        ensures
            r.0@ == token_header_name(),
            r.1@ == self.spec_token(),
    {
        (String::from_str("X-Vault-Token"), String::from_str(self.token.as_str()))
    }

    /// Builds the authenticated request for a call: the address is parsed now, and
    /// `/v1/` followed by the call's path is resolved against it.
    pub fn build_request(&self, call: Call) -> (r: Result<HttpRequest, Error>)
        ensures
            match r {
                Ok(req) => {
                    &&& resolved_url(self.spec_address(), api_path(call.path@)) == Some(req.url@)
                    &&& req.method == call.method
                    &&& req.header.0@ == token_header_name()
                    &&& req.header.1@ == self.spec_token()
                    &&& req.query == call.query
                    &&& req.body == call.payload
                    &&& req.response_expected == call.response_expected
                },
                Err(e) => resolved_url(self.spec_address(), api_path(call.path@)) is None
                    && e is UrlParseError,
            },
    {
        let reference = String::from_str("/v1/").concat(call.path.as_str());
        match resolve_url(self.address.as_str(), reference.as_str()) {
            Ok(url) => Ok(
                HttpRequest {
                    method: call.method,
                    url,
                    header: self.token_header(),
                    query: call.query,
                    body: call.payload,
                    response_expected: call.response_expected,
                },
            ),
            Err(e) => Err(Error::UrlParseError(e)),
        }
    }

    /// Builds the request by which the token revokes itself: a POST without body, to
    /// which the service replies with an empty body.
    pub fn build_revoke_self_request(&self) -> (r: Result<HttpRequest, Error>)
        ensures
            match r {
                Ok(req) => {
                    &&& resolved_url(self.spec_address(), revoke_self_path()) == Some(req.url@)
                    &&& req.method == Method::Post
                    &&& req.header.0@ == token_header_name()
                    &&& req.header.1@ == self.spec_token()
                    &&& req.query is None
                    &&& req.body is None
                    &&& !req.response_expected
                },
                Err(e) => resolved_url(self.spec_address(), revoke_self_path()) is None
                    && e is UrlParseError,
            },
    {
        match resolve_url(self.address.as_str(), "/v1/auth/token/revoke-self") {
            Ok(url) => Ok(
                HttpRequest {
                    method: Method::Post,
                    url,
                    header: self.token_header(),
                    query: None,
                    body: None,
                    response_expected: false,
                },
            ),
            Err(e) => Err(Error::UrlParseError(e)),
        }
    }

    /// Checks the body of a reply that must be empty.
    pub fn execute_request_no_body(body: String) -> (r: Result<(), Error>)
        ensures
            body@.len() == 0 ==> r is Ok,
            body@.len() > 0 ==> (r matches Err(Error::UnexpectedResponse(b)) && b == body),
    {
        if body.as_str().is_empty() {
            Ok(())
        } else {
            Err(Error::UnexpectedResponse(body))
        }
    }

    /// The reply to a write that expects no body: the empty reply, or an
    /// unexpected-response error carrying any body that came back.
    pub fn empty_response(body: String) -> (r: Result<Response, Error>)
        ensures
            body@.len() == 0 ==> r matches Ok(Response::Empty),
            body@.len() > 0 ==> (r matches Err(Error::UnexpectedResponse(b)) && b == body),
    {
        match Client::execute_request_no_body(body) {
            Ok(()) => Ok(Response::Empty),
            Err(e) => Err(e),
        }
    }

    /// The reply to a request, from the body the transport brought back and that body
    /// read as JSON. A request that expects no body accepts only an empty one; one that
    /// does decodes the document, and a body that was no JSON is that error.
    pub fn reply(response_expected: bool, body: String, document: Result<Json, Error>) -> (r:
        Result<Response, Error>)
        ensures
            !response_expected ==> (body@.len() == 0 ==> r matches Ok(Response::Empty)),
            !response_expected ==> (body@.len() > 0 ==> (r matches Err(Error::UnexpectedResponse(
                b,
            )) && b == body)),
            response_expected ==> match document {
                Err(e) => r == Err::<Response, Error>(e),
                Ok(v) => match r {
                    Ok(resp) => response_decodable(v) && response_decodes_to(v, resp),
                    Err(e) => !response_decodable(v) && e is JsonError,
                },
            },
    {
        if response_expected {
            match document {
                Ok(v) => Response::from_json(v),
                Err(e) => Err(e),
            }
        } else {
            Client::empty_response(body)
        }
    }
}

} // verus!
