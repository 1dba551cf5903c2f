//! The client: credentials and the base URL of one environment, the request
//! of each operation, and the classification of its reply.

use vstd::prelude::*;
use crate::json::{Json, member, lookup, parse_json, parsed_json, render_json, json_text};
use crate::schema::{DecodeError, str_at};
use crate::liabilities::{
    LiabilitiesRequestOptions, LiabilitiesResponse, options_json, liabilities_response_ok,
    liabilities_response_from,
};
use reqwest::Client as HttpClient;
use crate::error::{ApiError, ClientError, RemoteError, remote_error_ok, remote_error_from};

verus! {

/// The deployment of the service that a client talks to.
#[derive(Clone, Copy, Debug, PartialEq, Eq, Structural)]
pub enum Environment {
    Sandbox,
    Development,
    Production,
}

/// The host label of an environment.
pub open spec fn environment_name(e: Environment) -> Seq<char> {
    match e {
        Environment::Sandbox => "sandbox"@,
        Environment::Development => "development"@,
        Environment::Production => "production"@,
    }
}

/// The base URL of an environment: `https://{name}.plaid.com`.
pub open spec fn base_url_of(e: Environment) -> Seq<char> {
    "https://"@ + environment_name(e) + ".plaid.com"@
}

/// The path of the liabilities operation under a base URL.
pub open spec fn liabilities_path() -> Seq<char> {
    "/liabilities/get"@
}

impl Environment {
    /// The host label of this environment.
    pub fn name(&self) -> (r: &'static str)
        ensures
            r@ == environment_name(*self),
    {
        match self {
            Environment::Sandbox => "sandbox",
            Environment::Development => "development",
            Environment::Production => "production",
        }
    }

    /// The base URL of this environment.
    pub fn base_url(&self) -> (r: String)
        ensures
            r@ == base_url_of(*self),
    {
        let mut url = "https://".to_owned();
        url.append(self.name());
        url.append(".plaid.com");
        url
    }
}

/// A secret credential. It has no `Debug`, so it cannot be printed by
/// accident; `expose` hands out its text where a request needs it.
pub struct Secret {
    value: String,
}

impl View for Secret {
    type V = Seq<char>;

    closed spec fn view(&self) -> Seq<char> {
        self.value@
    }
}

impl Secret {
    pub fn new(value: String) -> (r: Secret)
        ensures
            r@ == value@,
    {
        Secret { value }
    }

    /// The text of the secret.
    pub fn expose(&self) -> (r: &str)
        ensures
            r@ == self@,
    {
        self.value.as_str()
    }
}

#[verifier::external_type_specification]
#[verifier::external_body]
pub struct ExHttpClient(HttpClient);

/// Relies on reqwest::ClientBuilder: `connect_timeout` bounds the time to
/// establish a connection, and `build` makes the HTTP client without any
/// network I/O. `build` fails only where the TLS backend or the system's
/// resolver configuration cannot be loaded, and the process cannot serve any
/// request then: that failure ends it.
#[verifier::external_body]
fn build_transport(connect_timeout_secs: u64) -> HttpClient {
    HttpClient::builder()
        .connect_timeout(std::time::Duration::from_secs(connect_timeout_secs))
        .build()
        .expect("could not create the HTTP client")
}

/// How long a client waits to establish a connection, in seconds.
pub const CONNECT_TIMEOUT_SECS: u64 = 30;

/// A client of the service. Its credentials and base URL are fixed when it
/// is made; it can be shared by any number of concurrent callers.
pub struct Client {
    client_id: String,
    secret: Secret,
    url: String,
    transport: HttpClient,
}

/// `j` is the request of the liabilities operation: an object with the
/// credentials, the access token and the options, and nothing else.
pub open spec fn liabilities_request_json(
    j: Json,
    client_id: Seq<char>,
    secret: Seq<char>,
    access_token: Seq<char>,
    options: LiabilitiesRequestOptions,
) -> bool {
    &&& j is Object
    &&& j->Object_0@.len() == 4
    &&& str_at(j, "client_id"@) == Some(client_id)
    &&& str_at(j, "secret"@) == Some(secret)
    &&& str_at(j, "access_token"@) == Some(access_token)
    &&& member(j, "options"@) matches Some(o) && options_json(o, options)
}

impl Client {
    /// The client identifier.
    pub closed spec fn client_id_view(&self) -> Seq<char> {
        self.client_id@
    }

    /// The secret.
    pub closed spec fn secret_view(&self) -> Seq<char> {
        self.secret@
    }

    /// The base URL that every operation of this client targets.
    pub closed spec fn url_view(&self) -> Seq<char> {
        self.url@
    }

    /// Makes a client for `environment`. No network I/O takes place.
    pub fn new(client_id: String, secret: Secret, environment: Environment) -> (r: Client)
        ensures
            r.client_id_view() == client_id@,
            r.secret_view() == secret@,
            r.url_view() == base_url_of(environment),
    {
        let url = environment.base_url();
        Client { client_id, secret, url, transport: build_transport(CONNECT_TIMEOUT_SECS) }
    }

    /// The base URL of this client.
    pub fn base_url(&self) -> (r: &str)
        ensures
            r@ == self.url_view(),
    {
        self.url.as_str()
    }

    /// The HTTP client that sends this client's requests.
    pub fn transport(&self) -> &HttpClient {
        &self.transport
    }

    /// The URL that the liabilities operation posts to.
    pub fn liabilities_url(&self) -> (r: String)
        ensures
            r@ == self.url_view() + liabilities_path(),
    {
        let mut url = self.url.clone();
        url.append("/liabilities/get");
        url
    }

    /// The request of the liabilities operation.
    pub fn liabilities_request(
        &self,
        access_token: &str,
        options: &LiabilitiesRequestOptions,
    ) -> (r: Json)
        ensures
            liabilities_request_json(
                r,
                self.client_id_view(),
                self.secret_view(),
                access_token@,
                *options,
            ),
    {
        proof {
            reveal_strlit("client_id");
            reveal_strlit("secret");
            reveal_strlit("access_token");
            reveal_strlit("options");
        }
        let opts = options.to_json();
        let mut fields: Vec<(String, Json)> = Vec::new();
        fields.push(("client_id".to_owned(), Json::Str(self.client_id.clone())));
        fields.push(("secret".to_owned(), Json::Str(self.secret.expose().to_owned())));
        fields.push(("access_token".to_owned(), Json::Str(access_token.to_owned())));
        fields.push(("options".to_owned(), opts));
        let ghost s = fields@;
        assert(s.drop_first().drop_first().drop_first().drop_first().len() == 0);
        assert("access_token"@.len() != "options"@.len());
        assert("secret"@.len() != "options"@.len());
        assert("secret"@.len() != "access_token"@.len());
        assert("client_id"@.len() != "secret"@.len());
        assert("client_id"@.len() != "access_token"@.len());
        assert("client_id"@.len() != "options"@.len());
        let ghost s1 = s.drop_first();
        let ghost s2 = s1.drop_first();
        let ghost s3 = s2.drop_first();
        assert(lookup(s3, "options"@) == Some(s[3].1));
        assert(lookup(s2, "access_token"@) == Some(s[2].1));
        assert(lookup(s2, "options"@) == Some(s[3].1));
        assert(lookup(s1, "secret"@) == Some(s[1].1));
        assert(lookup(s1, "access_token"@) == Some(s[2].1));
        assert(lookup(s1, "options"@) == Some(s[3].1));
        assert(lookup(s, "client_id"@) == Some(s[0].1));
        assert(lookup(s, "secret"@) == Some(s[1].1));
        assert(lookup(s, "access_token"@) == Some(s[2].1));
        assert(lookup(s, "options"@) == Some(s[3].1));
        Json::Object(fields)
    }

    /// The body of the liabilities request, as JSON text.
    pub fn liabilities_body(&self, access_token: &str, options: &LiabilitiesRequestOptions) -> (r:
        String)
        ensures
            exists|j: Json|
                liabilities_request_json(
                    j,
                    self.client_id_view(),
                    self.secret_view(),
                    access_token@,
                    *options,
                ) && r@ == json_text(j),
    {
        let j = self.liabilities_request(access_token, options);
        render_json(&j)
    }
}

/// A status in the success range.
pub open spec fn is_success(status: u16) -> bool {
    200 <= status < 300
}

/// `r` is the outcome of the liabilities operation for a reply with
/// `status`, whose body parsed to `parsed` (`None`: not JSON).
pub open spec fn liabilities_outcome_of(
    status: u16,
    parsed: Option<Json>,
    r: Result<LiabilitiesResponse, ClientError>,
) -> bool {
    if is_success(status) {
        match parsed {
            None => r matches Err(ClientError::Schema(DecodeError::Malformed)),
            Some(j) => {
                &&& r is Ok <==> liabilities_response_ok(j)
                &&& r matches Ok(x) ==> liabilities_response_from(j, x)
                &&& r is Err ==> r matches Err(ClientError::Schema(_))
            },
        }
    } else {
        &&& r matches Err(ClientError::Api(e))
        &&& r->Err_0->Api_0.status == status
        &&& r->Err_0->Api_0.remote is Some <==> (parsed matches Some(j) && remote_error_ok(j))
        &&& r->Err_0->Api_0.remote matches Some(x) ==> remote_error_from(parsed->Some_0, x)
    }
}

/// Classifies a reply to the liabilities operation whose body has been
/// parsed: a success status with a well-formed body gives the response, one
/// with any other body a schema error; any other status gives an API error
/// that carries the remote error payload where the body held one.
pub fn classify_liabilities(status: u16, parsed: Option<Json>) -> (r: Result<
    LiabilitiesResponse,
    ClientError,
>)
    ensures
        liabilities_outcome_of(status, parsed, r),
{
    if 200 <= status && status < 300 {
        match parsed {
            None => Err(ClientError::Schema(DecodeError::Malformed)),
            Some(j) => match LiabilitiesResponse::from_json(&j) {
                Ok(x) => Ok(x),
                Err(e) => Err(ClientError::Schema(e)),
            },
        }
    } else {
        let remote = match parsed {
            Some(j) => match RemoteError::from_json(&j) {
                Ok(x) => Some(x),
                Err(_) => None,
            },
            None => None,
        };
        Err(ClientError::Api(ApiError { status, remote }))
    }
}

/// The outcome of the liabilities operation for a reply with `status` and
/// `body`.
pub fn liabilities_outcome(status: u16, body: &str) -> (r: Result<
    LiabilitiesResponse,
    ClientError,
>)
    ensures
        liabilities_outcome_of(status, parsed_json(body@), r),
{
    classify_liabilities(status, parse_json(body))
}

/// Clients of distinct environments have distinct base URLs, each of the
/// form `https://{name}.plaid.com`, and so post each operation to distinct
/// URLs.
pub proof fn lemma_environments_apart(a: Environment, b: Environment, c: Client, d: Client)
    requires
        a != b,
        c.url_view() == base_url_of(a),
        d.url_view() == base_url_of(b),
    ensures
        base_url_of(a) != base_url_of(b),
        c.url_view() + liabilities_path() != d.url_view() + liabilities_path(),
{
    reveal_strlit("sandbox");
    reveal_strlit("development");
    reveal_strlit("production");
    assert(environment_name(a).len() != environment_name(b).len());
    assert(base_url_of(a).len() != base_url_of(b).len());
    assert((c.url_view() + liabilities_path()).len() != (d.url_view() + liabilities_path()).len());
}

} // verus!
