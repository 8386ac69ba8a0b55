//! The two clients: OAuth token management over Basic authentication, and
//! generic Bearer-authenticated requests. Each operation builds one
//! outbound request as plain data; the embedding program sends it.

use vstd::prelude::*;
use vstd::string::*;
use vstd::utf8::encode_utf8;

use crate::auth::{basic_auth_value, bearer_auth_value, spec_basic_auth, spec_bearer_auth};
use crate::encoding::{
    form_encode_append, header_value_ok, json_string_array_append, query_string,
    spec_form_encoded, spec_header_bytes_ok, spec_json_string_array, spec_query,
};
use crate::error::ApiError;
use crate::method::{parse_method, spec_parse_method, HttpMethod};
use crate::text::{push_char, spec_dec, str_contains_char, u64_to_dec};

verus! {

/// One outbound HTTP request, fully determined: the method, the complete
/// URL with its query string, and the body, if any. The Authorization and
/// Content-Type headers are the client's, fixed at construction.
pub struct ApiRequest {
    pub method: HttpMethod,
    pub url: String,
    pub body: Option<String>,
}

/// The base URL the OAuth client talks to: the test host when `test` is
/// set, the production host otherwise.
pub open spec fn spec_oauth_base_url(test: bool) -> Seq<char> {
    if test {
        "https://test.oauth.openapi.it"@
    } else {
        "https://oauth.openapi.it"@
    }
}

/// The `0`/`1` rendering of a boolean query flag.
pub open spec fn spec_bool_flag(b: bool) -> Seq<char> {
    if b {
        seq!['1']
    } else {
        seq!['0']
    }
}

/// The JSON body of a token-creation request:
/// `{"scopes":[...],"ttl":N}` with the scopes as JSON string literals in
/// the order given and the time-to-live in decimal.
pub open spec fn spec_token_body(scopes: Seq<String>, ttl: u64) -> Seq<char> {
    "{\"scopes\":"@ + spec_json_string_array(scopes) + ",\"ttl\":"@ + spec_dec(ttl as nat) + "}"@
}

/// The value of the Content-Type header both clients send.
pub fn content_type_value() -> (r: &'static str)
    ensures
        r@ == "application/json"@,
{
    "application/json"
}

/// OAuth client for authentication and token management: holds the base
/// URL picked at construction and the Basic Authorization header value.
pub struct OauthClient {
    pub url: String,
    pub auth_header: String,
}

impl OauthClient {
    /// Creates a new OAuth client with Basic authentication. Construction
    /// always succeeds: the credentials are base64-encoded, so the header
    /// value is well formed whatever they hold.
    pub fn new(username: &str, apikey: &str, test: bool) -> (r: Result<OauthClient, ApiError>)
        ensures
            r matches Ok(c) && c.url@ == spec_oauth_base_url(test) && c.auth_header@
                == spec_basic_auth(username@, apikey@) && spec_header_bytes_ok(
                encode_utf8(c.auth_header@),
            ),
    {
        let url = if test {
            "https://test.oauth.openapi.it"
        } else {
            "https://oauth.openapi.it"
        };
        let auth_header = basic_auth_value(username, apikey);
        Ok(OauthClient { url: url.to_owned(), auth_header })
    }

    /// Builds the scope listing request: GET `{base}/scopes` with the
    /// boolean `limit` flag rendered as `0`/`1`.
    pub fn get_scopes(&self, limit: bool) -> (r: ApiRequest)
        ensures
            r.method == HttpMethod::Get,
            r.url@ == self.url@ + "/scopes?limit="@ + spec_bool_flag(limit),
            r.body is None,
    {
        let mut url = self.url.clone();
        url.append("/scopes?limit=");
        push_char(&mut url, if limit { '1' } else { '0' });
        ApiRequest { method: HttpMethod::Get, url, body: None }
    }

    /// Builds the token-creation request: POST `{base}/token` with the
    /// JSON body `{"scopes":[...],"ttl":N}`.
    pub fn create_token(&self, scopes: &Vec<String>, ttl: u64) -> (r: ApiRequest)
        ensures
            r.method == HttpMethod::Post,
            r.url@ == self.url@ + "/token"@,
            r.body matches Some(b) && b@ == spec_token_body(scopes@, ttl),
    {
        let mut url = self.url.clone();
        url.append("/token");
        let mut body = String::new();
        body.append("{\"scopes\":");
        json_string_array_append(&mut body, scopes);
        body.append(",\"ttl\":");
        let ttl_str = u64_to_dec(ttl);
        body.append(ttl_str.as_str());
        body.append("}");
        proof {
            assert(body@ =~= spec_token_body(scopes@, ttl));
        }
        ApiRequest { method: HttpMethod::Post, url, body: Some(body) }
    }

    /// Builds the token listing request: GET `{base}/token` filtered by the
    /// form-urlencoded `scope` query parameter.
    pub fn get_tokens(&self, scope: &str) -> (r: ApiRequest)
        ensures
            r.method == HttpMethod::Get,
            r.url@ == self.url@ + "/token?scope="@ + spec_form_encoded(encode_utf8(scope@)),
            r.body is None,
    {
        let mut url = self.url.clone();
        url.append("/token?scope=");
        form_encode_append(&mut url, scope);
        ApiRequest { method: HttpMethod::Get, url, body: None }
    }

    /// Builds the token deletion request: DELETE `{base}/token/{id}`.
    pub fn delete_token(&self, id: String) -> (r: ApiRequest)
        ensures
            r.method == HttpMethod::Delete,
            r.url@ == self.url@ + "/token/"@ + id@,
            r.body is None,
    {
        let mut url = self.url.clone();
        url.append("/token/");
        url.append(id.as_str());
        ApiRequest { method: HttpMethod::Delete, url, body: None }
    }

    /// Builds the usage counters request: GET
    /// `{base}/counters/{period}/{date}`.
    pub fn get_counters(&self, period: &str, date: &str) -> (r: ApiRequest)
        ensures
            r.method == HttpMethod::Get,
            r.url@ == self.url@ + "/counters/"@ + period@ + "/"@ + date@,
            r.body is None,
    {
        let mut url = self.url.clone();
        url.append("/counters/");
        url.append(period);
        url.append("/");
        url.append(date);
        ApiRequest { method: HttpMethod::Get, url, body: None }
    }
}

/// Generic API client with Bearer token authentication: holds the Bearer
/// Authorization header value fixed at construction.
pub struct Client {
    pub auth_header: String,
}

/// A URL with a parameter list attached: nothing for an empty list, else
/// the query string joined on with `&` if the URL already has a query and
/// `?` if not.
pub open spec fn spec_with_query(url: Seq<char>, ps: Seq<(String, String)>) -> Seq<char> {
    if ps.len() == 0 {
        url
    } else if url.contains('?') {
        url + seq!['&'] + spec_query(ps)
    } else {
        url + seq!['?'] + spec_query(ps)
    }
}

impl Client {
    /// Creates a new API client with Bearer authentication. Succeeds if and
    /// only if `Bearer <token>` is a legal header value; a token holding a
    /// control character yields a configuration error.
    pub fn new(token: String) -> (r: Result<Client, ApiError>)
        ensures
            spec_header_bytes_ok(encode_utf8(spec_bearer_auth(token@))) ==> (r matches Ok(c)
                && c.auth_header@ == spec_bearer_auth(token@) && spec_header_bytes_ok(
                encode_utf8(c.auth_header@),
            )),
            !spec_header_bytes_ok(encode_utf8(spec_bearer_auth(token@))) ==> (r matches Err(e)
                && e matches ApiError::Config { .. }),
    {
        let value = bearer_auth_value(token.as_str());
        if header_value_ok(value.as_str()) {
            Ok(Client { auth_header: value })
        } else {
            Err(
                ApiError::Config {
                    detail: "Authorization header value holds a byte not allowed in a header".to_owned(),
                },
            )
        }
    }

    /// Builds a request for an arbitrary verb: validates the verb against
    /// the known HTTP method set, attaches the JSON payload if present, and
    /// attaches the query parameters if present and non-empty.
    pub fn request(
        &self,
        method: &str,
        url: &str,
        payload: Option<&str>,
        params: Option<&Vec<(String, String)>>,
    ) -> (r: Result<ApiRequest, ApiError>)
        ensures
            spec_parse_method(method@) is None ==> (r matches Err(e) && e matches ApiError::InvalidMethod {
                method: m,
            } && m@ == method@),
            spec_parse_method(method@) matches Some(m) ==> (r matches Ok(req) && req.method == m && (
            params matches Some(ps) ==> req.url@ == spec_with_query(url@, ps@)) && (params is None
                ==> req.url@ == url@) && (payload matches Some(p) ==> req.body matches Some(b)
                && b@ == p@) && (payload is None ==> req.body is None)),
    {
        let m = match parse_method(method) {
            Ok(m) => m,
            Err(e) => {
                return Err(e);
            },
        };
        let mut full = url.to_owned();
        if let Some(ps) = params {
            if ps.len() > 0 {
                if str_contains_char(url, '?') {
                    push_char(&mut full, '&');
                } else {
                    push_char(&mut full, '?');
                }
                let qs = query_string(ps);
                full.append(qs.as_str());
            }
        }
        let body = match payload {
            Some(p) => Some(p.to_owned()),
            None => None,
        };
        Ok(ApiRequest { method: m, url: full, body })
    }
}

} // verus!
