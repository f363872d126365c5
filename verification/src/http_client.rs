//! The SDK's HTTP client: the URL of an endpoint, the headers of a request
//! and what a response status means.

use vstd::prelude::*;
use vstd::string::*;
use vstd::utf8::*;
use vstd::std_specs::vec::*;
use reqwest::Client;
use reqwest::header::{HeaderMap, HeaderValue};
use crate::headers::{
    authorization_name, base64_encodable_len, base64_encode_standard,
    content_type_name, header_map_entries, header_map_insert, header_map_insert_limit,
    header_map_new, header_map_values, header_name_str, header_value_bytes,
    header_value_from_static, header_value_from_str, is_header_value,
    is_header_value_byte, HeaderEntry,
};
use crate::encoding::{
    base64_decode, base64_encode, is_base64_char, lemma_base64_encode_chars, lemma_base64_roundtrip,
};
use crate::text::{
    lemma_encode_utf8_concat, lemma_trim_end_slashes_push, lemma_trim_start_slashes_prepend,
    trim_end_slash_chars, trim_end_slashes, trim_start_slash_chars, trim_start_slashes,
};

verus! {

#[verifier::external_type_specification]
#[verifier::external_body]
pub struct ExClient(Client);

/// `reqwest::Client::clone`: another handle on the same connection pool.
/// Nothing is stated of the result.
pub assume_specification[ <Client as Clone>::clone ](client: &Client) -> Client;

/// How the SDK authenticates to the server.
#[derive(Clone, Debug)]
pub enum AuthConfig {
    BasicAuth { username: String, password: String },
    ApiKey { api_key: String },
}

/// Where the server is and how to authenticate to it.
#[derive(Clone, Debug)]
pub struct ApiBaseConfig {
    pub server_url: String,
    pub auth: AuthConfig,
}

/// Why an SDK call failed.
#[derive(Debug)]
pub enum ApiSdkError {
    /// The server refused the credentials (401) or the operation (403).
    AuthError(String),
    /// The server answered 429.
    RateLimitError,
    /// The server answered another client (4xx) or server (5xx) error status.
    HttpStatusError(u16),
    /// The request could not be sent or its answer could not be read.
    HttpError(String),
}

/// The result of an SDK call.
pub type ApiResult<T> = Result<T, ApiSdkError>;

/// An HTTP client bound to one server and one set of credentials.
#[derive(Clone, Debug)]
pub struct HttpClient {
    client: Client,
    base_config: ApiBaseConfig,
}

/// The URL of `endpoint` on the server at `server_url`: the two joined by
/// exactly one `'/'`, whatever slashes stood at the seam.
pub open spec fn endpoint_url(server_url: Seq<char>, endpoint: Seq<char>) -> Seq<char> {
    trim_end_slashes(server_url) + seq!['/'] + trim_start_slashes(endpoint)
}

/// The statuses that the SDK turns into errors of its own before any other
/// check: 401, 403 and 429.
pub open spec fn is_precheck_status(status: u16) -> bool {
    status == 401 || status == 403 || status == 429
}

/// `error` is what the SDK reports for `status` among 401, 403 and 429:
/// `AuthError("Unauthorized")`, `AuthError("Forbidden")`, `RateLimitError`.
pub open spec fn is_precheck_error(status: u16, error: ApiSdkError) -> bool {
    match error {
        ApiSdkError::AuthError(message) => (status == 401 && message@ == "Unauthorized"@) || (
        status == 403 && message@ == "Forbidden"@),
        ApiSdkError::RateLimitError => status == 429,
        _ => false,
    }
}

/// A client error (4xx) or server error (5xx) status, which
/// `reqwest::Response::error_for_status` turns into an error.
pub open spec fn is_error_status(status: u16) -> bool {
    400 <= status && status < 600
}

/// `error` is what a checked response with `status` fails with: the
/// pre-check's error for 401, 403 and 429, else the status itself.
pub open spec fn is_status_error(status: u16, error: ApiSdkError) -> bool {
    if is_precheck_status(status) {
        is_precheck_error(status, error)
    } else {
        is_error_status(status) && error == ApiSdkError::HttpStatusError(status)
    }
}

/// A response with `status` passes the checks that every call makes.
pub open spec fn is_success_status(status: u16) -> bool {
    !is_precheck_status(status) && !is_error_status(status)
}

/// The credentials text of basic authentication: `username:password`.
pub open spec fn basic_credentials(username: Seq<char>, password: Seq<char>) -> Seq<char> {
    username + seq![':'] + password
}

/// The text of the `authorization` header: `Basic ` and the base64 text of
/// the credentials' UTF-8 bytes, or `Bearer ` and the API key.
pub open spec fn authorization_text(auth: AuthConfig) -> Seq<char> {
    match auth {
        AuthConfig::BasicAuth { username, password } => "Basic "@ + base64_encode(
            encode_utf8(basic_credentials(username@, password@)),
        ),
        AuthConfig::ApiKey { api_key } => "Bearer "@ + api_key@,
    }
}

/// The headers that every request carries: `content-type: application/json`
/// and the `authorization` header, by name and value bytes.
pub open spec fn default_headers(auth: AuthConfig) -> Map<Seq<char>, Seq<u8>> {
    Map::empty().insert("content-type"@, "application/json".spec_bytes()).insert(
        "authorization"@,
        encode_utf8(authorization_text(auth)),
    )
}

/// The first value of each name.
pub open spec fn first_values(values: Map<Seq<char>, Seq<Seq<u8>>>) -> Map<Seq<char>, Seq<u8>> {
    values.map_values(|all: Seq<Seq<u8>>| all[0])
}

/// Each name holding its one value alone.
pub open spec fn single_values(headers: Map<Seq<char>, Seq<u8>>) -> Map<Seq<char>, Seq<Seq<u8>>> {
    headers.map_values(|value: Seq<u8>| seq![value])
}

/// The headers of a request, one value per name: the default headers, where
/// each name of the additional headers replaces the default by its first
/// value there; further values of a name are left out.
pub open spec fn request_headers(auth: AuthConfig, additional: Option<HeaderMap>) -> Map<
    Seq<char>,
    Seq<u8>,
> {
    match additional {
        None => default_headers(auth),
        Some(extra) => default_headers(auth).union_prefer_right(
            first_values(header_map_values(extra)),
        ),
    }
}

/// The most additional header names that `build_headers` takes: with the
/// two default names, every insertion stays below `header_map_insert_limit`.
pub open spec fn max_additional_headers() -> nat {
    (header_map_insert_limit() - 2) as nat
}

/// The credentials can be turned into an `authorization` value without a
/// panic: basic credentials short enough to be base64-encoded, or an API key
/// of bytes that a header value accepts.
pub open spec fn can_encode_auth(auth: AuthConfig) -> bool {
    match auth {
        AuthConfig::BasicAuth { username, password } => base64_encodable_len(
            encode_utf8(basic_credentials(username@, password@)).len(),
        ),
        AuthConfig::ApiKey { api_key } => is_header_value(encode_utf8(api_key@)),
    }
}

/// The additional headers are few enough to be added to a fresh map.
pub open spec fn additional_headers_fit(additional: Option<HeaderMap>) -> bool {
    match additional {
        None => true,
        Some(extra) => header_map_values(extra).dom().finite() && header_map_values(
            extra,
        ).dom().len() < max_additional_headers(),
    }
}

/// The inputs on which the headers can be built without a panic.
pub open spec fn can_build_headers(auth: AuthConfig, additional: Option<HeaderMap>) -> bool {
    can_encode_auth(auth) && additional_headers_fit(additional)
}

/// The map of a prefix of a header map's consuming iterator: each named
/// item maps its name to its value, later items replacing earlier ones.
pub open spec fn entries_contents(entries: Seq<HeaderEntry>) -> Map<Seq<char>, Seq<u8>>
    decreases entries.len(),
{
    if entries.len() == 0 {
        Map::empty()
    } else {
        let rest = entries_contents(entries.drop_last());
        match entries.last().0 {
            Some(name) => rest.insert(header_name_str(name), header_value_bytes(entries.last().1)),
            None => rest,
        }
    }
}

/// With distinct names, the map of the items holds exactly the named items.
proof fn lemma_entries_contents(entries: Seq<HeaderEntry>)
    requires
        forall|i: int|
            #![trigger entries[i]]
            0 <= i < entries.len() && entries[i].0 is Some ==> forall|j: int|
                #![trigger entries[j]]
                0 <= j < entries.len() && j != i && entries[j].0 is Some ==> header_name_str(
                    entries[i].0->0,
                ) != header_name_str(entries[j].0->0),
    ensures
        entries_contents(entries).dom().finite(),
        forall|i: int|
            #![trigger entries[i]]
            0 <= i < entries.len() && entries[i].0 is Some ==> {
                &&& entries_contents(entries).dom().contains(header_name_str(entries[i].0->0))
                &&& entries_contents(entries)[header_name_str(entries[i].0->0)]
                    == header_value_bytes(entries[i].1)
            },
        forall|name: Seq<char>|
            #[trigger] entries_contents(entries).dom().contains(name) ==> exists|i: int|
                0 <= i < entries.len() && entries[i].0 is Some && header_name_str(
                    #[trigger] entries[i].0->0,
                ) == name,
    decreases entries.len(),
{
    if entries.len() > 0 {
        let prefix = entries.drop_last();
        assert forall|i: int|
            #![trigger prefix[i]]
            0 <= i < prefix.len() && prefix[i].0 is Some implies forall|j: int|
                #![trigger prefix[j]]
                0 <= j < prefix.len() && j != i && prefix[j].0 is Some ==> header_name_str(
                    prefix[i].0->0,
                ) != header_name_str(prefix[j].0->0) by {
            assert(prefix[i] == entries[i]);
            assert forall|j: int|
                #![trigger prefix[j]]
                0 <= j < prefix.len() && j != i && prefix[j].0 is Some implies header_name_str(
                    prefix[i].0->0,
                ) != header_name_str(prefix[j].0->0) by {
                assert(prefix[j] == entries[j]);
            }
        }
        lemma_entries_contents(prefix);
        let last = entries.len() - 1;
        assert(entries[last] == entries.last());
        assert forall|i: int|
            #![trigger entries[i]]
            0 <= i < entries.len() && entries[i].0 is Some implies {
                &&& entries_contents(entries).dom().contains(header_name_str(entries[i].0->0))
                &&& entries_contents(entries)[header_name_str(entries[i].0->0)]
                    == header_value_bytes(entries[i].1)
            } by {
            if i < last {
                assert(prefix[i] == entries[i]);
            }
        }
        assert forall|name: Seq<char>|
            #[trigger] entries_contents(entries).dom().contains(name) implies exists|i: int|
                0 <= i < entries.len() && entries[i].0 is Some && header_name_str(
                    #[trigger] entries[i].0->0,
                ) == name by {
            if prefix.len() >= 0 && entries_contents(prefix).dom().contains(name) {
                let i = choose|i: int|
                    0 <= i < prefix.len() && prefix[i].0 is Some && header_name_str(
                        #[trigger] prefix[i].0->0,
                    ) == name;
                assert(prefix[i] == entries[i]);
            } else {
                assert(entries[last].0 is Some && header_name_str(entries[last].0->0) == name);
            }
        }
    }
}

/// Slashes at the seam do not matter: a trailing slash on the server URL or a
/// leading slash on the endpoint gives the same URL, and where neither has
/// one the URL is the two joined by one slash.
pub proof fn lemma_endpoint_url_seam(server_url: Seq<char>, endpoint: Seq<char>)
    ensures
        endpoint_url(server_url.push('/'), endpoint) == endpoint_url(server_url, endpoint),
        endpoint_url(server_url, seq!['/'] + endpoint) == endpoint_url(server_url, endpoint),
        (server_url.len() == 0 || server_url.last() != '/') && (endpoint.len() == 0
            || endpoint.first() != '/') ==> endpoint_url(server_url, endpoint) == server_url
            + seq!['/'] + endpoint,
{
    lemma_trim_end_slashes_push(server_url);
    lemma_trim_start_slashes_prepend(endpoint);
}

/// The `authorization` value of basic credentials is `Basic ` and text that
/// decodes back to the UTF-8 bytes of `username:password`.
pub proof fn lemma_basic_authorization_decodes(username: String, password: String)
    ensures
        authorization_text(AuthConfig::BasicAuth { username, password }).subrange(0, 6)
            == "Basic "@,
        base64_decode(
            authorization_text(AuthConfig::BasicAuth { username, password }).skip(6),
        ) == encode_utf8(basic_credentials(username@, password@)),
        base64_decode(
            authorization_text(AuthConfig::BasicAuth { username, password }).skip(6),
        ) == encode_utf8(username@ + seq![':'] + password@),
{
    reveal_strlit("Basic ");
    let auth = AuthConfig::BasicAuth { username, password };
    let encoded = base64_encode(encode_utf8(basic_credentials(username@, password@)));
    assert(authorization_text(auth).subrange(0, 6) =~= "Basic "@);
    assert(authorization_text(auth).skip(6) =~= encoded);
    lemma_base64_roundtrip(encode_utf8(basic_credentials(username@, password@)));
}

/// The `authorization` header that basic credentials send, unless the
/// additional headers replace it: its text is `Basic ` and base64 text that
/// decodes to the UTF-8 bytes of the whole username, a colon and the whole
/// password.
pub proof fn lemma_basic_authorization_header(
    username: String,
    password: String,
    additional: Option<HeaderMap>,
)
    requires
        additional is None || !header_map_values(additional->0).dom().contains("authorization"@),
    ensures
        request_headers(AuthConfig::BasicAuth { username, password }, additional).dom().contains(
            "authorization"@,
        ),
        decode_utf8(
            request_headers(AuthConfig::BasicAuth { username, password }, additional)["authorization"@],
        ).take(6) == "Basic "@,
        base64_decode(
            decode_utf8(
                request_headers(
                    AuthConfig::BasicAuth { username, password },
                    additional,
                )["authorization"@],
            ).skip(6),
        ) == encode_utf8(username@ + seq![':'] + password@),
{
    let auth = AuthConfig::BasicAuth { username, password };
    lemma_request_headers_defaults(auth, additional);
    lemma_basic_authorization_decodes(username, password);
    encode_utf8_decode_utf8(authorization_text(auth));
    assert(authorization_text(auth).take(6) =~= authorization_text(auth).subrange(0, 6));
}

/// The `authorization` header that an API key sends, unless the additional
/// headers replace it: the UTF-8 bytes of `Bearer ` and the whole key.
pub proof fn lemma_api_key_authorization_header(api_key: String, additional: Option<HeaderMap>)
    requires
        additional is None || !header_map_values(additional->0).dom().contains("authorization"@),
    ensures
        request_headers(AuthConfig::ApiKey { api_key }, additional).dom().contains(
            "authorization"@,
        ),
        request_headers(AuthConfig::ApiKey { api_key }, additional)["authorization"@]
            == encode_utf8("Bearer "@ + api_key@),
        request_headers(AuthConfig::ApiKey { api_key }, additional)["authorization"@]
            == encode_utf8("Bearer "@) + encode_utf8(api_key@),
{
    lemma_request_headers_defaults(AuthConfig::ApiKey { api_key }, additional);
    lemma_encode_utf8_concat("Bearer "@, api_key@);
}

/// Every client error (4xx) and server error (5xx) status fails a checked
/// call: 401, 403 and 429 with the SDK's own errors, every other one with
/// `HttpStatusError` of that status; every other status passes.
pub proof fn lemma_error_statuses_fail(status: u16, error: ApiSdkError)
    ensures
        is_error_status(status) <==> 400 <= status && status < 600,
        is_success_status(status) <==> !(400 <= status && status < 600),
        400 <= status && status < 600 && status != 401 && status != 403 && status != 429 ==> (
        is_status_error(status, error) <==> error == ApiSdkError::HttpStatusError(status)),
        status == 401 ==> (is_status_error(status, error) <==> (error matches ApiSdkError::AuthError(
            message,
        ) && message@ == "Unauthorized"@)),
        status == 403 ==> (is_status_error(status, error) <==> (error matches ApiSdkError::AuthError(
            message,
        ) && message@ == "Forbidden"@)),
        status == 429 ==> (is_status_error(status, error) <==> error is RateLimitError),
{
    reveal_strlit("Unauthorized");
    reveal_strlit("Forbidden");
}

/// Every request carries a `content-type` and an `authorization` header; each
/// has its default value unless the additional headers name it.
pub proof fn lemma_request_headers_defaults(auth: AuthConfig, additional: Option<HeaderMap>)
    ensures
        request_headers(auth, additional).dom().contains("content-type"@),
        request_headers(auth, additional).dom().contains("authorization"@),
        (additional is None || !header_map_values(additional->0).dom().contains(
            "content-type"@,
        )) ==> request_headers(auth, additional)["content-type"@]
            == "application/json".spec_bytes(),
        (additional is None || !header_map_values(additional->0).dom().contains(
            "authorization"@,
        )) ==> request_headers(auth, additional)["authorization"@] == encode_utf8(
            authorization_text(auth),
        ),
{
    reveal_strlit("content-type");
    reveal_strlit("authorization");
    assert("content-type"@.len() != "authorization"@.len());
}

/// Every additional header reaches the request with its first value alone,
/// in place of a default of the same name.
pub proof fn lemma_request_headers_additional(auth: AuthConfig, additional: HeaderMap, name: Seq<char>)
    requires
        header_map_values(additional).dom().contains(name),
    ensures
        request_headers(auth, Some(additional)).dom().contains(name),
        request_headers(auth, Some(additional))[name] == header_map_values(additional)[name][0],
        single_values(request_headers(auth, Some(additional)))[name] == seq![
            header_map_values(additional)[name][0],
        ],
{
}

/// Additional headers that hold nothing give the same headers as none.
pub proof fn lemma_request_headers_empty_additional(auth: AuthConfig, additional: HeaderMap)
    requires
        header_map_values(additional).dom() =~= Set::empty(),
    ensures
        request_headers(auth, Some(additional)) == request_headers(auth, None),
        single_values(request_headers(auth, Some(additional))) == single_values(
            request_headers(auth, None),
        ),
{
    assert(request_headers(auth, Some(additional)) =~= request_headers(auth, None));
}

/// The names of a request's headers are the two defaults and the additional
/// names, and each holds exactly one value.
pub proof fn lemma_request_headers_names(auth: AuthConfig, additional: Option<HeaderMap>, name: Seq<char>)
    ensures
        request_headers(auth, additional).dom().contains(name) <==> (name == "content-type"@
            || name == "authorization"@ || (additional matches Some(extra)
            && header_map_values(extra).dom().contains(name))),
        single_values(request_headers(auth, additional)).dom() == request_headers(
            auth,
            additional,
        ).dom(),
        single_values(request_headers(auth, additional)).dom().contains(name) ==> single_values(
            request_headers(auth, additional),
        )[name].len() == 1,
{
    assert(single_values(request_headers(auth, additional)).dom() =~= request_headers(
        auth,
        additional,
    ).dom());
}

/// A response status is either a success, with the same outcome for a call
/// that reads a body and one that may find nothing, or it fails both alike,
/// but for 404, which only the latter takes as "nothing there".
pub proof fn lemma_status_outcomes(status: u16)
    ensures
        is_success_status(status) <==> !is_precheck_status(status) && !is_error_status(status),
        status == 404 ==> !is_success_status(status),
        is_precheck_status(status) ==> !is_success_status(status),
        200 <= status < 400 ==> is_success_status(status),
{
}

impl HttpClient {
    /// The server's configuration.
    pub closed spec fn config(&self) -> &ApiBaseConfig {
        &self.base_config
    }

    /// The connection pool that the client holds.
    pub closed spec fn pool(&self) -> Client {
        self.client
    }

    /// A client for the server that `base_config` describes, with a fresh
    /// connection pool.
    pub fn new(base_config: ApiBaseConfig) -> (client: Self)
        ensures
            client.config() == base_config,
    {
        HttpClient { client: new_reqwest_client(), base_config }
    }

    /// The connection pool that requests go through.
    pub fn client(&self) -> (client: &Client)
        ensures
            *client == self.pool(),
    {
        &self.client
    }

    /// The server's configuration.
    pub fn base_config(&self) -> (config: &ApiBaseConfig)
        ensures
            config == self.config(),
    {
        &self.base_config
    }

    /// The URL of `endpoint`: the server URL without its trailing slashes,
    /// one `'/'`, and the endpoint without its leading slashes.
    pub fn build_url(&self, endpoint: &str) -> (url: String)
        ensures
            url@ == endpoint_url(self.config().server_url@, endpoint@),
    {
        let base = trim_end_slash_chars(self.base_config.server_url.as_str());
        let path = trim_start_slash_chars(endpoint);
        let mut url = String::from_str(base);
        let slash = "/";
        proof {
            reveal_strlit("/");
        }
        url.append(slash);
        url.append(path);
        url
    }

    /// The headers of a request: `content-type: application/json`, the
    /// `authorization` header of the configured credentials, then each
    /// additional header name with its first value alone, replacing a
    /// default; every name holds one value.
    pub fn build_headers(&self, additional_headers: Option<HeaderMap>) -> (headers: HeaderMap)
        requires
            can_build_headers(self.config().auth, additional_headers),
        ensures
            header_map_values(headers) == single_values(
                request_headers(self.config().auth, additional_headers),
            ),
    {
        let mut headers = header_map_new();
        let json = "application/json";
        proof {
            reveal_strlit("application/json");
            is_ascii_chars_encode_utf8(json@);
        }
        header_map_insert(&mut headers, content_type_name(), header_value_from_static(json));
        let auth_value = authorization_value(&self.base_config.auth);
        header_map_insert(&mut headers, authorization_name(), auth_value);
        let ghost defaults = default_headers(self.config().auth);
        assert(header_map_values(headers) =~= single_values(defaults));
        proof {
            reveal_strlit("content-type");
            reveal_strlit("authorization");
            assert("content-type"@.len() != "authorization"@.len());
            assert(defaults.dom() =~= set!["content-type"@, "authorization"@]);
        }
        match additional_headers {
            None => headers,
            Some(additional) => {
                let ghost extra_values = header_map_values(additional);
                let ghost extra = first_values(extra_values);
                let entries = header_map_entries(additional);
                let ghost all = entries@;
                proof {
                    lemma_entries_contents(all);
                    assert(all.take(0) =~= Seq::<HeaderEntry>::empty());
                    assert(defaults.union_prefer_right(entries_contents(all.take(0))) =~= defaults);
                    assert(extra.dom() =~= extra_values.dom());
                    vstd::set_lib::lemma_len_union(defaults.dom(), extra.dom());
                }
                for entry in it: entries.into_iter()
                    invariant
                        it.seq() == all,
                        header_map_values(headers) == single_values(
                            defaults.union_prefer_right(entries_contents(all.take(it.index() as int))),
                        ),
                        header_map_values(headers).dom().subset_of(
                            defaults.dom().union(extra.dom()),
                        ),
                        defaults.dom().finite(),
                        defaults.dom().len() == 2,
                        extra.dom() == extra_values.dom(),
                        extra.dom().finite(),
                        extra.dom().len() < max_additional_headers(),
                        defaults.dom().union(extra.dom()).len() <= defaults.dom().len()
                            + extra.dom().len(),
                        forall|i: int|
                            #![trigger all[i]]
                            0 <= i < all.len() && all[i].0 is Some ==> extra.dom().contains(
                                header_name_str(all[i].0->0),
                            ),
                {
                    let ghost k = it.index() as int;
                    let ghost before = header_map_values(headers);
                    proof {
                        assert(all.take(k + 1).drop_last() =~= all.take(k));
                        assert(all.take(k + 1).last() == all[k]);
                        vstd::set_lib::lemma_len_subset(
                            before.dom(),
                            defaults.dom().union(extra.dom()),
                        );
                    }
                    let (name, value) = entry;
                    match name {
                        Some(name) => {
                            header_map_insert(&mut headers, name, value);
                            assert(header_map_values(headers) =~= single_values(
                                defaults.union_prefer_right(entries_contents(all.take(k + 1))),
                            ));
                        },
                        None => {
                            assert(header_map_values(headers) =~= single_values(
                                defaults.union_prefer_right(entries_contents(all.take(k + 1))),
                            ));
                        },
                    }
                }
                proof {
                    assert(all.take(all.len() as int) =~= all);
                    assert(entries_contents(all) =~= extra);
                    assert(defaults.union_prefer_right(extra) =~= request_headers(
                        self.config().auth,
                        additional_headers,
                    ));
                }
                headers
            },
        }
    }

    /// What the SDK makes of a response status before `error_for_status`:
    /// 401 is `AuthError("Unauthorized")`, 403 `AuthError("Forbidden")`,
    /// 429 `RateLimitError`; any other status passes.
    pub fn handle_response_status(&self, status: u16) -> (res: ApiResult<()>)
        ensures
            res is Ok <==> !is_precheck_status(status),
            res matches Err(error) ==> is_precheck_error(status, error),
    {
        if status == 401 {
            Err(ApiSdkError::AuthError(String::from_str("Unauthorized")))
        } else if status == 403 {
            Err(ApiSdkError::AuthError(String::from_str("Forbidden")))
        } else if status == 429 {
            Err(ApiSdkError::RateLimitError)
        } else {
            Ok(())
        }
    }

    /// The check that follows a request whose body is then read: the
    /// pre-check, then `error_for_status`.
    pub fn check_response(&self, status: u16) -> (res: ApiResult<()>)
        ensures
            res is Ok <==> is_success_status(status),
            res matches Err(error) ==> is_status_error(status, error),
    {
        self.handle_response_status(status)?;
        error_for_status(status)
    }

    /// The check of `get_or_none`: 404 means that nothing is there
    /// (`Ok(false)`); any other status is checked as by `check_response`,
    /// and `Ok(true)` means that the body is to be read.
    pub fn check_optional_response(&self, status: u16) -> (res: ApiResult<bool>)
        ensures
            status == 404 ==> res == Ok::<bool, ApiSdkError>(false),
            status != 404 ==> (res is Ok <==> is_success_status(status)),
            status != 404 ==> (res matches Ok(found) ==> found),
            res matches Err(error) ==> is_status_error(status, error),
    {
        if status == 404 {
            return Ok(false);
        }
        self.check_response(status)?;
        Ok(true)
    }
}

/// `reqwest::Response::error_for_status` on a response with `status`: an
/// error for a client (4xx) or server (5xx) status.
pub fn error_for_status(status: u16) -> (res: ApiResult<()>)
    ensures
        res is Ok <==> !is_error_status(status),
        res matches Err(error) ==> error == ApiSdkError::HttpStatusError(status),
{
    if 400 <= status && status < 600 {
        Err(ApiSdkError::HttpStatusError(status))
    } else {
        Ok(())
    }
}

/// The `authorization` header value of the credentials.
fn authorization_value(auth: &AuthConfig) -> (value: HeaderValue)
    requires
        can_encode_auth(*auth),
    ensures
        header_value_bytes(value) == encode_utf8(authorization_text(*auth)),
{
    match auth {
        AuthConfig::BasicAuth { username, password } => {
            let colon = ":";
            let basic = "Basic ";
            proof {
                reveal_strlit(":");
                reveal_strlit("Basic ");
            }
            let mut credentials = String::from_str(username.as_str());
            credentials.append(colon);
            credentials.append(password.as_str());
            assert(credentials@ =~= basic_credentials(username@, password@));
            let encoded = base64_encode_standard(credentials.as_str().as_bytes());
            let mut text = String::from_str(basic);
            text.append(encoded.as_str());
            proof {
                lemma_base64_encode_chars(encode_utf8(credentials@));
                assert forall|i: int| 0 <= i < text@.len() implies '\0' <= #[trigger] text@[i]
                    <= '\u{7f}' && 32 <= (text@[i] as u8) && (text@[i] as u8) < 127 by {
                    if i >= 6 {
                        assert(text@[i] == encoded@[i - 6]);
                        assert(is_base64_char(encoded@[i - 6]));
                    }
                }
                assert(is_ascii_chars(text@));
                is_ascii_chars_encode_utf8(text@);
                assert forall|i: int| 0 <= i < encode_utf8(text@).len() implies is_header_value_byte(
                    #[trigger] encode_utf8(text@)[i],
                ) by {
                    assert(text@[i] as u8 == encode_utf8(text@)[i]);
                }
            }
            header_value_from_str(text.as_str()).unwrap()
        },
        AuthConfig::ApiKey { api_key } => {
            let bearer = "Bearer ";
            proof {
                reveal_strlit("Bearer ");
            }
            let mut text = String::from_str(bearer);
            text.append(api_key.as_str());
            proof {
                lemma_encode_utf8_concat(bearer@, api_key@);
                is_ascii_chars_encode_utf8(bearer@);
                let head = encode_utf8(bearer@);
                let tail = encode_utf8(api_key@);
                assert forall|i: int| 0 <= i < encode_utf8(text@).len() implies is_header_value_byte(
                    #[trigger] encode_utf8(text@)[i],
                ) by {
                    if i < head.len() {
                        assert(encode_utf8(text@)[i] == head[i]);
                        assert(bearer@[i] as u8 == head[i]);
                    } else {
                        assert(encode_utf8(text@)[i] == tail[i - head.len()]);
                    }
                }
            }
            header_value_from_str(text.as_str()).unwrap()
        },
    }
}

/// `reqwest::Client::new`: a client with default settings, with a
/// connection pool of its own. Nothing is stated of it; with the features
/// used here (no TLS backend, no custom resolver) it has no failure path.
#[verifier::external_body]
fn new_reqwest_client() -> Client {
    Client::new()
}

} // verus!
