//! Registry credentials: which way a token is obtained, what is asked of
//! the identity provider and of the token service, and what is made of
//! their answers.

use crate::text::{can_cut, cut};
use vstd::prelude::*;
use vstd::string::StringSliceAdditionalSpecFns;
use vstd::utf8::{decode_utf8, encode_utf8, is_ascii_chars, valid_utf8};

verus! {

/// The prefix of the account of a service that pushes to the registry.
pub const GAR_SERVICE_ACCOUNT_PREFIX: &'static str = "gar";

/// The greatest length of the identifier of a service account.
pub const GOOGLE_SERVICE_ACCOUNT_MAX_LENGTH: usize = 30;

/// How many characters of the hash of a slug are kept.
pub const HASH_LENGTH: usize = 4;

/// Helper function for truncating a string: keeps at most the first
/// `length` bytes of `s`.
pub fn truncate(s: &str, length: usize) -> (r: &str)
    requires
        can_cut(s@, length as nat),
    ensures
        r@ == cut(s@, length as nat),
{
    if s.as_bytes().len() < length {
        s
    } else {
        let r = s.split_at(length).0;
        proof {
            vstd::utf8::encode_utf8_decode_utf8(r@);
            assert(encode_utf8(r@) == encode_utf8(s@).subrange(0, length as int));
        }
        r
    }
}

/// The SHA-256 digest of the UTF-8 bytes of a text, in lower-case
/// hexadecimal digits.
pub uninterp spec fn sha256_hex(data: Seq<char>) -> Seq<char>;

/// Computes the SHA-256 digest of the bytes of `input` with
/// `sha256::digest`, which writes the 32 bytes of the digest as 64
/// hexadecimal digits.
#[verifier::external_body]
fn sha256_digest(input: &str) -> (r: String)
    ensures
        r@ == sha256_hex(input@),
        r@.len() == 64,
        is_ascii_chars(r@),
{
    sha256::digest(input)
}

/// How many bytes of a slug fit beside the prefix, the hash and the two
/// hyphens; negative where not even those fit.
pub open spec fn slug_room(prefix: Seq<char>, max_length: nat) -> int {
    max_length - encode_utf8(prefix).len() - HASH_LENGTH - 2
}

/// `<PREFIX>-<TRUNCATED_SLUG>-<HASH>`: the prefix as it is, as much of the
/// slug as still fits into `max_length` bytes, and the first four
/// characters of the hash of the slug. There is none where the prefix, the
/// hash and the hyphens alone are longer than `max_length`.
pub open spec fn slug_text(
    slug: Seq<char>,
    prefix: Seq<char>,
    hashed_slug: Seq<char>,
    max_length: nat,
) -> Option<Seq<char>> {
    if slug_room(prefix, max_length) < 0 {
        None
    } else {
        Some(
            prefix + seq!['-'] + cut(slug, slug_room(prefix, max_length) as nat) + seq!['-'] + cut(
                hashed_slug,
                HASH_LENGTH as nat,
            ),
        )
    }
}

/// Whether the slug and its hash can be shortened as `slug_text` asks
/// without splitting a character.
pub open spec fn slug_fits(
    slug: Seq<char>,
    prefix: Seq<char>,
    hashed_slug: Seq<char>,
    max_length: nat,
) -> bool {
    slug_room(prefix, max_length) >= 0 ==> can_cut(slug, slug_room(prefix, max_length) as nat)
        && can_cut(hashed_slug, HASH_LENGTH as nat)
}

/// How many bytes `slug_text` has: those of the prefix and of the two
/// hyphens, those of the slug as far as there is room for them, and at
/// most four of the hash.
pub open spec fn slug_text_length(
    slug: Seq<char>,
    prefix: Seq<char>,
    hashed_slug: Seq<char>,
    max_length: nat,
) -> int {
    let room = slug_room(prefix, max_length);
    let kept = if encode_utf8(slug).len() < room {
        encode_utf8(slug).len() as int
    } else {
        room
    };
    let hash = if encode_utf8(hashed_slug).len() < HASH_LENGTH {
        encode_utf8(hashed_slug).len() as int
    } else {
        HASH_LENGTH as int
    };
    encode_utf8(prefix).len() + 1 + kept + 1 + hash
}

/// `slug_text` has the bytes that `slug_text_length` counts, and never
/// more than `max_length`.
pub proof fn lemma_slug_text_length(
    slug: Seq<char>,
    prefix: Seq<char>,
    hashed_slug: Seq<char>,
    max_length: nat,
)
    requires
        slug_fits(slug, prefix, hashed_slug, max_length),
    ensures
        slug_text(slug, prefix, hashed_slug, max_length) matches Some(text) ==> encode_utf8(
            text,
        ).len() == slug_text_length(slug, prefix, hashed_slug, max_length) && encode_utf8(
            text,
        ).len() <= max_length,
{
    let room = slug_room(prefix, max_length);
    if room >= 0 {
        let hyphen = seq!['-'];
        let kept = cut(slug, room as nat);
        let hash = cut(hashed_slug, HASH_LENGTH as nat);
        crate::text::lemma_cut_length(slug, room as nat);
        crate::text::lemma_cut_length(hashed_slug, HASH_LENGTH as nat);
        assert(is_ascii_chars(hyphen));
        vstd::utf8::is_ascii_chars_encode_utf8(hyphen);
        crate::text::lemma_encode_concat(prefix, hyphen);
        crate::text::lemma_encode_concat(prefix + hyphen, kept);
        crate::text::lemma_encode_concat(prefix + hyphen + kept, hyphen);
        crate::text::lemma_encode_concat(prefix + hyphen + kept + hyphen, hash);
    }
}

/// Joins prefix, slug and the hash of the slug into
/// `<PREFIX>-<TRUNCATED_SLUG>-<HASH>`.
pub fn slug_with_hash(slug: &str, prefix: &str, hashed_slug: &str, max_length: usize) -> (r:
    Option<String>)
    requires
        slug_fits(slug@, prefix@, hashed_slug@, max_length as nat),
    ensures
        crate::text::optional(r) == slug_text(slug@, prefix@, hashed_slug@, max_length as nat),
        r matches Some(text) ==> encode_utf8(text@).len() == slug_text_length(
            slug@,
            prefix@,
            hashed_slug@,
            max_length as nat,
        ) && encode_utf8(text@).len() <= max_length,
{
    proof {
        lemma_slug_text_length(slug@, prefix@, hashed_slug@, max_length as nat);
    }
    let prefix_len = prefix.as_bytes().len();
    if max_length < HASH_LENGTH + 2 || max_length - HASH_LENGTH - 2 < prefix_len {
        return None;
    }
    let slug_length = max_length - HASH_LENGTH - 2 - prefix_len;
    let trimmed = truncate(slug, slug_length);
    let truncated = truncate(hashed_slug, HASH_LENGTH);
    proof {
        reveal_strlit("-");
        assert("-"@ =~= seq!['-']);
    }
    let mut out = prefix.to_owned();
    out.append("-");
    out.append(trimmed);
    out.append("-");
    out.append(truncated);
    Some(out)
}

/// Concatenate slug and prefix into `<PREFIX>-<TRUNCATED_SLUG>-<HASH>`, where:
/// * `PREFIX` is left as-is,
/// * `TRUNCATED_SLUG` is the part of the slug that still fits into the
///   string after everything is assembled to the maximum length, and
/// * `HASH` is the first four characters of the hex-encoded SHA256 sum of
///   the slug.
///
/// `max_length` must be at least the length of the prefix + 6, otherwise
/// the length of the truncated slug would end up below zero. In this case,
/// `None` is returned.
pub fn slug_hash_prefix_truncate(slug: &str, prefix: &str, max_length: usize) -> (r: Option<
    String,
>)
    requires
        slug_room(prefix@, max_length as nat) >= 0 ==> can_cut(
            slug@,
            slug_room(prefix@, max_length as nat) as nat,
        ),
    ensures
        crate::text::optional(r) == slug_text(
            slug@,
            prefix@,
            sha256_hex(slug@),
            max_length as nat,
        ),
        sha256_hex(slug@).len() == 64,
        is_ascii_chars(sha256_hex(slug@)),
        r matches Some(text) ==> encode_utf8(text@).len() <= max_length,
        r matches Some(text) ==> (encode_utf8(slug@).len() >= slug_room(
            prefix@,
            max_length as nat,
        ) ==> encode_utf8(text@).len() == max_length),
{
    let hashed_slug = sha256_digest(slug);
    proof {
        crate::text::lemma_ascii_can_cut(hashed_slug@, HASH_LENGTH as nat);
    }
    slug_with_hash(slug, prefix, hashed_slug.as_str(), max_length)
}

/// The identifier of the service account of `slug` in `project_id`.
pub open spec fn service_account_id(account_id: Seq<char>, project_id: Seq<char>) -> Seq<char> {
    "projects/"@ + project_id + "/serviceAccounts/"@ + account_id + seq!['@'] + project_id
        + ".iam.gserviceaccount.com"@
}

/// How many bytes of a slug the name of its service account keeps.
pub open spec fn account_slug_length() -> nat {
    (GOOGLE_SERVICE_ACCOUNT_MAX_LENGTH - 3 - HASH_LENGTH - 2) as nat
}

/// The name of the service account of a slug.
pub open spec fn account_name(slug: Seq<char>, hashed_slug: Seq<char>) -> Seq<char> {
    GAR_SERVICE_ACCOUNT_PREFIX@ + seq!['-'] + cut(slug, account_slug_length()) + seq!['-'] + cut(
        hashed_slug,
        HASH_LENGTH as nat,
    )
}

/// Derive the Google service account name for GAR deployment, given an
/// application slug and a Google cloud project ID.
pub fn gar_service_account_id(slug: &str, project_id: &str) -> (r: String)
    requires
        can_cut(slug@, account_slug_length()),
    ensures
        r@ == service_account_id(account_name(slug@, sha256_hex(slug@)), project_id@),
        sha256_hex(slug@).len() == 64,
        is_ascii_chars(sha256_hex(slug@)),
{
    proof {
        reveal_strlit("gar");
        assert(is_ascii_chars(GAR_SERVICE_ACCOUNT_PREFIX@));
        vstd::utf8::is_ascii_chars_encode_utf8(GAR_SERVICE_ACCOUNT_PREFIX@);
        assert(slug_room(GAR_SERVICE_ACCOUNT_PREFIX@, GOOGLE_SERVICE_ACCOUNT_MAX_LENGTH as nat)
            == account_slug_length());
    }
    let account_id = match slug_hash_prefix_truncate(
        slug,
        GAR_SERVICE_ACCOUNT_PREFIX,
        GOOGLE_SERVICE_ACCOUNT_MAX_LENGTH,
    ) {
        Some(account_id) => account_id,
        None => {
            assert(false);
            String::new()
        },
    };
    proof {
        reveal_strlit("@");
        assert("@"@ =~= seq!['@']);
    }
    let mut out = "projects/".to_owned();
    out.append(project_id);
    out.append("/serviceAccounts/");
    out.append(account_id.as_str());
    out.append("@");
    out.append(project_id);
    out.append(".iam.gserviceaccount.com");
    out
}

/// Why no token could be obtained.
#[derive(Debug, Clone)]
pub enum Error {
    /// The default credentials of the host could not be set up.
    AuthError(String),
    /// The default credentials of the host gave no token.
    AuthTokenError(String),
    /// A request could not be sent or was not answered in time.
    Reqwest(String),
    /// An answer does not hold a token: its status code, and its body.
    Deserialize(u16, String),
    /// An answer holds a token, but reports a failure: its status code,
    /// and its body.
    Status(u16, String),
}

/// An `Error` in the terms of contracts.
pub enum ErrorView {
    AuthError(Seq<char>),
    AuthTokenError(Seq<char>),
    Reqwest(Seq<char>),
    Deserialize(u16, Seq<char>),
    Status(u16, Seq<char>),
}

impl View for Error {
    type V = ErrorView;

    open spec fn view(&self) -> ErrorView {
        match self {
            Error::AuthError(err) => ErrorView::AuthError(err@),
            Error::AuthTokenError(err) => ErrorView::AuthTokenError(err@),
            Error::Reqwest(err) => ErrorView::Reqwest(err@),
            Error::Deserialize(status, body) => ErrorView::Deserialize(*status, body@),
            Error::Status(status, body) => ErrorView::Status(*status, body@),
        }
    }
}

/// Whether `r` is the outcome `want`, up to the characters of its strings.
pub open spec fn is_token(r: Result<String, Error>, want: Result<Seq<char>, ErrorView>) -> bool {
    match r {
        Ok(token) => want == Ok::<Seq<char>, ErrorView>(token@),
        Err(err) => want == Err::<Seq<char>, ErrorView>(err@),
    }
}

/// How many seconds a request may take.
pub const TIMEOUT_SECONDS: u64 = 3;

/// Where identity tokens are exchanged for access tokens.
pub const TOKEN_EXCHANGE_URL: &'static str = "https://sts.googleapis.com/v1/token";

/// The grant that a token exchange asks for.
pub const GRANT_TYPE: &'static str = "urn:ietf:params:oauth:grant-type:token-exchange";

/// The kind of token that a token exchange hands out.
pub const REQUESTED_TOKEN_TYPE: &'static str = "urn:ietf:params:oauth:token-type:access_token";

/// The kind of token that a token exchange is given.
pub const SUBJECT_TOKEN_TYPE: &'static str = "urn:ietf:params:oauth:token-type:jwt";

/// The scope that every token is asked for.
pub const CLOUD_PLATFORM_SCOPE: &'static str = "https://www.googleapis.com/auth/cloud-platform";

/// The audience that the default credentials of the host are used for.
pub const DEFAULT_CREDENTIALS_AUDIENCE: &'static str = "https://oauth2.googleapis.com/token/";

/// What a genuine token may be prefixed with.
pub const BEARER_PREFIX: &'static str = "Bearer ";

/// The signals of a CI identity: present only where all three are.
#[derive(Debug, Clone)]
pub struct FederationContext {
    pub identity_pool: String,
    pub oidc_token_url: String,
    pub oidc_bearer_token: String,
}

impl FederationContext {
    /// The context that the three signals give: one where all three are
    /// present, none otherwise.
    pub fn from_signals(
        identity_pool: Option<String>,
        oidc_token_url: Option<String>,
        oidc_bearer_token: Option<String>,
    ) -> (r: Option<FederationContext>)
        ensures
            r is Some <==> identity_pool is Some && oidc_token_url is Some && oidc_bearer_token
                is Some,
            r is Some ==> r->0.identity_pool@ == identity_pool->0@ && r->0.oidc_token_url@
                == oidc_token_url->0@ && r->0.oidc_bearer_token@ == oidc_bearer_token->0@,
    {
        match (identity_pool, oidc_token_url, oidc_bearer_token) {
            (Some(identity_pool), Some(oidc_token_url), Some(oidc_bearer_token)) => Some(
                FederationContext { identity_pool, oidc_token_url, oidc_bearer_token },
            ),
            (_, _, _) => None,
        }
    }
}

/// The body of a token exchange.
#[derive(Debug, Clone)]
pub struct TokenExchangeRequest {
    pub grant_type: String,
    pub audience: String,
    pub scope: String,
    pub requested_token_type: String,
    pub subject_token: String,
    pub subject_token_type: String,
}

/// What a token exchange answers.
#[derive(Debug, Clone)]
pub struct TokenExchangeResponse {
    pub access_token: String,
}

/// What the identity provider answers.
#[derive(Debug, Clone)]
pub struct GitHubTokenResponse {
    pub value: String,
}

/// A request for an identity token: a `GET` of `url` with the query
/// parameter `audience`, authorised by `bearer_token`.
#[derive(Debug, Clone)]
pub struct IdTokenRequest {
    pub url: String,
    pub bearer_token: String,
    pub audience: String,
    pub timeout_seconds: u64,
}

/// A token exchange: a `POST` of `body` as JSON to `url`.
#[derive(Debug, Clone)]
pub struct ExchangeRequest {
    pub url: String,
    pub body: TokenExchangeRequest,
    pub timeout_seconds: u64,
}

/// A request for a token of the default credentials of the host.
#[derive(Debug, Clone)]
pub struct CredentialRequest {
    pub audience: String,
    pub scopes: Vec<String>,
}

/// The answer to a request: its status code, and its body.
#[derive(Debug, Clone)]
pub struct Response {
    pub status: u16,
    pub body: Vec<u8>,
}

/// The audience of the identity token of a pool.
pub open spec fn id_token_audience(identity_pool: Seq<char>) -> Seq<char> {
    "https://iam.googleapis.com/"@ + identity_pool
}

/// The audience of the token exchange of a pool.
pub open spec fn exchange_audience(identity_pool: Seq<char>) -> Seq<char> {
    "//iam.googleapis.com/"@ + identity_pool
}

/// Whether `r` asks the identity provider at `url` for a token for the
/// pool.
pub open spec fn asks_id_token(
    r: IdTokenRequest,
    url: Seq<char>,
    bearer_token: Seq<char>,
    identity_pool: Seq<char>,
) -> bool {
    &&& r.url@ == url
    &&& r.bearer_token@ == bearer_token
    &&& r.audience@ == id_token_audience(identity_pool)
    &&& r.timeout_seconds == TIMEOUT_SECONDS
}

/// Whether `r` asks the token service to exchange `id_token` for an access
/// token of the pool.
pub open spec fn asks_exchange(
    r: ExchangeRequest,
    identity_pool: Seq<char>,
    id_token: Seq<char>,
) -> bool {
    &&& r.url@ == TOKEN_EXCHANGE_URL@
    &&& r.timeout_seconds == TIMEOUT_SECONDS
    &&& r.body.grant_type@ == GRANT_TYPE@
    &&& r.body.audience@ == exchange_audience(identity_pool)
    &&& r.body.scope@ == CLOUD_PLATFORM_SCOPE@
    &&& r.body.requested_token_type@ == REQUESTED_TOKEN_TYPE@
    &&& r.body.subject_token@ == id_token
    &&& r.body.subject_token_type@ == SUBJECT_TOKEN_TYPE@
}

/// Whether `r` asks the default credentials of the host for a token.
pub open spec fn asks_credentials(r: CredentialRequest) -> bool {
    &&& r.audience@ == DEFAULT_CREDENTIALS_AUDIENCE@
    &&& crate::text::views(r.scopes@) == seq![CLOUD_PLATFORM_SCOPE@]
}

/// The request for the identity token of a pool.
pub fn id_token_request(url: &str, bearer_token: &str, workload_identity_pool: &str) -> (r:
    IdTokenRequest)
    ensures
        asks_id_token(r, url@, bearer_token@, workload_identity_pool@),
{
    let mut audience = "https://iam.googleapis.com/".to_owned();
    audience.append(workload_identity_pool);
    IdTokenRequest {
        url: url.to_owned(),
        bearer_token: bearer_token.to_owned(),
        audience,
        timeout_seconds: TIMEOUT_SECONDS,
    }
}

/// The request that exchanges an identity token for an access token.
pub fn exchange_request(workload_identity_pool: &str, github_id_token: &str) -> (r:
    ExchangeRequest)
    ensures
        asks_exchange(r, workload_identity_pool@, github_id_token@),
{
    let mut audience = "//iam.googleapis.com/".to_owned();
    audience.append(workload_identity_pool);
    ExchangeRequest {
        url: TOKEN_EXCHANGE_URL.to_owned(),
        body: TokenExchangeRequest {
            grant_type: GRANT_TYPE.to_owned(),
            audience,
            scope: CLOUD_PLATFORM_SCOPE.to_owned(),
            requested_token_type: REQUESTED_TOKEN_TYPE.to_owned(),
            subject_token: github_id_token.to_owned(),
            subject_token_type: SUBJECT_TOKEN_TYPE.to_owned(),
        },
        timeout_seconds: TIMEOUT_SECONDS,
    }
}

/// The request for a token of the default credentials of the host.
pub fn credential_request() -> (r: CredentialRequest)
    ensures
        asks_credentials(r),
{
    let mut scopes: Vec<String> = Vec::new();
    scopes.push(CLOUD_PLATFORM_SCOPE.to_owned());
    assert(crate::text::views(scopes@) =~= seq![CLOUD_PLATFORM_SCOPE@]);
    CredentialRequest { audience: DEFAULT_CREDENTIALS_AUDIENCE.to_owned(), scopes }
}

/// The text of bytes, with the replacement character in place of whatever
/// is not UTF-8.
pub uninterp spec fn utf8_lossy(bytes: Seq<u8>) -> Seq<char>;

/// Reads bytes as text with `String::from_utf8_lossy`, which keeps valid
/// UTF-8 as it is and replaces every invalid sequence with the replacement
/// character.
#[verifier::external_body]
fn lossy_text(bytes: &[u8]) -> (r: String)
    ensures
        r@ == utf8_lossy(bytes@),
        valid_utf8(bytes@) ==> r@ == decode_utf8(bytes@),
{
    String::from_utf8_lossy(bytes).into_owned()
}

/// Whether a status code reports success.
pub open spec fn is_success(status: u16) -> bool {
    200 <= status < 300
}

/// What an answer holds. An answer of which no token was decoded is a
/// `Deserialize` failure, whatever its status code; one that holds a token
/// but does not report success is a `Status` failure; either failure holds
/// the status code and the body of the answer. Any other answer holds its
/// token.
pub open spec fn reading(status: u16, body: Seq<char>, token: Option<Seq<char>>) -> Result<
    Seq<char>,
    ErrorView,
> {
    match token {
        None => Err(ErrorView::Deserialize(status, body)),
        Some(token) => if is_success(status) {
            Ok(token)
        } else {
            Err(ErrorView::Status(status, body))
        },
    }
}

/// An answer of which no token was decoded is a `Deserialize` failure that
/// holds its status code and its body, whatever the status code is.
pub proof fn lemma_undecodable_answer_keeps_status_and_body(status: u16, body: Seq<char>)
    ensures
        reading(status, body, None) == Err::<Seq<char>, ErrorView>(
            ErrorView::Deserialize(status, body),
        ),
{
}

/// Reads an answer with status code `status` and the text `body`, of which
/// `token` was decoded, if anything was.
pub fn read_answer(status: u16, body: String, token: Option<String>) -> (r: Result<String, Error>)
    ensures
        is_token(r, reading(status, body@, crate::text::optional(token))),
{
    match token {
        None => Err(Error::Deserialize(status, body)),
        Some(token) => {
            if 200 <= status && status < 300 {
                Ok(token)
            } else {
                Err(Error::Status(status, body))
            }
        },
    }
}

/// Reads the answer of the identity provider, of which `value` was decoded
/// as the identity token, if anything was. A failure holds the body of the
/// answer as text: as it is where it is UTF-8, else with the replacement
/// character in place of what is not.
pub fn github_id_token(response: &Response, value: Option<String>) -> (r: Result<
    GitHubTokenResponse,
    Error,
>)
    ensures
        valid_utf8(response.body@) ==> utf8_lossy(response.body@) == decode_utf8(
            response.body@,
        ),
        match r {
            Ok(token) => reading(
                response.status,
                utf8_lossy(response.body@),
                crate::text::optional(value),
            ) == Ok::<Seq<char>, ErrorView>(token.value@),
            Err(err) => reading(
                response.status,
                utf8_lossy(response.body@),
                crate::text::optional(value),
            ) == Err::<Seq<char>, ErrorView>(err@),
        },
{
    let body = lossy_text(response.body.as_slice());
    match read_answer(response.status, body, value) {
        Ok(value) => Ok(GitHubTokenResponse { value }),
        Err(err) => Err(err),
    }
}

/// Reads the answer of the token service, of which `access_token` was
/// decoded as the access token, if anything was. A failure holds the body
/// of the answer as text: as it is where it is UTF-8, else with the
/// replacement character in place of what is not.
pub fn exchange_federated_token(response: &Response, access_token: Option<String>) -> (r:
    Result<TokenExchangeResponse, Error>)
    ensures
        valid_utf8(response.body@) ==> utf8_lossy(response.body@) == decode_utf8(
            response.body@,
        ),
        match r {
            Ok(token) => reading(
                response.status,
                utf8_lossy(response.body@),
                crate::text::optional(access_token),
            ) == Ok::<Seq<char>, ErrorView>(token.access_token@),
            Err(err) => reading(
                response.status,
                utf8_lossy(response.body@),
                crate::text::optional(access_token),
            ) == Err::<Seq<char>, ErrorView>(err@),
        },
{
    let body = lossy_text(response.body.as_slice());
    match read_answer(response.status, body, access_token) {
        Ok(access_token) => Ok(TokenExchangeResponse { access_token }),
        Err(err) => Err(err),
    }
}

/// A token without the `Bearer ` that may stand before it.
pub open spec fn normalized(token: Seq<char>) -> Seq<char> {
    match crate::text::stripped_prefix(token, BEARER_PREFIX@) {
        Some(rest) => rest,
        None => token,
    }
}

/// Strips a leading `Bearer ` from a token, if there is one.
pub fn normalize_token(token: &str) -> (r: String)
    ensures
        r@ == normalized(token@),
{
    match crate::text::strip_prefix(token, BEARER_PREFIX) {
        Some(rest) => rest,
        None => token.to_owned(),
    }
}

/// The token of the default credentials of the host, given what they
/// handed out: without the `Bearer ` that may stand before it.
pub fn get_gar_auth_token(obtained: Result<String, Error>) -> (r: Result<String, Error>)
    ensures
        match obtained {
            Ok(token) => r is Ok && r->Ok_0@ == normalized(token@),
            Err(err) => r is Err && r->Err_0@ == err@,
        },
{
    match obtained {
        Ok(token) => Ok(normalize_token(token.as_str())),
        Err(err) => Err(err),
    }
}

/// Whether the three signals select the federated way to a token: they do
/// where all three are present, and only there.
pub open spec fn federated(
    identity_pool: Option<String>,
    oidc_token_url: Option<String>,
    oidc_bearer_token: Option<String>,
) -> bool {
    identity_pool is Some && oidc_token_url is Some && oidc_bearer_token is Some
}

/// With any of the three signals missing, the default credentials of the
/// host are used, whatever the other two are.
pub proof fn lemma_partial_signals_select_default(
    identity_pool: Option<String>,
    oidc_token_url: Option<String>,
    oidc_bearer_token: Option<String>,
)
    requires
        identity_pool is None || oidc_token_url is None || oidc_bearer_token is None,
    ensures
        !federated(identity_pool, oidc_token_url, oidc_bearer_token),
{
}

/// What the token provider waits for.
#[derive(Debug, Clone, Copy, PartialEq, Eq, Structural)]
pub enum Phase {
    /// The answer of the identity provider.
    IdToken,
    /// The answer of the token service.
    Exchange,
    /// The token of the default credentials of the host.
    Credentials,
}

/// What the token provider asks its caller to do.
#[derive(Debug, Clone)]
pub enum Request {
    IdToken(IdTokenRequest),
    Exchange(ExchangeRequest),
    Credentials(CredentialRequest),
}

/// What the caller reports back.
#[derive(Debug, Clone)]
pub enum Reply {
    /// The answer to a request, and the token that was decoded of its
    /// body, if anything was.
    Answer { response: Response, token: Option<String> },
    /// The token that the default credentials of the host handed out.
    Credentials(String),
    /// Why the request came to nothing.
    Failed(Error),
}

/// The way to a registry token, step by step. Nothing is tried twice: the
/// first failure ends it.
#[derive(Debug, Clone)]
pub struct TokenProvider {
    pub context: Option<FederationContext>,
    pub phase: Phase,
}

/// Why the way to a token ended without one, and the endpoint that was
/// being asked; the default credentials of the host have no endpoint.
#[derive(Debug, Clone)]
pub struct Failure {
    pub endpoint: Option<String>,
    pub error: Error,
}

/// A `Failure` in the terms of contracts.
pub struct FailureView {
    pub endpoint: Option<Seq<char>>,
    pub error: ErrorView,
}

impl View for Failure {
    type V = FailureView;

    open spec fn view(&self) -> FailureView {
        FailureView { endpoint: crate::text::optional(self.endpoint), error: self.error@ }
    }
}

impl FailureView {
    /// The message shown to the operator: that of the error, and the
    /// endpoint behind it where there is one.
    pub open spec fn message(self) -> Seq<char> {
        match self.endpoint {
            Some(endpoint) => self.error.message() + " (endpoint: "@ + endpoint + ")"@,
            None => self.error.message(),
        }
    }
}

impl Failure {
    /// The message shown to the operator.
    pub fn to_string(&self) -> (r: String)
        ensures
            r@ == self@.message(),
    {
        let mut out = self.error.to_string();
        match &self.endpoint {
            Some(endpoint) => {
                out.append(" (endpoint: ");
                out.append(endpoint.as_str());
                out.append(")");
            },
            None => {},
        }
        out
    }
}

/// The next step on the way to a token.
#[derive(Debug)]
pub enum Step {
    /// The caller performs the request and reports back.
    Ask(TokenProvider, Request),
    /// The way has ended, with a token or with the reason why there is none.
    Done(Result<String, Failure>),
}

impl TokenProvider {
    /// The federated phases have their context, and the default
    /// credentials have none.
    pub open spec fn well_formed(&self) -> bool {
        self.phase is Credentials <==> self.context is None
    }

    /// Whether `reply` answers what the provider waits for.
    pub open spec fn accepts(&self, reply: Reply) -> bool {
        match reply {
            Reply::Answer { .. } => !(self.phase is Credentials),
            Reply::Credentials(_) => self.phase is Credentials,
            Reply::Failed(_) => true,
        }
    }

    /// Whether `reply` answers what the provider waits for.
    pub fn is_accepted(&self, reply: &Reply) -> (r: bool)
        ensures
            r == self.accepts(*reply),
    {
        match reply {
            Reply::Answer { .. } => match self.phase {
                Phase::Credentials => false,
                _ => true,
            },
            Reply::Credentials(_) => match self.phase {
                Phase::Credentials => true,
                _ => false,
            },
            Reply::Failed(_) => true,
        }
    }

    /// The endpoint that is being asked: that of the identity provider,
    /// that of the token service, or none for the default credentials of
    /// the host.
    pub open spec fn endpoint(&self) -> Option<Seq<char>> {
        match self.phase {
            Phase::IdToken => Some(self.context->0.oidc_token_url@),
            Phase::Exchange => Some(TOKEN_EXCHANGE_URL@),
            Phase::Credentials => None,
        }
    }

    /// The failure that `error` ends the way with: the error, at the
    /// endpoint that is being asked.
    pub open spec fn failure(&self, error: ErrorView) -> FailureView {
        FailureView { endpoint: self.endpoint(), error }
    }

    /// Ends the way with `error`, at the endpoint that is being asked.
    fn fail(&self, error: Error) -> (r: Failure)
        requires
            self.well_formed(),
        ensures
            r@ == self.failure(error@),
    {
        let endpoint = match self.phase {
            Phase::IdToken => match &self.context {
                Some(context) => Some(context.oidc_token_url.clone()),
                None => None,
            },
            Phase::Exchange => Some(TOKEN_EXCHANGE_URL.to_owned()),
            Phase::Credentials => None,
        };
        Failure { endpoint, error }
    }

    /// Whether `step` is what follows `reply`:
    /// a failure ends the way with that failure, at the endpoint that was
    /// asked; the identity token leads to its exchange; the access token,
    /// or the token of the default credentials without its `Bearer `, ends
    /// the way.
    pub open spec fn leads_to(&self, reply: Reply, step: Step) -> bool {
        match reply {
            Reply::Failed(err) => step matches Step::Done(Err(e)) && e@ == self.failure(err@),
            Reply::Credentials(token) => step matches Step::Done(Ok(t)) && t@ == normalized(
                token@,
            ),
            Reply::Answer { response, token } => {
                let read = reading(
                    response.status,
                    utf8_lossy(response.body@),
                    crate::text::optional(token),
                );
                match read {
                    Err(err) => step matches Step::Done(Err(e)) && e@ == self.failure(err),
                    Ok(token) => match self.phase {
                        Phase::IdToken => step matches Step::Ask(next, Request::Exchange(request))
                            && next.phase == Phase::Exchange && next.context == self.context
                            && asks_exchange(request, self.context->0.identity_pool@, token),
                        _ => step matches Step::Done(Ok(t)) && t@ == token,
                    },
                }
            },
        }
    }

    /// Takes the reply to the last request and says what comes next.
    pub fn advance(self, reply: Reply) -> (r: Step)
        requires
            self.well_formed(),
            self.accepts(reply),
        ensures
            self.leads_to(reply, r),
            r matches Step::Ask(next, _) ==> next.well_formed(),
            reply matches Reply::Answer { response, .. } ==> (valid_utf8(response.body@)
                ==> utf8_lossy(response.body@) == decode_utf8(response.body@)),
    {
        match reply {
            Reply::Failed(err) => Step::Done(Err(self.fail(err))),
            Reply::Credentials(token) => Step::Done(Ok(normalize_token(token.as_str()))),
            Reply::Answer { response, token } => match self.phase {
                Phase::IdToken => match github_id_token(&response, token) {
                    Ok(id_token) => {
                        let context = match &self.context {
                            Some(context) => context,
                            None => {
                                assert(false);
                                return Step::Done(Ok(id_token.value));
                            },
                        };
                        let request = exchange_request(
                            context.identity_pool.as_str(),
                            id_token.value.as_str(),
                        );
                        Step::Ask(
                            TokenProvider { context: self.context, phase: Phase::Exchange },
                            Request::Exchange(request),
                        )
                    },
                    Err(err) => Step::Done(Err(self.fail(err))),
                },
                _ => match exchange_federated_token(&response, token) {
                    Ok(token) => Step::Done(Ok(token.access_token)),
                    Err(err) => Step::Done(Err(self.fail(err))),
                },
            },
        }
    }
}

/// Starts the way to a registry token. With all three signals of a CI
/// identity present, the identity provider is asked first; otherwise the
/// default credentials of the host are.
pub fn token(
    workload_identity_pool: Option<String>,
    id_token_url: Option<String>,
    id_token_bearer: Option<String>,
) -> (r: (TokenProvider, Request))
    ensures
        r.0.well_formed(),
        federated(workload_identity_pool, id_token_url, id_token_bearer) <==> r.0.phase
            is IdToken,
        !federated(workload_identity_pool, id_token_url, id_token_bearer) <==> r.0.phase
            is Credentials,
        r.0.phase is IdToken ==> r.0.context->0.identity_pool@ == workload_identity_pool->0@
            && r.0.context->0.oidc_token_url@ == id_token_url->0@
            && r.0.context->0.oidc_bearer_token@ == id_token_bearer->0@ && r.1 is IdToken
            && asks_id_token(
            r.1->IdToken_0,
            id_token_url->0@,
            id_token_bearer->0@,
            workload_identity_pool->0@,
        ),
        r.0.phase is Credentials ==> r.1 is Credentials && asks_credentials(r.1->Credentials_0),
{
    match FederationContext::from_signals(workload_identity_pool, id_token_url, id_token_bearer) {
        Some(context) => {
            let request = id_token_request(
                context.oidc_token_url.as_str(),
                context.oidc_bearer_token.as_str(),
                context.identity_pool.as_str(),
            );
            (
                TokenProvider { context: Some(context), phase: Phase::IdToken },
                Request::IdToken(request),
            )
        },
        None => (
            TokenProvider { context: None, phase: Phase::Credentials },
            Request::Credentials(credential_request()),
        ),
    }
}

impl ErrorView {
    /// The message shown to the operator.
    pub open spec fn message(self) -> Seq<char> {
        match self {
            ErrorView::AuthError(err) => "auth error: "@ + err,
            ErrorView::AuthTokenError(err) => "auth token error: "@ + err,
            ErrorView::Reqwest(err) => "reqwest: "@ + err,
            ErrorView::Deserialize(status, body) => "code: "@ + crate::text::decimal(status as nat)
                + ", body: "@ + body,
            ErrorView::Status(status, body) => "code: "@ + crate::text::decimal(status as nat)
                + ", body: "@ + body,
        }
    }
}

impl Error {
    /// The message shown to the operator.
    pub fn to_string(&self) -> (r: String)
        ensures
            r@ == self@.message(),
    {
        match self {
            Error::AuthError(err) => crate::text::join("auth error: ", err.as_str()),
            Error::AuthTokenError(err) => crate::text::join("auth token error: ", err.as_str()),
            Error::Reqwest(err) => crate::text::join("reqwest: ", err.as_str()),
            Error::Deserialize(status, body) => {
                let mut out = "code: ".to_owned();
                out.append(crate::text::to_decimal(*status as u64).as_str());
                out.append(", body: ");
                out.append(body.as_str());
                out
            },
            Error::Status(status, body) => {
                let mut out = "code: ".to_owned();
                out.append(crate::text::to_decimal(*status as u64).as_str());
                out.append(", body: ");
                out.append(body.as_str());
                out
            },
        }
    }
}

} // verus!
