//! The plain way to a registry token: a token that the pipeline was handed
//! is exchanged at once, without asking an identity provider first.

use crate::auth::{
    normalized, ExchangeRequest, TokenExchangeRequest, CLOUD_PLATFORM_SCOPE, GRANT_TYPE,
    REQUESTED_TOKEN_TYPE, SUBJECT_TOKEN_TYPE, TIMEOUT_SECONDS, TOKEN_EXCHANGE_URL,
};
use vstd::prelude::*;

verus! {

/// Why no token could be obtained.
#[derive(Debug, Clone)]
pub enum Error {
    /// The default credentials of the host could not be set up.
    AuthError(String),
    /// The default credentials of the host gave no token.
    AuthTokenError(String),
    /// A request could not be sent, was not answered in time, or its
    /// answer does not hold a token.
    Reqwest(String),
}

/// An `Error` in the terms of contracts.
pub enum ErrorView {
    AuthError(Seq<char>),
    AuthTokenError(Seq<char>),
    Reqwest(Seq<char>),
}

impl View for Error {
    type V = ErrorView;

    open spec fn view(&self) -> ErrorView {
        match self {
            Error::AuthError(err) => ErrorView::AuthError(err@),
            Error::AuthTokenError(err) => ErrorView::AuthTokenError(err@),
            Error::Reqwest(err) => ErrorView::Reqwest(err@),
        }
    }
}

/// What a token exchange answers.
#[derive(Debug, Clone)]
pub struct TokenExchangeResponse {
    pub access_token: String,
    pub issued_token_type: String,
    pub token_type: String,
    pub expires_in: usize,
}

/// Whether `r` asks the token service to exchange `github_jwt` for an
/// access token, with the pool itself as the audience.
pub open spec fn asks_exchange(
    r: ExchangeRequest,
    identity_pool: Seq<char>,
    github_jwt: Seq<char>,
) -> bool {
    &&& r.url@ == TOKEN_EXCHANGE_URL@
    &&& r.timeout_seconds == TIMEOUT_SECONDS
    &&& r.body.grant_type@ == GRANT_TYPE@
    &&& r.body.audience@ == identity_pool
    &&& r.body.scope@ == CLOUD_PLATFORM_SCOPE@
    &&& r.body.requested_token_type@ == REQUESTED_TOKEN_TYPE@
    &&& r.body.subject_token@ == github_jwt
    &&& r.body.subject_token_type@ == SUBJECT_TOKEN_TYPE@
}

/// The request that exchanges a token of the CI for an access token.
pub fn exchange_request(workload_identity_pool: &str, github_jwt: &str) -> (r: ExchangeRequest)
    ensures
        asks_exchange(r, workload_identity_pool@, github_jwt@),
{
    ExchangeRequest {
        url: TOKEN_EXCHANGE_URL.to_owned(),
        body: TokenExchangeRequest {
            grant_type: GRANT_TYPE.to_owned(),
            audience: workload_identity_pool.to_owned(),
            scope: CLOUD_PLATFORM_SCOPE.to_owned(),
            requested_token_type: REQUESTED_TOKEN_TYPE.to_owned(),
            subject_token: github_jwt.to_owned(),
            subject_token_type: SUBJECT_TOKEN_TYPE.to_owned(),
        },
        timeout_seconds: TIMEOUT_SECONDS,
    }
}

/// The way to a token that two signals select: the exchange where both the
/// token of the CI and the pool are present, else the default credentials
/// of the host.
pub fn token(github_token: Option<String>, workload_identity_pool: Option<String>) -> (r:
    Option<ExchangeRequest>)
    ensures
        r is Some <==> github_token is Some && workload_identity_pool is Some,
        r is Some ==> asks_exchange(r->0, workload_identity_pool->0@, github_token->0@),
{
    match (github_token, workload_identity_pool) {
        (Some(github_jwt), Some(workload_identity_pool)) => Some(
            exchange_request(workload_identity_pool.as_str(), github_jwt.as_str()),
        ),
        (_, _) => None,
    }
}

/// What the token service answered, given what was decoded of it or why
/// nothing was: the access token.
pub fn exchange_federated_token(answer: Result<TokenExchangeResponse, Error>) -> (r: Result<
    String,
    Error,
>)
    ensures
        match answer {
            Ok(response) => r is Ok && r->Ok_0@ == response.access_token@,
            Err(err) => r is Err && r->Err_0@ == err@,
        },
{
    match answer {
        Ok(response) => Ok(response.access_token),
        Err(err) => Err(err),
    }
}

/// The token of the default credentials of the host, given what they
/// handed out: without the `Bearer ` that may stand before it.
pub fn get_gar_auth_token(obtained: Result<String, Error>) -> (r: Result<String, Error>)
    ensures
        match obtained {
            Ok(token) => r is Ok && r->Ok_0@ == normalized(token@),
            Err(err) => r is Err && r->Err_0@ == err@,
        },
{
    match obtained {
        Ok(token) => Ok(crate::auth::normalize_token(token.as_str())),
        Err(err) => Err(err),
    }
}

impl ErrorView {
    /// The message shown to the operator.
    pub open spec fn message(self) -> Seq<char> {
        match self {
            ErrorView::AuthError(err) => "auth error: "@ + err,
            ErrorView::AuthTokenError(err) => "auth token error: "@ + err,
            ErrorView::Reqwest(err) => "reqwest: "@ + err,
        }
    }
}

impl Error {
    /// The message shown to the operator.
    pub fn to_string(&self) -> (r: String)
        ensures
            r@ == self@.message(),
    {
        match self {
            Error::AuthError(err) => crate::text::join("auth error: ", err.as_str()),
            Error::AuthTokenError(err) => crate::text::join("auth token error: ", err.as_str()),
            Error::Reqwest(err) => crate::text::join("reqwest: ", err.as_str()),
        }
    }
}

} // verus!
