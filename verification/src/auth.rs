//! Authentication schemes of endpoints and the caller's access-token policy.

use vstd::prelude::*;
use crate::error::IntoHttpError;

verus! {

/// Authentication scheme used by the endpoint.
#[derive(Clone, Copy, Debug, PartialEq, Eq, Structural)]
pub enum AuthScheme {
    /// No authentication is performed.
    NoAuthentication,
    /// An access token is sent in the `Authorization` header.
    AccessToken,
    /// The request is signed by the sending server, as in the federation API.
    ServerSignatures,
    /// An access token is sent as the `access_token` query parameter.
    QueryOnlyAccessToken,
}

/// Controls whether an access token is added to an outgoing request.
#[derive(Clone, Copy, Debug)]
pub enum SendAccessToken<'a> {
    /// Add the given access token only if the endpoint requires it.
    IfRequired(&'a str),
    /// Always add the access token.
    Always(&'a str),
    /// Don't add an access token. Converting a request of an endpoint that
    /// requires authentication then fails.
    Never,
}

/// How an outgoing request carries its access token.
#[derive(Clone, Copy, Debug)]
pub enum Credential<'a> {
    /// No token is attached.
    Absent,
    /// The token is sent as `Authorization: Bearer <token>`.
    Bearer(&'a str),
    /// The token is sent as the query parameter `access_token`.
    Query(&'a str),
}

impl AuthScheme {
    /// Whether an endpoint with this scheme demands an access token.
    pub open spec fn requires_token(self) -> bool {
        self != AuthScheme::NoAuthentication
    }
}

impl<'a> SendAccessToken<'a> {
    /// The token this policy yields for an endpoint that requires one.
    pub open spec fn required(self) -> Option<&'a str> {
        match self {
            SendAccessToken::IfRequired(tok) => Some(tok),
            SendAccessToken::Always(tok) => Some(tok),
            SendAccessToken::Never => None,
        }
    }

    /// The token this policy yields for an endpoint that requires none.
    pub open spec fn not_required(self) -> Option<&'a str> {
        match self {
            SendAccessToken::Always(tok) => Some(tok),
            _ => None,
        }
    }

    /// Get the access token for an endpoint that requires one.
    ///
    /// Returns `Some(_)` if `self` contains an access token.
    pub fn get_required_for_endpoint(self) -> (r: Option<&'a str>)
        ensures
            r == self.required(),
    {
        match self {
            SendAccessToken::IfRequired(tok) => Some(tok),
            SendAccessToken::Always(tok) => Some(tok),
            SendAccessToken::Never => None,
        }
    }

    /// Get the access token for an endpoint that should not require one.
    ///
    /// Returns `Some(_)` only if `self` is `SendAccessToken::Always(_)`.
    pub fn get_not_required_for_endpoint(self) -> (r: Option<&'a str>)
        ensures
            r == self.not_required(),
    {
        match self {
            SendAccessToken::Always(tok) => Some(tok),
            SendAccessToken::IfRequired(_) => None,
            SendAccessToken::Never => None,
        }
    }
}

/// What an endpoint with `scheme` attaches under `policy`: nothing where the
/// scheme is `NoAuthentication`, whatever the policy; otherwise the policy's token, in the
/// query for `QueryOnlyAccessToken` and as a bearer header for the others; an
/// error where the scheme demands a token and the policy holds none.
pub open spec fn credential_of<'a>(scheme: AuthScheme, policy: SendAccessToken<'a>) -> Result<
    Credential<'a>,
    IntoHttpError,
> {
    match scheme {
        AuthScheme::NoAuthentication => Ok(Credential::Absent),
        AuthScheme::QueryOnlyAccessToken => match policy.required() {
            Some(tok) => Ok(Credential::Query(tok)),
            None => Err(IntoHttpError::NeedsAuthentication),
        },
        _ => match policy.required() {
            Some(tok) => Ok(Credential::Bearer(tok)),
            None => Err(IntoHttpError::NeedsAuthentication),
        },
    }
}

/// Decides how a request to an endpoint with `scheme` carries the token of
/// `policy`.
///
/// Fails with `NeedsAuthentication` exactly when the scheme demands a token
/// and the policy is `SendAccessToken::Never`.
pub fn credential_for<'a>(scheme: AuthScheme, policy: SendAccessToken<'a>) -> (r: Result<
    Credential<'a>,
    IntoHttpError,
>)
    ensures
        r == credential_of(scheme, policy),
        r is Err <==> scheme.requires_token() && policy is Never,
        r is Err ==> r == Err::<Credential<'a>, IntoHttpError>(IntoHttpError::NeedsAuthentication),
        scheme == AuthScheme::NoAuthentication ==> r == Ok::<Credential<'a>, IntoHttpError>(Credential::Absent),
{
    match scheme {
        AuthScheme::NoAuthentication => Ok(Credential::Absent),
        AuthScheme::QueryOnlyAccessToken => match policy.get_required_for_endpoint() {
            Some(tok) => Ok(Credential::Query(tok)),
            None => Err(IntoHttpError::NeedsAuthentication),
        },
        _ => match policy.get_required_for_endpoint() {
            Some(tok) => Ok(Credential::Bearer(tok)),
            None => Err(IntoHttpError::NeedsAuthentication),
        },
    }
}

} // verus!
