//! The request-boundary guard.
//!
//! Every request starts unauthenticated and ends in one of three ways
//! before any business logic runs: it passes unchecked because it is on the
//! public allow-list, it is authenticated and carries the subject of its
//! token, or it is rejected.

use crate::jwt::{current_time, extract_user_id_from_jwt_at, validated};
use crate::text::{same_text, starts_with, trim, trimmed};
use std::rc::Rc;
use vstd::prelude::*;
use vstd::utf8::encode_utf8;

verus! {

/// The authorization header of a request, as the transport layer found it.
#[derive(Debug, PartialEq, Eq)]
pub enum AuthorizationHeader {
    /// The request has no authorization header.
    Missing,
    /// The header is present but its value is not readable text.
    Unreadable,
    /// The text of the header's value.
    Value(String),
}

/// Why the guard rejected a request.
#[derive(Clone, Copy, Debug, PartialEq, Eq, Structural)]
pub enum Rejection {
    /// The request has no authorization header.
    MissingHeader,
    /// The header's value is not readable text.
    InvalidHeaderValue,
    /// The header does not use the bearer scheme.
    InvalidFormat,
    /// The token is malformed, badly signed or expired.
    InvalidToken,
}

/// Where the guard leaves a request.
#[derive(Debug, PartialEq, Eq)]
pub enum GuardDecision {
    /// The request is on the public allow-list and passes unchecked.
    Bypass,
    /// The token is valid; the value is its subject.
    Authenticated(String),
    /// The request is refused and goes no further.
    Rejected(Rejection),
}

/// Whether a request passes the guard unchecked: a preflight request, the
/// root page, the static assets and the login and registration endpoints.
pub open spec fn is_public(is_options: bool, path: Seq<char>) -> bool {
    is_options || path == "/"@ || "/web/"@.is_prefix_of(path) || "/auth/"@.is_prefix_of(path)
}

/// The token that a header value presents under the bearer scheme, with the
/// whitespace around it removed; nothing where the scheme is another.
pub open spec fn bearer_token(value: Seq<char>) -> Option<Seq<char>> {
    if "Bearer "@.is_prefix_of(value) {
        Some(trimmed(value.skip("Bearer "@.len() as int)))
    } else {
        None
    }
}

/// Whether a decision is the one that the guard owes a request at a given
/// time: a public request passes unchecked; any other is rejected for a
/// missing header, an unreadable one or one outside the bearer scheme, and
/// else stands or falls with its token.
pub open spec fn decided_at(
    is_options: bool,
    path: Seq<char>,
    header: AuthorizationHeader,
    secret: Seq<u8>,
    now: int,
    decision: GuardDecision,
) -> bool {
    if is_public(is_options, path) {
        decision is Bypass
    } else {
        match header {
            AuthorizationHeader::Missing => decision == GuardDecision::Rejected(
                Rejection::MissingHeader,
            ),
            AuthorizationHeader::Unreadable => decision == GuardDecision::Rejected(
                Rejection::InvalidHeaderValue,
            ),
            AuthorizationHeader::Value(value) => match bearer_token(value@) {
                None => decision == GuardDecision::Rejected(Rejection::InvalidFormat),
                Some(token) => match validated(secret, token, now) {
                    Some(claims) => decision matches GuardDecision::Authenticated(subject)
                        && subject@ == claims.sub,
                    None => decision == GuardDecision::Rejected(Rejection::InvalidToken),
                },
            },
        }
    }
}

impl Rejection {
    /// The text of the message that belongs to this rejection.
    pub open spec fn message_text(self) -> Seq<char> {
        match self {
            Rejection::MissingHeader => "Missing authorization header"@,
            Rejection::InvalidHeaderValue => "Invalid authorization header value"@,
            Rejection::InvalidFormat => "Invalid authorization format"@,
            Rejection::InvalidToken => "Invalid token"@,
        }
    }

    /// The message sent with the uniform unauthorized outcome.
    pub fn message(&self) -> (text: &'static str)
        ensures
            text@ == self.message_text(),
    {
        match self {
            Rejection::MissingHeader => "Missing authorization header",
            Rejection::InvalidHeaderValue => "Invalid authorization header value",
            Rejection::InvalidFormat => "Invalid authorization format",
            Rejection::InvalidToken => "Invalid token",
        }
    }
}

/// Tells whether a request passes the guard unchecked.
pub fn is_public_request(is_options: bool, path: &str) -> (public: bool)
    ensures
        public == is_public(is_options, path@),
{
    is_options || same_text(path, "/") || starts_with(path, "/web/") || starts_with(
        path,
        "/auth/",
    )
}

/// Takes the token out of a header value that uses the bearer scheme.
pub fn parse_bearer(value: &str) -> (token: Option<&str>)
    ensures
        match bearer_token(value@) {
            Some(expected) => token matches Some(found) && found@ == expected,
            None => token is None,
        },
{
    if starts_with(value, "Bearer ") {
        let scheme_len = "Bearer ".unicode_len();
        let rest = value.substring_char(scheme_len, value.unicode_len());
        assert(rest@ =~= value@.skip("Bearer "@.len() as int));
        Some(trim(rest))
    } else {
        None
    }
}

/// The guard, wrapped around the service that handles what it lets pass.
pub struct AuthenticationMiddleware<S> {
    service: Rc<S>,
}

impl<S> AuthenticationMiddleware<S> {
    /// The service that this guard protects.
    pub closed spec fn inner(&self) -> Rc<S> {
        self.service
    }

    /// Wraps a service with the guard.
    pub fn new(service: Rc<S>) -> (guard: Self)
        ensures
            guard.inner() == service,
    {
        AuthenticationMiddleware { service }
    }

    /// The service to hand a request to once the guard has let it pass.
    pub fn service(&self) -> (service: &Rc<S>)
        ensures
            *service == self.inner(),
    {
        &self.service
    }

    /// Decides the fate of a request at a given time. A public request
    /// passes unchecked. Any other needs a readable header in the bearer
    /// scheme whose token is valid under the secret at that time, and is
    /// then authenticated as the token's subject; else it is rejected.
    pub fn authorize_at(
        &self,
        is_options: bool,
        path: &str,
        header: &AuthorizationHeader,
        secret: &str,
        now: u64,
    ) -> (decision: GuardDecision)
        ensures
            decided_at(is_options, path@, *header, encode_utf8(secret@), now as int, decision),
    {
        if is_public_request(is_options, path) {
            return GuardDecision::Bypass;
        }
        let value = match header {
            AuthorizationHeader::Missing => {
                return GuardDecision::Rejected(Rejection::MissingHeader);
            },
            AuthorizationHeader::Unreadable => {
                return GuardDecision::Rejected(Rejection::InvalidHeaderValue);
            },
            AuthorizationHeader::Value(value) => value,
        };
        let token = match parse_bearer(value.as_str()) {
            Some(token) => token,
            None => {
                return GuardDecision::Rejected(Rejection::InvalidFormat);
            },
        };
        match extract_user_id_from_jwt_at(token, secret, now) {
            Ok(user_id) => GuardDecision::Authenticated(user_id),
            Err(_) => GuardDecision::Rejected(Rejection::InvalidToken),
        }
    }

    /// Decides the fate of a request at the present time. Whatever the
    /// clock reads, the decision is the one owed at some time that fits a
    /// signed 64-bit count.
    pub fn authorize(
        &self,
        is_options: bool,
        path: &str,
        header: &AuthorizationHeader,
        secret: &str,
    ) -> (decision: GuardDecision)
        ensures
            exists|now: int|
                0 <= now <= i64::MAX && #[trigger] decided_at(
                    is_options,
                    path@,
                    *header,
                    encode_utf8(secret@),
                    now,
                    decision,
                ),
    {
        let now = current_time();
        let decision = self.authorize_at(is_options, path, header, secret, now);
        assert(decided_at(
            is_options,
            path@,
            *header,
            encode_utf8(secret@),
            now as int,
            decision,
        ));
        decision
    }
}

/// Makes a guard for each service that is to be protected.
#[derive(Debug, Default)]
pub struct AuthenticationMiddlewareFactory;

impl AuthenticationMiddlewareFactory {
    /// Creates the factory.
    pub fn new() -> (factory: Self) {
        AuthenticationMiddlewareFactory
    }

    /// Wraps a service with a new guard.
    pub fn new_transform<S>(&self, service: S) -> (guard: AuthenticationMiddleware<S>)
        ensures
            *guard.inner() == service,
    {
        AuthenticationMiddleware::new(Rc::new(service))
    }
}

} // verus!
