use gameshop::jwt::{generate_jwt, generate_jwt_at};
use gameshop::middleware::{
    is_public_request, parse_bearer, AuthenticationMiddleware, AuthenticationMiddlewareFactory,
    AuthorizationHeader, GuardDecision, Rejection,
};
use std::rc::Rc;

const JWT_SECRET: &str = "secret";

fn guard() -> AuthenticationMiddleware<u32> {
    AuthenticationMiddlewareFactory::new().new_transform(7)
}

fn bearer(token: &str) -> AuthorizationHeader {
    AuthorizationHeader::Value(format!("Bearer {}", token))
}

#[test]
fn test_authentication_middleware_valid_token() {
    let user_id = "test_user";
    let token = generate_jwt(user_id.to_string(), JWT_SECRET).unwrap();
    let decision = guard().authorize(false, "/test", &bearer(&token), JWT_SECRET);
    assert_eq!(decision, GuardDecision::Authenticated("test_user".to_string()));
}

#[test]
fn test_authentication_middleware_invalid_token() {
    let header = AuthorizationHeader::Value("Bearer invalid_token".to_string());
    let decision = guard().authorize(false, "/test", &header, JWT_SECRET);
    assert_eq!(decision, GuardDecision::Rejected(Rejection::InvalidToken));
}

#[test]
fn test_authentication_middleware_missing_token() {
    let decision =
        guard().authorize(false, "/test", &AuthorizationHeader::Missing, JWT_SECRET);
    assert_eq!(decision, GuardDecision::Rejected(Rejection::MissingHeader));
}

#[test]
fn guard_keeps_the_service_it_wraps() {
    let service = Rc::new(String::from("service"));
    let wrapped = AuthenticationMiddleware::new(service.clone());
    assert!(Rc::ptr_eq(wrapped.service(), &service));
    assert_eq!(**guard().service(), 7);
}

#[test]
fn public_requests_pass_unchecked() {
    let guard = guard();
    let missing = AuthorizationHeader::Missing;
    for path in ["/", "/web/", "/web/index.html", "/auth/login", "/auth/register", "/auth/"] {
        assert_eq!(guard.authorize(false, path, &missing, JWT_SECRET), GuardDecision::Bypass);
    }
    assert_eq!(guard.authorize(true, "/api/offers", &missing, JWT_SECRET), GuardDecision::Bypass);
    let bad = AuthorizationHeader::Value("Bearer invalid_token".to_string());
    assert_eq!(guard.authorize(false, "/auth/login", &bad, JWT_SECRET), GuardDecision::Bypass);
}

#[test]
fn allow_list_is_exact() {
    assert!(is_public_request(false, "/"));
    assert!(is_public_request(false, "/web/app.js"));
    assert!(is_public_request(false, "/auth/login"));
    assert!(is_public_request(true, "/api/user/change-password"));
    assert!(!is_public_request(false, ""));
    assert!(!is_public_request(false, "/web"));
    assert!(!is_public_request(false, "/auth"));
    assert!(!is_public_request(false, "/api/auth/login"));
    assert!(!is_public_request(false, "/Web/index.html"));
    assert!(!is_public_request(false, "/test"));
    assert!(!is_public_request(false, "//"));
}

#[test]
fn protected_request_without_header_is_rejected() {
    for path in ["/api/offers", "/web", "/test", ""] {
        assert_eq!(
            guard().authorize_at(false, path, &AuthorizationHeader::Missing, JWT_SECRET, 0),
            GuardDecision::Rejected(Rejection::MissingHeader)
        );
    }
}

#[test]
fn unreadable_header_is_rejected() {
    assert_eq!(
        guard().authorize_at(false, "/test", &AuthorizationHeader::Unreadable, JWT_SECRET, 0),
        GuardDecision::Rejected(Rejection::InvalidHeaderValue)
    );
}

#[test]
fn header_outside_the_bearer_scheme_is_rejected() {
    let token = generate_jwt_at("u".to_string(), JWT_SECRET, 1_700_000_000).unwrap();
    let values = [
        token.clone(),
        format!("bearer {}", token),
        format!("Bearer{}", token),
        format!(" Bearer {}", token),
        format!("Basic {}", token),
        "Bearer".to_string(),
        String::new(),
    ];
    for value in values {
        assert_eq!(
            guard().authorize_at(
                false,
                "/test",
                &AuthorizationHeader::Value(value),
                JWT_SECRET,
                1_700_000_000
            ),
            GuardDecision::Rejected(Rejection::InvalidFormat)
        );
    }
}

#[test]
fn valid_token_authenticates_its_subject() {
    let token = generate_jwt_at("user-42".to_string(), JWT_SECRET, 1_700_000_000).unwrap();
    assert_eq!(
        guard().authorize_at(false, "/api/offers", &bearer(&token), JWT_SECRET, 1_700_000_500),
        GuardDecision::Authenticated("user-42".to_string())
    );
}

#[test]
fn whitespace_around_the_token_is_ignored() {
    let token = generate_jwt_at("user-42".to_string(), JWT_SECRET, 1_700_000_000).unwrap();
    let header = AuthorizationHeader::Value(format!("Bearer   {} \t", token));
    assert_eq!(
        guard().authorize_at(false, "/api/offers", &header, JWT_SECRET, 1_700_000_500),
        GuardDecision::Authenticated("user-42".to_string())
    );
}

#[test]
fn expired_or_foreign_token_is_rejected() {
    let token = generate_jwt_at("user-42".to_string(), JWT_SECRET, 1_700_000_000).unwrap();
    assert_eq!(
        guard().authorize_at(false, "/api/offers", &bearer(&token), JWT_SECRET, 1_700_086_401),
        GuardDecision::Rejected(Rejection::InvalidToken)
    );
    assert_eq!(
        guard().authorize_at(false, "/api/offers", &bearer(&token), "other", 1_700_000_500),
        GuardDecision::Rejected(Rejection::InvalidToken)
    );
    assert_eq!(
        guard().authorize_at(false, "/api/offers", &bearer(""), JWT_SECRET, 1_700_000_500),
        GuardDecision::Rejected(Rejection::InvalidToken)
    );
}

#[test]
fn parse_bearer_takes_the_trimmed_token() {
    assert_eq!(parse_bearer("Bearer abc"), Some("abc"));
    assert_eq!(parse_bearer("Bearer  abc  "), Some("abc"));
    assert_eq!(parse_bearer("Bearer "), Some(""));
    assert_eq!(parse_bearer("Bearer a b"), Some("a b"));
    assert_eq!(parse_bearer("Bearer"), None);
    assert_eq!(parse_bearer("bearer abc"), None);
    assert_eq!(parse_bearer(""), None);
}

#[test]
fn rejections_have_their_messages() {
    assert_eq!(Rejection::MissingHeader.message(), "Missing authorization header");
    assert_eq!(Rejection::InvalidHeaderValue.message(), "Invalid authorization header value");
    assert_eq!(Rejection::InvalidFormat.message(), "Invalid authorization format");
    assert_eq!(Rejection::InvalidToken.message(), "Invalid token");
}

#[test]
fn default_factory_makes_the_same_guard() {
    let guard = AuthenticationMiddlewareFactory::default().new_transform(7u32);
    assert_eq!(**guard.service(), 7);
    assert_eq!(
        guard.authorize_at(false, "/test", &AuthorizationHeader::Missing, JWT_SECRET, 0),
        GuardDecision::Rejected(Rejection::MissingHeader)
    );
}
