use growl_auth::clock::UnixTime;
use growl_auth::cognito::{
    authenticated_response, challenge_id_token, guest_attribute_names, guest_user, jwks_fetch_error,
    map_error, otp_sent_response, refresh_call, refreshed_session, sign_in_call, subject_attribute,
    AuthFlow, AuthResult, ChallengeName, CognitoConfig, JwksFetchFailure, MessageAction, SdkFailure,
    SignInCall, UserAttribute,
};
use growl_auth::entities::{AuthenticationClaims, AuthenticationSession, AuthenticationUser};
use growl_auth::interface::{AuthenticationError, AuthenticationMethod, AuthenticationResponse};
use growl_auth::jwt::{issuer_url, jwks_endpoint, token_key_id, SigningAlgorithm};
use growl_auth::values::{Jwk, JwkSet};

fn config() -> CognitoConfig {
    CognitoConfig::new("client-1".to_string(), "ap-northeast-1".to_string(), "pool_A".to_string())
}

fn jwk(kid: &str, n: &str, e: &str) -> Jwk {
    Jwk {
        alg: "RS256".to_string(),
        e: e.to_string(),
        kid: kid.to_string(),
        kty: "RSA".to_string(),
        n: n.to_string(),
        token_use: "sig".to_string(),
    }
}

#[test]
fn sdk_failures_are_classified() {
    assert!(matches!(
        map_error(SdkFailure::Service("NotAuthorizedException { message: \"x\" }".to_string())),
        AuthenticationError::InvalidCredential
    ));
    assert!(matches!(map_error(SdkFailure::Service("CodeMismatchException".to_string())), AuthenticationError::InvalidCredential));
    assert!(matches!(map_error(SdkFailure::Service("E(ExpiredCodeException)".to_string())), AuthenticationError::InvalidCredential));
    assert!(matches!(map_error(SdkFailure::Service("UserNotFoundException".to_string())), AuthenticationError::UserNotFound));
    match map_error(SdkFailure::Service("LimitExceededException".to_string())) {
        AuthenticationError::Unexpected(m) => assert_eq!(m, "LimitExceededException"),
        other => panic!("unexpected {:?}", other),
    }
    assert!(matches!(map_error(SdkFailure::DispatchFailure), AuthenticationError::NetWorkError));
    assert!(matches!(map_error(SdkFailure::TimeoutError), AuthenticationError::NetWorkError));
    match map_error(SdkFailure::Other("ResponseError".to_string())) {
        AuthenticationError::Unexpected(m) => assert_eq!(m, "ResponseError"),
        other => panic!("unexpected {:?}", other),
    }
    // a rejected credential wins over an unknown user
    assert!(matches!(
        map_error(SdkFailure::Service("UserNotFoundException NotAuthorizedException".to_string())),
        AuthenticationError::InvalidCredential
    ));
}

#[test]
fn endpoints_name_the_pool() {
    assert_eq!(issuer_url("us-east-1", "p1"), "https://cognito-idp.us-east-1.amazonaws.com/p1");
    assert_eq!(
        jwks_endpoint("us-east-1", "p1"),
        "https://cognito-idp.us-east-1.amazonaws.com/p1/.well-known/jwks.json"
    );
    assert_eq!(
        config().jwks_endpoint(),
        "https://cognito-idp.ap-northeast-1.amazonaws.com/pool_A/.well-known/jwks.json"
    );
}

#[test]
fn token_key_id_reads_the_header() {
    let with_kid = "eyJhbGciOiJSUzI1NiIsInR5cCI6IkpXVCIsImtpZCI6ImtleS0xIn0.eyJzdWIiOiJ1MSJ9.sig";
    assert_eq!(token_key_id(with_kid).unwrap(), "key-1");
    let without_kid = "eyJhbGciOiJSUzI1NiIsInR5cCI6IkpXVCJ9.eyJzdWIiOiJ1MSJ9.sig";
    assert!(matches!(token_key_id(without_kid), Err(AuthenticationError::InvalidCredential)));
    match token_key_id("not-a-token") {
        Err(AuthenticationError::Unexpected(m)) => assert!(m.starts_with("Failed to decode JWT header: ")),
        other => panic!("unexpected {:?}", other),
    }
}

#[test]
fn token_verifier_picks_the_first_key_with_the_id() {
    let set = JwkSet { keys: vec![jwk("other", "AQAB", "AQAB"), jwk("key-1", "AQAB", "AQAB"), jwk("key-1", "@@@", "@@@")] };
    let verifier = config().token_verifier("key-1", &set).ok().unwrap();
    assert_eq!(verifier.rules.algorithm, SigningAlgorithm::RS256);
    assert_eq!(verifier.rules.audience, "client-1");
    assert_eq!(verifier.rules.issuer, "https://cognito-idp.ap-northeast-1.amazonaws.com/pool_A");
    assert!(matches!(config().token_verifier("missing", &set), Err(AuthenticationError::InvalidCredential)));
    let bad = JwkSet { keys: vec![jwk("key-1", "@@@", "AQAB")] };
    match config().token_verifier("key-1", &bad) {
        Err(AuthenticationError::Unexpected(m)) => assert_eq!(m, "Failed to construct decoding key"),
        Err(other) => panic!("unexpected {:?}", other),
        Ok(_) => panic!("expected a refused key"),
    }
    let found = set.find_key("key-1").unwrap();
    assert_eq!(found.n, "AQAB");
    assert!(set.find_key("nope").is_none());
}

#[test]
fn token_subject_of_checked_claims() {
    let claims = AuthenticationClaims {
        aud: "client-1".to_string(),
        exp: 10,
        iat: 1,
        iss: "iss".to_string(),
        nbf: 1,
        sub: "user-sub".to_string(),
    };
    assert_eq!(claims.sub_id(), "user-sub");
    assert_eq!(config().token_subject(Ok(claims)).unwrap(), "user-sub");
    assert!(matches!(config().token_subject(Err(())), Err(AuthenticationError::InvalidCredential)));
}

#[test]
fn jwks_failures_are_reported() {
    assert!(matches!(jwks_fetch_error(JwksFetchFailure::Network), AuthenticationError::NetWorkError));
    match jwks_fetch_error(JwksFetchFailure::Parse("bad json".to_string())) {
        AuthenticationError::Unexpected(m) => assert_eq!(m, "Failed to parse JWKS: bad json"),
        other => panic!("unexpected {:?}", other),
    }
}

#[test]
fn sign_in_calls_follow_the_method() {
    let start = AuthenticationMethod::Email { email: "a@b.c".to_string(), otp: None, session_id: None };
    match sign_in_call(&start).unwrap() {
        SignInCall::InitiateCustomAuth { username } => assert_eq!(username, "a@b.c"),
        other => panic!("unexpected {:?}", other),
    }
    let answer = AuthenticationMethod::PhoneNumber {
        phone_number: "+1234".to_string(),
        otp: Some("999".to_string()),
        session_id: Some("s".to_string()),
    };
    match sign_in_call(&answer).unwrap() {
        SignInCall::RespondToChallenge { username, code, auth_method, session_id } => {
            assert_eq!(username, "+1234");
            assert_eq!(code, "999");
            assert_eq!(auth_method, "phone_number");
            assert_eq!(session_id, Some("s".to_string()));
        }
        other => panic!("unexpected {:?}", other),
    }
    let social = AuthenticationMethod::Google { id_token: "t".to_string() };
    match sign_in_call(&social) {
        Err(AuthenticationError::Unexpected(m)) => assert_eq!(m, "Social login not yet implemented"),
        other => panic!("unexpected {:?}", other),
    }
}

#[test]
fn otp_sent_keeps_the_session() {
    match otp_sent_response(Some("abc".to_string())) {
        AuthenticationResponse::OtpSent { session } => assert_eq!(session, "abc"),
        other => panic!("unexpected {:?}", other),
    }
    match otp_sent_response(None) {
        AuthenticationResponse::OtpSent { session } => assert_eq!(session, ""),
        other => panic!("unexpected {:?}", other),
    }
}

fn result(refresh: Option<&str>) -> AuthResult {
    AuthResult {
        access_token: Some("acc".to_string()),
        id_token: Some("idt".to_string()),
        refresh_token: refresh.map(|r| r.to_string()),
        expires_in: 3600,
    }
}

#[test]
fn challenge_results_need_an_identity_token() {
    let (token, kept) = challenge_id_token(Some(result(Some("ref")))).unwrap();
    assert_eq!(token, "idt");
    assert_eq!(kept.access_token, Some("acc".to_string()));
    assert_eq!(kept.refresh_token, Some("ref".to_string()));
    assert!(matches!(challenge_id_token(None), Err(AuthenticationError::InvalidCredential)));
    let no_id = AuthResult { id_token: None, ..result(None) };
    assert!(matches!(challenge_id_token(Some(no_id)), Err(AuthenticationError::InvalidCredential)));
}

#[test]
fn an_answered_challenge_opens_an_authenticated_session() {
    match authenticated_response("a@b.c", "email", "sub-1".to_string(), result(Some("ref"))) {
        AuthenticationResponse::Authenticated(s) => {
            let u = s.user();
            assert_eq!(u.sub_id, "sub-1");
            assert_eq!(u.email, "a@b.c");
            assert_eq!(u.phone_number, "");
            assert_eq!(u.authentication_method, "email");
            assert_eq!(u.role, "authenticated");
            assert_eq!(s.access_token(), "acc");
            assert_eq!(s.id_token(), "idt");
            assert_eq!(s.refresh_token(), Some("ref".to_string()));
        }
        other => panic!("unexpected {:?}", other),
    }
    match authenticated_response("+1234", "phone_number", "sub-2".to_string(), AuthResult { access_token: None, ..result(None) }) {
        AuthenticationResponse::Authenticated(s) => {
            assert_eq!(s.user().email, "");
            assert_eq!(s.user().phone_number, "+1234");
            assert_eq!(s.access_token(), "");
            assert_eq!(s.refresh_token(), None);
        }
        other => panic!("unexpected {:?}", other),
    }
}

#[test]
fn guests_take_the_subject_attribute() {
    assert_eq!(guest_attribute_names(true), ("email".to_string(), "email_verified".to_string()));
    assert_eq!(guest_attribute_names(false), ("phone_number".to_string(), "phone_number_verified".to_string()));
    let attrs = vec![
        UserAttribute { name: "email".to_string(), value: Some("a@b.c".to_string()) },
        UserAttribute { name: "sub".to_string(), value: Some("sub-7".to_string()) },
        UserAttribute { name: "sub".to_string(), value: Some("later".to_string()) },
    ];
    assert_eq!(subject_attribute(&attrs), "sub-7");
    let g = guest_user("a@b.c", true, Some(attrs)).unwrap();
    assert_eq!(g.sub_id, "sub-7");
    assert_eq!(g.email, "a@b.c");
    assert_eq!(g.phone_number, "");
    assert_eq!(g.authentication_method, "AdminCreate");
    assert_eq!(g.role, "guest");
    let p = guest_user("+1234", false, Some(vec![UserAttribute { name: "sub".to_string(), value: None }])).unwrap();
    assert_eq!(p.sub_id, "");
    assert_eq!(p.phone_number, "+1234");
    assert_eq!(p.email, "");
    match guest_user("a@b.c", true, None) {
        Err(AuthenticationError::Unexpected(m)) => assert_eq!(m, "User creation failed"),
        other => panic!("unexpected {:?}", other),
    }
}

#[test]
fn refreshing_keeps_the_user() {
    let u = AuthenticationUser::new("s".to_string(), "e".to_string(), "".to_string(), "email".to_string(), "authenticated".to_string());
    let without = AuthenticationSession::new_at(u.clone(), "a".to_string(), "i".to_string(), None, 10, UnixTime { seconds: 0, nanos: 0 });
    assert!(matches!(refresh_call(&without), Err(AuthenticationError::InvalidCredential)));
    let with = AuthenticationSession::new_at(u, "a".to_string(), "i".to_string(), Some("r".to_string()), 10, UnixTime { seconds: 0, nanos: 0 });
    assert_eq!(refresh_call(&with).unwrap(), "r");
    let renewed = refreshed_session(&with, Some(result(None))).unwrap();
    assert_eq!(renewed.user().sub_id, "s");
    assert_eq!(renewed.access_token(), "acc");
    assert_eq!(renewed.refresh_token(), Some("".to_string()));
    assert!(matches!(refreshed_session(&with, None), Err(AuthenticationError::InvalidCredential)));
}

fn pair(a: &str, b: &str) -> (String, String) {
    (a.to_string(), b.to_string())
}

#[test]
fn requests_to_the_identity_provider() {
    let start = config().custom_auth_request("a@b.c");
    assert_eq!(start.auth_flow, AuthFlow::CustomAuth);
    assert_eq!(start.client_id, "client-1");
    assert_eq!(start.auth_parameters, vec![pair("USERNAME", "a@b.c")]);

    let refresh = config().refresh_request("tok");
    assert_eq!(refresh.auth_flow, AuthFlow::RefreshTokenAuth);
    assert_eq!(refresh.client_id, "client-1");
    assert_eq!(refresh.auth_parameters, vec![pair("REFRESH_TOKEN", "tok")]);

    let answer = config().challenge_answer_request("+1234", "999", Some("sess".to_string()));
    assert_eq!(answer.challenge_name, ChallengeName::CustomChallenge);
    assert_eq!(answer.client_id, "client-1");
    assert_eq!(answer.challenge_responses, vec![pair("USERNAME", "+1234"), pair("ANSWER", "999")]);
    assert_eq!(answer.session, Some("sess".to_string()));
    assert_eq!(config().challenge_answer_request("u", "c", None).session, None);

    let email = config().create_guest_request("a@b.c", true);
    assert_eq!(email.user_pool_id, "pool_A");
    assert_eq!(email.username, "a@b.c");
    assert_eq!(email.user_attributes, vec![pair("email", "a@b.c"), pair("email_verified", "true")]);
    assert_eq!(email.message_action, MessageAction::Suppress);
    let phone = config().create_guest_request("+1234", false);
    assert_eq!(phone.user_attributes, vec![pair("phone_number", "+1234"), pair("phone_number_verified", "true")]);
}

#[test]
fn key_components_must_be_canonical_base64url() {
    let accepted = |n: &str| config().token_verifier("k", &JwkSet { keys: vec![jwk("k", n, "AQAB")] }).is_ok();
    assert!(accepted("AQAB"));
    assert!(accepted(""));
    assert!(accepted("AQ")); // 'Q' leaves its low four bits clear
    assert!(!accepted("AR")); // 'R' sets a bit that no decoded byte uses
    assert!(accepted("AQA"));
    assert!(!accepted("AQB"));
    assert!(!accepted("A")); // one more than a multiple of four
    assert!(!accepted("AQ==")); // padding is refused
    assert!(!accepted("AQ+/")); // standard, not URL-safe, symbols
    assert!(accepted("-_-_"));
}
