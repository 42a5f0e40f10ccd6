use growl_auth::clock::UnixTime;
use growl_auth::application::SignUpError;
use growl_auth::dto::{AuthenticationMethodDTO, LoginStatusDTO, SignUpRequest};
use growl_auth::entities::{AuthenticationChallenge, AuthenticationUser};
use growl_auth::handlers::{login_status_reply, sign_up_method, sign_up_reply, AppState, LoginStatusBody};
use growl_auth::interface::{AuthenticationError, AuthenticationMethod};
use growl_auth::repository::RepositoryError;

#[test]
fn app_state_picks_the_validator_by_channel() {
    let state = AppState::new("auth", "repo", "ses", "sns");
    let e = AuthenticationMethod::Email { email: "a@b.c".to_string(), otp: None, session_id: None };
    let p = AuthenticationMethod::PhoneNumber { phone_number: "+1".to_string(), otp: None, session_id: None };
    let g = AuthenticationMethod::Google { id_token: "t".to_string() };
    assert_eq!(*state.otp_service_for(&e), "ses");
    assert_eq!(*state.otp_service_for(&p), "sns");
    assert_eq!(*state.otp_service_for(&g), "sns");
    assert_eq!(state.auth_service, "auth");
    assert_eq!(state.auth_repo, "repo");
}

#[test]
fn sign_up_requests_name_email_or_phone() {
    match sign_up_method(SignUpRequest::new("a@b.c".to_string(), AuthenticationMethodDTO::Email)) {
        Ok(AuthenticationMethod::Email { email, otp, session_id }) => {
            assert_eq!(email, "a@b.c");
            assert!(otp.is_none() && session_id.is_none());
        }
        other => panic!("unexpected {:?}", other),
    }
    assert!(matches!(
        sign_up_method(SignUpRequest::new("+1".to_string(), AuthenticationMethodDTO::PhoneNumber)),
        Ok(AuthenticationMethod::PhoneNumber { .. })
    ));
    match sign_up_method(SignUpRequest::new("x".to_string(), AuthenticationMethodDTO::Apple)) {
        Err(reply) => {
            assert_eq!(reply.status, 400);
            assert_eq!(reply.body.message, "Email or Phone number is required");
            assert!(reply.body.session_id.is_none());
        }
        other => panic!("unexpected {:?}", other),
    }
}

#[test]
fn sign_up_replies() {
    let m = AuthenticationMethod::Email { email: "a@b.c".to_string(), otp: None, session_id: None };
    let ok = sign_up_reply(Ok(Some(AuthenticationChallenge::new_at("sess", &m, UnixTime { seconds: 5, nanos: 0 }))));
    assert_eq!(ok.status, 200);
    assert_eq!(ok.body.session_id, Some("sess".to_string()));
    assert_eq!(ok.body.message, "Confirmation code sent successfully");
    let none = sign_up_reply(Ok(None));
    assert_eq!(none.status, 200);
    assert!(none.body.session_id.is_none());

    let bad = sign_up_reply(Err(SignUpError::Authentication(AuthenticationError::InvalidFormat(
        "Email cannot contain spaces".to_string(),
    ))));
    assert_eq!(bad.status, 400);
    assert_eq!(bad.body.message, "Sign up failed: Invalid format: Email cannot contain spaces");

    let cred = sign_up_reply(Err(SignUpError::Authentication(AuthenticationError::InvalidCredential)));
    assert_eq!(cred.status, 500);
    assert_eq!(cred.body.message, "Sign up failed: Invalid credential");
    let net = sign_up_reply(Err(SignUpError::Authentication(AuthenticationError::NetWorkError)));
    assert_eq!(net.status, 500);
    assert_eq!(net.body.message, "Sign up failed: Network error");
    let unknown = sign_up_reply(Err(SignUpError::Authentication(AuthenticationError::UserNotFound)));
    assert_eq!(unknown.status, 500);
    let unexpected = sign_up_reply(Err(SignUpError::Authentication(AuthenticationError::Unexpected("boom".to_string()))));
    assert_eq!(unexpected.status, 500);
    assert_eq!(unexpected.body.message, "Sign up failed: Unexpected error: boom");
    let repo = sign_up_reply(Err(SignUpError::Repository(RepositoryError::new("pool timed out".to_string()))));
    assert_eq!(repo.status, 500);
    assert_eq!(repo.body.message, "Sign up failed: pool timed out");
    // the status follows the text: a store failure that mentions an invalid format is a bad request
    let odd = sign_up_reply(Err(SignUpError::Repository(RepositoryError::new("Invalid format of column".to_string()))));
    assert_eq!(odd.status, 400);
}

#[test]
fn login_status_replies() {
    let u = AuthenticationUser::new("s".to_string(), "e@x.y".to_string(), "".to_string(), "email".to_string(), "authenticated".to_string());
    let r = login_status_reply(Ok(Some(u)));
    assert_eq!(r.status, 200);
    match r.body {
        LoginStatusBody::Status(s) => {
            assert_eq!(s.login_status, LoginStatusDTO::Authenticated);
            let d = s.identity.unwrap();
            assert_eq!(d.sub_id, "s");
            assert_eq!(d.email, "e@x.y");
            assert_eq!(d.role, "authenticated");
        }
        other => panic!("unexpected {:?}", other),
    }
    let r = login_status_reply(Ok(None));
    assert_eq!(r.status, 200);
    match r.body {
        LoginStatusBody::Status(s) => {
            assert_eq!(s.login_status, LoginStatusDTO::Unauthenticated);
            assert!(s.identity.is_none());
        }
        other => panic!("unexpected {:?}", other),
    }
    let r = login_status_reply(Err(RepositoryError::new("down".to_string())));
    assert_eq!(r.status, 500);
    match r.body {
        LoginStatusBody::Failure(m) => assert_eq!(m, "Failed to check login status: down"),
        other => panic!("unexpected {:?}", other),
    }
}
