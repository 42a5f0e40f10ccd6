use growl_auth::clock::UnixTime;
use growl_auth::dto::{
    AuthenticationMethodDTO, AuthenticationSessionDTO, SignUpResponse, UserIdentityDTO,
    VerificationCodeRequest, VerificationCodeResponse,
};
use growl_auth::entities::{AuthenticationChallenge, AuthenticationSession, AuthenticationUser};
use growl_auth::interface::{AuthenticationError, AuthenticationMethod};
use growl_auth::repository::{username_lookup, username_query, users_from_row, UserIdentityRow, UsernameColumn};
use growl_auth::sms::{app_name_or_default, forward_message, forward_publish_result, forward_subject, forward_topic};

fn now_secs() -> i64 {
    std::time::SystemTime::now().duration_since(std::time::UNIX_EPOCH).unwrap().as_secs() as i64
}

fn user() -> AuthenticationUser {
    AuthenticationUser::new("s1".to_string(), "a@b.c".to_string(), "".to_string(), "email".to_string(), "guest".to_string())
}

#[test]
fn user_new_keeps_its_fields() {
    let u = user();
    assert_eq!(u.sub_id, "s1");
    assert_eq!(u.email, "a@b.c");
    assert_eq!(u.phone_number, "");
    assert_eq!(u.authentication_method, "email");
    assert_eq!(u.role, "guest");
}

#[test]
fn a_session_expires_after_its_lifetime() {
    let s = AuthenticationSession::new_at(user(), "a".to_string(), "i".to_string(), Some("r".to_string()), 3600, UnixTime { seconds: 1_700_000_000, nanos: 250 });
    assert_eq!(s.expired_at(), UnixTime { seconds: 1_700_003_600, nanos: 250 });
    assert_eq!(s.identity().sub_id, "s1");
    assert_eq!(s.refresh_token(), Some("r".to_string()));
    let before = now_secs();
    let fresh = AuthenticationSession::new(user(), "a".to_string(), "i".to_string(), None, 60);
    let after = now_secs();
    assert!(fresh.expired_at().seconds >= before + 60 && fresh.expired_at().seconds <= after + 60);
    assert!(fresh.expired_at().nanos < 1_000_000_000);
}

#[test]
fn challenges_record_their_channel() {
    let e = AuthenticationMethod::Email { email: "a@b.c".to_string(), otp: None, session_id: None };
    let c = AuthenticationChallenge::new_at("sess", &e, UnixTime { seconds: 42, nanos: 7 });
    assert_eq!(c.session_id(), "sess");
    assert_eq!(c.authentication_method(), "email");
    assert_eq!(c.created_at(), UnixTime { seconds: 42, nanos: 7 });
    let p = AuthenticationMethod::PhoneNumber { phone_number: "+1".to_string(), otp: None, session_id: None };
    let before = now_secs();
    let c = AuthenticationChallenge::new("s2", &p);
    assert_eq!(c.authentication_method(), "phone_number");
    assert!(c.created_at().seconds >= before && c.created_at().seconds <= now_secs());
}

#[test]
fn errors_read_as_text() {
    assert_eq!(AuthenticationError::InvalidFormat("x".to_string()).to_string(), "Invalid format: x");
    assert_eq!(AuthenticationError::InvalidCredential.to_string(), "Invalid credential");
    assert_eq!(AuthenticationError::UserNotFound.to_string(), "User not found");
    assert_eq!(AuthenticationError::NetWorkError.to_string(), "Network error");
    assert_eq!(AuthenticationError::Unexpected("y".to_string()).to_string(), "Unexpected error: y");
}

#[test]
fn dtos_show_the_session() {
    let d = UserIdentityDTO::new("s", "e", "p", "m", "r");
    assert_eq!((d.sub_id.as_str(), d.email.as_str(), d.phone_number.as_str()), ("s", "e", "p"));
    let sd = AuthenticationSessionDTO::new(&d, "acc", "idt", &None, UnixTime { seconds: 99, nanos: 1 });
    assert_eq!(sd.identity.role, "r");
    assert_eq!(sd.expired_at, UnixTime { seconds: 99, nanos: 1 });
    let s = AuthenticationSession::new_at(user(), "acc".to_string(), "idt".to_string(), Some("ref".to_string()), 10, UnixTime { seconds: 5, nanos: 3 });
    let v = VerificationCodeResponse::new(s);
    assert_eq!(v.session.identity.sub_id, "s1");
    assert_eq!(v.session.identity.email, "a@b.c");
    assert_eq!(v.session.access_token, "acc");
    assert_eq!(v.session.id_token, "idt");
    assert_eq!(v.session.refresh_token, Some("ref".to_string()));
    assert_eq!(v.session.expired_at, UnixTime { seconds: 15, nanos: 3 });
    let r = SignUpResponse::new(Some("x".to_string()), "m".to_string());
    assert_eq!(r.session_id, Some("x".to_string()));
    let q = VerificationCodeRequest::new("123".to_string(), "u".to_string(), "sid".to_string(), AuthenticationMethodDTO::Email);
    assert_eq!(q.otp(), "123");
    assert_eq!(q.user_name(), "u");
    assert_eq!(q.session_id(), "sid");
    assert_eq!(q.method(), AuthenticationMethodDTO::Email);
}

#[test]
fn rows_and_lookups() {
    let row = UserIdentityRow::new("s".to_string(), "e".to_string(), "p".to_string(), "m".to_string(), "r".to_string());
    assert_eq!(row.sub_id(), "s");
    assert_eq!(row.email(), "e");
    assert_eq!(row.phone_number(), "p");
    assert_eq!(row.authentication_method(), "m");
    assert_eq!(row.role(), "r");
    let u = users_from_row(Some(row)).unwrap();
    assert_eq!(u.role, "r");
    assert!(users_from_row(None).is_none());
    let e = AuthenticationMethod::Email { email: "a@b.c".to_string(), otp: None, session_id: None };
    assert_eq!(username_lookup(&e), Some((UsernameColumn::Email, "a@b.c".to_string())));
    let p = AuthenticationMethod::PhoneNumber { phone_number: "+1".to_string(), otp: None, session_id: None };
    assert_eq!(username_lookup(&p), Some((UsernameColumn::PhoneNumber, "+1".to_string())));
    assert_eq!(username_lookup(&AuthenticationMethod::Apple { id_token: "t".to_string() }), None);
    assert_eq!(
        username_query(UsernameColumn::PhoneNumber),
        "SELECT sub_id, email, phone_number, authentication_method, role FROM user_identities WHERE phone_number = $1"
    );
}

#[test]
fn otp_forwarding_text() {
    assert_eq!(app_name_or_default(None), "GROWL");
    assert_eq!(app_name_or_default(Some("APP".to_string())), "APP");
    assert_eq!(
        forward_message("GROWL", "a@b.c"),
        "[GROWL] OTP request received for identifier: a@b.c. Please verify the identity if needed."
    );
    assert_eq!(forward_subject("GROWL"), "[GROWL] OTP Forwarding Notification");
    assert_eq!(forward_topic(Some("arn".to_string())).unwrap(), "arn");
    match forward_topic(None) {
        Err(AuthenticationError::Unexpected(m)) => assert_eq!(m, "Forwarding configuration missing"),
        other => panic!("unexpected {:?}", other),
    }
    assert!(forward_publish_result(Ok(())).is_ok());
    assert!(matches!(forward_publish_result(Err(())), Err(AuthenticationError::NetWorkError)));
}
