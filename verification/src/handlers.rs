//! The decisions of the HTTP handlers: which method a request names,
//! which validator serves it, and what status and body each outcome is
//! answered with.

use vstd::prelude::*;
use crate::application::{sign_up_error_text, SignUpError};
use crate::dto::{
    shows_user, AuthenticationMethodDTO, LoginStatusDTO, LoginStatusResponse, SignUpRequest,
    SignUpResponse, UserIdentityDTO,
};
use crate::entities::{AuthenticationChallenge, AuthenticationUser};
use crate::interface::{AuthenticationErrorView, AuthenticationMethod};
use crate::repository::RepositoryError;
use crate::text::{chars_contain, chars_of, concat2, has_substring, occurs_at};

verus! {

/// The services and stores that the handlers share: the identity
/// provider, the user store, and the validators for email addresses and
/// for phone numbers.
pub struct AppState<A, R, O> {
    pub auth_service: A,
    pub auth_repo: R,
    pub otp_service_ses: O,
    pub otp_service_sns: O,
}

impl<A, R, O> AppState<A, R, O> {
    pub fn new(auth_service: A, auth_repo: R, otp_service_ses: O, otp_service_sns: O) -> (res: Self)
        ensures
            res.auth_service == auth_service,
            res.auth_repo == auth_repo,
            res.otp_service_ses == otp_service_ses,
            res.otp_service_sns == otp_service_sns,
    {
        AppState { auth_service, auth_repo, otp_service_ses, otp_service_sns }
    }

    /// The validator for the method: email addresses go to SES, all else to SNS.
    pub fn otp_service_for(&self, method: &AuthenticationMethod) -> (res: &O)
        ensures
            *res == if *method is Email { self.otp_service_ses } else { self.otp_service_sns },
    {
        match method {
            AuthenticationMethod::Email { .. } => &self.otp_service_ses,
            _ => &self.otp_service_sns,
        }
    }
}

/// An HTTP status and the body of the answer to a sign-up request.
#[derive(Debug, Clone)]
pub struct SignUpReply {
    pub status: u16,
    pub body: SignUpResponse,
}

/// The method a sign-up request names: its user name as email address or
/// phone number, with no code and no session yet. Other methods are
/// refused with 400 (Bad Request).
pub fn sign_up_method(payload: SignUpRequest) -> (res: Result<AuthenticationMethod, SignUpReply>)
    ensures
        match payload.method {
            AuthenticationMethodDTO::Email => res == Ok::<AuthenticationMethod, SignUpReply>(
                AuthenticationMethod::Email { email: payload.user_name, otp: None, session_id: None }),
            AuthenticationMethodDTO::PhoneNumber => res == Ok::<AuthenticationMethod, SignUpReply>(
                AuthenticationMethod::PhoneNumber { phone_number: payload.user_name, otp: None, session_id: None }),
            _ => res matches Err(r) && r.status == 400 && r.body.session_id is None
                && r.body.message@ == "Email or Phone number is required"@,
        },
{
    match payload.method {
        AuthenticationMethodDTO::Email => Ok(AuthenticationMethod::Email { email: payload.user_name, otp: None, session_id: None }),
        AuthenticationMethodDTO::PhoneNumber => Ok(AuthenticationMethod::PhoneNumber {
            phone_number: payload.user_name,
            otp: None,
            session_id: None,
        }),
        _ => Err(SignUpReply {
            status: 400,
            body: SignUpResponse::new(None, "Email or Phone number is required".to_owned()),
        }),
    }
}

/// The status a sign-up failure is answered with: 400 (Bad Request) when
/// its text mentions an invalid format, 500 (Internal Server Error) otherwise.
pub open spec fn sign_up_failure_status(e: SignUpError) -> u16 {
    if has_substring(sign_up_error_text(e), "Invalid format"@) {
        400
    } else {
        500
    }
}

/// The answer to a sign-up: 200 with the challenge's session id (if a
/// challenge was started), or the failure's status with its text.
pub fn sign_up_reply(result: Result<Option<AuthenticationChallenge>, SignUpError>) -> (res: SignUpReply)
    ensures
        match result {
            Ok(challenge) => {
                &&& res.status == 200
                &&& res.body.message@ == "Confirmation code sent successfully"@
                &&& match challenge {
                    Some(c) => res.body.session_id matches Some(s) && s@ == c.spec_session_id(),
                    None => res.body.session_id is None,
                }
            },
            Err(e) => {
                &&& res.status == sign_up_failure_status(e)
                &&& res.body.session_id is None
                &&& res.body.message@ == "Sign up failed: "@ + sign_up_error_text(e)
            },
        },
{
    match result {
        Ok(challenge) => {
            let session_id = match challenge {
                Some(c) => Some(c.session_id()),
                None => None,
            };
            SignUpReply {
                status: 200,
                body: SignUpResponse::new(session_id, "Confirmation code sent successfully".to_owned()),
            }
        },
        Err(e) => {
            let text = e.to_string();
            let chars = chars_of(text.as_str());
            let marker = chars_of("Invalid format");
            let status: u16 = if chars_contain(&chars, &marker) { 400 } else { 500 };
            SignUpReply {
                status,
                body: SignUpResponse::new(None, concat2("Sign up failed: ", text.as_str())),
            }
        },
    }
}

/// A sign-up refused because the user name is malformed is answered with
/// 400 (Bad Request).
pub proof fn lemma_invalid_format_is_bad_request(reason: Seq<char>, e: SignUpError)
    requires
        e matches SignUpError::Authentication(a) && a@ == AuthenticationErrorView::InvalidFormat(reason),
    ensures
        sign_up_failure_status(e) == 400,
{
    let text = sign_up_error_text(e);
    reveal_strlit("Invalid format: ");
    reveal_strlit("Invalid format");
    assert(text == "Invalid format: "@ + reason);
    assert(text.subrange(0, 14) =~= "Invalid format"@);
    assert(occurs_at(text, "Invalid format"@, 0));
}

/// A refused credential, an unknown user and a network failure are
/// answered with 500 (Internal Server Error).
pub proof fn lemma_other_refusals_are_server_errors(e: SignUpError)
    requires
        e matches SignUpError::Authentication(a) && (a@ == AuthenticationErrorView::InvalidCredential
            || a@ == AuthenticationErrorView::UserNotFound || a@ == AuthenticationErrorView::NetWorkError),
    ensures
        sign_up_failure_status(e) == 500,
{
    let text = sign_up_error_text(e);
    let marker = "Invalid format"@;
    reveal_strlit("Invalid format");
    reveal_strlit("Invalid credential");
    reveal_strlit("User not found");
    reveal_strlit("Network error");
    assert forall|i: int| !occurs_at(text, marker, i) by {
        if occurs_at(text, marker, i) {
            if i == 0 && text == "Invalid credential"@ {
                assert(text.subrange(0, 14)[8] == text[8]);
            } else {
                assert(text.subrange(i, i + 14)[0] == text[i]);
            }
        }
    }
}

/// The answer to a login-status request: its status, and either the
/// status body or the failure's text.
#[derive(Debug, Clone)]
pub enum LoginStatusBody {
    Status(LoginStatusResponse),
    Failure(String),
}

/// An HTTP status and the body of the answer to a login-status request.
#[derive(Debug, Clone)]
pub struct LoginStatusReply {
    pub status: u16,
    pub body: LoginStatusBody,
}

/// The answer to a login-status request, given what the login-status use
/// case found: 200 with the logged-in user, 200 with no user when none is
/// logged in, or 500 with the store's failure.
pub fn login_status_reply(status: Result<Option<AuthenticationUser>, RepositoryError>) -> (res: LoginStatusReply)
    ensures
        match status {
            Ok(Some(user)) => {
                &&& res.status == 200
                &&& res.body matches LoginStatusBody::Status(r) && r.login_status == LoginStatusDTO::Authenticated
                    && (r.identity matches Some(d) && shows_user(d, user))
            },
            Ok(None) => {
                &&& res.status == 200
                &&& res.body matches LoginStatusBody::Status(r) && r.login_status == LoginStatusDTO::Unauthenticated
                    && r.identity is None
            },
            Err(e) => {
                &&& res.status == 500
                &&& res.body matches LoginStatusBody::Failure(m) && m@ == "Failed to check login status: "@ + e.message@
            },
        },
{
    match status {
        Ok(Some(user)) => LoginStatusReply {
            status: 200,
            body: LoginStatusBody::Status(LoginStatusResponse {
                login_status: LoginStatusDTO::Authenticated,
                identity: Some(UserIdentityDTO::from_user(user)),
            }),
        },
        Ok(None) => LoginStatusReply {
            status: 200,
            body: LoginStatusBody::Status(LoginStatusResponse {
                login_status: LoginStatusDTO::Unauthenticated,
                identity: None,
            }),
        },
        Err(e) => LoginStatusReply {
            status: 500,
            body: LoginStatusBody::Failure(concat2("Failed to check login status: ", e.message.as_str())),
        },
    }
}

} // verus!
