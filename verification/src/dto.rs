//! The shapes of the HTTP API's requests and responses.

use vstd::prelude::*;
use crate::clock::UnixTime;
use crate::entities::{AuthenticationSession, AuthenticationUser};
use crate::text::{copy_opt_string, copy_string};

verus! {

/// The ways a client can ask to sign up or sign in.
#[derive(Debug, Clone, Copy, PartialEq, Eq, Structural)]
pub enum AuthenticationMethodDTO {
    Email,
    PhoneNumber,
    Google,
    Apple,
}

/// A user as the API shows them.
#[derive(Debug, Clone)]
pub struct UserIdentityDTO {
    pub sub_id: String,
    pub email: String,
    pub phone_number: String,
    pub authentication_method: String,
    pub role: String,
}

/// `dto` shows the user `user`.
pub open spec fn shows_user(dto: UserIdentityDTO, user: AuthenticationUser) -> bool {
    &&& dto.sub_id@ == user.sub_id@
    &&& dto.email@ == user.email@
    &&& dto.phone_number@ == user.phone_number@
    &&& dto.authentication_method@ == user.authentication_method@
    &&& dto.role@ == user.role@
}

impl UserIdentityDTO {
    pub fn new(
        sub_id: &str,
        email: &str,
        phone_number: &str,
        authentication_method: &str,
        role: &str,
    ) -> (res: Self)
        ensures
            res.sub_id@ == sub_id@,
            res.email@ == email@,
            res.phone_number@ == phone_number@,
            res.authentication_method@ == authentication_method@,
            res.role@ == role@,
    {
        UserIdentityDTO {
            sub_id: sub_id.to_owned(),
            email: email.to_owned(),
            phone_number: phone_number.to_owned(),
            authentication_method: authentication_method.to_owned(),
            role: role.to_owned(),
        }
    }

    /// The API's view of a user.
    pub fn from_user(user: AuthenticationUser) -> (res: Self)
        ensures
            shows_user(res, user),
    {
        UserIdentityDTO {
            sub_id: user.sub_id,
            email: user.email,
            phone_number: user.phone_number,
            authentication_method: user.authentication_method,
            role: user.role,
        }
    }

    /// A field-by-field copy.
    pub fn duplicate(&self) -> (res: Self)
        ensures
            res == *self,
    {
        UserIdentityDTO {
            sub_id: copy_string(&self.sub_id),
            email: copy_string(&self.email),
            phone_number: copy_string(&self.phone_number),
            authentication_method: copy_string(&self.authentication_method),
            role: copy_string(&self.role),
        }
    }
}

/// A session as the API shows it.
#[derive(Debug, Clone)]
pub struct AuthenticationSessionDTO {
    pub identity: UserIdentityDTO,
    pub access_token: String,
    pub id_token: String,
    pub refresh_token: Option<String>,
    pub expired_at: UnixTime,
}

impl AuthenticationSessionDTO {
    pub fn new(
        identity: &UserIdentityDTO,
        access_token: &str,
        id_token: &str,
        refresh_token: &Option<String>,
        expires_at: UnixTime,
    ) -> (res: Self)
        ensures
            res.identity == *identity,
            res.access_token@ == access_token@,
            res.id_token@ == id_token@,
            res.refresh_token == *refresh_token,
            res.expired_at == expires_at,
    {
        AuthenticationSessionDTO {
            identity: identity.duplicate(),
            access_token: access_token.to_owned(),
            id_token: id_token.to_owned(),
            refresh_token: copy_opt_string(refresh_token),
            expired_at: expires_at,
        }
    }
}

/// Whether a user is logged in.
#[derive(Debug, Clone, Copy, PartialEq, Eq, Structural)]
pub enum LoginStatusDTO {
    Authenticated,
    Unauthenticated,
}

/// The answer to a login-status request.
#[derive(Debug, Clone)]
pub struct LoginStatusResponse {
    pub login_status: LoginStatusDTO,
    pub identity: Option<UserIdentityDTO>,
}

/// A sign-up request: the user name and how it is to be reached.
#[derive(Debug, Clone)]
pub struct SignUpRequest {
    pub user_name: String,
    pub method: AuthenticationMethodDTO,
}

impl SignUpRequest {
    pub fn new(user_name: String, method: AuthenticationMethodDTO) -> (res: Self)
        ensures
            res.user_name == user_name,
            res.method == method,
    {
        SignUpRequest { user_name, method }
    }
}

/// The answer to a one-time-password challenge.
#[derive(Debug, Clone)]
pub struct VerificationCodeRequest {
    otp: String,
    user_name: String,
    session_id: String,
    method: AuthenticationMethodDTO,
}

impl VerificationCodeRequest {
    pub closed spec fn spec_otp(&self) -> String {
        self.otp
    }

    pub closed spec fn spec_user_name(&self) -> String {
        self.user_name
    }

    pub closed spec fn spec_session_id(&self) -> String {
        self.session_id
    }

    pub closed spec fn spec_method(&self) -> AuthenticationMethodDTO {
        self.method
    }

    pub fn new(otp: String, user_name: String, session_id: String, method: AuthenticationMethodDTO) -> (res: Self)
        ensures
            res.spec_otp() == otp,
            res.spec_user_name() == user_name,
            res.spec_session_id() == session_id,
            res.spec_method() == method,
    {
        VerificationCodeRequest { otp, user_name, session_id, method }
    }

    pub fn otp(&self) -> (res: String)
        ensures
            res == self.spec_otp(),
    {
        copy_string(&self.otp)
    }

    pub fn user_name(&self) -> (res: String)
        ensures
            res == self.spec_user_name(),
    {
        copy_string(&self.user_name)
    }

    pub fn session_id(&self) -> (res: String)
        ensures
            res == self.spec_session_id(),
    {
        copy_string(&self.session_id)
    }

    pub fn method(&self) -> (res: AuthenticationMethodDTO)
        ensures
            res == self.spec_method(),
    {
        self.method
    }
}

/// The answer to a sign-up request: the challenge's session id, if one
/// was started, and a message.
#[derive(Debug, Clone)]
pub struct SignUpResponse {
    pub session_id: Option<String>,
    pub message: String,
}

impl SignUpResponse {
    pub fn new(session_id: Option<String>, message: String) -> (res: Self)
        ensures
            res.session_id == session_id,
            res.message == message,
    {
        SignUpResponse { session_id, message }
    }
}

/// The answer to a verified one-time password: the opened session.
#[derive(Debug, Clone)]
pub struct VerificationCodeResponse {
    pub session: AuthenticationSessionDTO,
}

impl VerificationCodeResponse {
    /// Shows the session: its user, tokens and expiry.
    pub fn new(session: AuthenticationSession) -> (res: Self)
        ensures
            shows_user(res.session.identity, session.spec_user()),
            res.session.access_token@ == session.spec_access_token()@,
            res.session.id_token@ == session.spec_id_token()@,
            res.session.refresh_token == session.spec_refresh_token(),
            res.session.expired_at == session.spec_expired_at(),
    {
        let identity = session.identity();
        let identity_dto = UserIdentityDTO::new(
            identity.sub_id.as_str(),
            identity.email.as_str(),
            identity.phone_number.as_str(),
            identity.authentication_method.as_str(),
            identity.role.as_str(),
        );
        let access_token = session.access_token();
        let id_token = session.id_token();
        let refresh_token = session.refresh_token();
        let session_dto = AuthenticationSessionDTO::new(
            &identity_dto,
            access_token.as_str(),
            id_token.as_str(),
            &refresh_token,
            session.expired_at(),
        );
        VerificationCodeResponse { session: session_dto }
    }
}

} // verus!
