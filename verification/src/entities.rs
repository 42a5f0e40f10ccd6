//! The entities of authentication: users, sessions, token claims and
//! one-time-password challenges.

use vstd::prelude::*;
use crate::clock::{current_unix_time, UnixTime, NANOS_PER_SECOND, TIMESTAMP_BOUND};
use crate::interface::AuthenticationMethod;
use crate::text::{copy_opt_string, copy_string};

verus! {

/// A user as the identity provider and the user store know them.
#[derive(Debug, Clone)]
pub struct AuthenticationUser {
    pub sub_id: String,
    pub email: String,
    pub phone_number: String,
    pub authentication_method: String,
    pub role: String,
}

impl AuthenticationUser {
    pub fn new(
        sub_id: String,
        email: String,
        phone_number: String,
        authentication_method: String,
        role: String,
    ) -> (res: Self)
        ensures
            res.sub_id == sub_id,
            res.email == email,
            res.phone_number == phone_number,
            res.authentication_method == authentication_method,
            res.role == role,
    {
        AuthenticationUser { sub_id, email, phone_number, authentication_method, role }
    }

    /// A field-by-field copy.
    pub fn duplicate(&self) -> (res: Self)
        ensures
            res == *self,
    {
        AuthenticationUser {
            sub_id: copy_string(&self.sub_id),
            email: copy_string(&self.email),
            phone_number: copy_string(&self.phone_number),
            authentication_method: copy_string(&self.authentication_method),
            role: copy_string(&self.role),
        }
    }
}

/// A signed-in user with the tokens the identity provider issued, valid
/// until `expired_at`.
#[derive(Debug, Clone)]
pub struct AuthenticationSession {
    user: AuthenticationUser,
    access_token: String,
    id_token: String,
    refresh_token: Option<String>,
    expired_at: UnixTime,
}

impl AuthenticationSession {
    pub closed spec fn spec_user(&self) -> AuthenticationUser {
        self.user
    }

    pub closed spec fn spec_access_token(&self) -> String {
        self.access_token
    }

    pub closed spec fn spec_id_token(&self) -> String {
        self.id_token
    }

    pub closed spec fn spec_refresh_token(&self) -> Option<String> {
        self.refresh_token
    }

    pub closed spec fn spec_expired_at(&self) -> UnixTime {
        self.expired_at
    }

    /// A session issued at `now` that lasts `expires_in` seconds.
    pub fn new_at(
        user: AuthenticationUser,
        access_token: String,
        id_token: String,
        refresh_token: Option<String>,
        expires_in: i32,
        now: UnixTime,
    ) -> (res: Self)
        requires
            -TIMESTAMP_BOUND <= now.seconds <= TIMESTAMP_BOUND,
        ensures
            res.spec_user() == user,
            res.spec_access_token() == access_token,
            res.spec_id_token() == id_token,
            res.spec_refresh_token() == refresh_token,
            res.spec_expired_at().seconds == now.seconds + expires_in,
            res.spec_expired_at().nanos == now.nanos,
    {
        let expired_at = UnixTime { seconds: now.seconds + expires_in as i64, nanos: now.nanos };
        AuthenticationSession { user, access_token, id_token, refresh_token, expired_at }
    }

    /// A session issued now that lasts `expires_in` seconds.
    pub fn new(
        user: AuthenticationUser,
        access_token: String,
        id_token: String,
        refresh_token: Option<String>,
        expires_in: i32,
    ) -> (res: Self)
        ensures
            res.spec_user() == user,
            res.spec_access_token() == access_token,
            res.spec_id_token() == id_token,
            res.spec_refresh_token() == refresh_token,
            0 <= res.spec_expired_at().seconds - expires_in <= TIMESTAMP_BOUND,
            res.spec_expired_at().nanos < NANOS_PER_SECOND,
    {
        let now = current_unix_time();
        Self::new_at(user, access_token, id_token, refresh_token, expires_in, now)
    }

    /// The signed-in user.
    pub fn user(&self) -> (res: AuthenticationUser)
        ensures
            res == self.spec_user(),
    {
        self.user.duplicate()
    }

    /// The signed-in user (the same as [`Self::user`]).
    pub fn identity(&self) -> (res: AuthenticationUser)
        ensures
            res == self.spec_user(),
    {
        self.user.duplicate()
    }

    pub fn access_token(&self) -> (res: String)
        ensures
            res == self.spec_access_token(),
    {
        copy_string(&self.access_token)
    }

    pub fn id_token(&self) -> (res: String)
        ensures
            res == self.spec_id_token(),
    {
        copy_string(&self.id_token)
    }

    /// The refresh token, where the identity provider issued one.
    pub fn refresh_token(&self) -> (res: Option<String>)
        ensures
            res == self.spec_refresh_token(),
    {
        copy_opt_string(&self.refresh_token)
    }

    /// When the session expires.
    pub fn expired_at(&self) -> (res: UnixTime)
        ensures
            res == self.spec_expired_at(),
    {
        self.expired_at
    }
}

/// The claims of a verified identity token.
#[derive(Debug, Clone)]
pub struct AuthenticationClaims {
    pub aud: String,
    pub exp: usize,
    pub iat: usize,
    pub iss: String,
    pub nbf: usize,
    pub sub: String,
}

impl AuthenticationClaims {
    /// The subject: the user's id at the identity provider.
    pub fn sub_id(&self) -> (res: String)
        ensures
            res == self.sub,
    {
        copy_string(&self.sub)
    }
}

/// The name under which a one-time-password method is recorded.
pub open spec fn otp_method_name(method: AuthenticationMethod) -> Seq<char> {
    match method {
        AuthenticationMethod::Email { .. } => "email"@,
        _ => "phone_number"@,
    }
}

/// A pending one-time-password challenge: the identity provider's session
/// id, when it was issued, and the channel the code went through.
#[derive(Debug, Clone)]
pub struct AuthenticationChallenge {
    session_id: String,
    created_at: UnixTime,
    authentication_method: String,
}

impl AuthenticationChallenge {
    pub closed spec fn spec_session_id(&self) -> Seq<char> {
        self.session_id@
    }

    pub closed spec fn spec_created_at(&self) -> UnixTime {
        self.created_at
    }

    pub closed spec fn spec_authentication_method(&self) -> Seq<char> {
        self.authentication_method@
    }

    /// A challenge for `method` issued at `now`. Only the email and
    /// phone-number methods have challenges.
    pub fn new_at(session_id: &str, method: &AuthenticationMethod, now: UnixTime) -> (res: Self)
        requires
            method.is_otp_method(),
        ensures
            res.spec_session_id() == session_id@,
            res.spec_authentication_method() == otp_method_name(*method),
            res.spec_created_at() == now,
    {
        let authentication_method = match method {
            AuthenticationMethod::Email { .. } => "email".to_owned(),
            _ => "phone_number".to_owned(),
        };
        AuthenticationChallenge {
            session_id: session_id.to_owned(),
            created_at: now,
            authentication_method,
        }
    }

    /// A challenge for `method` issued now. Only the email and phone-number
    /// methods have challenges.
    pub fn new(session_id: &str, method: &AuthenticationMethod) -> (res: Self)
        requires
            method.is_otp_method(),
        ensures
            res.spec_session_id() == session_id@,
            res.spec_authentication_method() == otp_method_name(*method),
            0 <= res.spec_created_at().seconds <= TIMESTAMP_BOUND,
            res.spec_created_at().nanos < NANOS_PER_SECOND,
    {
        let now = current_unix_time();
        Self::new_at(session_id, method, now)
    }

    pub fn session_id(&self) -> (res: String)
        ensures
            res@ == self.spec_session_id(),
    {
        copy_string(&self.session_id)
    }

    pub fn created_at(&self) -> (res: UnixTime)
        ensures
            res == self.spec_created_at(),
    {
        self.created_at
    }

    pub fn authentication_method(&self) -> (res: String)
        ensures
            res@ == self.spec_authentication_method(),
    {
        copy_string(&self.authentication_method)
    }
}

} // verus!
