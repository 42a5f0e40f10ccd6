//! The vocabulary shared by the authentication flows: errors, the ways a
//! user can authenticate, the identity provider's answers and the
//! user-name validators.

use vstd::prelude::*;
use crate::entities::AuthenticationSession;
use crate::text::concat2;

verus! {

/// Why an authentication step failed.
#[derive(Debug, Clone)]
pub enum AuthenticationError {
    InvalidFormat(String),
    InvalidCredential,
    UserNotFound,
    NetWorkError,
    Unexpected(String),
}

/// An [`AuthenticationError`] with its messages taken as character sequences.
pub enum AuthenticationErrorView {
    InvalidFormat(Seq<char>),
    InvalidCredential,
    UserNotFound,
    NetWorkError,
    Unexpected(Seq<char>),
}

impl View for AuthenticationError {
    type V = AuthenticationErrorView;

    open spec fn view(&self) -> AuthenticationErrorView {
        match self {
            AuthenticationError::InvalidFormat(m) => AuthenticationErrorView::InvalidFormat(m@),
            AuthenticationError::InvalidCredential => AuthenticationErrorView::InvalidCredential,
            AuthenticationError::UserNotFound => AuthenticationErrorView::UserNotFound,
            AuthenticationError::NetWorkError => AuthenticationErrorView::NetWorkError,
            AuthenticationError::Unexpected(m) => AuthenticationErrorView::Unexpected(m@),
        }
    }
}

/// The human-readable text of an error.
pub open spec fn error_text(e: AuthenticationErrorView) -> Seq<char> {
    match e {
        AuthenticationErrorView::InvalidFormat(m) => "Invalid format: "@ + m,
        AuthenticationErrorView::InvalidCredential => "Invalid credential"@,
        AuthenticationErrorView::UserNotFound => "User not found"@,
        AuthenticationErrorView::NetWorkError => "Network error"@,
        AuthenticationErrorView::Unexpected(m) => "Unexpected error: "@ + m,
    }
}

/// An `Ok(())` or an error, taken by its view.
pub open spec fn unit_result_view(r: Result<(), AuthenticationError>) -> Result<(), AuthenticationErrorView> {
    match r {
        Ok(()) => Ok(()),
        Err(e) => Err(e@),
    }
}

impl AuthenticationError {
    /// The error as text, the form in which it is reported to clients.
    pub fn to_string(&self) -> (res: String)
        ensures
            res@ == error_text(self@),
    {
        match self {
            AuthenticationError::InvalidFormat(m) => concat2("Invalid format: ", m.as_str()),
            AuthenticationError::InvalidCredential => "Invalid credential".to_owned(),
            AuthenticationError::UserNotFound => "User not found".to_owned(),
            AuthenticationError::NetWorkError => "Network error".to_owned(),
            AuthenticationError::Unexpected(m) => concat2("Unexpected error: ", m.as_str()),
        }
    }

    /// An `InvalidFormat` error with the given reason.
    pub fn invalid_format(reason: &str) -> (res: Self)
        ensures
            res@ == AuthenticationErrorView::InvalidFormat(reason@),
    {
        AuthenticationError::InvalidFormat(reason.to_owned())
    }

    /// An `Unexpected` error with the given detail.
    pub fn unexpected(detail: &str) -> (res: Self)
        ensures
            res@ == AuthenticationErrorView::Unexpected(detail@),
    {
        AuthenticationError::Unexpected(detail.to_owned())
    }
}

/// How a user identifies themself. Email and phone-number sign-ins are
/// passwordless: the first request carries no `otp`, and the second carries
/// the one-time password together with the session id of the challenge.
#[derive(Debug, Clone)]
pub enum AuthenticationMethod {
    Email { email: String, otp: Option<String>, session_id: Option<String> },
    PhoneNumber { phone_number: String, otp: Option<String>, session_id: Option<String> },
    Google { id_token: String },
    Apple { id_token: String },
}

impl AuthenticationMethod {
    /// The user name that the method names, for email and phone-number methods.
    pub open spec fn spec_user_name(&self) -> Option<Seq<char>> {
        match self {
            AuthenticationMethod::Email { email, .. } => Some(email@),
            AuthenticationMethod::PhoneNumber { phone_number, .. } => Some(phone_number@),
            _ => None,
        }
    }

    pub fn is_email(&self) -> (res: bool)
        ensures
            res == (*self is Email),
    {
        match self {
            AuthenticationMethod::Email { .. } => true,
            _ => false,
        }
    }

    pub fn is_phone_number(&self) -> (res: bool)
        ensures
            res == (*self is PhoneNumber),
    {
        match self {
            AuthenticationMethod::PhoneNumber { .. } => true,
            _ => false,
        }
    }

    /// Whether the method is one of the two one-time-password methods.
    pub open spec fn is_otp_method(&self) -> bool {
        self is Email || self is PhoneNumber
    }
}

/// What the identity provider answers a sign-in: a session, or the
/// notice that a one-time password was sent under a session id.
#[derive(Debug, Clone)]
pub enum AuthenticationResponse {
    Authenticated(AuthenticationSession),
    OtpSent { session: String },
}

/// A validator of user names (email addresses or phone numbers) that the
/// one-time-password flows send codes to.
pub trait OTPService {
    /// What validating `user_name` gives: `Ok` or the error.
    spec fn validation_outcome(&self, user_name: Seq<char>) -> Result<(), AuthenticationErrorView>;

    /// Checks the format of `user_name`.
    fn validation_user_name(&self, user_name: &str) -> (res: Result<(), AuthenticationError>)
        ensures
            unit_result_view(res) == self.validation_outcome(user_name@),
    ;
}

} // verus!
