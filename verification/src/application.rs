//! The sign-up, sign-in and login-status use cases. Each alternates calls
//! to the identity provider or the user store (made by the caller) with
//! decisions; the decisions are the step functions here. A caller starts a
//! flow with its `Started` event, performs each action the step returns,
//! and reports the outcome as the next event, until the step returns
//! `Finish`.

use vstd::prelude::*;
use crate::clock::{NANOS_PER_SECOND, TIMESTAMP_BOUND};
use crate::entities::{otp_method_name, AuthenticationChallenge, AuthenticationSession, AuthenticationUser};
use crate::interface::{
    error_text, AuthenticationError, AuthenticationErrorView, AuthenticationMethod,
    AuthenticationResponse, OTPService,
};
use crate::repository::RepositoryError;

verus! {

/// Why sign-up failed: the identity provider (or the user-name check)
/// refused, or the user store failed.
#[derive(Debug, Clone)]
pub enum SignUpError {
    Authentication(AuthenticationError),
    Repository(RepositoryError),
}

/// The text of a sign-up failure.
pub open spec fn sign_up_error_text(e: SignUpError) -> Seq<char> {
    match e {
        SignUpError::Authentication(a) => error_text(a@),
        SignUpError::Repository(r) => r.message@,
    }
}

impl SignUpError {
    /// The failure as text.
    pub fn to_string(&self) -> (res: String)
        ensures
            res@ == sign_up_error_text(*self),
    {
        match self {
            SignUpError::Authentication(a) => a.to_string(),
            SignUpError::Repository(r) => r.to_string(),
        }
    }
}

/// What the sign-up flow asks its caller to do next.
#[derive(Debug)]
pub enum SignUpAction {
    /// Look the method's user name up in the user store.
    FindUser,
    /// Create a guest account for the method at the identity provider.
    CreateGuest,
    /// Record the created guest in the user store.
    InsertGuest(AuthenticationUser),
    /// Ask the identity provider to send a one-time password.
    RequestOtp,
    /// The flow is over: the challenge to answer, if any, or the failure.
    Finish(Result<Option<AuthenticationChallenge>, SignUpError>),
}

/// What the caller reports to the sign-up flow.
#[derive(Debug)]
pub enum SignUpEvent {
    /// The flow begins.
    Started,
    /// The user store answered the lookup.
    UserLookedUp(Result<Option<AuthenticationUser>, RepositoryError>),
    /// The identity provider answered the account creation.
    GuestCreated(Result<AuthenticationUser, AuthenticationError>),
    /// The user store answered the insertion of the guest.
    GuestInserted(Result<(), RepositoryError>),
    /// The identity provider answered the one-time-password request.
    OtpRequested(Result<AuthenticationResponse, AuthenticationError>),
}

/// What validating the method's user name gives (only email and phone
/// methods have user names to validate).
pub open spec fn name_validation<O: OTPService + ?Sized>(method: AuthenticationMethod, otp_service: &O) -> Result<(), AuthenticationErrorView> {
    match method.spec_user_name() {
        Some(name) => otp_service.validation_outcome(name),
        None => Ok(()),
    }
}

/// Once the account exists: a one-time-password method has its user name
/// validated and, if it passes, a code requested; another method finishes
/// with no challenge.
pub open spec fn after_account_ready(method: AuthenticationMethod, validation: Result<(), AuthenticationErrorView>, action: SignUpAction) -> bool {
    if method.is_otp_method() {
        match validation {
            Ok(()) => action is RequestOtp,
            Err(e) => action matches SignUpAction::Finish(Err(SignUpError::Authentication(a))) && a@ == e,
        }
    } else {
        action matches SignUpAction::Finish(Ok(None))
    }
}

/// The sign-up step: `action` is what follows `event` for `method`, where
/// `validation` is what the user name's check gives.
pub open spec fn sign_up_step_spec(
    method: AuthenticationMethod,
    validation: Result<(), AuthenticationErrorView>,
    event: SignUpEvent,
    action: SignUpAction,
) -> bool {
    match event {
        SignUpEvent::Started => action is FindUser,
        SignUpEvent::UserLookedUp(Err(e)) => action matches SignUpAction::Finish(Err(SignUpError::Repository(r))) && r == e,
        SignUpEvent::UserLookedUp(Ok(Some(_))) => after_account_ready(method, validation, action),
        SignUpEvent::UserLookedUp(Ok(None)) => action is CreateGuest,
        SignUpEvent::GuestCreated(Err(e)) => action matches SignUpAction::Finish(Err(SignUpError::Authentication(a))) && a == e,
        SignUpEvent::GuestCreated(Ok(user)) => action matches SignUpAction::InsertGuest(g) && g == user,
        SignUpEvent::GuestInserted(Err(e)) => action matches SignUpAction::Finish(Err(SignUpError::Repository(r))) && r == e,
        SignUpEvent::GuestInserted(Ok(())) => after_account_ready(method, validation, action),
        SignUpEvent::OtpRequested(Err(e)) => action matches SignUpAction::Finish(Err(SignUpError::Authentication(a))) && a == e,
        SignUpEvent::OtpRequested(Ok(AuthenticationResponse::OtpSent { session })) => if method.is_otp_method() {
            action matches SignUpAction::Finish(Ok(Some(c))) && c.spec_session_id() == session@
                && c.spec_authentication_method() == otp_method_name(method)
                && 0 <= c.spec_created_at().seconds <= TIMESTAMP_BOUND
                && c.spec_created_at().nanos < NANOS_PER_SECOND
        } else {
            action matches SignUpAction::Finish(Ok(None))
        },
        SignUpEvent::OtpRequested(Ok(AuthenticationResponse::Authenticated(_))) => action matches SignUpAction::Finish(Ok(None)),
    }
}

/// Whether a lookup found the user.
pub fn already_exist_user(lookup: &Result<Option<AuthenticationUser>, RepositoryError>) -> (res: Result<bool, RepositoryError>)
    ensures
        match lookup {
            Ok(found) => res == Ok::<bool, RepositoryError>(found is Some),
            Err(e) => res == Err::<bool, RepositoryError>(*e),
        },
{
    match lookup {
        Ok(found) => Ok(found.is_some()),
        Err(e) => Err(RepositoryError::new(crate::text::copy_string(&e.message))),
    }
}

/// Validates the user name of a one-time-password method and, if it
/// passes, asks for a code; other methods finish without a challenge.
fn account_ready<O: OTPService + ?Sized>(method: &AuthenticationMethod, otp_service: &O) -> (res: SignUpAction)
    ensures
        after_account_ready(*method, name_validation(*method, otp_service), res),
{
    let name = match method {
        AuthenticationMethod::Email { email, .. } => email,
        AuthenticationMethod::PhoneNumber { phone_number, .. } => phone_number,
        _ => {
            return SignUpAction::Finish(Ok(None));
        },
    };
    match otp_service.validation_user_name(name.as_str()) {
        Ok(()) => SignUpAction::RequestOtp,
        Err(e) => SignUpAction::Finish(Err(SignUpError::Authentication(e))),
    }
}

/// One step of sign-up: registers the user as a guest if they are not
/// known yet, validates the user name with `otp_service`, and starts a
/// one-time-password challenge for it.
pub fn sign_up<O: OTPService + ?Sized>(method: &AuthenticationMethod, otp_service: &O, event: SignUpEvent) -> (res: SignUpAction)
    ensures
        sign_up_step_spec(*method, name_validation(*method, otp_service), event, res),
{
    match event {
        SignUpEvent::Started => SignUpAction::FindUser,
        SignUpEvent::UserLookedUp(lookup) => match already_exist_user(&lookup) {
            Err(e) => SignUpAction::Finish(Err(SignUpError::Repository(e))),
            Ok(true) => account_ready(method, otp_service),
            Ok(false) => SignUpAction::CreateGuest,
        },
        SignUpEvent::GuestCreated(Err(e)) => SignUpAction::Finish(Err(SignUpError::Authentication(e))),
        SignUpEvent::GuestCreated(Ok(user)) => SignUpAction::InsertGuest(user),
        SignUpEvent::GuestInserted(Err(e)) => SignUpAction::Finish(Err(SignUpError::Repository(e))),
        SignUpEvent::GuestInserted(Ok(())) => account_ready(method, otp_service),
        SignUpEvent::OtpRequested(Err(e)) => SignUpAction::Finish(Err(SignUpError::Authentication(e))),
        SignUpEvent::OtpRequested(Ok(AuthenticationResponse::OtpSent { session })) => {
            if method.is_email() || method.is_phone_number() {
                SignUpAction::Finish(Ok(Some(AuthenticationChallenge::new(session.as_str(), method))))
            } else {
                SignUpAction::Finish(Ok(None))
            }
        },
        SignUpEvent::OtpRequested(Ok(AuthenticationResponse::Authenticated(_))) => SignUpAction::Finish(Ok(None)),
    }
}

/// Sign-up finishes with a challenge only when the identity provider has
/// sent a one-time password for an email or phone-number method, and the
/// challenge carries the provider's session id.
pub proof fn lemma_sign_up_challenge_only_after_otp_sent(
    method: AuthenticationMethod,
    validation: Result<(), AuthenticationErrorView>,
    event: SignUpEvent,
    action: SignUpAction,
)
    requires
        sign_up_step_spec(method, validation, event, action),
        action matches SignUpAction::Finish(Ok(Some(_))),
    ensures
        method.is_otp_method(),
        event matches SignUpEvent::OtpRequested(Ok(AuthenticationResponse::OtpSent { session }))
            && action matches SignUpAction::Finish(Ok(Some(c))) && c.spec_session_id() == session@,
{
}

/// Sign-up asks for a one-time password only for an email or phone-number
/// method whose user name passed validation, once the account exists.
pub proof fn lemma_sign_up_requests_otp_only_for_valid_names(
    method: AuthenticationMethod,
    validation: Result<(), AuthenticationErrorView>,
    event: SignUpEvent,
    action: SignUpAction,
)
    requires
        sign_up_step_spec(method, validation, event, action),
        action is RequestOtp,
    ensures
        method.is_otp_method(),
        validation is Ok,
        event matches SignUpEvent::UserLookedUp(Ok(Some(_))) || event matches SignUpEvent::GuestInserted(Ok(())),
{
}

/// Sign-up creates a guest account only for a user that the store does not know.
pub proof fn lemma_sign_up_creates_guest_only_for_new_users(
    method: AuthenticationMethod,
    validation: Result<(), AuthenticationErrorView>,
    event: SignUpEvent,
    action: SignUpAction,
)
    requires
        sign_up_step_spec(method, validation, event, action),
        action is CreateGuest,
    ensures
        event matches SignUpEvent::UserLookedUp(Ok(None)),
{
}

/// `event` is the caller's report on performing `action`.
pub open spec fn answers(action: SignUpAction, event: SignUpEvent) -> bool {
    match action {
        SignUpAction::FindUser => event is UserLookedUp,
        SignUpAction::CreateGuest => event is GuestCreated,
        SignUpAction::InsertGuest(_) => event is GuestInserted,
        SignUpAction::RequestOtp => event is OtpRequested,
        SignUpAction::Finish(_) => false,
    }
}

/// How many calls at most remain before sign-up finishes after `action`.
pub open spec fn calls_left(action: SignUpAction) -> nat {
    match action {
        SignUpAction::FindUser => 4,
        SignUpAction::CreateGuest => 3,
        SignUpAction::InsertGuest(_) => 2,
        SignUpAction::RequestOtp => 1,
        SignUpAction::Finish(_) => 0,
    }
}

/// Each answered call brings sign-up closer to its end: from the start it
/// finishes after at most four calls (lookup, account creation, insertion
/// and code request), whatever the answers are.
pub proof fn lemma_sign_up_progresses(
    method: AuthenticationMethod,
    validation: Result<(), AuthenticationErrorView>,
    previous: SignUpAction,
    event: SignUpEvent,
    next: SignUpAction,
)
    requires
        answers(previous, event),
        sign_up_step_spec(method, validation, event, next),
    ensures
        calls_left(next) < calls_left(previous),
{
}

/// The first step of sign-up leaves at most four calls.
pub proof fn lemma_sign_up_starts_with_four_calls_left(
    method: AuthenticationMethod,
    validation: Result<(), AuthenticationErrorView>,
    next: SignUpAction,
)
    requires
        sign_up_step_spec(method, validation, SignUpEvent::Started, next),
    ensures
        calls_left(next) == 4,
{
}

/// What the sign-in flow asks its caller to do next.
#[derive(Debug)]
pub enum SignInAction {
    /// Sign in at the identity provider with the method.
    CallService,
    /// The flow is over: the session, if one was opened, or the failure.
    Finish(Result<Option<AuthenticationSession>, AuthenticationError>),
}

/// What the caller reports to the sign-in flow.
#[derive(Debug)]
pub enum SignInEvent {
    Started,
    ServiceAnswered(Result<AuthenticationResponse, AuthenticationError>),
}

/// A sign-in with email or phone number needs both the one-time password
/// and the challenge's session id; other methods go to the provider as they are.
pub open spec fn sign_in_complete(method: AuthenticationMethod) -> bool {
    match method {
        AuthenticationMethod::Email { otp, session_id, .. } => otp is Some && session_id is Some,
        AuthenticationMethod::PhoneNumber { otp, session_id, .. } => otp is Some && session_id is Some,
        _ => true,
    }
}

/// One step of sign-in: an incomplete email or phone sign-in finishes with
/// no session without calling the provider; otherwise the provider's
/// session, if it opened one, is the result.
pub fn sign_in(method: &AuthenticationMethod, event: SignInEvent) -> (res: SignInAction)
    ensures
        match event {
            SignInEvent::Started => if sign_in_complete(*method) {
                res is CallService
            } else {
                res matches SignInAction::Finish(Ok(None))
            },
            SignInEvent::ServiceAnswered(Ok(AuthenticationResponse::Authenticated(s))) =>
                res matches SignInAction::Finish(Ok(Some(t))) && t == s,
            SignInEvent::ServiceAnswered(Ok(AuthenticationResponse::OtpSent { .. })) =>
                res matches SignInAction::Finish(Ok(None)),
            SignInEvent::ServiceAnswered(Err(e)) => res matches SignInAction::Finish(Err(x)) && x == e,
        },
{
    match event {
        SignInEvent::Started => {
            let complete = match method {
                AuthenticationMethod::Email { otp, session_id, .. } => otp.is_some() && session_id.is_some(),
                AuthenticationMethod::PhoneNumber { otp, session_id, .. } => otp.is_some() && session_id.is_some(),
                _ => true,
            };
            if complete {
                SignInAction::CallService
            } else {
                SignInAction::Finish(Ok(None))
            }
        },
        SignInEvent::ServiceAnswered(Ok(AuthenticationResponse::Authenticated(s))) => SignInAction::Finish(Ok(Some(s))),
        SignInEvent::ServiceAnswered(Ok(AuthenticationResponse::OtpSent { .. })) => SignInAction::Finish(Ok(None)),
        SignInEvent::ServiceAnswered(Err(e)) => SignInAction::Finish(Err(e)),
    }
}

/// The login status of the user that the store found: only a user with
/// the `authenticated` role is logged in.
pub fn get_login_status(lookup: Result<Option<AuthenticationUser>, RepositoryError>)
    -> (res: Result<Option<AuthenticationUser>, RepositoryError>)
    ensures
        match lookup {
            Ok(Some(u)) => if u.role@ == "authenticated"@ {
                res == Ok::<Option<AuthenticationUser>, RepositoryError>(Some(u))
            } else {
                res == Ok::<Option<AuthenticationUser>, RepositoryError>(None)
            },
            Ok(None) => res == Ok::<Option<AuthenticationUser>, RepositoryError>(None),
            Err(e) => res == Err::<Option<AuthenticationUser>, RepositoryError>(e),
        },
{
    match lookup {
        Ok(Some(user)) => {
            if crate::text::str_equal(user.role.as_str(), "authenticated") {
                Ok(Some(user))
            } else {
                Ok(None)
            }
        },
        Ok(None) => Ok(None),
        Err(e) => Err(e),
    }
}

} // verus!
