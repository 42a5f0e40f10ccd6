//! The decisions of the Cognito-backed authentication service: which call
//! a request becomes, and what each answer of the identity provider
//! becomes. The calls themselves go over the network and are made by the
//! caller.

use vstd::prelude::*;
use crate::clock::{current_unix_time, UnixTime, NANOS_PER_SECOND, TIMESTAMP_BOUND};
use crate::entities::{AuthenticationClaims, AuthenticationSession, AuthenticationUser};
use crate::interface::{
    AuthenticationError, AuthenticationErrorView, AuthenticationMethod,
};
use crate::jwt::{
    issuer_text, jwks_endpoint, rsa_key_of, jwks_endpoint_text, SigningAlgorithm, sub_from_verified_claims, token_key_id,
    token_verifier, verifier_outcome, TokenVerifier, key_id_outcome, string_result_view,
};
use crate::text::{chars_contain, chars_of, concat2, copy_string, has_substring, str_equal};
use crate::values::{first_key_with_id, JwkSet};

verus! {

/// The app client and user pool that the service signs users into.
pub struct CognitoConfig {
    pub client_id: String,
    pub region: String,
    pub pool_id: String,
}

impl CognitoConfig {
    pub fn new(client_id: String, region: String, pool_id: String) -> (res: Self)
        ensures
            res.client_id == client_id,
            res.region == region,
            res.pool_id == pool_id,
    {
        CognitoConfig { client_id, region, pool_id }
    }

    /// Where the pool's signing keys are published.
    pub fn jwks_endpoint(&self) -> (res: String)
        ensures
            res@ == jwks_endpoint_text(self.region@, self.pool_id@),
    {
        jwks_endpoint(self.region.as_str(), self.pool_id.as_str())
    }

    /// The key id of an identity token: the first step of reading its subject.
    pub fn token_key_id(&self, id_token: &str) -> (res: Result<String, AuthenticationError>)
        ensures
            string_result_view(res) == key_id_outcome(id_token@),
    {
        token_key_id(id_token)
    }

    /// The key and validation rules for a token signed with `kid`: the
    /// second step, once the key set has been fetched. The rules name this
    /// app client as audience and the pool's issuer URL as issuer.
    pub fn token_verifier(&self, kid: &str, jwks: &JwkSet) -> (res: Result<TokenVerifier, AuthenticationError>)
        ensures
            match res {
                Ok(v) => {
                    &&& verifier_outcome(kid@, jwks.keys@) == Ok::<(), AuthenticationErrorView>(())
                    &&& exists|i: int| first_key_with_id(jwks.keys@, kid@, i)
                        && v.key == rsa_key_of(jwks.keys@[i].n@, jwks.keys@[i].e@)
                    &&& v.rules.algorithm == SigningAlgorithm::RS256
                    &&& v.rules.audience@ == self.client_id@
                    &&& v.rules.issuer@ == issuer_text(self.region@, self.pool_id@)
                },
                Err(e) => verifier_outcome(kid@, jwks.keys@) == Err::<(), AuthenticationErrorView>(e@),
            },
    {
        token_verifier(kid, jwks, self.client_id.as_str(), self.region.as_str(), self.pool_id.as_str())
    }

    /// The subject of a checked token: the last step.
    pub fn token_subject(&self, checked: Result<AuthenticationClaims, ()>) -> (res: Result<String, AuthenticationError>)
        ensures
            match checked {
                Ok(claims) => res == Ok::<String, AuthenticationError>(claims.sub),
                Err(()) => res is Err && res->Err_0@ == AuthenticationErrorView::InvalidCredential,
            },
    {
        sub_from_verified_claims(checked)
    }
}

/// The authentication flows that an `InitiateAuth` request starts.
#[derive(Debug, Clone, Copy, PartialEq, Eq, Structural)]
pub enum AuthFlow {
    /// The passwordless flow whose challenge is a one-time password.
    CustomAuth,
    /// Renewal of a session with its refresh token.
    RefreshTokenAuth,
}

/// An `InitiateAuth` request: the flow, the app client and the flow's
/// parameters by name.
#[derive(Debug, Clone)]
pub struct InitiateAuthRequest {
    pub auth_flow: AuthFlow,
    pub client_id: String,
    pub auth_parameters: Vec<(String, String)>,
}

/// The challenges that a `RespondToAuthChallenge` request answers.
#[derive(Debug, Clone, Copy, PartialEq, Eq, Structural)]
pub enum ChallengeName {
    CustomChallenge,
}

/// A `RespondToAuthChallenge` request: the challenge, the app client, the
/// answers by name and the session of the challenge.
#[derive(Debug, Clone)]
pub struct ChallengeAnswerRequest {
    pub challenge_name: ChallengeName,
    pub client_id: String,
    pub challenge_responses: Vec<(String, String)>,
    pub session: Option<String>,
}

/// What the identity provider does with the welcome message of a created user.
#[derive(Debug, Clone, Copy, PartialEq, Eq, Structural)]
pub enum MessageAction {
    /// Send no message.
    Suppress,
}

/// An `AdminCreateUser` request: the pool, the user name, the attributes
/// by name and value, and what becomes of the welcome message.
#[derive(Debug, Clone)]
pub struct CreateUserRequest {
    pub user_pool_id: String,
    pub username: String,
    pub user_attributes: Vec<(String, String)>,
    pub message_action: MessageAction,
}

/// `pairs` holds exactly the one pair (`name`, `value`), taken by views.
pub open spec fn is_single_pair(pairs: Seq<(String, String)>, name: Seq<char>, value: Seq<char>) -> bool {
    &&& pairs.len() == 1
    &&& pairs[0].0@ == name
    &&& pairs[0].1@ == value
}

impl CognitoConfig {
    /// The request that starts the passwordless flow for `username`: the
    /// custom flow of this app client, with the user name as `USERNAME`.
    pub fn custom_auth_request(&self, username: &str) -> (res: InitiateAuthRequest)
        ensures
            res.auth_flow == AuthFlow::CustomAuth,
            res.client_id == self.client_id,
            is_single_pair(res.auth_parameters@, "USERNAME"@, username@),
    {
        let mut auth_parameters: Vec<(String, String)> = Vec::new();
        auth_parameters.push(("USERNAME".to_owned(), username.to_owned()));
        InitiateAuthRequest { auth_flow: AuthFlow::CustomAuth, client_id: copy_string(&self.client_id), auth_parameters }
    }

    /// The request that renews a session: the refresh-token flow of this
    /// app client, with the token as `REFRESH_TOKEN`.
    pub fn refresh_request(&self, refresh_token: &str) -> (res: InitiateAuthRequest)
        ensures
            res.auth_flow == AuthFlow::RefreshTokenAuth,
            res.client_id == self.client_id,
            is_single_pair(res.auth_parameters@, "REFRESH_TOKEN"@, refresh_token@),
    {
        let mut auth_parameters: Vec<(String, String)> = Vec::new();
        auth_parameters.push(("REFRESH_TOKEN".to_owned(), refresh_token.to_owned()));
        InitiateAuthRequest {
            auth_flow: AuthFlow::RefreshTokenAuth,
            client_id: copy_string(&self.client_id),
            auth_parameters,
        }
    }

    /// The request that answers the custom challenge of `session` for
    /// `username` with `code`: the user name as `USERNAME` and the code as
    /// `ANSWER`, for this app client.
    pub fn challenge_answer_request(&self, username: &str, code: &str, session: Option<String>) -> (res: ChallengeAnswerRequest)
        ensures
            res.challenge_name == ChallengeName::CustomChallenge,
            res.client_id == self.client_id,
            res.challenge_responses@.len() == 2,
            res.challenge_responses@[0].0@ == "USERNAME"@,
            res.challenge_responses@[0].1@ == username@,
            res.challenge_responses@[1].0@ == "ANSWER"@,
            res.challenge_responses@[1].1@ == code@,
            res.session == session,
    {
        let mut challenge_responses: Vec<(String, String)> = Vec::new();
        challenge_responses.push(("USERNAME".to_owned(), username.to_owned()));
        challenge_responses.push(("ANSWER".to_owned(), code.to_owned()));
        ChallengeAnswerRequest {
            challenge_name: ChallengeName::CustomChallenge,
            client_id: copy_string(&self.client_id),
            challenge_responses,
            session,
        }
    }

    /// The request that creates `username` as a user of the pool without a
    /// password: the user name as email address (`is_email`) or phone number,
    /// marked verified, and no welcome message.
    pub fn create_guest_request(&self, username: &str, is_email: bool) -> (res: CreateUserRequest)
        ensures
            res.user_pool_id == self.pool_id,
            res.username@ == username@,
            res.user_attributes@.len() == 2,
            res.user_attributes@[0].0@ == (if is_email { "email"@ } else { "phone_number"@ }),
            res.user_attributes@[0].1@ == username@,
            res.user_attributes@[1].0@ == (if is_email { "email_verified"@ } else { "phone_number_verified"@ }),
            res.user_attributes@[1].1@ == "true"@,
            res.message_action == MessageAction::Suppress,
    {
        let (attr_name, verified_attr_name) = guest_attribute_names(is_email);
        let mut user_attributes: Vec<(String, String)> = Vec::new();
        user_attributes.push((attr_name, username.to_owned()));
        user_attributes.push((verified_attr_name, "true".to_owned()));
        CreateUserRequest {
            user_pool_id: copy_string(&self.pool_id),
            username: username.to_owned(),
            user_attributes,
            message_action: MessageAction::Suppress,
        }
    }
}

/// How a call to the identity provider's SDK failed.
#[derive(Debug, Clone)]
pub enum SdkFailure {
    /// The service answered with an error; the text is its `Debug` form.
    Service(String),
    /// The request could not be sent.
    DispatchFailure,
    /// The request timed out.
    TimeoutError,
    /// Any other failure; the text is its `Debug` form.
    Other(String),
}

/// The error that an SDK failure is reported as.
pub open spec fn sdk_failure_error(f: SdkFailure) -> AuthenticationErrorView {
    match f {
        SdkFailure::Service(s) => {
            if has_substring(s@, "NotAuthorizedException"@) || has_substring(s@, "CodeMismatchException"@)
                || has_substring(s@, "ExpiredCodeException"@) {
                AuthenticationErrorView::InvalidCredential
            } else if has_substring(s@, "UserNotFoundException"@) {
                AuthenticationErrorView::UserNotFound
            } else {
                AuthenticationErrorView::Unexpected(s@)
            }
        },
        SdkFailure::DispatchFailure => AuthenticationErrorView::NetWorkError,
        SdkFailure::TimeoutError => AuthenticationErrorView::NetWorkError,
        SdkFailure::Other(s) => AuthenticationErrorView::Unexpected(s@),
    }
}

/// Classifies an SDK failure: rejected credentials or codes, unknown
/// users, network trouble, or anything else.
pub fn map_error(failure: SdkFailure) -> (res: AuthenticationError)
    ensures
        res@ == sdk_failure_error(failure),
{
    match failure {
        SdkFailure::Service(s) => {
            let chars = chars_of(s.as_str());
            let a = chars_of("NotAuthorizedException");
            let b = chars_of("CodeMismatchException");
            let c = chars_of("ExpiredCodeException");
            let d = chars_of("UserNotFoundException");
            if chars_contain(&chars, &a) || chars_contain(&chars, &b) || chars_contain(&chars, &c) {
                AuthenticationError::InvalidCredential
            } else if chars_contain(&chars, &d) {
                AuthenticationError::UserNotFound
            } else {
                AuthenticationError::Unexpected(s)
            }
        },
        SdkFailure::DispatchFailure => AuthenticationError::NetWorkError,
        SdkFailure::TimeoutError => AuthenticationError::NetWorkError,
        SdkFailure::Other(s) => AuthenticationError::Unexpected(s),
    }
}

/// How fetching the key set failed.
#[derive(Debug, Clone)]
pub enum JwksFetchFailure {
    /// The endpoint could not be reached.
    Network,
    /// The answer was not a key set; the text is the parse error's `Debug` form.
    Parse(String),
}

/// The error that a failed key-set fetch is reported as.
pub fn jwks_fetch_error(failure: JwksFetchFailure) -> (res: AuthenticationError)
    ensures
        res@ == match failure {
            JwksFetchFailure::Network => AuthenticationErrorView::NetWorkError,
            JwksFetchFailure::Parse(d) => AuthenticationErrorView::Unexpected("Failed to parse JWKS: "@ + d@),
        },
{
    match failure {
        JwksFetchFailure::Network => AuthenticationError::NetWorkError,
        JwksFetchFailure::Parse(d) => AuthenticationError::Unexpected(concat2("Failed to parse JWKS: ", d.as_str())),
    }
}

/// The call that a sign-in request becomes.
#[derive(Debug, Clone)]
pub enum SignInCall {
    /// Start the custom (passwordless) flow: the provider sends a code.
    InitiateCustomAuth { username: String },
    /// Answer the custom challenge with the code the user received.
    RespondToChallenge { username: String, code: String, auth_method: String, session_id: Option<String> },
}

/// What [`sign_in_call`] makes of a method: the call, by its parts as
/// character sequences, or the error for methods that cannot sign in.
pub open spec fn sign_in_call_matches(method: AuthenticationMethod, res: Result<SignInCall, AuthenticationError>) -> bool {
    match method {
        AuthenticationMethod::Email { email, otp, session_id } => match otp {
            None => res matches Ok(SignInCall::InitiateCustomAuth { username }) && username == email,
            Some(code) => res matches Ok(SignInCall::RespondToChallenge { username, code: c, auth_method, session_id: s })
                && username == email && c == code && auth_method@ == "email"@ && s == session_id,
        },
        AuthenticationMethod::PhoneNumber { phone_number, otp, session_id } => match otp {
            None => res matches Ok(SignInCall::InitiateCustomAuth { username }) && username == phone_number,
            Some(code) => res matches Ok(SignInCall::RespondToChallenge { username, code: c, auth_method, session_id: s })
                && username == phone_number && c == code && auth_method@ == "phone_number"@ && s == session_id,
        },
        _ => res matches Err(e) && e@ == AuthenticationErrorView::Unexpected("Social login not yet implemented"@),
    }
}

/// The identity-provider call for a sign-in: without a code it starts the
/// passwordless flow, with one it answers the challenge. Social sign-in is
/// not supported.
pub fn sign_in_call(method: &AuthenticationMethod) -> (res: Result<SignInCall, AuthenticationError>)
    ensures
        sign_in_call_matches(*method, res),
{
    match method {
        AuthenticationMethod::Email { email, otp, session_id } => match otp {
            None => Ok(SignInCall::InitiateCustomAuth { username: copy_string(email) }),
            Some(code) => Ok(SignInCall::RespondToChallenge {
                username: copy_string(email),
                code: copy_string(code),
                auth_method: "email".to_owned(),
                session_id: crate::text::copy_opt_string(session_id),
            }),
        },
        AuthenticationMethod::PhoneNumber { phone_number, otp, session_id } => match otp {
            None => Ok(SignInCall::InitiateCustomAuth { username: copy_string(phone_number) }),
            Some(code) => Ok(SignInCall::RespondToChallenge {
                username: copy_string(phone_number),
                code: copy_string(code),
                auth_method: "phone_number".to_owned(),
                session_id: crate::text::copy_opt_string(session_id),
            }),
        },
        _ => Err(AuthenticationError::unexpected("Social login not yet implemented")),
    }
}

/// A sign-in that carries a one-time password, by email (`by_email`) or by
/// phone number, becomes the answer to the challenge: for the same user
/// name, with that code, on that channel, and under exactly the session id
/// that the request carried (present or absent alike).
pub proof fn lemma_challenge_answer_keeps_session(
    by_email: bool,
    name: String,
    code: String,
    session_id: Option<String>,
    res: Result<SignInCall, AuthenticationError>,
)
    requires
        sign_in_call_matches(
            if by_email {
                AuthenticationMethod::Email { email: name, otp: Some(code), session_id }
            } else {
                AuthenticationMethod::PhoneNumber { phone_number: name, otp: Some(code), session_id }
            },
            res,
        ),
    ensures
        res matches Ok(SignInCall::RespondToChallenge { username, code: c, auth_method, session_id: s }) && {
            &&& s == session_id
            &&& username == name
            &&& c == code
            &&& auth_method@ == (if by_email { "email"@ } else { "phone_number"@ })
        },
{
}

/// The view of an optional string, with absence read as the empty string.
pub open spec fn or_empty(o: Option<String>) -> Seq<char> {
    match o {
        Some(s) => s@,
        None => Seq::<char>::empty(),
    }
}

/// An optional string, or the empty string.
pub fn unwrap_or_empty(o: Option<String>) -> (res: String)
    ensures
        res@ == or_empty(o),
{
    match o {
        Some(s) => s,
        None => String::new(),
    }
}

/// The answer to a started passwordless flow: the code was sent, under
/// the provider's session id (empty where the provider gave none).
pub fn otp_sent_response(session: Option<String>) -> (res: crate::interface::AuthenticationResponse)
    ensures
        res matches crate::interface::AuthenticationResponse::OtpSent { session: s } && s@ == or_empty(session),
{
    crate::interface::AuthenticationResponse::OtpSent { session: unwrap_or_empty(session) }
}

/// The tokens that the identity provider issues on a successful challenge
/// or refresh.
#[derive(Debug, Clone)]
pub struct AuthResult {
    pub access_token: Option<String>,
    pub id_token: Option<String>,
    pub refresh_token: Option<String>,
    pub expires_in: i32,
}

/// The identity token of an answered challenge, with the issued tokens:
/// without a result or without an identity token the answer is an invalid
/// credential.
pub fn challenge_id_token(result: Option<AuthResult>) -> (res: Result<(String, AuthResult), AuthenticationError>)
    ensures
        match result {
            Some(r) => match r.id_token {
                Some(t) => res == Ok::<(String, AuthResult), AuthenticationError>((t, r)),
                None => res is Err && res->Err_0@ == AuthenticationErrorView::InvalidCredential,
            },
            None => res is Err && res->Err_0@ == AuthenticationErrorView::InvalidCredential,
        },
{
    match result {
        Some(r) => match &r.id_token {
            Some(t) => {
                let token = copy_string(t);
                Ok((token, r))
            },
            None => Err(AuthenticationError::InvalidCredential),
        },
        None => Err(AuthenticationError::InvalidCredential),
    }
}

/// `user` is the authenticated user `username` signed in with `auth_method`
/// under the subject `sub_id`: the user name is recorded as email or phone
/// number according to the method.
pub open spec fn is_authenticated_user(user: AuthenticationUser, username: Seq<char>, auth_method: Seq<char>, sub_id: Seq<char>) -> bool {
    &&& user.sub_id@ == sub_id
    &&& user.email@ == (if auth_method == "email"@ { username } else { Seq::<char>::empty() })
    &&& user.phone_number@ == (if auth_method == "phone_number"@ { username } else { Seq::<char>::empty() })
    &&& user.authentication_method@ == auth_method
    &&& user.role@ == "authenticated"@
}

/// The session that a successful challenge opens for `username`: the
/// user is authenticated, and the session holds the issued tokens (an
/// absent access or identity token read as empty).
pub fn authenticated_response(username: &str, auth_method: &str, sub_id: String, result: AuthResult)
    -> (res: crate::interface::AuthenticationResponse)
    ensures
        res matches crate::interface::AuthenticationResponse::Authenticated(session) && {
            &&& is_authenticated_user(session.spec_user(), username@, auth_method@, sub_id@)
            &&& session.spec_access_token()@ == or_empty(result.access_token)
            &&& session.spec_id_token()@ == or_empty(result.id_token)
            &&& session.spec_refresh_token() == result.refresh_token
            &&& 0 <= session.spec_expired_at().seconds - result.expires_in <= TIMESTAMP_BOUND
            &&& session.spec_expired_at().nanos < NANOS_PER_SECOND
        },
{
    let now = current_unix_time();
    authenticated_response_at(username, auth_method, sub_id, result, now)
}

/// The session that a successful challenge answered at the moment `now`
/// opens: as [`authenticated_response`], with the session expiring
/// `expires_in` seconds after `now`.
pub fn authenticated_response_at(username: &str, auth_method: &str, sub_id: String, result: AuthResult, now: UnixTime)
    -> (res: crate::interface::AuthenticationResponse)
    requires
        -TIMESTAMP_BOUND <= now.seconds <= TIMESTAMP_BOUND,
    ensures
        res matches crate::interface::AuthenticationResponse::Authenticated(session) && {
            &&& is_authenticated_user(session.spec_user(), username@, auth_method@, sub_id@)
            &&& session.spec_access_token()@ == or_empty(result.access_token)
            &&& session.spec_id_token()@ == or_empty(result.id_token)
            &&& session.spec_refresh_token() == result.refresh_token
            &&& session.spec_expired_at().seconds == now.seconds + result.expires_in
            &&& session.spec_expired_at().nanos == now.nanos
        },
{
    let email = if str_equal(auth_method, "email") { username.to_owned() } else { String::new() };
    let phone_number = if str_equal(auth_method, "phone_number") { username.to_owned() } else { String::new() };
    let user = AuthenticationUser::new(sub_id, email, phone_number, auth_method.to_owned(), "authenticated".to_owned());
    let session = AuthenticationSession::new_at(
        user,
        unwrap_or_empty(result.access_token),
        unwrap_or_empty(result.id_token),
        result.refresh_token,
        result.expires_in,
        now,
    );
    crate::interface::AuthenticationResponse::Authenticated(session)
}

/// The user name and channel that a sign-up request creates an account
/// for: `true` for email, `false` for phone number.
pub fn sign_up_call(method: &AuthenticationMethod) -> (res: Result<(String, bool), AuthenticationError>)
    ensures
        match method {
            AuthenticationMethod::Email { email, .. } => res == Ok::<(String, bool), AuthenticationError>((*email, true)),
            AuthenticationMethod::PhoneNumber { phone_number, .. } =>
                res == Ok::<(String, bool), AuthenticationError>((*phone_number, false)),
            _ => res matches Err(e) && e@ == AuthenticationErrorView::Unexpected("Method not supported for sign_up"@),
        },
{
    match method {
        AuthenticationMethod::Email { email, .. } => Ok((copy_string(email), true)),
        AuthenticationMethod::PhoneNumber { phone_number, .. } => Ok((copy_string(phone_number), false)),
        _ => Err(AuthenticationError::unexpected("Method not supported for sign_up")),
    }
}

/// The attribute that holds the user name, and the one that marks it verified.
pub fn guest_attribute_names(is_email: bool) -> (res: (String, String))
    ensures
        is_email ==> res.0@ == "email"@ && res.1@ == "email_verified"@,
        !is_email ==> res.0@ == "phone_number"@ && res.1@ == "phone_number_verified"@,
{
    if is_email {
        ("email".to_owned(), "email_verified".to_owned())
    } else {
        ("phone_number".to_owned(), "phone_number_verified".to_owned())
    }
}

/// One attribute of a user at the identity provider.
#[derive(Debug, Clone)]
pub struct UserAttribute {
    pub name: String,
    pub value: Option<String>,
}

/// The subject recorded in `attrs`: the value of the first attribute
/// named `sub`, or empty where there is none or it has no value.
pub open spec fn subject_of(attrs: Seq<UserAttribute>) -> Seq<char>
    decreases attrs.len(),
{
    if attrs.len() == 0 {
        Seq::<char>::empty()
    } else if attrs[0].name@ == "sub"@ {
        or_empty(attrs[0].value)
    } else {
        subject_of(attrs.drop_first())
    }
}

/// Reads the subject out of a created user's attributes.
pub fn subject_attribute(attrs: &Vec<UserAttribute>) -> (res: String)
    ensures
        res@ == subject_of(attrs@),
{
    let mut i: usize = 0;
    assert(attrs@.skip(0) =~= attrs@);
    while i < attrs.len()
        invariant
            i <= attrs@.len(),
            subject_of(attrs@) == subject_of(attrs@.skip(i as int)),
        decreases attrs@.len() - i,
    {
        assert(attrs@.skip(i as int).drop_first() =~= attrs@.skip(i + 1));
        assert(attrs@.skip(i as int)[0] == attrs@[i as int]);
        if str_equal(attrs[i].name.as_str(), "sub") {
            return match &attrs[i].value {
                Some(v) => copy_string(v),
                None => String::new(),
            };
        }
        i = i + 1;
    }
    assert(attrs@.skip(i as int).len() == 0);
    String::new()
}

/// `user` is the guest that creating `username` on the given channel
/// records, with subject `sub_id`.
pub open spec fn is_guest_user(user: AuthenticationUser, username: Seq<char>, is_email: bool, sub_id: Seq<char>) -> bool {
    &&& user.sub_id@ == sub_id
    &&& user.email@ == (if is_email { username } else { Seq::<char>::empty() })
    &&& user.phone_number@ == (if !is_email { username } else { Seq::<char>::empty() })
    &&& user.authentication_method@ == "AdminCreate"@
    &&& user.role@ == "guest"@
}

/// The guest user that an account creation yields; the provider returning
/// no user means the creation failed.
pub fn guest_user(username: &str, is_email: bool, created: Option<Vec<UserAttribute>>)
    -> (res: Result<AuthenticationUser, AuthenticationError>)
    ensures
        match created {
            Some(attrs) => res matches Ok(u) && is_guest_user(u, username@, is_email, subject_of(attrs@)),
            None => res matches Err(e) && e@ == AuthenticationErrorView::Unexpected("User creation failed"@),
        },
{
    match created {
        None => Err(AuthenticationError::unexpected("User creation failed")),
        Some(attrs) => {
            let sub_id = subject_attribute(&attrs);
            let email = if is_email { username.to_owned() } else { String::new() };
            let phone_number = if !is_email { username.to_owned() } else { String::new() };
            Ok(AuthenticationUser::new(sub_id, email, phone_number, "AdminCreate".to_owned(), "guest".to_owned()))
        },
    }
}

/// The refresh token to renew `session` with; a session without one
/// cannot be renewed.
pub fn refresh_call(session: &AuthenticationSession) -> (res: Result<String, AuthenticationError>)
    ensures
        match session.spec_refresh_token() {
            Some(t) => res == Ok::<String, AuthenticationError>(t),
            None => res matches Err(e) && e@ == AuthenticationErrorView::InvalidCredential,
        },
{
    match session.refresh_token() {
        Some(t) => Ok(t),
        None => Err(AuthenticationError::InvalidCredential),
    }
}

/// The renewed session: the same user with the newly issued tokens (a
/// missing token read as empty); without a result the refresh was refused.
pub fn refreshed_session(session: &AuthenticationSession, result: Option<AuthResult>)
    -> (res: Result<AuthenticationSession, AuthenticationError>)
    ensures
        match result {
            Some(r) => res matches Ok(s) && {
                &&& s.spec_user() == session.spec_user()
                &&& s.spec_access_token()@ == or_empty(r.access_token)
                &&& s.spec_id_token()@ == or_empty(r.id_token)
                &&& s.spec_refresh_token() matches Some(t) && t@ == or_empty(r.refresh_token)
                &&& 0 <= s.spec_expired_at().seconds - r.expires_in <= TIMESTAMP_BOUND
                &&& s.spec_expired_at().nanos < NANOS_PER_SECOND
            },
            None => res matches Err(e) && e@ == AuthenticationErrorView::InvalidCredential,
        },
{
    let now = current_unix_time();
    refreshed_session_at(session, result, now)
}

/// The session that a refresh at the moment `now` gives: as
/// [`refreshed_session`], with the new session expiring `expires_in`
/// seconds after `now`.
pub fn refreshed_session_at(session: &AuthenticationSession, result: Option<AuthResult>, now: UnixTime)
    -> (res: Result<AuthenticationSession, AuthenticationError>)
    requires
        -TIMESTAMP_BOUND <= now.seconds <= TIMESTAMP_BOUND,
    ensures
        match result {
            Some(r) => res matches Ok(s) && {
                &&& s.spec_user() == session.spec_user()
                &&& s.spec_access_token()@ == or_empty(r.access_token)
                &&& s.spec_id_token()@ == or_empty(r.id_token)
                &&& s.spec_refresh_token() matches Some(t) && t@ == or_empty(r.refresh_token)
                &&& s.spec_expired_at().seconds == now.seconds + r.expires_in
                &&& s.spec_expired_at().nanos == now.nanos
            },
            None => res matches Err(e) && e@ == AuthenticationErrorView::InvalidCredential,
        },
{
    match result {
        None => Err(AuthenticationError::InvalidCredential),
        Some(r) => Ok(AuthenticationSession::new_at(
            session.identity(),
            unwrap_or_empty(r.access_token),
            unwrap_or_empty(r.id_token),
            Some(unwrap_or_empty(r.refresh_token)),
            r.expires_in,
            now,
        )),
    }
}

} // verus!
