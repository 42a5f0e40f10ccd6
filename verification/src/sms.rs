//! Forwarding of one-time-password requests as notifications through an
//! SNS topic: the name the application signs them with, their text, and
//! how the forwarding's failures are reported.

use vstd::prelude::*;
use crate::interface::{AuthenticationError, AuthenticationErrorView};
use crate::text::concat3;

verus! {

/// The application name a notification is signed with: the configured
/// one, or `GROWL`.
pub fn app_name_or_default(configured: Option<String>) -> (res: String)
    ensures
        res@ == match configured {
            Some(n) => n@,
            None => "GROWL"@,
        },
{
    match configured {
        Some(n) => n,
        None => "GROWL".to_owned(),
    }
}

/// The text of the notification for a code requested by `user_name`.
pub fn forward_message(app_name: &str, user_name: &str) -> (res: String)
    ensures
        res@ == "["@ + app_name@ + "] OTP request received for identifier: "@ + user_name@
            + ". Please verify the identity if needed."@,
{
    let head = concat3("[", app_name, "] OTP request received for identifier: ");
    concat3(head.as_str(), user_name, ". Please verify the identity if needed.")
}

/// The subject of the notification.
pub fn forward_subject(app_name: &str) -> (res: String)
    ensures
        res@ == "["@ + app_name@ + "] OTP Forwarding Notification"@,
{
    concat3("[", app_name, "] OTP Forwarding Notification")
}

/// The topic to publish to; without one the forwarding is not configured.
pub fn forward_topic(configured: Option<String>) -> (res: Result<String, AuthenticationError>)
    ensures
        match configured {
            Some(t) => res == Ok::<String, AuthenticationError>(t),
            None => res matches Err(e) && e@ == AuthenticationErrorView::Unexpected("Forwarding configuration missing"@),
        },
{
    match configured {
        Some(t) => Ok(t),
        None => Err(AuthenticationError::unexpected("Forwarding configuration missing")),
    }
}

/// The outcome of publishing the notification: a failed publication is
/// reported as a network error.
pub fn forward_publish_result(published: Result<(), ()>) -> (res: Result<(), AuthenticationError>)
    ensures
        match published {
            Ok(()) => res is Ok,
            Err(()) => res matches Err(e) && e@ == AuthenticationErrorView::NetWorkError,
        },
{
    match published {
        Ok(()) => Ok(()),
        Err(()) => Err(AuthenticationError::NetWorkError),
    }
}

} // verus!
