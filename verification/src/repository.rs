//! The user store's side of authentication: rows of the `user_identities`
//! table, how a user name is looked up, and the store's errors.

use vstd::prelude::*;
use crate::entities::AuthenticationUser;
use crate::interface::AuthenticationMethod;
use crate::text::{concat2, copy_string};

verus! {

/// A failure of the user store, by the text it reports.
#[derive(Debug, Clone)]
pub struct RepositoryError {
    pub message: String,
}

impl RepositoryError {
    pub fn new(message: String) -> (res: Self)
        ensures
            res.message == message,
    {
        RepositoryError { message }
    }

    /// The failure as text.
    pub fn to_string(&self) -> (res: String)
        ensures
            res == self.message,
    {
        copy_string(&self.message)
    }
}

/// A row of the `user_identities` table.
#[derive(Debug, Clone)]
pub struct UserIdentityRow {
    sub_id: String,
    email: String,
    phone_number: String,
    authentication_method: String,
    role: String,
}

impl UserIdentityRow {
    pub closed spec fn spec_user(&self) -> AuthenticationUser {
        AuthenticationUser {
            sub_id: self.sub_id,
            email: self.email,
            phone_number: self.phone_number,
            authentication_method: self.authentication_method,
            role: self.role,
        }
    }

    pub fn new(
        sub_id: String,
        email: String,
        phone_number: String,
        authentication_method: String,
        role: String,
    ) -> (res: Self)
        ensures
            res.spec_user() == (AuthenticationUser { sub_id, email, phone_number, authentication_method, role }),
    {
        UserIdentityRow { sub_id, email, phone_number, authentication_method, role }
    }

    pub fn sub_id(&self) -> (res: String)
        ensures
            res == self.spec_user().sub_id,
    {
        copy_string(&self.sub_id)
    }

    pub fn email(&self) -> (res: String)
        ensures
            res == self.spec_user().email,
    {
        copy_string(&self.email)
    }

    pub fn phone_number(&self) -> (res: String)
        ensures
            res == self.spec_user().phone_number,
    {
        copy_string(&self.phone_number)
    }

    pub fn authentication_method(&self) -> (res: String)
        ensures
            res == self.spec_user().authentication_method,
    {
        copy_string(&self.authentication_method)
    }

    pub fn role(&self) -> (res: String)
        ensures
            res == self.spec_user().role,
    {
        copy_string(&self.role)
    }

    /// The user that the row records.
    pub fn to_user(&self) -> (res: AuthenticationUser)
        ensures
            res == self.spec_user(),
    {
        AuthenticationUser::new(self.sub_id(), self.email(), self.phone_number(), self.authentication_method(), self.role())
    }
}

/// The users that a lookup found, taken as users.
pub fn users_from_row(row: Option<UserIdentityRow>) -> (res: Option<AuthenticationUser>)
    ensures
        match row {
            Some(r) => res == Some(r.spec_user()),
            None => res is None,
        },
{
    match row {
        Some(r) => Some(r.to_user()),
        None => None,
    }
}

/// The column that a user name is looked up in.
#[derive(Debug, Clone, Copy, PartialEq, Eq, Structural)]
pub enum UsernameColumn {
    Email,
    PhoneNumber,
}

/// The lookup that finding a user by user name takes: email addresses are
/// looked up by email, phone numbers by phone number, and other methods
/// have no user name to look up (no user is found).
pub fn username_lookup(method: &AuthenticationMethod) -> (res: Option<(UsernameColumn, String)>)
    ensures
        match method {
            AuthenticationMethod::Email { email, .. } => res == Some((UsernameColumn::Email, *email)),
            AuthenticationMethod::PhoneNumber { phone_number, .. } =>
                res == Some((UsernameColumn::PhoneNumber, *phone_number)),
            _ => res is None,
        },
{
    match method {
        AuthenticationMethod::Email { email, .. } => Some((UsernameColumn::Email, copy_string(email))),
        AuthenticationMethod::PhoneNumber { phone_number, .. } =>
            Some((UsernameColumn::PhoneNumber, copy_string(phone_number))),
        _ => None,
    }
}

/// The text of the query for a lookup by the given column.
pub fn username_query(column: UsernameColumn) -> (res: String)
    ensures
        res@ == "SELECT sub_id, email, phone_number, authentication_method, role FROM user_identities WHERE "@
            + (match column {
                UsernameColumn::Email => "email"@,
                UsernameColumn::PhoneNumber => "phone_number"@,
            }) + " = $1"@,
{
    let head = "SELECT sub_id, email, phone_number, authentication_method, role FROM user_identities WHERE ";
    let with_column = match column {
        UsernameColumn::Email => concat2(head, "email"),
        UsernameColumn::PhoneNumber => concat2(head, "phone_number"),
    };
    concat2(with_column.as_str(), " = $1")
}

} // verus!
