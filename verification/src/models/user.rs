//! The row of an account.

use vstd::prelude::*;

verus! {

/// An account as the store holds it.
#[derive(Debug)]
pub struct User {
    pub id: u128,
    pub login_name: String,
    pub password_hash: String,
    /// The role by its name; see `Role::from`.
    pub role: String,
    /// Microseconds since the Unix epoch.
    pub created_at: Option<i64>,
}

/// An account that is about to be stored. The store gives it its
/// identifier and the time of its creation.
#[derive(Debug)]
pub struct NewUser {
    pub login_name: String,
    pub password_hash: String,
    pub role: String,
}

/// Mathematical model of a [`User`].
pub struct UserView {
    pub id: u128,
    pub login_name: Seq<char>,
    pub password_hash: Seq<char>,
    pub role: Seq<char>,
    pub created_at: Option<i64>,
}

/// Mathematical model of a [`NewUser`].
pub struct NewUserView {
    pub login_name: Seq<char>,
    pub password_hash: Seq<char>,
    pub role: Seq<char>,
}

impl View for User {
    type V = UserView;

    open spec fn view(&self) -> UserView {
        UserView {
            id: self.id,
            login_name: self.login_name@,
            password_hash: self.password_hash@,
            role: self.role@,
            created_at: self.created_at,
        }
    }
}

impl View for NewUser {
    type V = NewUserView;

    open spec fn view(&self) -> NewUserView {
        NewUserView {
            login_name: self.login_name@,
            password_hash: self.password_hash@,
            role: self.role@,
        }
    }
}

} // verus!
