//! Roles and the claims carried by an identity token.

use vstd::prelude::*;
use crate::text::str_eq;

verus! {

/// What an account is allowed to do beyond its own resources.
///
/// `Unknown` keeps a role name that this version does not recognise, so that
/// a stored account with such a role can still be read. It grants nothing.
#[derive(Debug)]
pub enum Role {
    Admin,
    User,
    Unknown(String),
}

/// The role that a stored role name stands for.
pub open spec fn role_of_name(name: Seq<char>) -> RoleView {
    if name == "admin"@ {
        RoleView::Admin
    } else if name == "user"@ {
        RoleView::User
    } else {
        RoleView::Unknown(name)
    }
}

/// Mathematical model of a [`Role`].
pub enum RoleView {
    Admin,
    User,
    Unknown(Seq<char>),
}

impl RoleView {
    /// The name under which the role is stored and carried in a token.
    pub open spec fn name(self) -> Seq<char> {
        match self {
            RoleView::Admin => "admin"@,
            RoleView::User => "user"@,
            RoleView::Unknown(name) => name,
        }
    }

    /// Only `Admin` is privileged.
    pub open spec fn is_admin(self) -> bool {
        self is Admin
    }

    /// An unknown role is canonical when its name is not that of a known
    /// role. Reading a role name always gives a canonical role; only a
    /// canonical role is read back from its own name.
    pub open spec fn canonical(self) -> bool {
        role_of_name(self.name()) == self
    }
}

impl View for Role {
    type V = RoleView;

    open spec fn view(&self) -> RoleView {
        match self {
            Role::Admin => RoleView::Admin,
            Role::User => RoleView::User,
            Role::Unknown(name) => RoleView::Unknown(name@),
        }
    }
}

impl Role {
    /// Reads a stored role name: `"admin"` and `"user"` are the two known
    /// roles, every other name is kept as `Unknown`.
    pub fn from_name(s: &str) -> (role: Role)
        ensures
            role@ == role_of_name(s@),
    {
        if str_eq(s, "admin") {
            Role::Admin
        } else if str_eq(s, "user") {
            Role::User
        } else {
            Role::Unknown(s.to_owned())
        }
    }

    /// The name under which the role is stored and carried in a token.
    pub fn as_str(&self) -> (name: &str)
        ensures
            name@ == self@.name(),
    {
        match self {
            Role::Admin => "admin",
            Role::User => "user",
            Role::Unknown(name) => name.as_str(),
        }
    }

    /// Whether the role is read back from its own name.
    pub fn is_canonical(&self) -> (canonical: bool)
        ensures
            canonical == self@.canonical(),
    {
        proof {
            lemma_known_names_differ();
        }
        match self {
            Role::Unknown(name) => !str_eq(name.as_str(), "admin") && !str_eq(
                name.as_str(),
                "user",
            ),
            _ => true,
        }
    }

    /// Whether the role passes a privileged check.
    pub fn is_admin(&self) -> (privileged: bool)
        ensures
            privileged == self@.is_admin(),
    {
        match self {
            Role::Admin => true,
            _ => false,
        }
    }
}

impl Clone for Role {
    fn clone(&self) -> (copy: Role)
        ensures
            copy@ == self@,
    {
        match self {
            Role::Admin => Role::Admin,
            Role::User => Role::User,
            Role::Unknown(name) => Role::Unknown(name.clone()),
        }
    }
}

impl From<&str> for Role {
    /// Same as [`Role::from_name`].
    fn from(s: &str) -> (role: Role)
        ensures
            role@ == role_of_name(s@),
    {
        Role::from_name(s)
    }
}

impl vstd::std_specs::convert::FromSpecImpl<&str> for Role {
    /// A role is pinned down by its view only, so the conversion is stated
    /// on `from` itself and not through `from_spec`.
    open spec fn obeys_from_spec() -> bool {
        false
    }

    open spec fn from_spec(s: &str) -> Role {
        choose|role: Role| role@ == role_of_name(s@)
    }
}

impl PartialEq for Role {
    fn eq(&self, other: &Role) -> (same: bool) {
        match (self, other) {
            (Role::Admin, Role::Admin) => true,
            (Role::User, Role::User) => true,
            (Role::Unknown(a), Role::Unknown(b)) => str_eq(a.as_str(), b.as_str()),
            _ => false,
        }
    }
}

impl vstd::std_specs::cmp::PartialEqSpecImpl for Role {
    open spec fn obeys_eq_spec() -> bool {
        true
    }

    open spec fn eq_spec(&self, other: &Role) -> bool {
        self@ == other@
    }
}

/// What a new user sends to open an account.
#[derive(Debug)]
pub struct SignupRequest {
    pub login_name: String,
    pub password: String,
}

/// What a new user is told once the account is open.
#[derive(Debug)]
pub struct SignupResponse {
    pub login_name: String,
}

/// What a user sends to log in.
#[derive(Debug)]
pub struct LoginRequest {
    pub login_name: String,
    pub password: String,
}

/// What a user gets for logging in: the token to present from then on.
#[derive(Debug)]
pub struct LoginResponse {
    pub token: String,
}

impl View for SignupResponse {
    type V = Seq<char>;

    /// The login name.
    open spec fn view(&self) -> Seq<char> {
        self.login_name@
    }
}

impl View for LoginResponse {
    type V = Seq<char>;

    /// The token.
    open spec fn view(&self) -> Seq<char> {
        self.token@
    }
}

/// How long a token is valid after it was issued, in seconds.
pub const TOKEN_TTL_SECS: u64 = 3600;

/// Who a caller is: the account, its role, and the second at which the
/// statement stops being valid.
#[derive(Debug)]
pub struct Claims {
    /// Identifier of the account, as text.
    pub sub: String,
    pub role: Role,
    /// Seconds since the Unix epoch.
    pub exp: u64,
}

/// Mathematical model of [`Claims`].
pub struct ClaimsView {
    pub sub: Seq<char>,
    pub role: RoleView,
    pub exp: u64,
}

impl ClaimsView {
    /// Claims are valid only before their expiry.
    pub open spec fn valid_at(self, now: u64) -> bool {
        now < self.exp
    }
}

impl View for Claims {
    type V = ClaimsView;

    open spec fn view(&self) -> ClaimsView {
        ClaimsView { sub: self.sub@, role: self.role@, exp: self.exp }
    }
}

impl Clone for Claims {
    fn clone(&self) -> (copy: Claims)
        ensures
            copy@ == self@,
    {
        Claims { sub: self.sub.clone(), role: self.role.clone(), exp: self.exp }
    }
}

impl Claims {
    /// Whether the claims are still valid at the second `now`.
    pub fn is_valid_at(&self, now: u64) -> (valid: bool)
        ensures
            valid == self@.valid_at(now),
    {
        now < self.exp
    }
}

/// The names of the two known roles are different texts.
pub proof fn lemma_known_names_differ()
    ensures
        "admin"@ != "user"@,
{
    reveal_strlit("admin");
    reveal_strlit("user");
    assert("admin"@[0] != "user"@[0]);
}

/// Reading a role name gives a canonical role, and never `Admin` unless the
/// name is `"admin"`.
pub proof fn lemma_role_of_name(name: Seq<char>)
    ensures
        role_of_name(name).canonical(),
        role_of_name(name).is_admin() <==> name == "admin"@,
{
    lemma_known_names_differ();
}

/// The role read from a name is stored under that name.
pub proof fn lemma_name_of_role(name: Seq<char>)
    ensures
        role_of_name(name).name() == name,
{
}

/// An unknown role is never privileged, whatever its name.
pub proof fn lemma_unknown_role_is_not_admin(name: Seq<char>)
    ensures
        !RoleView::Unknown(name).is_admin(),
{
}

} // verus!
