use vstd::prelude::*;

verus! {

/// The identity a candidate submits. The fields have already passed syntax
/// validation (lengths, well-formed address) when they reach this library.
pub struct RegistrationPost {
    pub first_name: String,
    pub last_name: String,
    pub email: String,
    pub password: String,
}

/// Identifiers of what a successful registration created.
#[derive(Clone, Copy, Debug, PartialEq, Eq)]
pub struct Registration {
    pub organization_id: u128,
    pub user_id: u128,
}

/// Outcomes other than success.
#[derive(Clone, Copy, Debug, PartialEq, Eq)]
pub enum RegistrationError {
    /// Registration is switched off by the operator.
    Disabled,
    /// The password is shorter than the configured minimum, which is carried.
    PasswordTooShort(u8),
    /// A user with this email already exists.
    UserAlreadyExists,
    /// A collaborator failed (hashing, store, token issuer, mail transport).
    Internal,
}

/// Privilege level of a membership.
#[derive(Clone, Copy, Debug, PartialEq, Eq)]
pub enum Role {
    Editor,
}

pub open spec fn role_name(r: Role) -> Seq<char> {
    match r {
        Role::Editor => "editor"@,
    }
}

impl Role {
    /// The name under which the store keeps the role.
    pub fn as_str(&self) -> (r: &'static str)
        ensures
            r@ == role_name(*self),
    {
        proof {
            reveal_strlit("editor");
        }
        match self {
            Role::Editor => "editor",
        }
    }
}

/// Process-wide settings, fixed at startup.
pub struct Settings {
    pub registration_disabled: bool,
    pub password_minimum_length: u8,
    /// Base URL of the web application, without a trailing slash.
    pub app_url: String,
}

} // verus!
