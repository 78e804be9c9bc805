//! The single administrator, roles, and authentication against the
//! configured shared secret.

use vstd::prelude::*;

verus! {

/// Roles in ascending order of privilege; admission to the protected subtree
/// requires at least `Admin`. The derived order (declaration order) carries
/// that ranking; contracts speak of admission through `role_at_least_admin`.
#[derive(Clone, Copy, Debug, PartialEq, Eq, Structural, PartialOrd)]
pub enum Role {
    _User,
    Admin,
}

/// Whether a role admits to the protected subtree: at least `Admin`.
pub open spec fn role_at_least_admin(r: Role) -> bool {
    r == Role::Admin
}

/// The login form's one field: the submitted secret.
pub struct LoginInput {
    pub secret: String,
}

/// The site's one user: the administrator.
pub struct User {
    pub id: usize,
    pub name: String,
    pub password_hash: String,
    pub role: Role,
}

impl User {
    /// The administrator, under a fixed id, holding the configured secret.
    pub fn new(secret: String) -> (u: User)
        ensures
            u.id == 42,
            u.name@ == "Admin"@,
            u.password_hash == secret,
            u.role == Role::Admin,
    {
        User { id: 42, name: "Admin".to_owned(), password_hash: secret, role: Role::Admin }
    }

    pub fn get_id(&self) -> (r: usize)
        ensures
            r == self.id,
    {
        self.id
    }

    pub fn get_password_hash(&self) -> (r: String)
        ensures
            r == self.password_hash,
    {
        self.password_hash.clone()
    }

    pub fn get_role(&self) -> (r: Option<Role>)
        ensures
            r == Some(self.role),
    {
        Some(self.role)
    }

    pub fn dup(&self) -> (r: User)
        ensures
            r == *self,
    {
        User {
            id: self.id,
            name: self.name.clone(),
            password_hash: self.password_hash.clone(),
            role: self.role,
        }
    }

    /// Whether this user is admitted to the protected subtree.
    pub fn is_admin(&self) -> (r: bool)
        ensures
            r == role_at_least_admin(self.role),
    {
        match self.role {
            Role::Admin => true,
            Role::_User => false,
        }
    }
}

/// Checks a submitted secret against the configured one: the administrator
/// exactly when they match, nothing otherwise. No detail of the failure
/// leaks.
pub fn authenticate(configured: &String, submitted: &String) -> (r: Option<User>)
    ensures
        match r {
            Some(u) => {
                &&& submitted@ == configured@
                &&& u.id == 42
                &&& u.role == Role::Admin
                &&& u.password_hash@ == submitted@
            },
            None => submitted@ != configured@,
        },
{
    if configured.eq(submitted) {
        Some(User::new(submitted.clone()))
    } else {
        None
    }
}

} // verus!
