//! User records and the roles a user can hold.

use vstd::prelude::*;
use crate::ident::{fresh_id, is_random_id};

verus! {

/// A user in the system.
#[derive(Debug, Clone)]
pub struct User {
    pub id: String,
    pub name: String,
    pub email: String,
    pub age: u32,
}

/// The mathematical content of a [`User`]: three texts and an age.
pub ghost struct UserView {
    pub id: Seq<char>,
    pub name: Seq<char>,
    pub email: Seq<char>,
    pub age: nat,
}

impl View for User {
    type V = UserView;

    open spec fn view(&self) -> UserView {
        UserView { id: self.id@, name: self.name@, email: self.email@, age: self.age as nat }
    }
}

/// Age from which a user counts as an adult.
pub const ADULT_AGE: u32 = 18;

impl User {
    /// Create a user with a known identifier. The age starts at zero.
    pub fn with_id(id: String, name: String, email: String) -> (user: Self)
        ensures
            user@ == (UserView { id: id@, name: name@, email: email@, age: 0 }),
    {
        Self { id, name, email, age: 0 }
    }

    /// Create a new user with the given details.
    ///
    /// The identifier is freshly drawn, so only its shape is known; name and
    /// email are the ones given and the age starts at zero.
    pub fn new(name: String, email: String) -> (user: Self)
        ensures
            is_random_id(user@.id),
            user@.name == name@,
            user@.email == email@,
            user@.age == 0,
    {
        Self::with_id(fresh_id(), name, email)
    }

    /// Check if the user is an adult.
    pub fn is_adult(&self) -> (adult: bool)
        ensures
            adult == (self@.age >= ADULT_AGE),
    {
        self.age >= ADULT_AGE
    }

    /// Update the user's email address. Nothing else changes.
    pub fn update_email(&mut self, email: String)
        ensures
            final(self)@ == (UserView { email: email@, ..old(self)@ }),
    {
        self.email = email;
    }
}

/// User roles in the system.
#[derive(Debug, Clone, Copy, PartialEq, Eq, Structural)]
pub enum UserRole {
    Admin,
    Editor,
    Viewer,
    Guest,
}

impl UserRole {
    /// The permission level that goes with each role.
    pub open spec fn level(self) -> nat {
        match self {
            UserRole::Admin => 100,
            UserRole::Editor => 50,
            UserRole::Viewer => 25,
            UserRole::Guest => 10,
        }
    }

    /// Check if this role has admin privileges.
    pub fn is_admin(&self) -> (admin: bool)
        ensures
            admin == (*self == UserRole::Admin),
    {
        matches!(self, Self::Admin)
    }

    /// Get the permission level for this role.
    pub fn permission_level(&self) -> (level: u8)
        ensures
            level == self.level(),
    {
        match self {
            Self::Admin => 100,
            Self::Editor => 50,
            Self::Viewer => 25,
            Self::Guest => 10,
        }
    }

    /// Admin is the one role with the highest permission level: every level
    /// is at most the admin's, and a role that reaches it is the admin.
    pub proof fn lemma_admin_level_is_highest(role: UserRole)
        ensures
            role.level() <= UserRole::Admin.level(),
            role.level() == UserRole::Admin.level() <==> role == UserRole::Admin,
    {
    }

    /// Roles are told apart by their permission level.
    pub proof fn lemma_level_identifies_role(a: UserRole, b: UserRole)
        ensures
            a.level() == b.level() <==> a == b,
    {
    }
}

} // verus!
