//! The user record and the patch that overwrites its mutable fields.

use vstd::prelude::*;
use vstd::std_specs::cmp::PartialEqSpecImpl;

verus! {

/// What a user record is: four texts.
pub struct UserView {
    pub first_name: Seq<char>,
    pub last_name: Seq<char>,
    pub username: Seq<char>,
    pub email: Seq<char>,
}

/// What a patch is: new values for the three mutable fields.
pub struct UpdateView {
    pub first_name: Seq<char>,
    pub last_name: Seq<char>,
    pub email: Seq<char>,
}

impl UserView {
    /// The record with its three mutable fields overwritten; the username stays.
    pub open spec fn patched(self, patch: UpdateView) -> UserView {
        UserView {
            first_name: patch.first_name,
            last_name: patch.last_name,
            username: self.username,
            email: patch.email,
        }
    }
}

/// One user account. The username identifies it.
#[derive(Debug)]
pub struct User {
    first_name: String,
    last_name: String,
    username: String,
    email: String,
}

/// The mutable part of a user record, as submitted with an update.
#[derive(Debug)]
pub struct Update {
    first_name: String,
    last_name: String,
    email: String,
}

impl View for User {
    type V = UserView;

    closed spec fn view(&self) -> UserView {
        UserView {
            first_name: self.first_name@,
            last_name: self.last_name@,
            username: self.username@,
            email: self.email@,
        }
    }
}

impl View for Update {
    type V = UpdateView;

    closed spec fn view(&self) -> UpdateView {
        UpdateView {
            first_name: self.first_name@,
            last_name: self.last_name@,
            email: self.email@,
        }
    }
}

impl DeepView for User {
    type V = UserView;

    open spec fn deep_view(&self) -> UserView {
        self@
    }
}

impl Update {
    pub fn new(first_name: String, last_name: String, email: String) -> (patch: Update)
        ensures
            patch@ == (UpdateView {
                first_name: first_name@,
                last_name: last_name@,
                email: email@,
            }),
    {
        Update { first_name, last_name, email }
    }

    pub fn first_name(&self) -> (text: &String)
        ensures
            text@ == self@.first_name,
    {
        &self.first_name
    }

    pub fn last_name(&self) -> (text: &String)
        ensures
            text@ == self@.last_name,
    {
        &self.last_name
    }

    pub fn email(&self) -> (text: &String)
        ensures
            text@ == self@.email,
    {
        &self.email
    }
}

impl User {
    pub fn new(first_name: String, last_name: String, username: String, email: String) -> (user:
        User)
        ensures
            user@ == (UserView {
                first_name: first_name@,
                last_name: last_name@,
                username: username@,
                email: email@,
            }),
    {
        User { first_name, last_name, username, email }
    }

    pub fn first_name(&self) -> (text: &String)
        ensures
            text@ == self@.first_name,
    {
        &self.first_name
    }

    pub fn last_name(&self) -> (text: &String)
        ensures
            text@ == self@.last_name,
    {
        &self.last_name
    }

    pub fn username(&self) -> (text: &String)
        ensures
            text@ == self@.username,
    {
        &self.username
    }

    pub fn email(&self) -> (text: &String)
        ensures
            text@ == self@.email,
    {
        &self.email
    }

    /// Overwrites first name, last name and email with those of `patch`.
    pub fn apply(&mut self, patch: &Update)
        ensures
            final(self)@ == old(self)@.patched(patch@),
    {
        self.first_name = patch.first_name.clone();
        self.last_name = patch.last_name.clone();
        self.email = patch.email.clone();
    }

    /// Whether this record is the one that `username` identifies: the same
    /// characters, case included.
    pub fn is_named(&self, username: &String) -> (r: bool)
        ensures
            r == (self@.username == username@),
    {
        self.username == *username
    }
}

impl Clone for User {
    fn clone(&self) -> (copy: Self)
        ensures
            copy@ == self@,
    {
        User {
            first_name: self.first_name.clone(),
            last_name: self.last_name.clone(),
            username: self.username.clone(),
            email: self.email.clone(),
        }
    }
}

impl Clone for Update {
    fn clone(&self) -> (copy: Self)
        ensures
            copy@ == self@,
    {
        Update {
            first_name: self.first_name.clone(),
            last_name: self.last_name.clone(),
            email: self.email.clone(),
        }
    }
}

impl PartialEq for User {
    fn eq(&self, other: &Self) -> (r: bool) {
        self.first_name == other.first_name && self.last_name == other.last_name
            && self.username == other.username && self.email == other.email
    }
}

impl PartialEqSpecImpl for User {
    open spec fn obeys_eq_spec() -> bool {
        true
    }

    open spec fn eq_spec(&self, other: &Self) -> bool {
        self@ == other@
    }
}

impl Eq for User {

}

impl PartialEq for Update {
    fn eq(&self, other: &Self) -> (r: bool) {
        self.first_name == other.first_name && self.last_name == other.last_name && self.email
            == other.email
    }
}

impl PartialEqSpecImpl for Update {
    open spec fn obeys_eq_spec() -> bool {
        true
    }

    open spec fn eq_spec(&self, other: &Self) -> bool {
        self@ == other@
    }
}

impl Eq for Update {

}

} // verus!
