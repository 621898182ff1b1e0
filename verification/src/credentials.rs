//! Credentials used to log in to the homeserver: either partially known
//! (from the environment) or fully filled in (ready to submit).

use vstd::prelude::*;

verus! {

/// Mathematical view of fully filled-in credentials.
pub struct CredentialsModel {
    pub homeserver: Seq<char>,
    pub password: Seq<char>,
    pub username: Seq<char>,
}

/// Credentials to log in to the homeserver.
pub struct Credentials<T> {
    /// Homeserver URL
    pub homeserver: T,
    /// Homeserver password
    pub password: T,
    /// Homeserver username
    pub username: T,
}

impl View for Credentials<String> {
    type V = CredentialsModel;

    open spec fn view(&self) -> CredentialsModel {
        CredentialsModel {
            homeserver: self.homeserver@,
            password: self.password@,
            username: self.username@,
        }
    }
}

impl Credentials<Option<String>> {
    /// Checks if all values are set.
    pub fn is_full(&self) -> (r: bool)
        ensures
            r == (self.homeserver is Some && self.username is Some && self.password is Some),
    {
        self.homeserver.is_some() && self.username.is_some() && self.password.is_some()
    }

    /// Fills the unknown fields with an empty string.
    pub fn fill_with_empty(self) -> (r: Credentials<String>)
        ensures
            r.homeserver@ == if self.homeserver is Some {
                self.homeserver->0@
            } else {
                Seq::<char>::empty()
            },
            r.username@ == if self.username is Some {
                self.username->0@
            } else {
                Seq::<char>::empty()
            },
            r.password@ == if self.password is Some {
                self.password->0@
            } else {
                Seq::<char>::empty()
            },
    {
        Credentials {
            homeserver: match self.homeserver {
                Some(s) => s,
                None => String::new(),
            },
            password: match self.password {
                Some(s) => s,
                None => String::new(),
            },
            username: match self.username {
                Some(s) => s,
                None => String::new(),
            },
        }
    }
}

} // verus!
