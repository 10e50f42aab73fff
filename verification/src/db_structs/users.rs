//! The people who hold an invitation link.

use vstd::prelude::*;

verus! {

/// A row of the `users` table: a person, the link they ping through, and
/// whether their link is enabled.
#[derive(Debug)]
pub struct User {
    pub id: Option<i32>,
    pub name: String,
    pub link: Option<String>,
    pub enabled: bool,
}

impl Clone for User {
    fn clone(&self) -> (r: Self)
        ensures
            r == *self,
    {
        let link = match &self.link {
            Some(l) => Some(l.clone()),
            None => None,
        };
        User { id: self.id, name: self.name.clone(), link, enabled: self.enabled }
    }
}

/// The form that adds a person: only a name.
#[derive(Debug)]
pub struct NewUser {
    pub name: String,
}

/// A database query that failed, with the database's message.
#[derive(Debug)]
pub struct DbError {
    pub message: String,
}

impl User {
    /// The row that adding `newuser` with the invitation link `link` writes:
    /// no id yet (the database assigns it), enabled.
    pub fn insert_row(newuser: NewUser, link: String) -> (r: User)
        ensures
            r.id is None,
            r.name == newuser.name,
            r.link == Some(link),
            r.enabled,
    {
        User { id: None, name: newuser.name, link: Some(link), enabled: true }
    }

    /// The row with its person's link switched on or off.
    pub open spec fn spec_toggled(self) -> User {
        User { enabled: !self.enabled, ..self }
    }

    /// The row after its person's link was switched on or off: only `enabled`
    /// changes, to its opposite.
    pub fn toggled(&self) -> (r: User)
        ensures
            r == self.spec_toggled(),
            r.enabled == !self.enabled,
            r.id == self.id,
            r.name == self.name,
            r.link == self.link,
    {
        let mut u = self.clone();
        u.enabled = !self.enabled;
        u
    }
}

/// Switching a person's link always flips whether it is enabled, whatever the
/// row, and changes nothing else.
pub proof fn law_toggle_flips_enabled(u: User)
    ensures
        u.spec_toggled().enabled == !u.enabled,
        u.spec_toggled().id == u.id,
        u.spec_toggled().name == u.name,
        u.spec_toggled().link == u.link,
        u.spec_toggled() != u,
{
}

/// Switching a person's link twice leaves the row as it was.
pub proof fn law_toggle_twice_restores(u: User)
    ensures
        u.spec_toggled().spec_toggled() == u,
{
}

} // verus!
