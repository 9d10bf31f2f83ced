//! User records and their processing.

use vstd::prelude::*;
use vstd::string::StringExecFns;

verus! {

/// A user record: a numeric id, a display name, and an age kept private
/// so it changes only through `set_age`.
#[derive(Debug, Clone)]
pub struct User {
    pub id: u32,
    pub name: String,
    age: u32,
}

/// Something that can process text on behalf of a value and vouch for
/// its own validity.
pub trait Processor {
    fn process(&self, data: &str) -> Result<String, String>;

    fn validate(&self) -> bool;
}

impl User {
    /// The id, visible to specifications.
    pub closed spec fn spec_id(&self) -> u32 {
        self.id
    }

    /// The name's characters, visible to specifications.
    pub closed spec fn spec_name(&self) -> Seq<char> {
        self.name@
    }

    /// The age, visible to specifications.
    pub closed spec fn spec_age(&self) -> u32 {
        self.age
    }

    /// A fresh user with the given name and age; ids start at zero.
    pub fn new(name: String, age: u32) -> (u: User)
        ensures
            u.spec_id() == 0,
            u.spec_name() == name@,
            u.spec_age() == age,
    {
        User { id: 0, name, age }
    }

    /// The user's display name.
    pub fn get_name(&self) -> (r: &str)
        ensures
            r@ == self.spec_name(),
    {
        self.name.as_str()
    }

    /// Replaces the age; id and name are untouched.
    pub fn set_age(&mut self, age: u32)
        ensures
            final(self).spec_id() == old(self).spec_id(),
            final(self).spec_name() == old(self).spec_name(),
            final(self).spec_age() == age,
    {
        self.age = age;
    }
}

impl Processor for User {
    /// Prefixes `data` with the user's name.
    fn process(&self, data: &str) -> Result<String, String> {
        let mut s = String::new();
        s.append(self.name.as_str());
        s.append(": ");
        s.append(data);
        Ok(s)
    }

    /// A user is valid exactly when the name is non-empty.
    fn validate(&self) -> bool {
        !self.name.as_str().is_empty()
    }
}

/// The lifecycle state of a record.
#[derive(Debug)]
pub enum Status {
    Active,
    Inactive,
    Pending(String),
    Error { code: u32, message: String },
}

impl Status {
    /// Whether the state is `Active`.
    pub fn is_active(&self) -> (r: bool)
        ensures
            r == (self is Active),
    {
        match self {
            Status::Active => true,
            _ => false,
        }
    }
}

} // verus!
