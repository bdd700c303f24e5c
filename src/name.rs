use vstd::prelude::*;

verus! {

/// An identifier: text written by the user, a temporary made by the
/// compiler, or one of the two fields that a direct tag introduces. The
/// reserved fields print as `tag` and `data` but never equal a user name.
#[derive(Debug, PartialEq, Eq, PartialOrd, Ord)]
pub enum Name {
    User(String),
    Temp(u64),
    /// The tag field of a direct-tagged value.
    Tag,
    /// The field holding the payload of a direct-tagged value.
    Data,
}

/// Two names are the same when they are of the same kind with the same text
/// or index.
pub open spec fn same_name(a: Name, b: Name) -> bool {
    match (a, b) {
        (Name::User(x), Name::User(y)) => x@ == y@,
        (Name::Temp(x), Name::Temp(y)) => x == y,
        (Name::Tag, Name::Tag) => true,
        (Name::Data, Name::Data) => true,
        _ => false,
    }
}

impl Clone for Name {
    fn clone(&self) -> (r: Name)
        ensures
            r == *self,
    {
        match self {
            Name::User(s) => Name::User(s.clone()),
            Name::Temp(i) => Name::Temp(*i),
            Name::Tag => Name::Tag,
            Name::Data => Name::Data,
        }
    }
}

impl Name {
    /// A user name with the given text.
    pub fn user(s: &str) -> (r: Name)
        ensures
            r matches Name::User(t) && t@ == s@,
    {
        Name::User(s.to_owned())
    }

    /// Compares two names by kind and contents.
    pub fn same(&self, other: &Name) -> (r: bool)
        ensures
            r == same_name(*self, *other),
    {
        match (self, other) {
            (Name::User(x), Name::User(y)) => *x == *y,
            (Name::Temp(x), Name::Temp(y)) => *x == *y,
            (Name::Tag, Name::Tag) => true,
            (Name::Data, Name::Data) => true,
            _ => false,
        }
    }

    /// The text of a user name; `None` for the others.
    pub fn as_user(&self) -> (r: Option<&str>)
        ensures
            match *self {
                Name::User(s) => r matches Some(t) && t@ == s@,
                _ => r is None,
            },
    {
        match self {
            Name::User(s) => Some(s.as_str()),
            _ => None,
        }
    }
}

impl From<String> for Name {
    fn from(s: String) -> (r: Name) {
        Name::User(s)
    }
}

impl vstd::std_specs::convert::FromSpecImpl<String> for Name {
    open spec fn obeys_from_spec() -> bool {
        true
    }

    open spec fn from_spec(s: String) -> Name {
        Name::User(s)
    }
}

} // verus!
