//! The two speakers of a prompt conversation.

use vstd::prelude::*;

use crate::text::chars_equal;
use crate::text::chars_of;
use crate::text::string_from_chars;

verus! {

/// Who speaks a prompt message.
#[derive(Clone, Copy, Debug, PartialEq, Eq, Structural)]
pub enum Role {
    Assistant,
    User,
}

/// A role name that is neither `assistant` nor `user`.
#[derive(Clone, Debug)]
pub struct UnknownRole {
    pub value: String,
}

impl Role {
    /// The role a name stands for, if any.
    pub open spec fn from_name(name: Seq<char>) -> Option<Role> {
        if name == "assistant"@ {
            Some(Role::Assistant)
        } else if name == "user"@ {
            Some(Role::User)
        } else {
            None
        }
    }

    /// Reads a role from its name; any other name is refused.
    pub fn parse(value: &str) -> (r: Result<Role, UnknownRole>)
        ensures
            match r {
                Ok(role) => Role::from_name(value@) == Some(role),
                Err(e) => Role::from_name(value@) is None && e.value@ == value@,
            },
    {
        let name = chars_of(value);
        let assistant = chars_of("assistant");
        let user = chars_of("user");
        if chars_equal(&name, &assistant) {
            Ok(Role::Assistant)
        } else if chars_equal(&name, &user) {
            Ok(Role::User)
        } else {
            Err(UnknownRole { value: string_from_chars(&name) })
        }
    }
}

impl<'a> vstd::std_specs::convert::TryFromSpecImpl<&'a str> for Role {
    /// The contract of `try_from` below is stated on the impl itself.
    open spec fn obeys_try_from_spec() -> bool {
        false
    }

    open spec fn try_from_spec(value: &'a str) -> Result<Role, UnknownRole> {
        arbitrary()
    }
}

impl vstd::std_specs::convert::TryFromSpecImpl<String> for Role {
    /// The contract of `try_from` below is stated on the impl itself.
    open spec fn obeys_try_from_spec() -> bool {
        false
    }

    open spec fn try_from_spec(value: String) -> Result<Role, UnknownRole> {
        arbitrary()
    }
}

impl<'a> TryFrom<&'a str> for Role {
    type Error = UnknownRole;

    fn try_from(value: &'a str) -> (r: Result<Role, UnknownRole>)
        ensures
            match r {
                Ok(role) => Role::from_name(value@) == Some(role),
                Err(e) => Role::from_name(value@) is None && e.value@ == value@,
            },
    {
        Role::parse(value)
    }
}

impl TryFrom<String> for Role {
    type Error = UnknownRole;

    fn try_from(value: String) -> (r: Result<Role, UnknownRole>)
        ensures
            match r {
                Ok(role) => Role::from_name(value@) == Some(role),
                Err(e) => Role::from_name(value@) is None && e.value@ == value@,
            },
    {
        Role::parse(value.as_str())
    }
}

} // verus!
