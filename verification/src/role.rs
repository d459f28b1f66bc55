use vstd::prelude::*;

verus! {

/// Who spoke a conversation turn. On the wire each role appears as its
/// lower-case tag.
#[derive(Clone, Copy, Debug, PartialEq, Eq, Structural)]
pub enum Role {
    System,
    Assistant,
    User,
    Function,
}

/// The lower-case wire tag of a role.
pub open spec fn role_tag(r: Role) -> Seq<char> {
    match r {
        Role::System => "system"@,
        Role::Assistant => "assistant"@,
        Role::User => "user"@,
        Role::Function => "function"@,
    }
}

impl Role {
    /// The lower-case wire tag of this role.
    pub fn tag(&self) -> (r: &'static str)
        ensures
            r@ == role_tag(*self),
    {
        match self {
            Role::System => "system",
            Role::Assistant => "assistant",
            Role::User => "user",
            Role::Function => "function",
        }
    }
}

} // verus!
