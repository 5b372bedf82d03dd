use vstd::prelude::*;

verus! {

/// The authorization level of an account.
#[derive(Debug, Clone, Copy, PartialEq, Eq, Structural)]
pub enum UserRole {
    Admin,
    User,
    Pending,
}

/// The lower-case name under which a role is stored and carried in tokens.
pub open spec fn role_name(r: UserRole) -> Seq<char> {
    match r {
        UserRole::Admin => seq!['a', 'd', 'm', 'i', 'n'],
        UserRole::User => seq!['u', 's', 'e', 'r'],
        UserRole::Pending => seq!['p', 'e', 'n', 'd', 'i', 'n', 'g'],
    }
}

/// The role whose name is `s`, if any.
pub open spec fn role_of_name(s: Seq<char>) -> Option<UserRole> {
    if s == role_name(UserRole::Admin) {
        Some(UserRole::Admin)
    } else if s == role_name(UserRole::User) {
        Some(UserRole::User)
    } else if s == role_name(UserRole::Pending) {
        Some(UserRole::Pending)
    } else {
        None
    }
}

impl UserRole {
    /// The role an account has unless it is promoted.
    pub fn default() -> (r: UserRole)
        ensures
            r == UserRole::Pending,
    {
        UserRole::Pending
    }

    /// The stored name of the role: `admin`, `user` or `pending`.
    pub fn to_string(&self) -> (r: String)
        ensures
            r@ == role_name(*self),
    {
        proof {
            reveal_strlit("admin");
            reveal_strlit("user");
            reveal_strlit("pending");
        }
        match self {
            UserRole::Admin => String::from_str("admin"),
            UserRole::User => String::from_str("user"),
            UserRole::Pending => String::from_str("pending"),
        }
    }

    /// Reads a stored role name.
    pub fn parse(s: &str) -> (r: Option<UserRole>)
        ensures
            r == role_of_name(s@),
    {
        proof {
            reveal_strlit("admin");
            reveal_strlit("user");
            reveal_strlit("pending");
        }
        let admin = String::from_str("admin");
        let user = String::from_str("user");
        let pending = String::from_str("pending");
        let owned = String::from_str(s);
        assert(admin@ == role_name(UserRole::Admin));
        assert(user@ == role_name(UserRole::User));
        assert(pending@ == role_name(UserRole::Pending));
        if owned == admin {
            Some(UserRole::Admin)
        } else if owned == user {
            Some(UserRole::User)
        } else if owned == pending {
            Some(UserRole::Pending)
        } else {
            None
        }
    }

    pub fn is_admin(&self) -> (r: bool)
        ensures
            r == (*self == UserRole::Admin),
    {
        match self {
            UserRole::Admin => true,
            _ => false,
        }
    }
}

/// Each role name reads back as its role.
pub proof fn lemma_role_name_round_trip(r: UserRole)
    ensures
        role_of_name(role_name(r)) == Some(r),
{
    assert(role_name(UserRole::Admin) != role_name(UserRole::User)) by {
        assert(role_name(UserRole::Admin).len() != role_name(UserRole::User).len());
    }
    assert(role_name(UserRole::Admin) != role_name(UserRole::Pending)) by {
        assert(role_name(UserRole::Admin).len() != role_name(UserRole::Pending).len());
    }
    assert(role_name(UserRole::User) != role_name(UserRole::Pending)) by {
        assert(role_name(UserRole::User).len() != role_name(UserRole::Pending).len());
    }
}

} // verus!
