//! The name of the user who runs the player.

use vstd::prelude::*;

verus! {

/// The name shown for the current user: the value of `USERNAME` where that
/// variable is set, else the value of `USER`, else `unknown`.
pub open spec fn spec_username(username: Option<Seq<char>>, user: Option<Seq<char>>) -> Seq<char> {
    match (username, user) {
        (Some(name), _) => name,
        (None, Some(name)) => name,
        (None, None) => "unknown"@,
    }
}

/// The name shown for the current user, given the values of the
/// environment variables `USERNAME` and `USER`, `None` for one that is not
/// set.
pub fn get_current_username(username: Option<String>, user: Option<String>) -> (name: String)
    ensures
        name@ == spec_username(username.deep_view(), user.deep_view()),
{
    match username {
        Some(name) => name,
        None => match user {
            Some(name) => name,
            None => String::from_str("unknown"),
        },
    }
}

} // verus!
