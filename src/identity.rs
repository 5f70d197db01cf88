//! Which user name the application reports.
use vstd::prelude::*;

verus! {

/// Name reported when no environment source gives one.
pub const DEFAULT_USERNAME: &'static str = "demo-user";

/// Environment variable that overrides every other source of the user name.
pub const USERNAME_OVERRIDE_VAR: &'static str = "DEMO_USERNAME";

/// Environment variable that holds the login name on POSIX systems.
pub const POSIX_USER_VAR: &'static str = "USER";

/// Environment variable that holds the login name on Windows.
pub const WINDOWS_USER_VAR: &'static str = "USERNAME";

/// Resolves the user name from the values of the three environment sources
/// (`None` where a variable is unset or not valid Unicode), in priority order:
/// the override, then the POSIX user, then the Windows user, and
/// `DEFAULT_USERNAME` when none of them is set. A value that is set is
/// returned exactly as it is, even when it is empty.
pub fn resolve_username(
    override_name: Option<String>,
    posix_user: Option<String>,
    windows_user: Option<String>,
) -> (r: String)
    ensures
        override_name is Some ==> r@ == override_name->0@,
        override_name is None && posix_user is Some ==> r@ == posix_user->0@,
        override_name is None && posix_user is None && windows_user is Some ==> r@
            == windows_user->0@,
        override_name is None && posix_user is None && windows_user is None ==> r@
            == DEFAULT_USERNAME@,
{
    match override_name {
        Some(name) => name,
        None => match posix_user {
            Some(name) => name,
            None => match windows_user {
                Some(name) => name,
                None => String::from_str(DEFAULT_USERNAME),
            },
        },
    }
}

} // verus!
