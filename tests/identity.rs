use host_commands::identity::{
    resolve_username, DEFAULT_USERNAME, POSIX_USER_VAR, USERNAME_OVERRIDE_VAR, WINDOWS_USER_VAR,
};

fn some(s: &str) -> Option<String> {
    Some(s.to_string())
}

#[test]
fn override_wins_over_every_other_source() {
    assert_eq!(resolve_username(some("grantee-42"), some("alice"), some("bob")), "grantee-42");
    assert_eq!(resolve_username(some("grantee-42"), None, None), "grantee-42");
}

#[test]
fn override_is_returned_exactly_even_when_empty() {
    assert_eq!(resolve_username(some(""), some("alice"), some("bob")), "");
    assert_eq!(resolve_username(some("  spaced  "), some("alice"), None), "  spaced  ");
}

#[test]
fn posix_user_used_when_override_unset() {
    assert_eq!(resolve_username(None, some("alice"), some("bob")), "alice");
    assert_eq!(resolve_username(None, some("alice"), None), "alice");
}

#[test]
fn windows_user_used_when_override_and_posix_unset() {
    assert_eq!(resolve_username(None, None, some("bob")), "bob");
}

#[test]
fn default_when_no_source_is_set() {
    assert_eq!(resolve_username(None, None, None), "demo-user");
    assert_eq!(DEFAULT_USERNAME, "demo-user");
}

#[test]
fn variable_names_in_priority_order() {
    assert_eq!(USERNAME_OVERRIDE_VAR, "DEMO_USERNAME");
    assert_eq!(POSIX_USER_VAR, "USER");
    assert_eq!(WINDOWS_USER_VAR, "USERNAME");
}
