use notes::entities::auth::Login;
use notes::entities::is_valid_email;
use notes::entities::users::Role;

fn login(email: &str, password: &str) -> Login {
    Login { email: email.to_string(), password: password.to_string() }
}

#[test]
fn email_with_local_part_and_dotted_domain_is_valid() {
    assert!(is_valid_email("user@example.com"));
    assert!(is_valid_email("a@b.c"));
    assert!(is_valid_email("first.last@mail.example.org"));
}

#[test]
fn email_without_at_is_invalid() {
    assert!(!is_valid_email("user.example.com"));
    assert!(!is_valid_email(""));
}

#[test]
fn email_with_empty_local_part_is_invalid() {
    assert!(!is_valid_email("@example.com"));
}

#[test]
fn email_domain_needs_a_dot() {
    assert!(!is_valid_email("user@localhost"));
    assert!(!is_valid_email("user@"));
}

#[test]
fn email_domain_may_not_start_or_end_with_a_dot() {
    assert!(!is_valid_email("user@.example.com"));
    assert!(!is_valid_email("user@example.com."));
    assert!(!is_valid_email("user@."));
}

#[test]
fn email_splits_at_the_first_at_sign() {
    // the domain is everything after the first `@`, further `@` included
    assert!(is_valid_email("a@b@c.d"));
    assert!(!is_valid_email("a@.b@c.d"));
}

#[test]
fn email_with_non_ascii_characters() {
    assert!(is_valid_email("jürgen@bücher.de"));
    assert!(!is_valid_email("ü@bücher"));
}

#[test]
fn login_with_valid_credentials_passes() {
    assert_eq!(login("user@example.com", "secret").validate(), Ok(()));
}

#[test]
fn login_with_empty_email_or_password_is_refused() {
    assert_eq!(login("", "secret").validate(), Err("email and password must not be empty"));
    assert_eq!(login("user@example.com", "").validate(), Err("email and password must not be empty"));
    assert_eq!(login("", "").validate(), Err("email and password must not be empty"));
}

#[test]
fn login_emptiness_is_checked_before_the_address() {
    assert_eq!(login("not-an-address", "").validate(), Err("email and password must not be empty"));
}

#[test]
fn login_with_invalid_address_is_refused() {
    assert_eq!(login("not-an-address", "secret").validate(), Err("invalid email address"));
    assert_eq!(login("user@localhost", "secret").validate(), Err("invalid email address"));
}

#[test]
fn role_names_in_both_cases() {
    assert_eq!(Role::check_role("user"), Ok(Role::User));
    assert_eq!(Role::check_role("User"), Ok(Role::User));
    assert_eq!(Role::check_role("admin"), Ok(Role::Admin));
    assert_eq!(Role::check_role("Admin"), Ok(Role::Admin));
}

#[test]
fn unknown_role_names_are_refused() {
    assert_eq!(Role::check_role("USER"), Err("Unknown role"));
    assert_eq!(Role::check_role("publisher"), Err("Unknown role"));
    assert_eq!(Role::check_role("Publisher"), Err("Unknown role"));
    assert_eq!(Role::check_role(""), Err("Unknown role"));
    assert_eq!(Role::check_role("admin "), Err("Unknown role"));
}
