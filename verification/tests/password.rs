use notes::config::Config;
use notes::entities::auth::{Claims, Login};
use notes::entities::users::{CreateUser, User};
use notes::routes::users::{
    check_login_password, hash_signup_password, issue_claims, check_login_request, login_claims, logout_done, logout_plan, sign_up,
    token_for,
};

fn config(expires: &str) -> Config {
    Config::new(
        Some("db".to_string()),
        Some("secret".to_string()),
        Some("redis://".to_string()),
        Some("notes".to_string()),
        Some(expires.to_string()),
    )
    .unwrap()
}

fn signed_up(password: &str) -> User {
    let payload = CreateUser {
        full_name: "Ann".to_string(),
        email: "ann@example.com".to_string(),
        password: Some(password.to_string()),
    };
    let stored = hash_signup_password(payload).unwrap();
    User { id: 1, full_name: stored.full_name, email: stored.email, password: stored.password, role: "user".to_string(), created_at: None }
}

#[test]
fn signup_stores_a_hash_not_the_password() {
    let u = signed_up("correct horse");
    let h = u.password.unwrap();
    assert_ne!(h, "correct horse");
    assert!(h.starts_with("$argon2id$v=19$m=19456,t=2,p=1$"));
    assert_eq!(h.as_bytes()[31 + 22], b'$');
}

#[test]
fn signup_password_passes_login() {
    let u = signed_up("correct horse");
    let login = Login { email: "ann@example.com".to_string(), password: "correct horse".to_string() };
    assert!(matches!(check_login_password(&login, &u), Some(Ok(()))));
}

#[test]
fn wrong_password_is_refused() {
    let u = signed_up("correct horse");
    let login = Login { email: "ann@example.com".to_string(), password: "battery staple".to_string() };
    match check_login_password(&login, &u) {
        Some(Err(e)) => {
            assert_eq!(e.status_code, 401);
            assert_eq!(e.data.message, "incorrect password");
        }
        _ => panic!("wrong password accepted"),
    }
}

#[test]
fn unreadable_stored_hash_is_reported() {
    let u = User { password: Some("plain text".to_string()), ..User::default() };
    let login = Login { email: "a@b.c".to_string(), password: "plain text".to_string() };
    assert!(check_login_password(&login, &u).is_none());
}

#[test]
fn two_signups_get_different_salts() {
    let a = signed_up("pw").password.unwrap();
    let b = signed_up("pw").password.unwrap();
    assert_ne!(a, b);
}

#[test]
fn issued_claims_expire_after_the_configured_time() {
    let u = User { id: 42, role: "admin".to_string(), ..User::default() };
    let c = issue_claims(&u, &config("3600"), 1_700_000_000);
    assert_eq!(c.sub, 42);
    assert_eq!(c.iat, 1_700_000_000);
    assert_eq!(c.exp, 1_700_003_600);
    assert_eq!(c.iss, "notes");
    assert_eq!(c.role, "admin");
    let t = token_for("abc.def.ghi".to_string(), &c);
    assert_eq!(t.token, "abc.def.ghi");
    assert_eq!(t.expire, 1_700_003_600);
}

#[test]
fn logout_denies_the_cookie_token_for_the_token_lifetime() {
    assert_eq!(logout_plan(Some("tok".to_string()), &config("900")), Some(("tok".to_string(), 900)));
    assert_eq!(logout_plan(None, &config("900")), None);
    assert_eq!(logout_plan(None, &config("not a number")), None);
    assert_eq!(logout_done(Ok(())).is_ok(), true);
    let e = logout_done(Err("connection refused".to_string())).unwrap_err();
    assert_eq!((e.status_code, e.data.message.as_str()), (500, "failed to invalidate token"));
}

#[test]
fn claims_carry_their_fields() {
    let c = Claims { sub: 1, exp: 2, iat: 3, iss: "i".to_string(), role: "r".to_string() };
    assert_eq!(c.clone().role, "r");
}

fn request(email: &str, password: Option<&str>) -> CreateUser {
    CreateUser { full_name: "Ann".to_string(), email: email.to_string(), password: password.map(str::to_string) }
}

#[test]
fn signup_validation() {
    assert_eq!(request("ann@example.com", Some("pw")).validate(), Ok(()));
    assert_eq!(request("ann@example.com", None).validate(), Err("email and password must not be empty"));
    assert_eq!(request("ann@example.com", Some("")).validate(), Err("email and password must not be empty"));
    assert_eq!(request("", Some("pw")).validate(), Err("email and password must not be empty"));
    assert_eq!(request("ann", Some("pw")).validate(), Err("invalid email address"));
}

#[test]
fn signup_refusals_are_unprocessable() {
    let e = sign_up(request("ann@example.com", None)).unwrap_err();
    assert_eq!((e.status_code, e.data.message.as_str()), (422, "email and password must not be empty"));
    let e = sign_up(request("ann@localhost", Some("pw"))).unwrap_err();
    assert_eq!((e.status_code, e.data.message.as_str()), (422, "invalid email address"));
}

#[test]
fn signup_hashes_the_password() {
    let p = sign_up(request("ann@example.com", Some("pw"))).unwrap();
    assert_eq!(p.full_name, "Ann");
    assert_eq!(p.email, "ann@example.com");
    let stored = p.password.unwrap();
    assert!(stored.starts_with("$argon2id$"));
    let u = User { id: 3, password: Some(stored), role: "user".to_string(), ..User::default() };
    let login = Login { email: "ann@example.com".to_string(), password: "pw".to_string() };
    assert!(matches!(check_login_password(&login, &u), Some(Ok(()))));
}

fn stored_user(password: &str) -> User {
    User { id: 5, role: "admin".to_string(), ..signed_up(password) }
}

#[test]
fn login_issues_claims_only_for_the_right_password() {
    let login = Login { email: "ann@example.com".to_string(), password: "pw".to_string() };
    let c = login_claims(&login, Ok(Some(stored_user("pw"))), &config("60"), 1000).unwrap().unwrap();
    assert_eq!((c.sub, c.iat, c.exp, c.iss.as_str(), c.role.as_str()), (5, 1000, 1060, "notes", "admin"));
    let e = login_claims(&login, Ok(Some(stored_user("other"))), &config("60"), 1000).unwrap().unwrap_err();
    assert_eq!((e.status_code, e.data.message.as_str()), (401, "incorrect password"));
}

#[test]
fn login_with_unknown_address_is_unauthorized() {
    let login = Login { email: "nobody@example.com".to_string(), password: "pw".to_string() };
    let e = login_claims(&login, Ok(None), &config("60"), 1000).unwrap().unwrap_err();
    assert_eq!((e.status_code, e.data.message.as_str()), (401, "user not found"));
    let e = login_claims(&login, Err("database is locked".to_string()), &config("60"), 1000).unwrap().unwrap_err();
    assert_eq!((e.status_code, e.data.message.as_str()), (400, "database is locked"));
}

#[test]
fn login_stops_where_it_cannot_answer() {
    let login = Login { email: "ann@example.com".to_string(), password: "pw".to_string() };
    assert!(login_claims(&login, Ok(Some(stored_user("pw"))), &config("soon"), 1000).is_none());
    assert!(login_claims(&login, Ok(Some(stored_user("pw"))), &config("9223372036854775807"), 1000).is_none());
    let unreadable = User { password: Some("plain".to_string()), ..User::default() };
    assert!(login_claims(&login, Ok(Some(unreadable)), &config("60"), 1000).is_none());
    // a wrong password is refused even where the lifetime could not be read
    let e = login_claims(&login, Ok(Some(stored_user("other"))), &config("soon"), 1000).unwrap().unwrap_err();
    assert_eq!(e.status_code, 401);
}

#[test]
fn invalid_login_requests_are_unprocessable() {
    let bad = Login { email: "alice.example.com".to_string(), password: "pw".to_string() };
    let e = check_login_request(&bad).unwrap_err();
    assert_eq!((e.status_code, e.data.message.as_str()), (422, "invalid email address"));
    let e = login_claims(&bad, Ok(Some(stored_user("pw"))), &config("60"), 1000).unwrap().unwrap_err();
    assert_eq!((e.status_code, e.data.message.as_str()), (422, "invalid email address"));
    let empty = Login { email: "a@b.co".to_string(), password: "".to_string() };
    let e = login_claims(&empty, Ok(None), &config("60"), 1000).unwrap().unwrap_err();
    assert_eq!((e.status_code, e.data.message.as_str()), (422, "email and password must not be empty"));
    let good = Login { email: "a@b.co".to_string(), password: "pw".to_string() };
    assert!(check_login_request(&good).is_ok());
}

#[test]
fn expiry_must_stay_within_the_clock_range() {
    let login = Login { email: "ann@example.com".to_string(), password: "pw".to_string() };
    let last = 253_402_300_799i64;
    let c = login_claims(&login, Ok(Some(stored_user("pw"))), &config("1"), last - 1).unwrap().unwrap();
    assert_eq!(c.exp, last);
    assert!(login_claims(&login, Ok(Some(stored_user("pw"))), &config("2"), last - 1).is_none());
}
