use freemd::auth::{
    hash_password, register, register_finish, verify_password, Register, RegisterPage, Response,
};

fn form(username: &str, password: &str, confirm: &str) -> Register {
    Register {
        username: username.to_string(),
        password: password.to_string(),
        confirm: confirm.to_string(),
    }
}

fn error_page(message: &str) -> Response {
    Response::Template(RegisterPage { error: message.to_string() })
}

#[test]
fn hashed_password_verifies() {
    let hash = hash_password("secret-pass").expect("hashing succeeds");
    assert!(hash.starts_with("$argon2id$"));
    assert!(hash.chars().count() > 60);
    assert!(verify_password("secret-pass", &hash));
    assert!(!verify_password("other-pass", &hash));
}

#[test]
fn hashes_differ_by_salt() {
    let a = hash_password("same").unwrap();
    let b = hash_password("same").unwrap();
    assert_ne!(a, b);
    assert!(verify_password("same", &a));
    assert!(verify_password("same", &b));
}

#[test]
fn malformed_hash_verifies_nothing() {
    assert!(!verify_password("x", ""));
    assert!(!verify_password("x", "not a hash"));
    assert!(!verify_password("x", "$argon2id$broken"));
}

#[test]
fn register_requires_all_fields() {
    assert_eq!(register(&form("", "pass", "pass")), Err(error_page("Not all fields are filled in")));
    assert_eq!(register(&form("bob", "", "pass")), Err(error_page("Not all fields are filled in")));
    assert_eq!(register(&form("bob", "pass", "")), Err(error_page("Not all fields are filled in")));
}

#[test]
fn register_requires_matching_passwords() {
    assert_eq!(register(&form("bob", "pass1", "pass2")), Err(error_page("Passwords not matching")));
}

#[test]
fn register_checks_username_length_in_chars() {
    assert_eq!(
        register(&form("b", "pass", "pass")),
        Err(error_page("Username must be from 2 to 50 chars"))
    );
    let long = "u".repeat(51);
    assert_eq!(
        register(&form(&long, "pass", "pass")),
        Err(error_page("Username must be from 2 to 50 chars"))
    );
    // 50 two-byte characters are 50 characters: accepted
    let wide = "é".repeat(50);
    let user = register(&form(&wide, "pass", "pass")).expect("accepted");
    // a password of 50 four-byte characters is accepted and hashed
    let emoji = "😀".repeat(50);
    assert!(register(&form("bob", &emoji, &emoji)).is_ok());
    assert_eq!(user.username, wide);
}

#[test]
fn register_checks_password_length_in_chars() {
    assert_eq!(
        register(&form("bob", "abc", "abc")),
        Err(error_page("Password must be from 4 to 50 chars"))
    );
    let long = "p".repeat(51);
    assert_eq!(
        register(&form("bob", &long, &long)),
        Err(error_page("Password must be from 4 to 50 chars"))
    );
}

#[test]
fn register_accepts_and_hashes() {
    let user = register(&form("bob", "hunter22", "hunter22")).expect("accepted");
    assert_eq!(user.username, "bob");
    assert_ne!(user.password_hash, "hunter22");
    assert!(user.password_hash.starts_with("$argon2id$"));
    assert!(verify_password("hunter22", &user.password_hash));
}

#[test]
fn register_finish_sets_cookie_and_redirects() {
    assert_eq!(register_finish(Ok(17)), (Some("17".to_string()), Response::Redirect("/".to_string())));
}

#[test]
fn register_finish_reports_taken_name() {
    let (cookie, page) =
        register_finish(Err("error returned from database: UNIQUE constraint failed: users.username".to_string()));
    assert_eq!(cookie, None);
    assert_eq!(page, error_page("Username already taken"));
}

#[test]
fn register_finish_reports_other_errors() {
    let (cookie, page) = register_finish(Err("database is locked".to_string()));
    assert_eq!(cookie, None);
    assert_eq!(page, error_page("Internal server error"));
}
