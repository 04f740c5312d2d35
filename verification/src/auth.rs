//! Accounts: password hashing with argon2 and the registration form.
use vstd::prelude::*;
use vstd::string::*;
use argon2::password_hash::rand_core::OsRng;
use argon2::password_hash::{PasswordHash, PasswordHasher, PasswordVerifier, SaltString};
use argon2::Argon2;
use crate::text::{byte_len, contains, join, lemma_byte_len_bound, occurs_in, owned, str_eq};
use crate::user::{decimal, format_user_id};

verus! {

/// Whether argon2 accepts `password` against the PHC hash string `hash`.
pub uninterp spec fn password_verifies(password: Seq<char>, hash: Seq<char>) -> bool;

/// Whether `h` has the shape of the PHC string an `Argon2::default()` hash
/// renders to: it starts with `$argon2id$` and carries the encoded salt and
/// output after it, so it is longer than 60 characters.
pub open spec fn is_argon2id_phc(h: Seq<char>) -> bool {
    &&& h.len() > 60
    &&& h.take(10) == "$argon2id$"@
}

/// Draws a salt with `SaltString::generate` from the operating system's
/// random source (`OsRng`, 16 random bytes), then calls
/// `PasswordHasher::hash_password` of `Argon2::default()` on the bytes of
/// `password` with that salt and renders the hash as its PHC string.
/// Claimed:
/// - a returned hash is one argon2 accepts `password` against (verifying
///   recomputes the hash from the parameters and salt the string records);
/// - it is an Argon2id PHC string: `$argon2id$`, the version, the parameters,
///   the 22-character encoded salt and the 43-character encoded 32-byte
///   output, so longer than 60 characters;
/// - hashing succeeds whenever the password has at most `0xFFFF_FFFF` bytes
///   (with the default parameters and a 16-byte salt, the only input that
///   `Argon2::verify_inputs` refuses is a longer password).
/// Which salt is drawn, and so which hash comes out, is random and not
/// claimed; the error is argon2's message.
#[verifier::external_body]
fn argon2_hash(password: &str) -> (r: Result<String, String>)
    ensures
        r matches Ok(h) ==> password_verifies(password@, h@) && is_argon2id_phc(h@),
        byte_len(password@) <= 0xffff_ffff ==> r is Ok,
{
    let salt = SaltString::generate(&mut OsRng);
    match Argon2::default().hash_password(password.as_bytes(), &salt) {
        Ok(hash) => Ok(hash.to_string()),
        Err(e) => Err(e.to_string()),
    }
}

/// Parses `password_hash` with `PasswordHash::new` and, when it parses, calls
/// `PasswordVerifier::verify_password` of `Argon2::default()` on the bytes of
/// `password`; a hash that does not parse verifies nothing.
/// Claimed: the answer is `password_verifies(password@, password_hash@)`, and
/// a hash string that is empty or does not start with `$` is refused
/// (`PasswordHash::parse` requires the text before the first `$` to be
/// empty).
#[verifier::external_body]
fn argon2_verify(password: &str, password_hash: &str) -> (ok: bool)
    ensures
        ok == password_verifies(password@, password_hash@),
        password_hash@.len() == 0 || password_hash@[0] != '$' ==> !ok,
{
    match PasswordHash::new(password_hash) {
        Ok(hash) => Argon2::default().verify_password(password.as_bytes(), &hash).is_ok(),
        Err(_) => false,
    }
}

/// Hashes `password` with argon2 under a fresh random salt. Hashing
/// succeeds for every password of at most `0xFFFF_FFFF` bytes; on failure
/// the error reads `Hash error: ` followed by argon2's message.
pub fn hash_password(password: &str) -> (r: Result<String, String>)
    ensures
        r matches Ok(h) ==> password_verifies(password@, h@) && is_argon2id_phc(h@),
        byte_len(password@) <= 0xffff_ffff ==> r is Ok,
        r matches Err(e) ==> e@.len() >= 12 && e@.take(12) == "Hash error: "@,
{
    match argon2_hash(password) {
        Ok(h) => Ok(h),
        Err(e) => {
            let msg = join("Hash error: ", e.as_str());
            proof {
                reveal_strlit("Hash error: ");
                assert(msg@.take(12) =~= "Hash error: "@);
            }
            Err(msg)
        },
    }
}

/// Whether `password` matches the stored argon2 hash `password_hash`; a
/// stored value that is not a PHC hash string matches nothing.
pub fn verify_password(password: &str, password_hash: &str) -> (ok: bool)
    ensures
        ok == password_verifies(password@, password_hash@),
        password_hash@.len() == 0 || password_hash@[0] != '$' ==> !ok,
{
    argon2_verify(password, password_hash)
}

/// The sign-in form.
#[derive(Debug, PartialEq, Eq)]
pub struct Login {
    pub username: String,
    pub password: String,
}

/// The registration form.
#[derive(Debug, PartialEq, Eq)]
pub struct Register {
    pub username: String,
    pub password: String,
    pub confirm: String,
}

/// The registration page, showing `error`.
#[derive(Debug, PartialEq, Eq)]
pub struct RegisterPage {
    pub error: String,
}

/// What a registration is answered with.
#[derive(Debug, PartialEq, Eq)]
pub enum Response {
    Template(RegisterPage),
    Redirect(String),
}

/// A user row to insert.
#[derive(Debug, PartialEq, Eq)]
pub struct NewUser {
    pub username: String,
    pub password_hash: String,
}

/// The first check that the registration form fails, as the message shown:
/// a blank field, differing passwords, a user name outside 2..=50
/// characters, a password outside 4..=50 characters.
pub open spec fn register_error(form: Register) -> Option<Seq<char>> {
    if form.username@.len() == 0 || form.password@.len() == 0 || form.confirm@.len() == 0 {
        Some("Not all fields are filled in"@)
    } else if form.password@ != form.confirm@ {
        Some("Passwords not matching"@)
    } else if form.username@.len() < 2 || form.username@.len() > 50 {
        Some("Username must be from 2 to 50 chars"@)
    } else if form.password@.len() < 4 || form.password@.len() > 50 {
        Some("Password must be from 4 to 50 chars"@)
    } else {
        None
    }
}

/// Law: a registration form passes the checks exactly when the password and
/// its confirmation are the same text, the user name has 2 to 50 characters
/// and the password 4 to 50; filled-in fields whose password and
/// confirmation differ are refused as not matching.
pub proof fn registration_needs_matching_passwords(form: Register)
    ensures
        register_error(form) is None <==> (form.password@ == form.confirm@ && 2
            <= form.username@.len() <= 50 && 4 <= form.password@.len() <= 50),
        form.username@.len() > 0 && form.password@.len() > 0 && form.confirm@.len() > 0
            && form.password@ != form.confirm@ ==> register_error(form) == Some(
            "Passwords not matching"@,
        ),
{
}

/// Whether `r` is the registration page showing `message`.
pub open spec fn shows_register_error(r: Response, message: Seq<char>) -> bool {
    r matches Response::Template(page) && page.error@ == message
}

fn register_page(message: &str) -> (r: Response)
    ensures
        shows_register_error(r, message@),
{
    Response::Template(RegisterPage { error: owned(message) })
}

/// Checks the registration form and hashes the password. `Ok` is the user
/// row to insert; `Err` is the page to answer with.
pub fn register(form: &Register) -> (r: Result<NewUser, Response>)
    ensures
        register_error(*form) matches Some(m) ==> (r matches Err(page) && shows_register_error(
            page,
            m,
        )),
        r is Ok <==> (form.password@ == form.confirm@ && 2 <= form.username@.len() <= 50 && 4
            <= form.password@.len() <= 50),
        register_error(*form) is None ==> (r matches Ok(user) && user.username@ == form.username@
            && password_verifies(form.password@, user.password_hash@) && is_argon2id_phc(
            user.password_hash@,
        ) && user.password_hash@ != form.password@),
{
    let username = form.username.as_str();
    let password = form.password.as_str();
    let confirm = form.confirm.as_str();
    if username.is_empty() || password.is_empty() || confirm.is_empty() {
        return Err(register_page("Not all fields are filled in"));
    }
    if !str_eq(password, confirm) {
        return Err(register_page("Passwords not matching"));
    }
    let username_length = username.unicode_len();
    if username_length < 2 || username_length > 50 {
        return Err(register_page("Username must be from 2 to 50 chars"));
    }
    let password_length = password.unicode_len();
    if password_length < 4 || password_length > 50 {
        return Err(register_page("Password must be from 4 to 50 chars"));
    }
    proof {
        lemma_byte_len_bound(password@);
    }
    match hash_password(password) {
        Ok(hash) => Ok(NewUser { username: owned(username), password_hash: hash }),
        Err(_) => Err(register_page("Internal server error. Try again later")),
    }
}

/// What the insert of the new user row is answered with: on success the
/// `user_id` cookie to set (the new row's id in decimal) and a redirect to
/// the front page; on failure the registration page, telling a taken name
/// (a database error that mentions `UNIQUE`) from any other error.
pub fn register_finish(insert: Result<i64, String>) -> (r: (Option<String>, Response))
    ensures
        match insert {
            Ok(id) => {
                &&& r.0 matches Some(c) && c@ == decimal(id as int)
                &&& r.1 matches Response::Redirect(to) && to@ == "/"@
            },
            Err(e) => r.0 is None && shows_register_error(
                r.1,
                if occurs_in(e@, "UNIQUE"@) {
                    "Username already taken"@
                } else {
                    "Internal server error"@
                },
            ),
        },
{
    match insert {
        Ok(id) => (Some(format_user_id(id)), Response::Redirect(owned("/"))),
        Err(e) => {
            if contains(e.as_str(), "UNIQUE") {
                (None, register_page("Username already taken"))
            } else {
                (None, register_page("Internal server error"))
            }
        },
    }
}

} // verus!
