//! Request and record shapes exchanged with clients and kept in the database.
use vstd::prelude::*;

verus! {

pub const PASSWORD_MIN_CHARS: usize = 1;
pub const PASSWORD_MAX_CHARS: usize = 72;

/// A login request body.
#[derive(Debug)]
pub struct LoginRequest {
    pub login: String,
    pub password: String,
    pub undelete: Option<bool>,
    pub captcha_key: Option<String>,
    pub login_source: Option<String>,
    pub gift_code_sku_id: Option<String>,
}

pub open spec fn password_length_message() -> Seq<char> {
    "password length must be between 1 and 72 characters"@
}

impl LoginRequest {
    /// Accepts a password of 1 to 72 characters (not bytes).
    pub fn validate(&self) -> (r: Result<(), String>)
        ensures
            r is Ok <==> PASSWORD_MIN_CHARS <= self.password@.len() <= PASSWORD_MAX_CHARS,
            r matches Err(m) ==> m@ == password_length_message(),
    {
        let len = self.password.as_str().unicode_len();
        if len < PASSWORD_MIN_CHARS || len > PASSWORD_MAX_CHARS {
            return Err(String::from_str("password length must be between 1 and 72 characters"));
        }
        Ok(())
    }
}

/// The public face of a user, as sent to other clients.
#[derive(Debug, Clone)]
pub struct MinimalPublicUser {
    pub avatar: Option<String>,
    pub discriminator: String,
    pub id: String,
    pub public_flags: i32,
    pub username: String,
    pub badge_ids: Option<Vec<String>>,
}

/// One applied schema migration.
#[derive(Debug, Clone)]
pub struct Migration {
    pub id: i64,
    pub timestamp: i64,
    pub name: String,
}

} // verus!
