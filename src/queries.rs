use vstd::prelude::*;

verus! {

/// What the registration endpoint is sent.
#[derive(Debug)]
pub struct RegisterForm {
    pub username: String,
    pub password1: String,
    pub password2: String,
}

/// What the login endpoint is sent.
#[derive(Debug)]
pub struct LoginForm {
    pub username: String,
    pub password: String,
}

/// The account that a registration created.
#[derive(Debug)]
pub struct AccountInfo {
    pub id: i32,
    pub username: String,
}

/// A successful login: the account and the token that opens the game socket.
#[derive(Debug)]
pub struct AccountKey {
    pub id: i32,
    pub name: String,
    pub token: String,
}

} // verus!
