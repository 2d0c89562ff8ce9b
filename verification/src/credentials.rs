//! Long-lived identity material for the exchange: account name and
//! password, the client certificate bundle used for mutual-TLS login, and
//! the application key sent as a header on every call.
//!
//! A credential set is built once at startup and never changes afterwards;
//! the session layer owns it for the lifetime of one client instance.

use vstd::prelude::*;

verus! {

/// The form body of a certificate login request.
#[allow(non_snake_case)]
pub struct LoginRequestForm {
    pub username: String,
    pub password: String,
}

/// A container for the essential credentials required for the exchange API.
pub struct BFCredentials {
    username: String,
    password: String,
    pfx: Vec<u8>,
    app_key: String,
}

impl BFCredentials {
    /// The account name.
    pub closed spec fn spec_username(&self) -> Seq<char> {
        self.username@
    }

    /// The account password.
    pub closed spec fn spec_password(&self) -> Seq<char> {
        self.password@
    }

    /// The client certificate bundle, as raw PKCS#12 bytes.
    pub closed spec fn spec_pfx(&self) -> Seq<u8> {
        self.pfx@
    }

    /// The application key.
    pub closed spec fn spec_app_key(&self) -> Seq<char> {
        self.app_key@
    }

    /// Assembles a credential set from material already read into memory.
    /// The certificate bundle is taken as raw bytes; its passphrase is
    /// always empty and so is not stored.
    pub fn new(username: String, password: String, pfx: Vec<u8>, app_key: String) -> (c:
        BFCredentials)
        ensures
            c.spec_username() == username@,
            c.spec_password() == password@,
            c.spec_pfx() == pfx@,
            c.spec_app_key() == app_key@,
    {
        BFCredentials { username, password, pfx, app_key }
    }

    /// The form body that a certificate login call carries: the account
    /// name and password, copied out of the credential set.
    pub fn as_login_request_form(&self) -> (f: LoginRequestForm)
        ensures
            f.username@ == self.spec_username(),
            f.password@ == self.spec_password(),
    {
        LoginRequestForm {
            username: self.username.clone(),
            password: self.password.clone(),
        }
    }

    /// The client certificate bundle.
    pub fn pfx(&self) -> (r: &Vec<u8>)
        ensures
            r@ == self.spec_pfx(),
    {
        &self.pfx
    }

    /// The application key.
    pub fn app_key(&self) -> (r: &String)
        ensures
            r@ == self.spec_app_key(),
    {
        &self.app_key
    }
}

} // verus!
