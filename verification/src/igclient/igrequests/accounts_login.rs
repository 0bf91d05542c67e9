//! `accounts/login/`: logging in with a user name and password.

use crate::igclient::igrequests::{base_ig_api_v1, endpoint_url, IGPostRequest, IGRequestMetadata};
use vstd::prelude::*;

verus! {

/// The path of the login endpoint.
pub open spec fn accounts_login_path() -> Seq<char> {
    "accounts/login/"@
}

/// The encrypted-password field the API accepts for a plain password.
pub open spec fn login_enc_password(password: Seq<char>) -> Seq<char> {
    "#PWD_INSTAGRAM:0:&:"@ + password
}

/// The encrypted-password field is the 19 characters
/// `#PWD_INSTAGRAM:0:&:` followed by the whole password, unchanged.
pub proof fn law_login_enc_password_keeps_password(password: Seq<char>)
    ensures
        login_enc_password(password).len() == 19 + password.len(),
        login_enc_password(password).take(19) == "#PWD_INSTAGRAM:0:&:"@,
        login_enc_password(password).skip(19) == password,
{
    reveal_strlit("#PWD_INSTAGRAM:0:&:");
    assert(login_enc_password(password).take(19) =~= "#PWD_INSTAGRAM:0:&:"@);
    assert(login_enc_password(password).skip(19) =~= password);
}

#[derive(Debug)]
pub struct LoginRequest {
    pub metadata: Option<IGRequestMetadata>,
    pub username: String,
    pub enc_password: String,
    pub login_attempt_account: u32,
}

impl LoginRequest {
    pub fn new(username: String, enc_password: String, login_attempt_account: u32) -> (r: Self)
        ensures
            r.metadata is None,
            r.username == username,
            r.enc_password == enc_password,
            r.login_attempt_account == login_attempt_account,
    {
        Self { metadata: None, username, enc_password, login_attempt_account }
    }

    /// The login request for a user name and a plain password: the password
    /// goes as `#PWD_INSTAGRAM:0:&:<password>`, at login attempt 0.
    pub fn from_credentials(username: &str, password: &str) -> (r: Self)
        ensures
            r.metadata is None,
            r.username@ == username@,
            r.enc_password@ == login_enc_password(password@),
            r.login_attempt_account == 0,
    {
        let mut enc_password = "#PWD_INSTAGRAM:0:&:".to_owned();
        enc_password.append(password);
        LoginRequest::new(username.to_owned(), enc_password, 0)
    }
}

impl IGPostRequest<LoginRequest, LoginResponse> for LoginRequest {
    /// The body of the request: the same fields with the client's metadata.
    fn payload(&self, req_metadata: IGRequestMetadata) -> (r: LoginRequest)
        ensures
            r.metadata == Some(req_metadata),
            r.username@ == self.username@,
            r.enc_password@ == self.enc_password@,
            r.login_attempt_account == self.login_attempt_account,
    {
        LoginRequest {
            metadata: Some(req_metadata),
            username: self.username.clone(),
            enc_password: self.enc_password.clone(),
            login_attempt_account: self.login_attempt_account,
        }
    }

    fn url(&self) -> (url: String)
        ensures
            url@ == base_ig_api_v1() + accounts_login_path(),
    {
        endpoint_url("accounts/login/")
    }
}

/// The answer to a login request, by its `status`.
#[derive(Debug)]
pub enum LoginResponse {
    /// `"ok"`: the logged in user (as JSON text) and its `pk`.
    Success { logged_in_user: String, pk: i64 },
    /// `"fail"`: the whole answer, as JSON text.
    Fail(String),
}

} // verus!
