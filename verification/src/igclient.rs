//! Instagram private API client logic: the client's configuration and what
//! the client decides around its requests. Sending them over HTTP is
//! outside the library.

pub mod igdevice;
pub mod igrequests;
pub mod utils;

use crate::igclient::igdevice::{
    android_device_id,
    ig_capabilities,
    ig_user_agent,
    is_lower_hex_digit,
    IGAndroidDevice,
};
use crate::igclient::igrequests::accounts_login::LoginResponse;
use crate::igclient::igrequests::qe_sync::QeResponse;
use crate::igclient::utils::{
    find_cookie_value,
    lookup_cookie,
    split_cookie_pairs,
    split_cookie_str,
    CookieLookup,
    MalformedCookie,
};
use vstd::prelude::*;

verus! {

/// Why logging in failed: the answer that refused it.
#[derive(Debug)]
pub enum IGLoginErrorResponse {
    QeSyncResponse(QeResponse),
    AccountsLoginResponse(LoginResponse),
}

/// The hyphenated form of a version 4 UUID: 36 characters, hyphens at
/// positions 8, 13, 18 and 23, lower-case hexadecimal digits elsewhere, the
/// version digit (position 14) 4, and the variant digit (position 19) one
/// of 8, 9, a and b.
pub open spec fn is_hyphenated_uuid(s: Seq<char>) -> bool {
    &&& s.len() == 36
    &&& forall|i: int|
        0 <= i < 36 ==> if i == 8 || i == 13 || i == 18 || i == 23 {
            s[i] == '-'
        } else {
            is_lower_hex_digit(#[trigger] s[i])
        }
    &&& s[14] == '4'
    &&& (s[19] == '8' || s[19] == '9' || s[19] == 'a' || s[19] == 'b')
}

/// `uuid::Uuid::new_v4().to_string()`: a random version 4 UUID in its
/// hyphenated lower-case form. Which UUID comes out is chance; the
/// contract states only the form every outcome has.
#[verifier::external_body]
fn new_random_guid() -> (guid: String)
    ensures
        is_hyphenated_uuid(guid@),
{
    uuid::Uuid::new_v4().to_string()
}

/// The headers every request of a client in this configuration carries,
/// as (name, value) pairs in order.
pub open spec fn request_headers_of(config: IGClientConfig) -> Seq<(Seq<char>, Seq<char>)> {
    seq![
        ("Connection"@, "close"@),
        ("X-IG-Capabilities"@, config.device.capabilities@),
        ("X-IG-App-ID"@, "567067343352427"@),
        ("User-Agent"@, config.device.user_agent@),
        ("X-IG-Device-ID"@, config.guid@),
        ("X-IG-Android-ID"@, config.device.device_id@),
    ]
}

/// The views of a list of header name and value pairs.
pub open spec fn header_views(headers: Seq<(String, String)>) -> Seq<(Seq<char>, Seq<char>)> {
    headers.map_values(|h: (String, String)| (h.0@, h.1@))
}

/// The state of a client: its identifiers, device, CSRF token, session
/// cookies (a `Cookie` header value) and user id (`pk`, -1 before login).
#[derive(Debug, Clone)]
pub struct IGClientConfig {
    pub guid: String,
    pub device: IGAndroidDevice,
    pub csrftoken: String,
    pub cookies_str: String,
    pub pk: i64,
}

impl IGClientConfig {
    /// The configuration of a new client that has not logged in: a random
    /// GUID, the device seeded with "1234", CSRF token "missing", no
    /// cookies and `pk` -1.
    pub fn new_logged_out() -> (config: Self)
        ensures
            is_hyphenated_uuid(config.guid@),
            config.device.user_agent@ == ig_user_agent(),
            config.device.device_id@ == android_device_id("1234"@),
            config.device.capabilities@ == ig_capabilities(),
            config.csrftoken@ == "missing"@,
            config.cookies_str@ == Seq::<char>::empty(),
            config.pk == -1,
    {
        IGClientConfig {
            pk: -1,
            guid: new_random_guid(),
            device: IGAndroidDevice::new("1234"),
            csrftoken: "missing".to_owned(),
            cookies_str: String::new(),
        }
    }

    /// The cookie strings of the session: `cookies_str` split on `"; "`.
    pub fn cookie_strs(&self) -> (pieces: Vec<String>)
        ensures
            pieces@.map_values(|p: String| p@) == split_cookie_pairs(self.cookies_str@),
    {
        split_cookie_str(self.cookies_str.as_str())
    }

    /// Looks up a session cookie by name, reporting a cookie string that
    /// does not parse rather than failing.
    pub fn find_cookie_value(&self, name: &str) -> (r: Result<Option<String>, MalformedCookie>)
        ensures
            r matches Ok(Some(v)) ==> lookup_cookie(split_cookie_pairs(self.cookies_str@), name@)
                == CookieLookup::Found(v@),
            r matches Ok(None) ==> lookup_cookie(split_cookie_pairs(self.cookies_str@), name@)
                == CookieLookup::Absent,
            r is Err ==> lookup_cookie(split_cookie_pairs(self.cookies_str@), name@)
                == CookieLookup::Unparsable,
    {
        let pieces = self.cookie_strs();
        find_cookie_value(&pieces, name)
    }

    /// The value of the first session cookie named `name`, if any. Every
    /// cookie string before it must parse; `find_cookie_value` reports one
    /// that does not.
    pub fn get_cookie_value(&self, name: &str) -> (r: Option<String>)
        requires
            lookup_cookie(split_cookie_pairs(self.cookies_str@), name@) != CookieLookup::Unparsable,
        ensures
            r matches Some(v) ==> lookup_cookie(split_cookie_pairs(self.cookies_str@), name@)
                == CookieLookup::Found(v@),
            r is None ==> lookup_cookie(split_cookie_pairs(self.cookies_str@), name@)
                == CookieLookup::Absent,
    {
        match self.find_cookie_value(name) {
            Ok(value) => value,
            Err(_) => None,
        }
    }

    /// The headers every request of this client carries, in order.
    pub fn request_headers(&self) -> (headers: Vec<(String, String)>)
        ensures
            header_views(headers@) == request_headers_of(*self),
    {
        let mut headers: Vec<(String, String)> = Vec::new();
        headers.push(("Connection".to_owned(), "close".to_owned()));
        headers.push(("X-IG-Capabilities".to_owned(), self.device.capabilities.clone()));
        headers.push(("X-IG-App-ID".to_owned(), "567067343352427".to_owned()));
        headers.push(("User-Agent".to_owned(), self.device.user_agent.clone()));
        headers.push(("X-IG-Device-ID".to_owned(), self.guid.clone()));
        headers.push(("X-IG-Android-ID".to_owned(), self.device.device_id.clone()));
        assert(header_views(headers@) =~= request_headers_of(*self));
        headers
    }

    /// What a response tells the client about its session: a `csrftoken`
    /// set by the response replaces the CSRF token, and the cookies the
    /// client holds for the API replace `cookies_str`; each stays as it was
    /// where the response brings none.
    pub fn record_response_cookies(
        &mut self,
        csrftoken: Option<String>,
        session_cookies: Option<String>,
    )
        ensures
            final(self).csrftoken == (match csrftoken {
                Some(t) => t,
                None => old(self).csrftoken,
            }),
            final(self).cookies_str == (match session_cookies {
                Some(c) => c,
                None => old(self).cookies_str,
            }),
            final(self).guid == old(self).guid,
            final(self).device == old(self).device,
            final(self).pk == old(self).pk,
    {
        if let Some(csrftoken) = csrftoken {
            self.csrftoken = csrftoken;
        }
        if let Some(session_cookies) = session_cookies {
            self.cookies_str = session_cookies;
        }
    }

    /// The end of a login: an `"ok"` answer records the user's `pk` and is
    /// handed back; a `"fail"` answer leaves the configuration as it was and
    /// becomes the login error.
    pub fn apply_login_response(&mut self, login_response: LoginResponse) -> (r: Result<
        LoginResponse,
        IGLoginErrorResponse,
    >)
        ensures
            login_response matches LoginResponse::Success { pk, .. } ==> final(self).pk == pk && r
                == Ok::<LoginResponse, IGLoginErrorResponse>(login_response),
            login_response is Fail ==> final(self).pk == old(self).pk && r == Err::<
                LoginResponse,
                IGLoginErrorResponse,
            >(IGLoginErrorResponse::AccountsLoginResponse(login_response)),
            final(self).guid == old(self).guid,
            final(self).device == old(self).device,
            final(self).csrftoken == old(self).csrftoken,
            final(self).cookies_str == old(self).cookies_str,
    {
        match login_response {
            LoginResponse::Success { logged_in_user, pk } => {
                self.pk = pk;
                Ok(LoginResponse::Success { logged_in_user, pk })
            },
            LoginResponse::Fail(body) => Err(
                IGLoginErrorResponse::AccountsLoginResponse(LoginResponse::Fail(body)),
            ),
        }
    }
}

/// The first step of a login: a `"fail"` answer to the experiments sync
/// ends the login with that answer as the error; an `"ok"` one lets it go
/// on.
pub fn check_qe_sync_response(qe_sync_response: QeResponse) -> (r: Result<
    QeResponse,
    IGLoginErrorResponse,
>)
    ensures
        qe_sync_response is Success ==> r == Ok::<QeResponse, IGLoginErrorResponse>(qe_sync_response),
        qe_sync_response is Fail ==> r == Err::<QeResponse, IGLoginErrorResponse>(
            IGLoginErrorResponse::QeSyncResponse(qe_sync_response),
        ),
{
    match qe_sync_response {
        QeResponse::Fail(body) => Err(IGLoginErrorResponse::QeSyncResponse(QeResponse::Fail(body))),
        QeResponse::Success(body) => Ok(QeResponse::Success(body)),
    }
}

/// The URL of a GET request: the endpoint, `?`, and the query string.
pub fn get_request_url(url: &str, query_string: &str) -> (r: String)
    ensures
        r@ == url@ + "?"@ + query_string@,
{
    let mut r = url.to_owned();
    r.append("?");
    r.append(query_string);
    r
}

/// The `signed_body` form field of a POST request: the API no longer checks
/// signatures, so the JSON payload follows the word `SIGNATURE.`.
pub fn signed_body(payload_json: &str) -> (r: String)
    ensures
        r@ == "SIGNATURE."@ + payload_json@,
{
    let mut r = "SIGNATURE.".to_owned();
    r.append(payload_json);
    r
}

} // verus!
