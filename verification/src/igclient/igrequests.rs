//! Requests of the Instagram private API.

pub mod accounts_login;
pub mod direct_v2_inbox;
pub mod qe_sync;

use crate::igclient::IGClientConfig;
use vstd::prelude::*;

verus! {

/// The base URL of the private API.
pub open spec fn base_ig_api_v1() -> Seq<char> {
    "https://i.instagram.com/api/v1/"@
}

/// The URL of an API endpoint: the base URL followed by the endpoint's path.
pub fn endpoint_url(path: &str) -> (url: String)
    ensures
        url@ == base_ig_api_v1() + path@,
{
    let mut url = "https://i.instagram.com/api/v1/".to_owned();
    url.append(path);
    url
}

/// A request sent with GET: its URL and the value that becomes its query
/// string.
pub trait IGGetRequest<Req, Res> {
    fn url(&self) -> String;

    fn query_strings(&self) -> &Req;
}

/// A request sent with POST: its URL and the signed body it carries, made
/// from the request and the client's metadata.
pub trait IGPostRequest<Req, Res> {
    fn payload(&self, req_metadata: IGRequestMetadata) -> Req;

    fn url(&self) -> String;
}

/// The identifiers every POST body carries.
#[derive(Debug, Clone)]
pub struct IGRequestMetadata {
    pub csrftoken: String,
    pub id: String,
    pub guid: String,
    pub device_id: String,
    pub phone_id: String,
}

impl IGRequestMetadata {
    /// The metadata of a client in the given configuration: its CSRF token,
    /// its GUID (as id, GUID and phone id) and its Android ID.
    pub fn from_config(ig_client_config: &IGClientConfig) -> (m: Self)
        ensures
            m.csrftoken@ == ig_client_config.csrftoken@,
            m.id@ == ig_client_config.guid@,
            m.guid@ == ig_client_config.guid@,
            m.device_id@ == ig_client_config.device.device_id@,
            m.phone_id@ == ig_client_config.guid@,
    {
        IGRequestMetadata {
            csrftoken: ig_client_config.csrftoken.clone(),
            id: ig_client_config.guid.clone(),
            guid: ig_client_config.guid.clone(),
            device_id: ig_client_config.device.device_id.clone(),
            phone_id: ig_client_config.guid.clone(),
        }
    }
}

} // verus!
