//! `direct_v2/inbox/`: the direct message inbox.

use crate::igclient::igrequests::{base_ig_api_v1, endpoint_url, IGGetRequest};
use vstd::prelude::*;

verus! {

/// The path of the inbox endpoint.
pub open spec fn direct_v2_inbox_path() -> Seq<char> {
    "direct_v2/inbox/"@
}

/// The inbox request; it carries no query parameters.
#[derive(Debug)]
pub struct DirectV2InboxRequest {}

impl IGGetRequest<DirectV2InboxRequest, DirectV2InboxResponse> for DirectV2InboxRequest {
    fn url(&self) -> (url: String)
        ensures
            url@ == base_ig_api_v1() + direct_v2_inbox_path(),
    {
        endpoint_url("direct_v2/inbox/")
    }

    fn query_strings(&self) -> (q: &DirectV2InboxRequest)
        ensures
            q == self,
    {
        self
    }
}

/// The inbox, by its `status`, with the whole answer as JSON text.
#[derive(Debug)]
pub enum DirectV2InboxResponse {
    Success(String),
    Fail(String),
}

} // verus!
