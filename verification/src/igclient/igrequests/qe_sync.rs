//! `qe/sync/`: synchronising the quick experiments before logging in.

use crate::igclient::igrequests::{base_ig_api_v1, endpoint_url, IGPostRequest, IGRequestMetadata};
use vstd::prelude::*;

verus! {

/// The path of the experiments endpoint.
pub open spec fn qe_sync_path() -> Seq<char> {
    "qe/sync/"@
}

#[derive(Debug)]
pub struct QeRequest {
    pub metadata: Option<IGRequestMetadata>,
    pub experiments: String,
}

impl QeRequest {
    pub fn new(experiments: String) -> (r: Self)
        ensures
            r.metadata is None,
            r.experiments == experiments,
    {
        Self { metadata: None, experiments }
    }
}

impl IGPostRequest<QeRequest, QeResponse> for QeRequest {
    /// The body of the request: the experiments with the client's metadata.
    fn payload(&self, req_metadata: IGRequestMetadata) -> (r: QeRequest)
        ensures
            r.metadata == Some(req_metadata),
            r.experiments@ == self.experiments@,
    {
        QeRequest { metadata: Some(req_metadata), experiments: self.experiments.clone() }
    }

    fn url(&self) -> (url: String)
        ensures
            url@ == base_ig_api_v1() + qe_sync_path(),
    {
        endpoint_url("qe/sync/")
    }
}

/// The answer to an experiments sync, by its `status`, with the whole
/// answer as JSON text.
#[derive(Debug)]
pub enum QeResponse {
    Success(String),
    Fail(String),
}

} // verus!
