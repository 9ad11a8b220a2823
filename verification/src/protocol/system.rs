use vstd::prelude::*;

verus! {

/// Body of the health endpoint.
#[derive(Debug, Clone)]
pub struct HealthcheckResponse {
    pub state: String,
}

/// Body of the version endpoint.
#[derive(Debug, Clone)]
pub struct VersionResponse {
    pub version: String,
}

/// Body of every error answer of the server.
#[derive(Debug, Clone)]
pub struct ApiErrorResponse {
    pub code: String,
    pub message: String,
}

} // verus!
