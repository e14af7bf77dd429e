//! The drive token handed to the downstream registrar once a drive
//! authorization completes.

use vstd::prelude::*;

use crate::project_id::ProjectId;
use crate::provider::DriveProvider;

verus! {

/// What a provider's token endpoint answered.
#[derive(Debug, Clone, PartialEq, Eq)]
pub struct TokenResponse {
    pub access_token: String,
    pub token_type: String,
    /// Lifetime in seconds.
    pub expires_in: Option<u64>,
    pub refresh_token: Option<String>,
    pub scopes: Option<Vec<String>>,
}

/// Gathers a token response and the token endpoint before the project and
/// provider are known.
#[derive(Debug, Clone, PartialEq, Eq)]
pub struct Builder {
    pub access_token: String,
    pub token_type: String,
    pub expires_in: Option<u64>,
    pub refresh_token: Option<String>,
    pub scopes: Option<Vec<String>>,
    pub token_uri: Option<String>,
}

/// A drive token: everything needed to reach the drive on the project's
/// behalf later.
#[derive(Debug, Clone, PartialEq, Eq)]
pub struct DriveToken {
    pub project_id: ProjectId,
    pub drive_provider: DriveProvider,
    pub access_token: String,
    pub token_type: String,
    pub expires_in: Option<u64>,
    pub refresh_token: Option<String>,
    pub scopes: Option<Vec<String>>,
    pub token_uri: Option<String>,
}

/// Whether `t` is the token of response `resp` for the project and
/// provider, with the given token endpoint.
pub open spec fn drive_token_of(
    t: DriveToken,
    resp: TokenResponse,
    token_uri: Option<String>,
    project_id: ProjectId,
    provider: DriveProvider,
) -> bool {
    &&& t.project_id == project_id
    &&& t.drive_provider == provider
    &&& t.access_token == resp.access_token
    &&& t.token_type == resp.token_type
    &&& t.expires_in == resp.expires_in
    &&& t.refresh_token == resp.refresh_token
    &&& t.scopes == resp.scopes
    &&& t.token_uri == token_uri
}

impl Builder {
    pub fn new(resp: TokenResponse, token_uri: Option<String>) -> (r: Builder)
        ensures
            r.access_token == resp.access_token,
            r.token_type == resp.token_type,
            r.expires_in == resp.expires_in,
            r.refresh_token == resp.refresh_token,
            r.scopes == resp.scopes,
            r.token_uri == token_uri,
    {
        Builder {
            access_token: resp.access_token,
            token_type: resp.token_type,
            expires_in: resp.expires_in,
            refresh_token: resp.refresh_token,
            scopes: resp.scopes,
            token_uri,
        }
    }

    pub fn build(self, project_id: &ProjectId, provider: &DriveProvider) -> (r: DriveToken)
        ensures
            r.project_id == *project_id,
            r.drive_provider == *provider,
            r.access_token == self.access_token,
            r.token_type == self.token_type,
            r.expires_in == self.expires_in,
            r.refresh_token == self.refresh_token,
            r.scopes == self.scopes,
            r.token_uri == self.token_uri,
    {
        DriveToken {
            project_id: *project_id,
            drive_provider: *provider,
            token_uri: self.token_uri,
            access_token: self.access_token,
            token_type: self.token_type,
            expires_in: self.expires_in,
            refresh_token: self.refresh_token,
            scopes: self.scopes,
        }
    }
}

} // verus!
