//! Listing a project's files on a drive: the request to make with an
//! access token, and how the drive's answer is classified.

use vstd::prelude::*;

use crate::error::AuthError;
use crate::files::{FilesBuilder, Files, file_views, files_of};
use crate::message::Message;
use crate::provider::{DriveProvider, Kind};
use crate::registry::{find_drive, DriveClients};
use crate::text::{decimal_text, opt_view, u32_text};

verus! {

/// The access token a caller presents for a listing.
#[derive(Debug, Clone)]
pub struct AuthDriveToken {
    pub access_token: String,
}

/// The listing request to send: method, full URL, and `Authorization`
/// header value.
#[derive(Debug, Clone)]
pub struct ListingRequest {
    pub method: String,
    pub url: String,
    pub authorization: String,
}

/// The listing request of a drive provider for a token: the drive server,
/// endpoint and listing query joined, with the token as a bearer
/// credential. An unregistered provider is unsupported.
pub fn listing_request(clients: &DriveClients, provider: DriveProvider, token: &AuthDriveToken) -> (r: Result<
    ListingRequest,
    AuthError,
>)
    ensures
        r is Ok <==> find_drive(clients.entries@, provider) is Some,
        r is Ok ==> ({
            let f = find_drive(clients.entries@, provider)->0.files_request;
            &&& r->Ok_0.method@ == f.method@
            &&& r->Ok_0.url@ == f.drive_server@ + f.endpoint@ + f.query_ls@
            &&& r->Ok_0.authorization@ == "Bearer "@ + token.access_token@
        }),
        r is Err ==> r->Err_0 is UnsupportedProvider,
{
    match clients.get(&provider) {
        None => Err(AuthError::UnsupportedProvider(Message::from_str("Auth client not found"))),
        Some(c) => {
            let f = &c.files_request;
            let host = f.drive_server.as_str().to_owned();
            let with_endpoint = host.concat(f.endpoint.as_str());
            let url = with_endpoint.concat(f.query_ls.as_str());
            let bearer = "Bearer ".to_owned();
            let authorization = bearer.concat(token.access_token.as_str());
            Ok(ListingRequest { method: f.method.as_str().to_owned(), url, authorization })
        },
    }
}

/// How a drive's HTTP status is classified: success for 2xx, unauthorized
/// (a signal to authorize again) for 401, an internal error otherwise.
pub open spec fn status_outcome(status: u16, r: Result<(), AuthError>) -> bool {
    if 200 <= status < 300 {
        r is Ok
    } else if status == 401 {
        r is Err && r->Err_0 is Unauthorized
    } else {
        r is Err && r->Err_0 is InternalError && r->Err_0.detail() == Some(decimal_text(status as nat))
    }
}

/// Classifies the drive's HTTP status.
pub fn classify_listing_status(status: u16) -> (r: Result<(), AuthError>)
    ensures
        status_outcome(status, r),
{
    if 200 <= status && status < 300 {
        Ok(())
    } else if status == 401 {
        Err(AuthError::Unauthorized(Message::from_str("Unauthorized drive access")))
    } else {
        let text = u32_text(status as u32);
        Err(AuthError::InternalError(Message(Some(text))))
    }
}

/// A 401 from the drive is always the unauthorized condition, reported as
/// 401, and never the generic internal error.
pub proof fn lemma_unauthorized_listing(r: Result<(), AuthError>)
    requires
        status_outcome(401, r),
    ensures
        r is Err,
        r->Err_0 is Unauthorized,
        !(r->Err_0 is InternalError),
        r->Err_0.spec_status() == 401,
{
}

/// The listing shape of a drive provider; one without a remote listing is
/// an internal error.
pub fn listing_kind(provider: DriveProvider) -> (r: Result<Kind, AuthError>)
    ensures
        r is Ok <==> (provider is Google || provider is MSGraph || provider is DropBox),
        r is Ok ==> r->Ok_0 == crate::provider::kind_of(provider),
        r is Err ==> r->Err_0 is InternalError,
{
    match provider {
        DriveProvider::Google => Ok(Kind::Google),
        DriveProvider::MSGraph => Ok(Kind::MSGraph),
        DriveProvider::DropBox => Ok(Kind::DropBox),
        _ => Err(AuthError::InternalError(Message::from_str("Unsupported drive type"))),
    }
}

/// The listing handed back: at the drive's root, under the drive id the
/// service lists.
pub fn finish_listing(builder: FilesBuilder) -> (r: Files)
    ensures
        r.kind == builder.kind,
        opt_view(r.path) == Some("root"@),
        opt_view(r.drive_id) == Some("test_drive"@),
        file_views(r.files@) == files_of(builder.raw_files@),
{
    builder.set_path("root".to_owned()).set_drive_id("test_drive".to_owned()).build()
}

} // verus!
