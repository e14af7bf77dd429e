//! What the downstream registrar receives for a newly authenticated user.

use vstd::prelude::*;

use crate::provider::OauthProvider;
use crate::text::opt_view;
use crate::user::{IdentityView, RawUser};

verus! {

/// The registration sent for a user: the provider, the provider's id for
/// the user, and the email if any.
#[derive(Debug, Clone, PartialEq, Eq)]
pub struct UserRegistration {
    pub auth_agent: OauthProvider,
    pub auth_id: String,
    pub email: Option<String>,
}

/// Whether a registration carries exactly the given identity.
pub open spec fn registration_of(r: UserRegistration, identity: IdentityView) -> bool {
    &&& r.auth_agent == identity.provider
    &&& r.auth_id@ == identity.subject
    &&& opt_view(r.email) == identity.email
}

impl UserRegistration {
    /// The registration of a staged user; the local id is not sent.
    pub fn from_raw_user(user: RawUser) -> (r: UserRegistration)
        ensures
            registration_of(r, user.identity()),
    {
        UserRegistration {
            auth_agent: user.provider_id.provider,
            auth_id: user.provider_id.id,
            email: user.email,
        }
    }
}

} // verus!
