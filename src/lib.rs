//! An OAuth2 broker: a provider registry built from settings, the
//! PKCE/CSRF decisions of the login and drive-authorization flows, and the
//! normalization of provider payloads into canonical models.
//!
//! Remote calls (the session store, token exchange, resource fetches, the
//! registrar) are made by the caller; the flows here decide, step by step,
//! which call comes next and what its outcome means.

pub mod provider;
pub mod error;
pub mod message;
pub mod text;
pub mod project_id;
pub mod user;
pub mod user_registration;
pub mod files;
pub mod registry;
pub mod session;
pub mod authorize;
pub mod login;
pub mod drive;
pub mod drive_token;
pub mod filesystem;
pub mod config;
