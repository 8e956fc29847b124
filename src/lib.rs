//! Credential helper core: token cache model, OIDC callback checks, the
//! access-token decision session, and SSH key material handling.
pub mod config;
pub mod oidc;
pub mod ssh;
pub mod state;
