//! The settings that the helper runs with, and their defaults.
use vstd::prelude::*;

verus! {

/// Settings consumed read-only by the credential and key logic.
pub struct Config {
    /// Where the private key is written; other key files are named after it.
    pub key_path: String,
    /// How long a key stays valid, in milliseconds.
    pub key_validity: u64,
    /// The same validity as written by the user; it is sent to the service.
    pub key_validity_str: String,
    pub pkce_client_id: String,
    pub issuer_url: String,
    pub keys_url: String,
    pub sign_url: String,
}

/// The default key validity, as text.
pub fn default_key_validity() -> (r: String)
    ensures
        r@ == "1min"@,
{
    String::from_str("1min")
}

/// The default OIDC client identifier.
pub fn default_pkce_client_id() -> (r: String)
    ensures
        r@ == "authx-cli"@,
{
    String::from_str("authx-cli")
}

/// The default OIDC issuer.
pub fn default_issuer_url() -> (r: String)
    ensures
        r@ == "https://auth.cscs.ch/auth/realms/cscs"@,
{
    String::from_str("https://auth.cscs.ch/auth/realms/cscs")
}

/// The default key-issuance endpoint.
pub fn default_keys_url() -> (r: String)
    ensures
        r@ == "https://api-ssh-service.hpc-ssh.svc.cscs.ch/api/v1/ssh-keys"@,
{
    String::from_str("https://api-ssh-service.hpc-ssh.svc.cscs.ch/api/v1/ssh-keys")
}

/// The default key-signing endpoint.
pub fn default_sign_url() -> (r: String)
    ensures
        r@ == "https://api-ssh-service.hpc-ssh.svc.cscs.ch/api/v1/ssh-keys/sign"@,
{
    String::from_str("https://api-ssh-service.hpc-ssh.svc.cscs.ch/api/v1/ssh-keys/sign")
}

} // verus!
