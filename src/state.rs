//! The persisted token cache and the expiry rule for cached credentials.
use vstd::prelude::*;

verus! {

/// Seconds of slack subtracted from a token's lifetime, absorbing clock skew.
pub const GRACE_PERIOD_SECS: i64 = 10;

/// The tokens obtained from one OIDC exchange. `expiration` is an absolute
/// time in whole seconds since the Unix epoch.
pub struct TokenStore {
    pub access_token: String,
    pub refresh_token: Option<String>,
    pub id_token: Option<String>,
    pub expiration: Option<i64>,
}

/// Metadata of the last certificate that was written to disk.
pub struct CertMetadata {
    pub key_path: String,
    pub cert_path: String,
    pub serial_number: String,
    pub expires_at: String,
}

/// Everything the cache file holds between invocations.
pub struct AppState {
    pub oidc_token: Option<TokenStore>,
    pub ssh_cert: Option<CertMetadata>,
}

impl Default for AppState {
    fn default() -> (r: AppState)
        ensures
            r.oidc_token is None,
            r.ssh_cert is None,
    {
        AppState { oidc_token: None, ssh_cert: None }
    }
}

/// A credential counts as expired at `now` when it has no expiration at all
/// (fail-closed), or when `now` plus the grace period lies past it.
pub open spec fn expired_at(expiration: Option<i64>, now: int) -> bool {
    match expiration {
        None => true,
        Some(e) => now + GRACE_PERIOD_SECS > e,
    }
}

/// The expiration of a token that the provider granted `ttl` seconds at
/// `now`; a missing ttl counts as zero. `None` (treated as expired) when the
/// sum does not fit.
pub open spec fn expiration_after(now: int, ttl: Option<u64>) -> Option<i64> {
    let secs: int = match ttl {
        None => 0,
        Some(t) => t as int,
    };
    if now + secs <= i64::MAX {
        Some((now + secs) as i64)
    } else {
        None
    }
}

/// Relies on chrono's `From<SystemTime> for DateTime<Utc>` and
/// DateTime::timestamp: the current time in whole seconds since the Unix
/// epoch, negative for a clock set before 1970. Nothing is promised of its
/// value.
#[verifier::external_body]
fn now_unix_seconds() -> (r: i64) {
    chrono::DateTime::<chrono::Utc>::from(std::time::SystemTime::now()).timestamp()
}

/// The expiration time of a token granted `ttl` seconds at `now`.
pub fn compute_expiration(now: i64, ttl: Option<u64>) -> (r: Option<i64>)
    ensures
        r == expiration_after(now as int, ttl),
{
    let secs: i128 = match ttl {
        None => 0,
        Some(t) => t as i128,
    };
    let sum: i128 = now as i128 + secs;
    if sum <= i64::MAX as i128 {
        Some(sum as i64)
    } else {
        None
    }
}

impl TokenStore {
    /// Whether this credential must not be used at time `now`.
    pub fn is_expired_at(&self, now: i64) -> (r: bool)
        ensures
            r == expired_at(self.expiration, now as int),
    {
        match self.expiration {
            None => true,
            Some(e) => (now as i128) + (GRACE_PERIOD_SECS as i128) > e as i128,
        }
    }

    /// Whether this credential must not be used now, by the system clock.
    pub fn is_expired(&self) -> (r: bool)
        ensures
            self.expiration is None ==> r,
    {
        let now = now_unix_seconds();
        self.is_expired_at(now)
    }
}

/// A credential without an expiration is expired at every instant.
pub proof fn lemma_no_expiration_is_expired(t: TokenStore, now: int)
    requires
        t.expiration is None,
    ensures
        expired_at(t.expiration, now),
{
}

/// A credential that expires `d` seconds after `now` is still usable at `now`
/// exactly when `d` exceeds the grace period. (When `d` equals the grace
/// period the credential is usable too, since expiry needs a strict excess.)
pub proof fn lemma_expiry_margin(t: TokenStore, now: int, d: int)
    requires
        t.expiration matches Some(e) && e == now + d,
        d != GRACE_PERIOD_SECS,
    ensures
        !expired_at(t.expiration, now) <==> d > GRACE_PERIOD_SECS,
{
}

} // verus!
