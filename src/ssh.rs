//! SSH key material: the files written from a signing-service response, the
//! age check of a local key, and the subcommands that drive them.
use vstd::prelude::*;

verus! {

/// Permission bits of a public key or certificate file.
pub const PUBLIC_KEY_MODE: u32 = 0o644;

/// Permission bits of a private key file.
pub const PRIVATE_KEY_MODE: u32 = 0o600;

/// The subcommands of the key tool.
#[derive(Clone, Copy, Debug, PartialEq, Eq, Structural)]
pub enum Commands {
    GenOIDC,
    SignOIDC,
    Status,
    List,
    Revoke,
}

/// A fresh key pair from the key-issuance endpoint.
pub struct IssuedKey {
    pub public_key: String,
    pub private_key: String,
    pub expire_time: String,
}

/// A certificate from the key-signing endpoint.
pub struct SignedCert {
    pub public_key: String,
    pub expire_time: String,
}

/// One file to write: where, what, and with which Unix permission bits.
pub struct KeyFile {
    pub path: String,
    pub contents: String,
    pub mode: u32,
}

/// A failure reported by the signing service.
#[derive(Debug, Clone, Copy, PartialEq, Eq, Structural)]
pub enum ServiceError {
    HttpStatus(u16),
}

/// What was found at the configured key path.
pub enum KeyProbe {
    /// A regular file, last modified at this many milliseconds since the epoch.
    File { modified_ms: i64 },
    NotFound,
    NotAFile,
    Unreadable(String),
}

/// The verdict on a key file, with its age.
#[derive(Debug, Clone, Copy, PartialEq, Eq, Structural)]
pub enum KeyStatus {
    Valid { age_ms: u64 },
    Expired { age_ms: u64 },
}

/// Why no verdict could be given on a key file.
pub enum StatusError {
    NotFound,
    NotAFile,
    Unreadable(String),
    /// The file claims to have been modified after the current time.
    ModifiedInFuture,
}

pub open spec fn ends_with_newline(s: Seq<char>) -> bool {
    s.len() > 0 && s.last() == '\n'
}

/// `s` itself when it already ends a line, else `s` with a newline added.
pub open spec fn with_trailing_newline(s: Seq<char>) -> Seq<char> {
    if ends_with_newline(s) {
        s
    } else {
        s.push('\n')
    }
}

/// Makes a key text end with a newline, adding one only where it lacks it.
pub fn ensure_newline(s: String) -> (r: String)
    ensures
        r@ == with_trailing_newline(s@),
{
    let n = s.as_str().unicode_len();
    if n > 0 && s.as_str().get_char(n - 1) == '\n' {
        s
    } else {
        let mut t = s;
        t.append("\n");
        proof {
            reveal_strlit("\n");
            assert(t@ =~= s@.push('\n'));
        }
        t
    }
}

/// Normalising a key text twice gives what normalising it once gives.
pub proof fn lemma_ensure_newline_idempotent(s: Seq<char>)
    ensures
        with_trailing_newline(with_trailing_newline(s)) == with_trailing_newline(s),
{
}

/// A key text that did not end a line comes out ending in exactly one
/// newline: the last character is a newline and the one before it is not.
pub proof fn lemma_single_trailing_newline(s: Seq<char>)
    requires
        !ends_with_newline(s),
    ensures
        ends_with_newline(with_trailing_newline(s)),
        with_trailing_newline(s).len() == s.len() + 1,
        s.len() > 0 ==> with_trailing_newline(s)[s.len() - 1] != '\n',
{
}

/// `key_path` followed by `suffix`.
fn path_with_suffix(key_path: &str, suffix: &str) -> (r: String)
    ensures
        r@ == key_path@ + suffix@,
{
    String::from_str(key_path).concat(suffix)
}

pub open spec fn cert_suffix() -> Seq<char> {
    seq!['-', 'c', 'e', 'r', 't', '.', 'p', 'u', 'b']
}

pub open spec fn signing_suffix() -> Seq<char> {
    seq!['-', 's', 'i', 'g', 'n', 'i', 'n', 'g', '.', 'p', 'u', 'b']
}

pub open spec fn signing_cert_suffix() -> Seq<char> {
    seq!['-', 's', 'i', 'g', 'n', 'i', 'n', 'g', '-', 'c', 'e', 'r', 't', '.', 'p', 'u', 'b']
}

/// The files to write for a key pair issued for `key_path`: first the public
/// key at `<key_path>-cert.pub` (mode 0644), then the private key at
/// `<key_path>` (mode 0600), each ending in a newline.
pub fn issued_key_files(key_path: &str, key: IssuedKey) -> (r: Vec<KeyFile>)
    ensures
        r@.len() == 2,
        r@[0].path@ == key_path@ + cert_suffix(),
        r@[0].contents@ == with_trailing_newline(key.public_key@),
        r@[0].mode == PUBLIC_KEY_MODE,
        r@[1].path@ == key_path@,
        r@[1].contents@ == with_trailing_newline(key.private_key@),
        r@[1].mode == PRIVATE_KEY_MODE,
{
    proof {
        reveal_strlit("-cert.pub");
        assert("-cert.pub"@ =~= cert_suffix());
    }
    let public_file = KeyFile {
        path: path_with_suffix(key_path, "-cert.pub"),
        contents: ensure_newline(key.public_key),
        mode: PUBLIC_KEY_MODE,
    };
    let private_file = KeyFile {
        path: String::from_str(key_path),
        contents: ensure_newline(key.private_key),
        mode: PRIVATE_KEY_MODE,
    };
    let mut files: Vec<KeyFile> = Vec::new();
    files.push(public_file);
    files.push(private_file);
    files
}

/// Where the public key to be signed for `key_path` is read from.
pub fn signing_key_path(key_path: &str) -> (r: String)
    ensures
        r@ == key_path@ + signing_suffix(),
{
    proof {
        reveal_strlit("-signing.pub");
        assert("-signing.pub"@ =~= signing_suffix());
    }
    path_with_suffix(key_path, "-signing.pub")
}

/// The file to write for a certificate signed for `key_path`:
/// `<key_path>-signing-cert.pub`, mode 0644, ending in a newline.
pub fn signed_cert_file(key_path: &str, cert: SignedCert) -> (r: KeyFile)
    ensures
        r.path@ == key_path@ + signing_cert_suffix(),
        r.contents@ == with_trailing_newline(cert.public_key@),
        r.mode == PUBLIC_KEY_MODE,
{
    proof {
        reveal_strlit("-signing-cert.pub");
        assert("-signing-cert.pub"@ =~= signing_cert_suffix());
    }
    KeyFile {
        path: path_with_suffix(key_path, "-signing-cert.pub"),
        contents: ensure_newline(cert.public_key),
        mode: PUBLIC_KEY_MODE,
    }
}

/// Accepts a signing-service reply only with a 2xx status.
pub fn check_service_status(status: u16) -> (r: Result<(), ServiceError>)
    ensures
        r is Ok <==> 200 <= status <= 299,
        r is Err ==> r == Err::<(), ServiceError>(ServiceError::HttpStatus(status)),
{
    if 200 <= status && status <= 299 {
        Ok(())
    } else {
        Err(ServiceError::HttpStatus(status))
    }
}

/// Judges a key file found by `probe` at time `now_ms`: valid while its age
/// does not exceed `validity_ms`, expired after.
pub fn status_key(probe: KeyProbe, now_ms: i64, validity_ms: u64) -> (r: Result<KeyStatus, StatusError>)
    ensures
        probe is NotFound ==> (r matches Err(StatusError::NotFound)),
        probe is NotAFile ==> (r matches Err(StatusError::NotAFile)),
        probe matches KeyProbe::Unreadable(m) ==> (r matches Err(StatusError::Unreadable(m2)) && m2 == m),
        probe matches KeyProbe::File { modified_ms } ==> {
            let age = now_ms - modified_ms;
            &&& age < 0 ==> (r matches Err(StatusError::ModifiedInFuture))
            &&& 0 <= age <= validity_ms ==> r == Ok::<KeyStatus, StatusError>(KeyStatus::Valid { age_ms: age as u64 })
            &&& age > validity_ms ==> r == Ok::<KeyStatus, StatusError>(KeyStatus::Expired { age_ms: age as u64 })
        },
{
    match probe {
        KeyProbe::NotFound => Err(StatusError::NotFound),
        KeyProbe::NotAFile => Err(StatusError::NotAFile),
        KeyProbe::Unreadable(m) => Err(StatusError::Unreadable(m)),
        KeyProbe::File { modified_ms } => {
            if now_ms < modified_ms {
                Err(StatusError::ModifiedInFuture)
            } else {
                let age: u64 = (now_ms as i128 - modified_ms as i128) as u64;
                if age > validity_ms {
                    Ok(KeyStatus::Expired { age_ms: age })
                } else {
                    Ok(KeyStatus::Valid { age_ms: age })
                }
            }
        },
    }
}

pub open spec fn digit_char(d: nat) -> char {
    if d == 0 { '0' }
    else if d == 1 { '1' }
    else if d == 2 { '2' }
    else if d == 3 { '3' }
    else if d == 4 { '4' }
    else if d == 5 { '5' }
    else if d == 6 { '6' }
    else if d == 7 { '7' }
    else if d == 8 { '8' }
    else { '9' }
}

/// The decimal digits of `n`, most significant first, without leading zeros.
pub open spec fn decimal(n: nat) -> Seq<char>
    decreases n,
{
    if n < 10 {
        seq![digit_char(n)]
    } else {
        decimal(n / 10).push(digit_char(n % 10))
    }
}

fn digit_str(d: u64) -> (r: &'static str)
    requires
        d < 10,
    ensures
        r@ == seq![digit_char(d as nat)],
{
    proof {
        reveal_strlit("0");
        reveal_strlit("1");
        reveal_strlit("2");
        reveal_strlit("3");
        reveal_strlit("4");
        reveal_strlit("5");
        reveal_strlit("6");
        reveal_strlit("7");
        reveal_strlit("8");
        reveal_strlit("9");
    }
    let r = if d == 0 { "0" }
    else if d == 1 { "1" }
    else if d == 2 { "2" }
    else if d == 3 { "3" }
    else if d == 4 { "4" }
    else if d == 5 { "5" }
    else if d == 6 { "6" }
    else if d == 7 { "7" }
    else if d == 8 { "8" }
    else { "9" };
    assert(r@ =~= seq![digit_char(d as nat)]);
    r
}

/// `n` written in decimal.
pub fn decimal_string(n: u64) -> (r: String)
    ensures
        r@ == decimal(n as nat),
    decreases n,
{
    if n < 10 {
        String::from_str(digit_str(n))
    } else {
        let mut s = decimal_string(n / 10);
        s.append(digit_str(n % 10));
        s
    }
}

pub open spec fn unit_seconds() -> Seq<char> {
    seq![' ', 's', 'e', 'c', 'o', 'n', 'd', 's']
}

pub open spec fn unit_minutes() -> Seq<char> {
    seq![' ', 'm', 'i', 'n', 'u', 't', 'e', 's']
}

pub open spec fn unit_hours() -> Seq<char> {
    seq![' ', 'h', 'o', 'u', 'r', 's']
}

pub open spec fn unit_days() -> Seq<char> {
    seq![' ', 'd', 'a', 'y', 's']
}

/// An age in whole seconds, in the largest unit that it reaches, rounded down.
pub open spec fn duration_text(secs: nat) -> Seq<char> {
    if secs < 60 {
        decimal(secs) + unit_seconds()
    } else if secs < 3600 {
        decimal(secs / 60) + unit_minutes()
    } else if secs < 86400 {
        decimal(secs / 3600) + unit_hours()
    } else {
        decimal(secs / 86400) + unit_days()
    }
}

/// Renders an age of `secs` seconds for people ("5 minutes").
pub fn format_duration(secs: u64) -> (r: String)
    ensures
        r@ == duration_text(secs as nat),
{
    proof {
        reveal_strlit(" seconds");
        reveal_strlit(" minutes");
        reveal_strlit(" hours");
        reveal_strlit(" days");
        assert(" seconds"@ =~= unit_seconds());
        assert(" minutes"@ =~= unit_minutes());
        assert(" hours"@ =~= unit_hours());
        assert(" days"@ =~= unit_days());
    }
    if secs < 60 {
        decimal_string(secs).concat(" seconds")
    } else if secs < 3600 {
        decimal_string(secs / 60).concat(" minutes")
    } else if secs < 86400 {
        decimal_string(secs / 3600).concat(" hours")
    } else {
        decimal_string(secs / 86400).concat(" days")
    }
}

} // verus!
