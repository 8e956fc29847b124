//! The OIDC side of the helper: checking the loopback redirect of an
//! interactive login, assembling credentials from token responses, and the
//! session that decides between cache, refresh and interactive login.
use vstd::prelude::*;
use crate::state::{AppState, TokenStore, expired_at, expiration_after, compute_expiration};

verus! {

/// Why an interactive login attempt failed.
#[derive(Debug)]
pub enum AuthError {
    /// The redirect's request line did not hold a parsable target.
    MalformedCallback,
    MissingState,
    MissingCode,
    /// The `state` parameter differs from the CSRF token of this attempt.
    CsrfMismatch,
    /// The identity token failed signature, nonce or issuer checks.
    IdentityVerificationFailed(String),
    /// No redirect arrived on the loopback listener in time.
    Timeout,
    /// Discovery, transport or token-endpoint failure.
    Provider(String),
}

/// Why a refresh-token exchange failed; always recoverable by a login.
#[derive(Debug)]
pub enum RefreshError {
    /// The provider's response carried no new refresh token.
    MissingRefreshToken,
    Provider(String),
}

/// The characters with the Unicode White_Space property, which separate the
/// words of a request line.
pub open spec fn is_space(c: char) -> bool {
    ('\u{9}' <= c && c <= '\u{d}')
        || c == ' '
        || c == '\u{85}'
        || c == '\u{a0}'
        || c == '\u{1680}'
        || ('\u{2000}' <= c && c <= '\u{200a}')
        || c == '\u{2028}'
        || c == '\u{2029}'
        || c == '\u{202f}'
        || c == '\u{205f}'
        || c == '\u{3000}'
}

/// The first index at or after `i` that holds no space (or the end).
pub open spec fn skip_spaces(s: Seq<char>, i: int) -> int
    decreases s.len() - i,
{
    if i < 0 || i >= s.len() || !is_space(s[i]) {
        i
    } else {
        skip_spaces(s, i + 1)
    }
}

/// The first index at or after `i` that holds a space (or the end).
pub open spec fn skip_word(s: Seq<char>, i: int) -> int
    decreases s.len() - i,
{
    if i < 0 || i >= s.len() || is_space(s[i]) {
        i
    } else {
        skip_word(s, i + 1)
    }
}

/// The second space-separated word of an HTTP request line (its target),
/// or the empty sequence when there is none.
pub open spec fn request_target(line: Seq<char>) -> Seq<char> {
    let method_end = skip_word(line, skip_spaces(line, 0));
    let start = skip_spaces(line, method_end);
    line.subrange(start, skip_word(line, start))
}

/// The loopback address that the provider redirects the browser to.
pub open spec fn redirect_base() -> Seq<char> {
    seq!['h', 't', 't', 'p', ':', '/', '/', 'l', 'o', 'c', 'a', 'l', 'h', 'o', 's', 't', ':', '8', '7', '6', '5']
}

pub open spec fn state_key() -> Seq<char> {
    seq!['s', 't', 'a', 't', 'e']
}

pub open spec fn code_key() -> Seq<char> {
    seq!['c', 'o', 'd', 'e']
}

/// The decoded query pairs of `url`, in order, or `None` when `url` does not
/// parse as a URL.
pub uninterp spec fn url_query(url: Seq<char>) -> Option<Seq<(Seq<char>, Seq<char>)>>;

pub open spec fn pairs_view(v: Seq<(String, String)>) -> Seq<(Seq<char>, Seq<char>)> {
    v.map_values(|p: (String, String)| (p.0@, p.1@))
}

/// Relies on url::Url::parse, and on Url::query_pairs for the
/// percent-decoded key/value pairs of the query, in order of appearance.
#[verifier::external_body]
fn parse_query_pairs(url: &str) -> (r: Option<Vec<(String, String)>>)
    ensures
        r matches Some(v) ==> url_query(url@) == Some(pairs_view(v@)),
        r is None ==> url_query(url@) is None,
{
    match url::Url::parse(url) {
        Ok(u) => Some(u.query_pairs().map(|(k, v)| (k.into_owned(), v.into_owned())).collect()),
        Err(_) => None,
    }
}

/// The value of the first pair at or after `i` whose key is `key`.
pub open spec fn first_value_from(pairs: Seq<(Seq<char>, Seq<char>)>, key: Seq<char>, i: int) -> Option<Seq<char>>
    decreases pairs.len() - i,
{
    if i < 0 || i >= pairs.len() {
        None
    } else if pairs[i].0 == key {
        Some(pairs[i].1)
    } else {
        first_value_from(pairs, key, i + 1)
    }
}

pub open spec fn first_value(pairs: Seq<(Seq<char>, Seq<char>)>, key: Seq<char>) -> Option<Seq<char>> {
    first_value_from(pairs, key, 0)
}

/// What a redirect carrying `pairs` yields for a login attempt whose CSRF
/// token is `csrf`: its authorization code, or why it is refused. The state
/// is checked before the code is looked at.
pub open spec fn callback_code(pairs: Seq<(Seq<char>, Seq<char>)>, csrf: Seq<char>) -> Result<Seq<char>, AuthError> {
    match first_value(pairs, state_key()) {
        None => Err(AuthError::MissingState),
        Some(st) => if st != csrf {
            Err(AuthError::CsrfMismatch)
        } else {
            match first_value(pairs, code_key()) {
                None => Err(AuthError::MissingCode),
                Some(c) => Ok(c),
            }
        },
    }
}

/// What the redirect request line `line` yields for a login attempt whose
/// CSRF token is `csrf`.
pub open spec fn callback_outcome(line: Seq<char>, csrf: Seq<char>) -> Result<Seq<char>, AuthError> {
    match url_query(redirect_base() + request_target(line)) {
        None => Err(AuthError::MalformedCallback),
        Some(pairs) => callback_code(pairs, csrf),
    }
}

/// Whether a string result carries the outcome `o`.
pub open spec fn outcome_is(r: Result<String, AuthError>, o: Result<Seq<char>, AuthError>) -> bool {
    match r {
        Ok(c) => o == Ok::<Seq<char>, AuthError>(c@),
        Err(e) => o == Err::<Seq<char>, AuthError>(e),
    }
}

/// Compares two texts character by character, always looking at every
/// character when the lengths agree, so the time taken does not reveal where
/// a secret first differs.
pub fn same_text(a: &str, b: &str) -> (r: bool)
    ensures
        r == (a@ == b@),
{
    let n = a.unicode_len();
    let m = b.unicode_len();
    if n != m {
        return false;
    }
    let mut differs = false;
    let mut i: usize = 0;
    while i < n
        invariant
            i <= n,
            n == a@.len(),
            m == b@.len(),
            n == m,
            differs <==> exists|j: int| 0 <= j < i && a@[j] != b@[j],
        decreases n - i,
    {
        if a.get_char(i) != b.get_char(i) {
            differs = true;
        }
        i = i + 1;
    }
    proof {
        if !differs {
            assert(a@ =~= b@);
        }
    }
    !differs
}

/// The value of the first pair whose key is `key`.
pub fn find_value(pairs: &Vec<(String, String)>, key: &str) -> (r: Option<String>)
    ensures
        r matches Some(v) ==> first_value(pairs_view(pairs@), key@) == Some(v@),
        r is None ==> first_value(pairs_view(pairs@), key@) is None,
{
    let ghost p = pairs_view(pairs@);
    let mut i: usize = 0;
    while i < pairs.len()
        invariant
            i <= pairs@.len(),
            p == pairs_view(pairs@),
            first_value_from(p, key@, i as int) == first_value(p, key@),
        decreases pairs@.len() - i,
    {
        if same_text(pairs[i].0.as_str(), key) {
            return Some(pairs[i].1.clone());
        }
        i = i + 1;
    }
    None
}

/// Checks the query pairs of a login redirect against the attempt's CSRF
/// token `csrf` and returns the authorization code. A redirect whose state
/// differs from `csrf` is refused, and then no code is handed out.
pub fn check_callback_query(pairs: &Vec<(String, String)>, csrf: &str) -> (r: Result<String, AuthError>)
    ensures
        outcome_is(r, callback_code(pairs_view(pairs@), csrf@)),
{
    proof {
        reveal_strlit("state");
        reveal_strlit("code");
        assert("state"@ =~= state_key());
        assert("code"@ =~= code_key());
    }
    let returned_state = match find_value(pairs, "state") {
        None => return Err(AuthError::MissingState),
        Some(s) => s,
    };
    if !same_text(returned_state.as_str(), csrf) {
        return Err(AuthError::CsrfMismatch);
    }
    match find_value(pairs, "code") {
        None => Err(AuthError::MissingCode),
        Some(c) => Ok(c),
    }
}

/// A redirect whose `state` differs from the attempt's CSRF token is refused
/// with a CSRF error, whatever else it carries; no code comes out of it.
pub proof fn lemma_csrf_mismatch_refused(pairs: Seq<(Seq<char>, Seq<char>)>, csrf: Seq<char>)
    requires
        first_value(pairs, state_key()) matches Some(st) && st != csrf,
    ensures
        callback_code(pairs, csrf) == Err::<Seq<char>, AuthError>(AuthError::CsrfMismatch),
        !(callback_code(pairs, csrf) is Ok),
{
}

fn skip_spaces_from(line: &str, n: usize, i: usize) -> (r: usize)
    requires
        n == line@.len(),
        i <= n,
    ensures
        r == skip_spaces(line@, i as int),
        i <= r <= n,
{
    let mut j = i;
    while j < n && is_space_char(line.get_char(j))
        invariant
            i <= j <= n,
            n == line@.len(),
            skip_spaces(line@, j as int) == skip_spaces(line@, i as int),
        decreases n - j,
    {
        j = j + 1;
    }
    j
}

fn skip_word_from(line: &str, n: usize, i: usize) -> (r: usize)
    requires
        n == line@.len(),
        i <= n,
    ensures
        r == skip_word(line@, i as int),
        i <= r <= n,
{
    let mut j = i;
    while j < n && !is_space_char(line.get_char(j))
        invariant
            i <= j <= n,
            n == line@.len(),
            skip_word(line@, j as int) == skip_word(line@, i as int),
        decreases n - j,
    {
        j = j + 1;
    }
    j
}

fn is_space_char(c: char) -> (r: bool)
    ensures
        r == is_space(c),
{
    ('\u{9}' <= c && c <= '\u{d}')
        || c == ' '
        || c == '\u{85}'
        || c == '\u{a0}'
        || c == '\u{1680}'
        || ('\u{2000}' <= c && c <= '\u{200a}')
        || c == '\u{2028}'
        || c == '\u{2029}'
        || c == '\u{202f}'
        || c == '\u{205f}'
        || c == '\u{3000}'
}

/// The target of an HTTP request line: its second word, or "" if none.
pub fn redirect_target(line: &str) -> (r: &str)
    ensures
        r@ == request_target(line@),
{
    let n = line.unicode_len();
    let method_start = skip_spaces_from(line, n, 0);
    let method_end = skip_word_from(line, n, method_start);
    let start = skip_spaces_from(line, n, method_end);
    let end = skip_word_from(line, n, start);
    line.substring_char(start, end)
}

/// Reads the request line of the loopback redirect and returns the
/// authorization code it carries, refusing a redirect whose `state` differs
/// from the attempt's CSRF token `csrf`.
pub fn parse_callback(request_line: &str, csrf: &str) -> (r: Result<String, AuthError>)
    ensures
        outcome_is(r, callback_outcome(request_line@, csrf@)),
{
    proof {
        reveal_strlit("http://localhost:8765");
        assert("http://localhost:8765"@ =~= redirect_base());
    }
    let target = redirect_target(request_line);
    let url = String::from_str("http://localhost:8765").concat(target);
    match parse_query_pairs(url.as_str()) {
        None => Err(AuthError::MalformedCallback),
        Some(pairs) => check_callback_query(&pairs, csrf),
    }
}

/// The credential obtained by an interactive login at time `now`, whose
/// provider reported a lifetime of `expires_in` seconds (none: zero).
pub fn login_credential(
    access_token: String,
    refresh_token: Option<String>,
    id_token: Option<String>,
    expires_in: Option<u64>,
    now: i64,
) -> (r: TokenStore)
    ensures
        r.access_token == access_token,
        r.refresh_token == refresh_token,
        r.id_token == id_token,
        r.expiration == expiration_after(now as int, expires_in),
{
    TokenStore {
        access_token,
        refresh_token,
        id_token,
        expiration: compute_expiration(now, expires_in),
    }
}

/// The credential obtained by a refresh-token exchange at time `now`. The
/// provider must hand out a new refresh token; without one the refresh fails.
pub fn refreshed_credential(
    access_token: String,
    refresh_token: Option<String>,
    id_token: Option<String>,
    expires_in: Option<u64>,
    now: i64,
) -> (r: Result<TokenStore, RefreshError>)
    ensures
        refresh_token is None <==> (r matches Err(RefreshError::MissingRefreshToken)),
        r is Ok <==> refresh_token is Some,
        r matches Ok(t) ==> {
            &&& t.access_token == access_token
            &&& t.refresh_token == refresh_token
            &&& t.id_token == id_token
            &&& t.expiration == expiration_after(now as int, expires_in)
        },
{
    if refresh_token.is_none() {
        return Err(RefreshError::MissingRefreshToken);
    }
    Ok(login_credential(access_token, refresh_token, id_token, expires_in, now))
}

/// Where an access-token session stands.
pub enum AccessStep {
    /// Waiting for the cache to be loaded.
    Start,
    /// Waiting for the outcome of a refresh-token exchange.
    AwaitRefresh,
    /// Waiting for the outcome of an interactive login.
    AwaitLogin,
    /// Waiting for the cache to be written; then this token is handed out.
    AwaitSave(String),
    Finished,
}

/// The decision state of one request for an access token.
pub struct AccessSession {
    pub step: AccessStep,
    /// The cache contents as they are to be persisted.
    pub state: AppState,
}

/// What the caller observed since the last step.
pub enum AccessEvent {
    /// The cache was read, at time `now` (seconds since the Unix epoch).
    Loaded { state: AppState, now: i64 },
    Refreshed(Result<TokenStore, RefreshError>),
    LoggedIn(Result<TokenStore, AuthError>),
    /// The cache was written, or could not be (with the reason).
    Saved(Result<(), String>),
}

/// Why no access token could be obtained.
pub enum AccessError {
    Auth(AuthError),
    Storage(String),
    /// An event arrived that the session was not waiting for.
    OutOfOrder,
}

/// What the caller must do next.
pub enum AccessAction {
    /// Exchange this refresh token for new tokens; report `Refreshed`.
    Refresh(String),
    /// Run the interactive browser login; report `LoggedIn`.
    Login,
    /// Write the session's `state` to the cache; report `Saved`.
    Save,
    /// Done: this is the access token.
    Return(String),
    /// Done: no access token can be had.
    Fail(AccessError),
}

impl AccessSession {
    /// A session that waits for the cache to be loaded.
    pub fn new() -> (r: AccessSession)
        ensures
            r.step is Start,
            r.state.oidc_token is None,
            r.state.ssh_cert is None,
    {
        AccessSession { step: AccessStep::Start, state: AppState::default() }
    }
}

/// Whether `r` stores the new credential `t` beside the unchanged
/// certificate metadata of `s`, asks for it to be saved, and then hands out
/// its access token.
pub open spec fn stores_new_token(s: AccessSession, t: TokenStore, r: (AccessSession, AccessAction)) -> bool {
    &&& r.0.state == AppState { oidc_token: Some(t), ssh_cert: s.state.ssh_cert }
    &&& r.1 is Save
    &&& r.0.step matches AccessStep::AwaitSave(a) && a@ == t.access_token@
}

/// Advances the request for an access token by one observed event. A cached
/// credential that is not expired is handed out with no further work; an
/// expired one with a refresh token is refreshed; otherwise, or when the
/// refresh fails, an interactive login runs, and its failure is final. A new
/// credential is saved before it is handed out.
pub fn get_access_token(session: AccessSession, event: AccessEvent) -> (r: (AccessSession, AccessAction))
    ensures
        session.step is Start && event is Loaded ==> {
            let st = event->Loaded_state;
            let now = event->Loaded_now;
            match st.oidc_token {
                Some(t) => if !expired_at(t.expiration, now as int) {
                    &&& r.1 matches AccessAction::Return(a) && a@ == t.access_token@
                    &&& r.0.step is Finished
                } else if t.refresh_token is Some {
                    &&& r.1 matches AccessAction::Refresh(x) && x@ == t.refresh_token->Some_0@
                    &&& r.0.step is AwaitRefresh
                    &&& r.0.state == st
                } else {
                    &&& r.1 is Login
                    &&& r.0.step is AwaitLogin
                    &&& r.0.state == st
                },
                None => {
                    &&& r.1 is Login
                    &&& r.0.step is AwaitLogin
                    &&& r.0.state == st
                },
            }
        },
        session.step is AwaitRefresh && event is Refreshed ==> match event->Refreshed_0 {
            Ok(t) => stores_new_token(session, t, r),
            Err(_) => {
                &&& r.1 is Login
                &&& r.0.step is AwaitLogin
                &&& r.0.state == session.state
            },
        },
        session.step is AwaitLogin && event is LoggedIn ==> match event->LoggedIn_0 {
            Ok(t) => stores_new_token(session, t, r),
            Err(e) => {
                &&& r.1 == AccessAction::Fail(AccessError::Auth(e))
                &&& r.0.step is Finished
            },
        },
        session.step is AwaitSave && event is Saved ==> {
            &&& r.0.step is Finished
            &&& match event->Saved_0 {
                Ok(_) => r.1 matches AccessAction::Return(a) && a@ == session.step->AwaitSave_0@,
                Err(m) => r.1 == AccessAction::Fail(AccessError::Storage(m)),
            }
        },
        !(session.step is Start && event is Loaded)
            && !(session.step is AwaitRefresh && event is Refreshed)
            && !(session.step is AwaitLogin && event is LoggedIn)
            && !(session.step is AwaitSave && event is Saved) ==> {
            &&& r.1 == AccessAction::Fail(AccessError::OutOfOrder)
            &&& r.0.step is Finished
        },
{
    let AccessSession { step, state } = session;
    match (step, event) {
        (AccessStep::Start, AccessEvent::Loaded { state: loaded, now }) => {
            let action = match &loaded.oidc_token {
                Some(t) => if !t.is_expired_at(now) {
                    AccessAction::Return(t.access_token.clone())
                } else {
                    match &t.refresh_token {
                        Some(rt) => AccessAction::Refresh(rt.clone()),
                        None => AccessAction::Login,
                    }
                },
                None => AccessAction::Login,
            };
            let next = match action {
                AccessAction::Return(_) => AccessStep::Finished,
                AccessAction::Refresh(_) => AccessStep::AwaitRefresh,
                _ => AccessStep::AwaitLogin,
            };
            (AccessSession { step: next, state: loaded }, action)
        },
        (AccessStep::AwaitRefresh, AccessEvent::Refreshed(outcome)) => match outcome {
            Ok(t) => store_new_token(state, t),
            Err(_) => (AccessSession { step: AccessStep::AwaitLogin, state }, AccessAction::Login),
        },
        (AccessStep::AwaitLogin, AccessEvent::LoggedIn(outcome)) => match outcome {
            Ok(t) => store_new_token(state, t),
            Err(e) => (
                AccessSession { step: AccessStep::Finished, state },
                AccessAction::Fail(AccessError::Auth(e)),
            ),
        },
        (AccessStep::AwaitSave(token), AccessEvent::Saved(outcome)) => {
            let action = match outcome {
                Ok(_) => AccessAction::Return(token),
                Err(m) => AccessAction::Fail(AccessError::Storage(m)),
            };
            (AccessSession { step: AccessStep::Finished, state }, action)
        },
        (step, _) => (
            AccessSession { step: AccessStep::Finished, state },
            AccessAction::Fail(AccessError::OutOfOrder),
        ),
    }
}

fn store_new_token(state: AppState, t: TokenStore) -> (r: (AccessSession, AccessAction))
    ensures
        r.0.state == (AppState { oidc_token: Some(t), ssh_cert: state.ssh_cert }),
        r.1 is Save,
        r.0.step matches AccessStep::AwaitSave(a) && a@ == t.access_token@,
{
    let token = t.access_token.clone();
    let AppState { oidc_token: _, ssh_cert } = state;
    (
        AccessSession {
            step: AccessStep::AwaitSave(token),
            state: AppState { oidc_token: Some(t), ssh_cert },
        },
        AccessAction::Save,
    )
}

} // verus!
