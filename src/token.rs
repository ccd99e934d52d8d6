//! The access-token cache and the decisions around refreshing it.
//!
//! A `Client` holds at most one access token. Each request for a token is a
//! step: either the cached token is still usable and is handed out, or a new
//! assertion is signed and must be exchanged at the token endpoint. The
//! exchange itself is performed by the caller, who hands its outcome back.

use vstd::prelude::*;
use vstd::string::*;

use crate::credentials::ServiceAccountKey;
use crate::jwt::{assertion_text, key_too_long, sign_assertion};
use crate::scope::Scope;
use crate::text::joined;
use crate::values::{failure_text, is_success, is_success_status, status_failure_text};

verus! {

/// The default safety margin, in seconds, before a token's expiry at which it is refreshed.
pub const REFRESH_MARGIN: i64 = 600;

/// The grant type of the service-account exchange, in form encoding.
pub const GRANT_PREFIX: &'static str = "grant_type=urn:ietf:params:oauth:grant-type:jwt-bearer&assertion=";

/// Why an access token could not be obtained.
#[derive(Debug, Clone, PartialEq, Eq)]
pub enum RefreshAccessTokenError {
    /// The exchange with the token endpoint failed.
    RequestFailure(String),
    /// The private key could not be parsed or could not sign.
    MalformedCredentials,
}

/// The message of an error in obtaining a token.
pub open spec fn refresh_error_message(e: RefreshAccessTokenError) -> Seq<char> {
    match e {
        RefreshAccessTokenError::RequestFailure(reason) => "an error occurred while getting access token: "@
            + reason@,
        RefreshAccessTokenError::MalformedCredentials => "the service-account private key could not sign"@,
    }
}

impl RefreshAccessTokenError {
    /// The error's message.
    pub fn message(&self) -> (r: String)
        ensures
            r@ == refresh_error_message(*self),
    {
        match self {
            RefreshAccessTokenError::RequestFailure(reason) => joined(
                "an error occurred while getting access token: ",
                reason.as_str(),
            ),
            RefreshAccessTokenError::MalformedCredentials => String::from_str(
                "the service-account private key could not sign",
            ),
        }
    }
}

/// A bearer token and the instant, in Unix seconds, at which it expires.
#[derive(Debug, Clone)]
pub struct AccessToken {
    pub value: String,
    pub expires_at: i64,
}

/// What the token endpoint answered.
#[derive(Debug, Clone)]
pub enum ExchangeOutcome {
    /// A token, valid for `expires_in` seconds from its receipt.
    Granted { access_token: String, expires_in: i64 },
    /// The request failed or was refused; the text says why.
    Failed(String),
}

/// What a request for a token calls for.
#[derive(Debug, Clone)]
pub enum TokenStep {
    /// The cached token is still usable.
    Cached(String),
    /// A new token must be requested; this is the form-encoded request body.
    Exchange(String),
}

/// The form-encoded body that exchanges `assertion` for an access token.
pub open spec fn exchange_body(assertion: Seq<char>) -> Seq<char> {
    GRANT_PREFIX@ + assertion
}

/// The effect of `Client::complete_exchange` of `outcome`, received at
/// `received_at`, which took `before` to `after` and returned `r`.
pub open spec fn exchange_completed(
    before: Client,
    after: Client,
    outcome: ExchangeOutcome,
    received_at: int,
    r: Result<String, RefreshAccessTokenError>,
) -> bool {
    &&& after.key() == before.key()
    &&& after.token_scope() == before.token_scope()
    &&& after.margin() == before.margin()
    &&& match outcome {
        ExchangeOutcome::Granted { access_token, expires_in } => {
            let expires_at = received_at + expires_in;
            if i64::MIN <= expires_at <= i64::MAX {
                &&& r == Ok::<String, RefreshAccessTokenError>(access_token)
                &&& after.cached_token() == Some(
                    AccessToken { value: access_token, expires_at: expires_at as i64 },
                )
            } else {
                &&& r matches Err(RefreshAccessTokenError::RequestFailure(_))
                &&& after.cached_token() == before.cached_token()
            }
        },
        ExchangeOutcome::Failed(detail) => {
            &&& r == Err::<String, RefreshAccessTokenError>(
                RefreshAccessTokenError::RequestFailure(detail),
            )
            &&& after.cached_token() == before.cached_token()
        },
    }
}

/// The bound on the Unix seconds of any instant chrono represents: its
/// dates run from year -262143 to year 262142.
pub const CLOCK_BOUND: i64 = 8_400_000_000_000;

/// Judges the status of a token-endpoint response: success passes, and any
/// other status is a failed exchange whose text gives the status and `detail`.
pub fn check_exchange_status(status: u16, detail: &str) -> (r: Result<(), ExchangeOutcome>)
    ensures
        is_success(status) ==> r is Ok,
        !is_success(status) ==> (r matches Err(ExchangeOutcome::Failed(text)) && text@
            == failure_text(status, detail@)),
{
    if is_success_status(status) {
        Ok(())
    } else {
        Err(ExchangeOutcome::Failed(status_failure_text(status, detail)))
    }
}

/// Relies on chrono's `From<SystemTime> for DateTime<Utc>`, which reads a
/// clock before 1970 as a negative time, and on `DateTime::timestamp`: the
/// system clock, in Unix seconds, within chrono's range of dates.
#[verifier::external_body]
fn unix_now() -> (r: i64)
    ensures
        -CLOCK_BOUND <= r <= CLOCK_BOUND,
{
    chrono::DateTime::<chrono::Utc>::from(std::time::SystemTime::now()).timestamp()
}

/// The largest lifetime, either way, that an exchange finished by the system
/// clock is sure to store.
pub const LIFETIME_BOUND: i64 = 4_000_000_000_000_000_000;

/// Holds the service-account credentials, the scope, and the token cache.
///
/// The cache holds at most one token. Storing a new one takes `&mut self`,
/// so the refreshes of one client never overlap.
pub struct Client {
    credentials: ServiceAccountKey,
    scope: Scope,
    access_token: Option<AccessToken>,
    refresh_margin: i64,
}

impl Client {
    /// The credentials the client signs with.
    pub closed spec fn key(&self) -> ServiceAccountKey {
        self.credentials
    }

    /// The scope that tokens are requested for.
    pub closed spec fn token_scope(&self) -> Scope {
        self.scope
    }

    /// The cached token, if any.
    pub closed spec fn cached_token(&self) -> Option<AccessToken> {
        self.access_token
    }

    /// The margin, in seconds, before expiry at which the cached token is refreshed.
    pub closed spec fn margin(&self) -> int {
        self.refresh_margin as int
    }

    /// Whether a request at `now` may use the cached token.
    pub open spec fn reuses_at(&self, now: int) -> bool {
        match self.cached_token() {
            Some(t) => now < t.expires_at - self.margin(),
            None => false,
        }
    }

    /// A client with no cached token and the default refresh margin.
    pub fn new(credentials: ServiceAccountKey, scope: Scope) -> (r: Client)
        ensures
            r.key() == credentials,
            r.token_scope() == scope,
            r.cached_token() is None,
            r.margin() == REFRESH_MARGIN,
    {
        Client { credentials, scope, access_token: None, refresh_margin: REFRESH_MARGIN }
    }

    /// A client with no cached token and the given refresh margin, in seconds.
    pub fn with_refresh_margin(credentials: ServiceAccountKey, scope: Scope, margin: i64) -> (r:
        Client)
        ensures
            r.key() == credentials,
            r.token_scope() == scope,
            r.cached_token() is None,
            r.margin() == margin,
    {
        Client { credentials, scope, access_token: None, refresh_margin: margin }
    }

    /// The credentials the client signs with.
    pub fn credentials(&self) -> (r: &ServiceAccountKey)
        ensures
            *r == self.key(),
    {
        &self.credentials
    }

    /// The scope that tokens are requested for.
    pub fn scope(&self) -> (r: Scope)
        ensures
            r == self.token_scope(),
    {
        self.scope
    }

    /// The cached token, if any.
    pub fn access_token(&self) -> (r: Option<&AccessToken>)
        ensures
            r matches Some(t) ==> self.cached_token() == Some(*t),
            r is None <==> self.cached_token() is None,
    {
        match &self.access_token {
            Some(t) => Some(t),
            None => None,
        }
    }

    /// Whether a request at `now` (Unix seconds) may use the cached token.
    pub fn is_usable_at(&self, now: i64) -> (r: bool)
        ensures
            r == self.reuses_at(now as int),
    {
        match &self.access_token {
            Some(t) => (now as i128) < (t.expires_at as i128) - (self.refresh_margin as i128),
            None => false,
        }
    }

    /// Decides what a request for a token at `now` calls for: the cached token
    /// while `now` is before its expiry less the margin, else the body of an
    /// exchange for a freshly signed assertion.
    pub fn token_step(&self, now: i64) -> (r: Result<TokenStep, RefreshAccessTokenError>)
        ensures
            self.reuses_at(now as int) ==> (r matches Ok(TokenStep::Cached(v))
                && self.cached_token() matches Some(t) && v == t.value),
            !self.reuses_at(now as int) ==> match r {
                Ok(TokenStep::Exchange(body)) => body@ == exchange_body(
                    assertion_text(self.key(), self.token_scope(), now as int),
                ),
                Ok(TokenStep::Cached(_)) => false,
                Err(e) => e is MalformedCredentials,
            },
            !self.reuses_at(now as int) && key_too_long(self.key()) ==> r == Err::<
                TokenStep,
                RefreshAccessTokenError,
            >(RefreshAccessTokenError::MalformedCredentials),
    {
        if self.is_usable_at(now) {
            match &self.access_token {
                Some(t) => Ok(TokenStep::Cached(t.value.clone())),
                None => Err(RefreshAccessTokenError::MalformedCredentials),
            }
        } else {
            let assertion = sign_assertion(&self.credentials, self.scope, now)?;
            let mut body = String::from_str(GRANT_PREFIX);
            body.append(assertion.as_str());
            Ok(TokenStep::Exchange(body))
        }
    }

    /// Takes in the outcome of an exchange that was received at `received_at`.
    /// A granted token is cached with its expiry at `received_at + expires_in`
    /// and handed out. A failed exchange, or an expiry beyond the range of
    /// `i64`, is a `RequestFailure` and leaves the cache as it was.
    pub fn complete_exchange(&mut self, outcome: ExchangeOutcome, received_at: i64) -> (r: Result<
        String,
        RefreshAccessTokenError,
    >)
        ensures
            exchange_completed(*old(self), *final(self), outcome, received_at as int, r),
    {
        match outcome {
            ExchangeOutcome::Granted { access_token, expires_in } => {
                match received_at.checked_add(expires_in) {
                    Some(expires_at) => {
                        let value = access_token.clone();
                        self.access_token = Some(AccessToken { value: access_token, expires_at });
                        Ok(value)
                    },
                    None => Err(
                        RefreshAccessTokenError::RequestFailure(
                            String::from_str("token lifetime out of range"),
                        ),
                    ),
                }
            },
            ExchangeOutcome::Failed(detail) => Err(RefreshAccessTokenError::RequestFailure(detail)),
        }
    }

    /// Decides, by the system clock, what a request for a token calls for;
    /// see `token_step`.
    pub fn next_token_step(&self) -> (r: Result<TokenStep, RefreshAccessTokenError>)
        ensures
            r matches Ok(TokenStep::Cached(v)) ==> self.cached_token() matches Some(t) && v
                == t.value,
            r matches Ok(TokenStep::Cached(_)) ==> exists|now: i64|
                -CLOCK_BOUND <= now <= CLOCK_BOUND && #[trigger] self.reuses_at(now as int),
            r matches Ok(TokenStep::Exchange(body)) ==> exists|now: i64|
                -CLOCK_BOUND <= now <= CLOCK_BOUND && !#[trigger] self.reuses_at(now as int)
                    && body@ == exchange_body(
                    assertion_text(self.key(), self.token_scope(), now as int),
                ),
            r matches Err(e) ==> e is MalformedCredentials,
            r is Err ==> exists|now: i64|
                -CLOCK_BOUND <= now <= CLOCK_BOUND && !#[trigger] self.reuses_at(now as int),
            (forall|now: i64| -CLOCK_BOUND <= now <= CLOCK_BOUND ==> #[trigger] self.reuses_at(
                now as int,
            )) ==> r matches Ok(TokenStep::Cached(_)),
            (forall|now: i64| -CLOCK_BOUND <= now <= CLOCK_BOUND ==> !#[trigger] self.reuses_at(
                now as int,
            )) && key_too_long(self.key()) ==> r == Err::<TokenStep, RefreshAccessTokenError>(
                RefreshAccessTokenError::MalformedCredentials,
            ),
    {
        let now = unix_now();
        self.token_step(now)
    }

    /// Takes in the outcome of an exchange received now, by the system clock;
    /// see `complete_exchange`.
    pub fn finish_exchange(&mut self, outcome: ExchangeOutcome) -> (r: Result<
        String,
        RefreshAccessTokenError,
    >)
        ensures
            exists|received_at: i64|
                #[trigger] exchange_completed(
                    *old(self),
                    *final(self),
                    outcome,
                    received_at as int,
                    r,
                ),
            outcome matches ExchangeOutcome::Granted { access_token, expires_in } ==> (
            -LIFETIME_BOUND <= expires_in <= LIFETIME_BOUND ==> r == Ok::<
                String,
                RefreshAccessTokenError,
            >(access_token)),
    {
        let now = unix_now();
        self.complete_exchange(outcome, now)
    }
}

/// The whole life of a cached token. A request at `now` reuses the cached
/// token, with no exchange and no change, exactly while `now` is before its
/// expiry less the margin; otherwise it calls for one exchange. When that
/// exchange, received at `now`, grants a token valid for `expires_in`
/// seconds, the new token replaces the old one and is handed out, the
/// credentials and scope stay, and requests reuse it up to its own expiry
/// less the margin.
pub proof fn lemma_access_token_lifecycle(
    before: Client,
    after: Client,
    now: i64,
    access_token: String,
    expires_in: i64,
    r: Result<String, RefreshAccessTokenError>,
    later: int,
)
    requires
        exchange_completed(
            before,
            after,
            ExchangeOutcome::Granted { access_token, expires_in },
            now as int,
            r,
        ),
        i64::MIN <= now + expires_in <= i64::MAX,
    ensures
        before.reuses_at(now as int) <==> (before.cached_token() matches Some(t) && now
            < t.expires_at - before.margin()),
        r == Ok::<String, RefreshAccessTokenError>(access_token),
        after.cached_token() == Some(
            AccessToken { value: access_token, expires_at: (now + expires_in) as i64 },
        ),
        after.key() == before.key(),
        after.token_scope() == before.token_scope(),
        after.reuses_at(later) <==> later < now + expires_in - before.margin(),
{
}

/// A request for a token strictly before the cached token's expiry less the
/// margin reuses it and calls for no exchange; a request at or after that
/// instant, or with nothing cached, calls for exactly one exchange.
pub proof fn lemma_reuse_boundary(c: Client, now: int)
    ensures
        c.cached_token() matches Some(t) ==> (c.reuses_at(now) <==> now < t.expires_at
            - c.margin()),
        c.cached_token() is None ==> !c.reuses_at(now),
{
}

/// Once an exchange received at `received_at` has granted a token valid for
/// `expires_in` seconds, every later request before `received_at + expires_in`
/// less the margin reuses that very token, and every request from then on
/// calls for a new exchange.
pub proof fn lemma_granted_token_reused(
    before: Client,
    after: Client,
    access_token: String,
    expires_in: i64,
    received_at: i64,
    r: Result<String, RefreshAccessTokenError>,
    now: int,
)
    requires
        exchange_completed(
            before,
            after,
            ExchangeOutcome::Granted { access_token, expires_in },
            received_at as int,
            r,
        ),
        r is Ok,
    ensures
        after.cached_token() matches Some(t) && t.value == access_token,
        after.reuses_at(now) <==> now < received_at + expires_in - before.margin(),
{
}

} // verus!
