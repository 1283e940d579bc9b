//! Bearer tokens and the cache that keeps one fresh.
//!
//! A token is valid for use only while the current time is strictly before
//! its expiry; it is due for renewal once the time remaining drops to or
//! below a configured refresh lead time. The cache holds at most one token,
//! decides when a renewal exchange is needed and which grant to use, and
//! applies the provider's answer. The network exchange itself is performed
//! by the caller, who feeds the outcome back in; every decision here is
//! verified for every possible outcome.

use vstd::prelude::*;
use vstd::string::StringExecFns;

verus! {

/// A bearer credential: an opaque access token, an optional expiry instant
/// (seconds on the provider's clock) and an optional refresh credential.
pub struct TokenRecord {
    pub access_token: String,
    pub expires_at: Option<i64>,
    pub refresh_token: Option<String>,
}

impl TokenRecord {
    /// The token is due for renewal at `now`: its remaining lifetime is at
    /// most `lead` seconds. A token without an expiry never falls due.
    pub open spec fn spec_expires_before(self, now: int, lead: int) -> bool {
        match self.expires_at {
            Some(e) => e - now <= lead,
            None => false,
        }
    }

    /// Usable without renewal at `now` under lead time `lead`.
    pub open spec fn spec_fresh(self, now: int, lead: int) -> bool {
        !self.spec_expires_before(now, lead)
    }

    pub fn expires_before(&self, now: i64, lead: u64) -> (b: bool)
        ensures
            b == self.spec_expires_before(now as int, lead as int),
    {
        match self.expires_at {
            Some(e) => (e as i128) - (now as i128) <= (lead as i128),
            None => false,
        }
    }

    /// An equal copy of the record.
    pub fn duplicate(&self) -> (r: TokenRecord)
        ensures
            r == *self,
    {
        TokenRecord {
            access_token: self.access_token.clone(),
            expires_at: self.expires_at,
            refresh_token: match &self.refresh_token {
                Some(c) => Some(c.clone()),
                None => None,
            },
        }
    }
}

/// Why a token could not be produced.
pub enum TokenError {
    /// Identity-provider discovery failed; fatal at construction.
    Discovery(String),
    /// A credential exchange was rejected or could not be carried out.
    TokenRequest(String),
}

impl TokenError {
    /// The error as a line of diagnostics.
    pub fn describe(&self) -> (r: String)
        ensures
            self matches TokenError::Discovery(m) ==> r@ == "token provider discovery failed: "@
                + m@,
            self matches TokenError::TokenRequest(m) ==> r@ == "token request failed: "@ + m@,
    {
        match self {
            TokenError::Discovery(m) => {
                let mut s = String::from_str("token provider discovery failed: ");
                s.append(m.as_str());
                s
            },
            TokenError::TokenRequest(m) => {
                let mut s = String::from_str("token request failed: ");
                s.append(m.as_str());
                s
            },
        }
    }
}

/// The grant a renewal exchange should use.
pub enum ExchangeKind {
    /// Authenticate with the client identifier and secret.
    ClientCredentials,
    /// Present the stored refresh credential.
    RefreshGrant(String),
}

/// What the cache asks of a caller that holds the exclusive lock.
pub enum RefreshPlan {
    /// Someone else already renewed the token; use this one, no exchange.
    Fresh(TokenRecord),
    /// Perform this exchange and feed the outcome to `refresh_step`.
    Exchange(ExchangeKind),
}

/// The provider's answer to one credential exchange.
pub enum ExchangeOutcome {
    /// A token was granted.
    Delivered(TokenRecord),
    /// The exchange failed: the provider rejected it or the transport broke.
    Rejected(String),
}

/// What to do after one exchange outcome has been applied.
pub enum RefreshStep {
    /// The renewal is complete; return this token.
    Done(TokenRecord),
    /// The refresh grant was rejected; fall back to a client-credentials
    /// exchange and feed its outcome to `refresh_step` again.
    Fallback,
    /// The renewal failed; the stored token, if any, is left in place.
    Failed(TokenError),
}

/// A single-slot cache of the most recently obtained token.
///
/// The slot starts empty, is filled by the first successful exchange and
/// replaced on every later one; a failed exchange never changes it. In a
/// concurrent setting the caller guards `check_fresh` with a shared lock and
/// `plan_refresh` / `refresh_step` with an exclusive one; re-checking inside
/// `plan_refresh` is what collapses racing renewals into a single exchange.
pub struct TokenCache {
    slot: Option<TokenRecord>,
    refresh_before: u64,
}

/// The fast-path answer: the stored token, if one is there and fresh.
pub open spec fn spec_check(slot: Option<TokenRecord>, now: int, lead: int) -> Option<TokenRecord> {
    match slot {
        Some(t) => if t.spec_fresh(now, lead) {
            Some(t)
        } else {
            None
        },
        None => None,
    }
}

/// The decision taken under the exclusive lock: reuse a fresh token, or
/// choose the grant for a renewal exchange. A stale token that carries a
/// refresh credential is renewed with it; otherwise the client credentials
/// are used.
pub open spec fn spec_plan(slot: Option<TokenRecord>, now: int, lead: int) -> RefreshPlan {
    match slot {
        None => RefreshPlan::Exchange(ExchangeKind::ClientCredentials),
        Some(t) => if t.spec_fresh(now, lead) {
            RefreshPlan::Fresh(t)
        } else {
            match t.refresh_token {
                Some(c) => RefreshPlan::Exchange(ExchangeKind::RefreshGrant(c)),
                None => RefreshPlan::Exchange(ExchangeKind::ClientCredentials),
            }
        },
    }
}

/// How one exchange outcome changes the slot and what follows: a granted
/// token is stored and returned; a rejected refresh grant falls back to
/// client credentials; a rejected client-credentials exchange is a failure.
/// The slot is never changed on failure.
pub open spec fn spec_step(
    slot: Option<TokenRecord>,
    kind: ExchangeKind,
    outcome: ExchangeOutcome,
) -> (Option<TokenRecord>, RefreshStep) {
    match outcome {
        ExchangeOutcome::Delivered(t) => (Some(t), RefreshStep::Done(t)),
        ExchangeOutcome::Rejected(m) => match kind {
            ExchangeKind::RefreshGrant(_) => (slot, RefreshStep::Fallback),
            ExchangeKind::ClientCredentials => (
                slot,
                RefreshStep::Failed(TokenError::TokenRequest(m)),
            ),
        },
    }
}

impl TokenCache {
    /// The stored token, or `None` before the first successful exchange.
    pub closed spec fn slot(self) -> Option<TokenRecord> {
        self.slot
    }

    /// The configured refresh lead time, in seconds.
    pub closed spec fn lead(self) -> int {
        self.refresh_before as int
    }

    /// An empty cache with the given refresh lead time, in seconds.
    pub fn new(refresh_before: u64) -> (c: TokenCache)
        ensures
            c.slot() is None,
            c.lead() == refresh_before as int,
    {
        TokenCache { slot: None, refresh_before }
    }

    /// The fast path, taken under a shared lock: a copy of the stored token
    /// if it is fresh at `now`, else `None`.
    pub fn check_fresh(&self, now: i64) -> (r: Option<TokenRecord>)
        ensures
            r == spec_check(self.slot(), now as int, self.lead()),
    {
        match &self.slot {
            Some(t) => {
                if !t.expires_before(now, self.refresh_before) {
                    Some(t.duplicate())
                } else {
                    None
                }
            },
            None => None,
        }
    }

    /// The double-check and grant choice, taken under the exclusive lock.
    pub fn plan_refresh(&self, now: i64) -> (p: RefreshPlan)
        ensures
            p == spec_plan(self.slot(), now as int, self.lead()),
    {
        match &self.slot {
            None => RefreshPlan::Exchange(ExchangeKind::ClientCredentials),
            Some(t) => {
                if !t.expires_before(now, self.refresh_before) {
                    RefreshPlan::Fresh(t.duplicate())
                } else {
                    match &t.refresh_token {
                        Some(c) => RefreshPlan::Exchange(ExchangeKind::RefreshGrant(c.clone())),
                        None => RefreshPlan::Exchange(ExchangeKind::ClientCredentials),
                    }
                }
            },
        }
    }

    /// Apply one exchange outcome, still under the exclusive lock.
    pub fn refresh_step(&mut self, kind: &ExchangeKind, outcome: ExchangeOutcome) -> (s: RefreshStep)
        ensures
            final(self).lead() == old(self).lead(),
            (final(self).slot(), s) == spec_step(old(self).slot(), *kind, outcome),
    {
        match outcome {
            ExchangeOutcome::Delivered(t) => {
                let copy = t.duplicate();
                self.slot = Some(t);
                RefreshStep::Done(copy)
            },
            ExchangeOutcome::Rejected(m) => match kind {
                ExchangeKind::RefreshGrant(_) => RefreshStep::Fallback,
                ExchangeKind::ClientCredentials => RefreshStep::Failed(
                    TokenError::TokenRequest(m),
                ),
            },
        }
    }
}

/// What one `get_token` call produced: the token or the error, and how many
/// credential exchanges were performed on the way (0, 1 or 2).
pub struct GetTokenOutcome {
    pub token: Result<TokenRecord, TokenError>,
    pub exchanges: u32,
}

/// One full `get_token` call as a function of the provider's answers:
/// the new slot, the returned value, and the number of exchanges performed.
/// `refresh_outcome` answers a refresh-grant exchange, `fallback_outcome` a
/// client-credentials exchange; an answer that is never asked for is unused.
pub open spec fn spec_get_token(
    slot: Option<TokenRecord>,
    lead: int,
    now: int,
    refresh_outcome: ExchangeOutcome,
    fallback_outcome: ExchangeOutcome,
) -> (Option<TokenRecord>, Result<TokenRecord, TokenError>, int) {
    match spec_plan(slot, now, lead) {
        RefreshPlan::Fresh(t) => (slot, Ok(t), 0),
        RefreshPlan::Exchange(ExchangeKind::ClientCredentials) => match fallback_outcome {
            ExchangeOutcome::Delivered(t) => (Some(t), Ok(t), 1),
            ExchangeOutcome::Rejected(m) => (slot, Err(TokenError::TokenRequest(m)), 1),
        },
        RefreshPlan::Exchange(ExchangeKind::RefreshGrant(_)) => match refresh_outcome {
            ExchangeOutcome::Delivered(t) => (Some(t), Ok(t), 1),
            ExchangeOutcome::Rejected(_) => match fallback_outcome {
                ExchangeOutcome::Delivered(t) => (Some(t), Ok(t), 2),
                ExchangeOutcome::Rejected(m) => (slot, Err(TokenError::TokenRequest(m)), 2),
            },
        },
    }
}

impl TokenCache {
    /// Produce a currently valid token, renewing the stored one if it is
    /// stale. The two arguments are the provider's answers to the exchanges
    /// this call may perform — a refresh-grant exchange and a fallback
    /// client-credentials exchange — so the caller performs the network
    /// round-trips and this function is verified for every answer.
    /// `r.exchanges` counts the exchanges that were actually consumed.
    pub fn get_token(
        &mut self,
        now: i64,
        refresh_outcome: ExchangeOutcome,
        fallback_outcome: ExchangeOutcome,
    ) -> (r: GetTokenOutcome)
        ensures
            final(self).lead() == old(self).lead(),
            ({
                let (slot2, token, n) = spec_get_token(
                    old(self).slot(),
                    old(self).lead(),
                    now as int,
                    refresh_outcome,
                    fallback_outcome,
                );
                &&& final(self).slot() == slot2
                &&& r.token == token
                &&& r.exchanges == n
            }),
    {
        match self.plan_refresh(now) {
            RefreshPlan::Fresh(t) => GetTokenOutcome { token: Ok(t), exchanges: 0 },
            RefreshPlan::Exchange(kind) => match self.refresh_step(&kind, refresh_or_fallback(
                &kind,
                refresh_outcome,
                &fallback_outcome,
            )) {
                RefreshStep::Done(t) => GetTokenOutcome { token: Ok(t), exchanges: 1 },
                RefreshStep::Failed(e) => GetTokenOutcome { token: Err(e), exchanges: 1 },
                RefreshStep::Fallback => {
                    let second = ExchangeKind::ClientCredentials;
                    match self.refresh_step(&second, fallback_outcome) {
                        RefreshStep::Done(t) => GetTokenOutcome { token: Ok(t), exchanges: 2 },
                        RefreshStep::Failed(e) => GetTokenOutcome { token: Err(e), exchanges: 2 },
                        RefreshStep::Fallback => {
                            // a client-credentials step never asks for a fallback
                            proof {
                                assert(false);
                            }
                            GetTokenOutcome {
                                token: Err(TokenError::TokenRequest(String::new())),
                                exchanges: 2,
                            }
                        },
                    }
                },
            },
        }
    }
}

/// The answer that matches the planned grant: the refresh answer for a
/// refresh-grant exchange, the fallback answer for client credentials.
fn refresh_or_fallback(
    kind: &ExchangeKind,
    refresh_outcome: ExchangeOutcome,
    fallback_outcome: &ExchangeOutcome,
) -> (r: ExchangeOutcome)
    ensures
        r == match *kind {
            ExchangeKind::RefreshGrant(_) => refresh_outcome,
            ExchangeKind::ClientCredentials => *fallback_outcome,
        },
{
    match kind {
        ExchangeKind::RefreshGrant(_) => refresh_outcome,
        ExchangeKind::ClientCredentials => duplicate_outcome(fallback_outcome),
    }
}

/// An equal copy of an exchange outcome.
fn duplicate_outcome(o: &ExchangeOutcome) -> (r: ExchangeOutcome)
    ensures
        r == *o,
{
    match o {
        ExchangeOutcome::Delivered(t) => ExchangeOutcome::Delivered(t.duplicate()),
        ExchangeOutcome::Rejected(m) => ExchangeOutcome::Rejected(m.clone()),
    }
}

/// Freshness: whatever the cache held, a `get_token` call that returns a
/// token returns one that is fresh at the moment of return, provided every
/// token the provider delivered during the call was fresh then. (A provider
/// may grant a token whose lifetime is already within the lead time; only
/// that case is excluded here.) A call that cannot produce a fresh token
/// returns an error instead of a stale token.
pub proof fn lemma_get_token_freshness(
    slot: Option<TokenRecord>,
    lead: int,
    now: int,
    refresh_outcome: ExchangeOutcome,
    fallback_outcome: ExchangeOutcome,
)
    requires
        refresh_outcome matches ExchangeOutcome::Delivered(t) ==> t.spec_fresh(now, lead),
        fallback_outcome matches ExchangeOutcome::Delivered(t) ==> t.spec_fresh(now, lead),
    ensures
        spec_get_token(slot, lead, now, refresh_outcome, fallback_outcome).1 matches Ok(t)
            ==> t.spec_fresh(now, lead),
{
}

/// Idempotent fast path: while the stored token is fresh, `get_token`
/// returns it unchanged, performs no exchange and leaves the cache as it
/// was — at both of two successive calls, whatever the provider would have
/// answered.
pub proof fn lemma_fast_path_idempotent(
    slot: Option<TokenRecord>,
    lead: int,
    now1: int,
    now2: int,
    ro1: ExchangeOutcome,
    co1: ExchangeOutcome,
    ro2: ExchangeOutcome,
    co2: ExchangeOutcome,
)
    requires
        spec_check(slot, now1, lead) is Some,
        spec_check(slot, now2, lead) is Some,
    ensures
        ({
            let first = spec_get_token(slot, lead, now1, ro1, co1);
            let second = spec_get_token(first.0, lead, now2, ro2, co2);
            &&& first.0 == slot
            &&& second.0 == slot
            &&& first.2 == 0
            &&& second.2 == 0
            &&& first.1 == Ok::<TokenRecord, TokenError>(spec_check(slot, now1, lead).unwrap())
            &&& second.1 == first.1
        }),
{
}

/// At most one refresh per staleness event: when every caller sees a stale
/// (or empty) slot, the one that wins the exclusive lock performs exactly
/// one exchange — provided that exchange is granted — and every caller that
/// follows while the installed token is still fresh performs none and gets
/// that same token.
pub proof fn lemma_refresh_collapses(
    slot: Option<TokenRecord>,
    lead: int,
    now1: int,
    now2: int,
    ro1: ExchangeOutcome,
    co1: ExchangeOutcome,
    ro2: ExchangeOutcome,
    co2: ExchangeOutcome,
)
    requires
        spec_check(slot, now1, lead) is None,
        match spec_plan(slot, now1, lead) {
            RefreshPlan::Exchange(ExchangeKind::RefreshGrant(_)) => ro1
                matches ExchangeOutcome::Delivered(t) && t.spec_fresh(now2, lead),
            RefreshPlan::Exchange(ExchangeKind::ClientCredentials) => co1
                matches ExchangeOutcome::Delivered(t) && t.spec_fresh(now2, lead),
            RefreshPlan::Fresh(_) => false,
        },
    ensures
        ({
            let winner = spec_get_token(slot, lead, now1, ro1, co1);
            let follower = spec_get_token(winner.0, lead, now2, ro2, co2);
            &&& winner.2 == 1
            &&& winner.1 is Ok
            &&& follower.2 == 0
            &&& follower.1 == winner.1
            &&& follower.0 == winner.0
        }),
{
}

/// Fallback: a stored stale token carries a refresh credential, the
/// refresh-grant exchange is rejected, and the client-credentials exchange
/// then succeeds — the call still returns the newly granted token and
/// stores it.
pub proof fn lemma_refresh_fallback(
    slot: Option<TokenRecord>,
    lead: int,
    now: int,
    rejection: String,
    granted: TokenRecord,
)
    requires
        slot matches Some(t) && !t.spec_fresh(now, lead) && t.refresh_token is Some,
    ensures
        spec_get_token(
            slot,
            lead,
            now,
            ExchangeOutcome::Rejected(rejection),
            ExchangeOutcome::Delivered(granted),
        ) == (Some(granted), Ok::<TokenRecord, TokenError>(granted), 2int),
{
}

/// No partial state on failure: when every exchange the call performs is
/// rejected, the previous slot — good or stale — is left exactly as it was
/// and the caller gets an error, never a stale token.
pub proof fn lemma_failure_preserves_slot(
    slot: Option<TokenRecord>,
    lead: int,
    now: int,
    refresh_rejection: String,
    fallback_rejection: String,
)
    ensures
        ({
            let r = spec_get_token(
                slot,
                lead,
                now,
                ExchangeOutcome::Rejected(refresh_rejection),
                ExchangeOutcome::Rejected(fallback_rejection),
            );
            &&& r.0 == slot
            &&& spec_check(slot, now, lead) is None ==> r.1 is Err
        }),
{
}

/// Relies on chrono's conversion from the system clock's reading: seconds
/// since the Unix epoch, negative on a machine whose clock is set before
/// it. Nothing is promised of a clock.
#[verifier::external_body]
fn current_time_seconds() -> i64 {
    chrono::DateTime::<chrono::Utc>::from(std::time::SystemTime::now()).timestamp()
}

impl TokenCache {
    /// The fast path against the system clock. The clock decides only
    /// whether a token with an expiry is still fresh: a token is only ever
    /// handed out from the slot, an empty slot answers `None`, and a token
    /// without an expiry is handed out whatever the clock reads.
    pub fn check_now(&self) -> (r: Option<TokenRecord>)
        ensures
            r matches Some(t) ==> self.slot() == Some(t),
            self.slot() is None ==> r is None,
            self.slot() matches Some(t) ==> (t.expires_at is None ==> r == Some(t)),
    {
        let now = current_time_seconds();
        self.check_fresh(now)
    }
}

/// The seconds named by a duration string, if it is one.
pub uninterp spec fn parsed_duration_secs(s: Seq<char>) -> Option<u64>;

/// Relies on humantime::parse_duration: the duration written in a string
/// such as "30s" or "2h 37min". The result depends on the characters alone;
/// fractions of a second are dropped.
#[verifier::external_body]
fn parse_duration_secs(s: &str) -> (r: Option<u64>)
    ensures
        r == parsed_duration_secs(s@),
{
    humantime::parse_duration(s).ok().map(|d| d.as_secs())
}

/// The value for an HTTP Authorization header carrying a bearer token.
pub fn bearer_header_value(token: &str) -> (r: String)
    ensures
        r@ == "Bearer "@ + token@,
{
    let mut s = String::from_str("Bearer ");
    s.append(token);
    s
}

/// The immutable configuration of a token provider: client credentials, the
/// issuer to discover, the refresh lead time and a switch for test setups
/// whose issuer has no valid TLS certificate.
pub struct OpenIdTokenProviderConfigArguments {
    pub client_id: String,
    pub client_secret: String,
    pub issuer_url: String,
    /// Refresh lead time in seconds: a token is renewed once its remaining
    /// lifetime is at most this many seconds.
    pub refresh_before: u64,
    pub tls_insecure: bool,
}

impl OpenIdTokenProviderConfigArguments {
    /// Assemble a configuration from plain settings, reading the refresh
    /// lead time from a duration string; `None` exactly when that string
    /// does not parse as a duration.
    pub fn assemble(
        client_id: String,
        client_secret: String,
        issuer_url: String,
        refresh_before_text: &str,
        tls_insecure: bool,
    ) -> (r: Option<OpenIdTokenProviderConfigArguments>)
        ensures
            r is Some <==> parsed_duration_secs(refresh_before_text@) is Some,
            r matches Some(c) ==> {
                &&& c.client_id == client_id
                &&& c.client_secret == client_secret
                &&& c.issuer_url == issuer_url
                &&& Some(c.refresh_before) == parsed_duration_secs(refresh_before_text@)
                &&& c.tls_insecure == tls_insecure
            },
    {
        match parse_duration_secs(refresh_before_text) {
            Some(refresh_before) => Some(OpenIdTokenProviderConfigArguments {
                client_id,
                client_secret,
                issuer_url,
                refresh_before,
                tls_insecure,
            }),
            None => None,
        }
    }
}

} // verus!
