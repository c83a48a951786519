//! Process-wide cache of the access/refresh token pair.
//!
//! The triple is overwritten wholesale and read wholesale under a
//! reader-writer lock, so a reader always sees one complete triple and never
//! a half-written one.  The "needs refresh" predicate applies a fixed skew
//! margin to the stored expiry to absorb clock drift and in-flight latency.

use vstd::prelude::*;
use vstd::rwlock::{RwLock, RwLockPredicate};

verus! {

/// Skew margin in seconds: a token is treated as expiring this much earlier
/// than its nominal expiry.
pub const TOKEN_EXPIRY_SKEW: i64 = 300;

/// The token triple.  A process starts with the empty triple; every update
/// replaces all three fields at once.
#[derive(Clone, Debug, PartialEq)]
pub struct TokenState {
    pub access_token: String,
    pub refresh_token: String,
    /// Absolute expiry of `access_token`, in seconds since the Unix epoch.
    pub expires_at: i64,
}

/// `a + b` on mathematical integers, clamped to the `i64` range.
pub open spec fn sat_add_i64(a: int, b: int) -> int {
    if a + b > i64::MAX {
        i64::MAX as int
    } else if a + b < i64::MIN {
        i64::MIN as int
    } else {
        a + b
    }
}

impl TokenState {
    /// Whether the token must be refreshed at time `now` (seconds since the
    /// Unix epoch): true exactly when `expires_at + TOKEN_EXPIRY_SKEW < now`
    /// on mathematical integers.
    pub open spec fn spec_needs_refresh(self, now: i64) -> bool {
        self.expires_at + TOKEN_EXPIRY_SKEW < now
    }

    /// The empty triple a process starts with.
    pub fn new_empty() -> (r: TokenState)
        ensures
            r.access_token@ == Seq::<char>::empty(),
            r.refresh_token@ == Seq::<char>::empty(),
            r.expires_at == 0,
    {
        TokenState { access_token: String::new(), refresh_token: String::new(), expires_at: 0 }
    }

    /// A field-for-field copy of the triple.
    pub fn duplicate(&self) -> (r: TokenState)
        ensures
            r == *self,
    {
        let r = TokenState {
            access_token: self.access_token.clone(),
            refresh_token: self.refresh_token.clone(),
            expires_at: self.expires_at,
        };
        r
    }

    /// Builds the triple stored for a token that expires `expires_in` seconds
    /// after `now`; the absolute expiry saturates at the `i64` range.
    pub fn with_relative_expiry(
        access_token: String,
        refresh_token: String,
        expires_in: i64,
        now: i64,
    ) -> (r: TokenState)
        ensures
            r.access_token == access_token,
            r.refresh_token == refresh_token,
            r.expires_at == sat_add_i64(now as int, expires_in as int),
    {
        let expires_at: i64 = match now.checked_add(expires_in) {
            Option::Some(v) => v,
            Option::None => {
                if expires_in > 0 {
                    i64::MAX
                } else {
                    i64::MIN
                }
            },
        };
        TokenState { access_token, refresh_token, expires_at }
    }

    /// True exactly when the expiry plus the skew margin lies strictly before
    /// `now`.
    pub fn needs_refresh(&self, now: i64) -> (r: bool)
        ensures
            r == self.spec_needs_refresh(now),
    {
        match self.expires_at.checked_add(TOKEN_EXPIRY_SKEW) {
            Option::Some(margin) => margin < now,
            // The skewed expiry exceeds i64::MAX, so it cannot lie before
            // any representable time.
            Option::None => false,
        }
    }

    /// The access token if it is still valid at `now`, and the empty string
    /// otherwise: an expired token is withheld, never handed out.
    pub fn access_token_if_valid(&self, now: i64) -> (r: String)
        ensures
            !self.spec_needs_refresh(now) ==> r@ == self.access_token@,
            self.spec_needs_refresh(now) ==> r@ == Seq::<char>::empty(),
    {
        if self.needs_refresh(now) {
            String::new()
        } else {
            self.access_token.clone()
        }
    }
}

/// Invariant imposed on every triple stored in a [`TokenCache`]: every
/// complete triple is admissible.
pub struct TokenCacheInv {}

impl RwLockPredicate<TokenState> for TokenCacheInv {
    open spec fn inv(self, v: TokenState) -> bool {
        true
    }
}

/// Lock-protected storage of the token triple, shared between the receive
/// loop (writer) and the host-facing readers.
///
/// Writers replace the whole triple while holding the write half of the
/// lock, and readers copy the whole triple while holding the read half, so
/// no reader can observe a mix of two writes.
pub struct TokenCache {
    lock: RwLock<TokenState, TokenCacheInv>,
}

impl TokenCache {
    /// A cache holding the empty triple.
    pub fn new() -> (r: TokenCache) {
        TokenCache { lock: RwLock::new(TokenState::new_empty(), Ghost(TokenCacheInv {})) }
    }

    /// Overwrites the cached triple wholesale.
    pub fn store(&self, t: TokenState) {
        let (_, write_handle) = self.lock.acquire_write();
        write_handle.release_write(t);
    }

    /// Stores a token pair that expires `expires_in` seconds after `now`.
    pub fn set_tokens(&self, access_token: String, refresh_token: String, expires_in: i64, now: i64) {
        self.store(TokenState::with_relative_expiry(access_token, refresh_token, expires_in, now));
    }

    /// Stores a token pair that expires `expires_in` seconds from the current
    /// wall-clock time.
    pub fn set_tokens_now(&self, access_token: String, refresh_token: String, expires_in: i64) {
        let now = now_unix_seconds();
        self.set_tokens(access_token, refresh_token, expires_in, now);
    }

    /// One complete triple as currently cached.  Which writer's triple is
    /// returned depends on scheduling, but the three fields always stem from
    /// a single write.
    pub fn snapshot(&self) -> (r: TokenState) {
        let read_handle = self.lock.acquire_read();
        let r = read_handle.borrow().duplicate();
        read_handle.release_read();
        r
    }

    /// Token overwrite is atomic: the triple is only ever replaced whole,
    /// under the write half of the lock, so two overlapping readers always
    /// observe the very same complete triple and never a half-written one.
    /// This function exhibits that: it takes two snapshots under
    /// simultaneously held read handles, and they are provably equal.
    pub fn paired_snapshots(&self) -> (r: (TokenState, TokenState))
        ensures
            r.0 == r.1,
    {
        let first_handle = self.lock.acquire_read();
        let second_handle = self.lock.acquire_read();
        proof {
            vstd::rwlock::ReadHandle::lemma_readers_match(&first_handle, &second_handle);
        }
        let first = first_handle.borrow().duplicate();
        let second = second_handle.borrow().duplicate();
        first_handle.release_read();
        second_handle.release_read();
        (first, second)
    }

    /// The refresh token of the current snapshot.
    pub fn refresh_token(&self) -> (r: String) {
        self.snapshot().refresh_token
    }

    /// The access token of the current snapshot if it is still valid at
    /// `now`, and the empty string otherwise.
    pub fn access_token_if_valid(&self, now: i64) -> (r: String) {
        let t = self.snapshot();
        t.access_token_if_valid(now)
    }

    /// The access token of the current snapshot if it is still valid at the
    /// current wall-clock time, and the empty string otherwise.
    pub fn access_token_if_valid_now(&self) -> (r: String) {
        let now = now_unix_seconds();
        self.access_token_if_valid(now)
    }

    /// Whether the current snapshot needs a refresh at the current wall-clock
    /// time.
    pub fn needs_refresh_now(&self) -> (r: bool) {
        let now = now_unix_seconds();
        let t = self.snapshot();
        t.needs_refresh(now)
    }
}

/// Relies on `time::OffsetDateTime::now_utc` followed by `unix_timestamp`:
/// the current wall-clock time in whole seconds since the Unix epoch.
/// Nothing is promised of the value, since the clock is owned by the
/// environment.
#[verifier::external_body]
fn now_unix_seconds() -> i64 {
    time::OffsetDateTime::now_utc().unix_timestamp()
}

} // verus!
