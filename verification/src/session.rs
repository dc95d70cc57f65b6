//! The in-memory session: access token, refresh token and absolute expiry.

use crate::clock::{clock_reading, unix_now, LATEST_SECOND};
use crate::types::TokenResponse;
use vstd::prelude::*;

verus! {

/// What a session holds, as mathematical values. `expires_at` counts seconds
/// since the start of 1970.
pub struct SessionView {
    pub access_token: Option<Seq<char>>,
    pub refresh_token: Option<Seq<char>>,
    pub expires_at: Option<int>,
}

impl SessionView {
    /// The session that holds nothing.
    pub open spec fn empty() -> SessionView {
        SessionView { access_token: None, refresh_token: None, expires_at: None }
    }

    /// The session a client starts with: at most an access token obtained
    /// elsewhere, and no expiry.
    pub open spec fn initial(access_token: Option<Seq<char>>) -> SessionView {
        SessionView { access_token, refresh_token: None, expires_at: None }
    }

    /// The session that holds one full set of tokens.
    pub open spec fn holding(
        access_token: Seq<char>,
        refresh_token: Seq<char>,
        expires_at: int,
    ) -> SessionView {
        SessionView {
            access_token: Some(access_token),
            refresh_token: Some(refresh_token),
            expires_at: Some(expires_at),
        }
    }

    /// Refresh token and expiry are present together, and only beside an access
    /// token.
    pub open spec fn consistent(self) -> bool {
        &&& self.refresh_token.is_some() == self.expires_at.is_some()
        &&& self.expires_at.is_some() ==> self.access_token.is_some()
    }

    /// The session counts as authenticated at the time `now`: it has an expiry,
    /// and that expiry lies strictly after `now`.
    pub open spec fn valid_at(self, now: int) -> bool {
        match self.expires_at {
            Some(expires_at) => now < expires_at,
            None => false,
        }
    }
}

/// One write of a set of tokens, made at the time `now`.
pub struct TokenWrite {
    pub access_token: Seq<char>,
    pub refresh_token: Seq<char>,
    pub expires_in: int,
    pub now: int,
}

impl TokenWrite {
    /// The session that this write leaves behind, whatever was there before.
    pub open spec fn written(self) -> SessionView {
        SessionView::holding(self.access_token, self.refresh_token, self.now + self.expires_in)
    }
}

/// The write that taking `tokens` in at the time `now` makes.
pub open spec fn write_of(tokens: TokenResponse, now: int) -> TokenWrite {
    TokenWrite {
        access_token: tokens.access_token@,
        refresh_token: tokens.refresh_token@,
        expires_in: tokens.expires_in as int,
        now,
    }
}

/// The view of an optional owned string.
pub open spec fn owned_text_of(text: Option<String>) -> Option<Seq<char>> {
    match text {
        Some(t) => Some(t@),
        None => None,
    }
}

/// An optional count of seconds, as a mathematical integer.
pub open spec fn seconds_of(seconds: Option<i64>) -> Option<int> {
    match seconds {
        Some(s) => Some(s as int),
        None => None,
    }
}

/// The store of the current session. Share one store among all its users and
/// guard it with a lock, so that every operation below runs alone.
#[derive(Debug)]
pub struct SessionManager {
    access_token: Option<String>,
    refresh_token: Option<String>,
    expires_at: Option<i64>,
}

impl View for SessionManager {
    type V = SessionView;

    closed spec fn view(&self) -> SessionView {
        SessionView {
            access_token: owned_text_of(self.access_token),
            refresh_token: owned_text_of(self.refresh_token),
            expires_at: seconds_of(self.expires_at),
        }
    }
}

impl SessionManager {
    #[verifier::type_invariant]
    spec fn well_formed(self) -> bool {
        self@.consistent()
    }

    /// A session with at most an access token: no refresh token and no expiry.
    pub fn new(access_token: Option<String>) -> (session: Self)
        ensures
            session@ == SessionView::initial(owned_text_of(access_token)),
    {
        SessionManager { access_token, refresh_token: None, expires_at: None }
    }

    /// Takes a set of tokens into the session at the time `now`, replacing all
    /// that it held. The expiry is `now` plus the lifetime of the tokens, which
    /// must be a second that 64 bits can count.
    pub fn set_tokens_at(&mut self, tokens: TokenResponse, now: i64)
        requires
            i64::MIN <= now + tokens.expires_in <= i64::MAX,
        ensures
            final(self)@ == write_of(tokens, now as int).written(),
    {
        *self = SessionManager {
            access_token: Some(tokens.access_token),
            refresh_token: Some(tokens.refresh_token),
            expires_at: Some(now + tokens.expires_in),
        };
    }

    /// Takes a set of tokens into the session at the time the wall clock shows,
    /// replacing all that it held. The lifetime must leave room for every reading
    /// of the clock, so that the expiry is a second that 64 bits can count.
    pub fn set_tokens(&mut self, tokens: TokenResponse)
        requires
            tokens.expires_in <= i64::MAX - LATEST_SECOND,
        ensures
            exists|now: i64|
                #[trigger] clock_reading(now) && final(self)@ == write_of(tokens, now as int).written(),
    {
        let now: i64 = unix_now();
        self.set_tokens_at(tokens, now);
    }

    /// The access token, if the session holds one. Every session a caller can
    /// hold is consistent, and the readers say so.
    pub fn get_access_token(&self) -> (token: Option<String>)
        ensures
            owned_text_of(token) == self@.access_token,
            self@.consistent(),
    {
        proof {
            use_type_invariant(self);
        }
        self.access_token.clone()
    }

    /// The refresh token, if the session holds one.
    pub fn get_refresh_token(&self) -> (token: Option<String>)
        ensures
            owned_text_of(token) == self@.refresh_token,
            self@.consistent(),
    {
        proof {
            use_type_invariant(self);
        }
        self.refresh_token.clone()
    }

    /// The expiry, if the session holds one.
    pub fn get_expires_at(&self) -> (expires_at: Option<i64>)
        ensures
            seconds_of(expires_at) == self@.expires_at,
            self@.consistent(),
    {
        proof {
            use_type_invariant(self);
        }
        self.expires_at
    }

    /// Whether the session counts as authenticated at the time `now`.
    pub fn is_authenticated_at(&self, now: i64) -> (valid: bool)
        ensures
            valid == self@.valid_at(now as int),
    {
        match self.expires_at {
            Some(expires_at) => now < expires_at,
            None => false,
        }
    }

    /// Whether the session counts as authenticated at the time the wall clock
    /// shows. A session without an expiry never does.
    pub fn is_authenticated(&self) -> (valid: bool)
        ensures
            self@.expires_at is None ==> !valid,
            exists|now: i64| #[trigger] clock_reading(now) && valid == self@.valid_at(now as int),
    {
        let now: i64 = unix_now();
        self.is_authenticated_at(now)
    }

    /// Forgets all three values.
    pub fn clear(&mut self)
        ensures
            final(self)@ == SessionView::empty(),
    {
        *self = SessionManager { access_token: None, refresh_token: None, expires_at: None };
    }
}

impl Clone for SessionManager {
    /// A snapshot of the session as it stands.
    fn clone(&self) -> (snapshot: Self)
        ensures
            snapshot@ == self@,
    {
        proof {
            use_type_invariant(self);
        }
        SessionManager {
            access_token: self.access_token.clone(),
            refresh_token: self.refresh_token.clone(),
            expires_at: self.expires_at,
        }
    }
}

impl Default for SessionManager {
    fn default() -> (session: Self)
        ensures
            session@ == SessionView::empty(),
    {
        SessionManager { access_token: None, refresh_token: None, expires_at: None }
    }
}

/// One change made to a session.
pub enum SessionChange {
    /// A set of tokens is taken in.
    Write(TokenWrite),
    /// The session is cleared.
    Clear,
}

/// The session after one change.
pub open spec fn after_change(before: SessionView, change: SessionChange) -> SessionView {
    match change {
        SessionChange::Write(write) => write.written(),
        SessionChange::Clear => SessionView::empty(),
    }
}

/// The session after the given changes, made one after another in this order.
pub open spec fn after_changes(start: SessionView, changes: Seq<SessionChange>) -> SessionView
    decreases changes.len(),
{
    if changes.len() == 0 {
        start
    } else {
        after_change(after_changes(start, changes.drop_last()), changes.last())
    }
}

/// Changes made one after another never leave a session in which only some of
/// refresh token and expiry are present, or either of them without an access
/// token.
pub proof fn lemma_changes_keep_consistency(start: SessionView, changes: Seq<SessionChange>)
    requires
        start.consistent(),
    ensures
        after_changes(start, changes).consistent(),
    decreases changes.len(),
{
    if changes.len() > 0 {
        lemma_changes_keep_consistency(start, changes.drop_last());
    }
}

/// After one or more writes made one after another, in whatever order they came
/// to be made, the session holds exactly what one of them wrote: all three values
/// come from the same write, the last one made.
pub proof fn lemma_writes_do_not_mix(start: SessionView, changes: Seq<SessionChange>)
    requires
        changes.len() > 0,
        forall|i: int| 0 <= i < changes.len() ==> #[trigger] changes[i] is Write,
    ensures
        after_changes(start, changes) == changes.last()->Write_0.written(),
        exists|i: int|
            0 <= i < changes.len() && after_changes(start, changes) == #[trigger] after_change(
                start,
                changes[i],
            ),
{
    assert(after_change(start, changes[changes.len() - 1]) == after_changes(start, changes));
}

/// Tokens written at the time `now` with a lifetime of `expires_in` seconds keep
/// the session authenticated at every time before `now + expires_in`, and at no
/// time from then on. So a session is authenticated at the moment of a write with
/// a positive lifetime.
pub proof fn lemma_valid_until_expiry(write: TokenWrite, later: int)
    ensures
        write.written().valid_at(later) <==> later < write.now + write.expires_in,
        write.expires_in > 0 ==> write.written().valid_at(write.now),
{
}

/// A session that starts with a bare access token is authenticated at no time,
/// though it holds that token.
pub proof fn lemma_bare_token_is_not_authenticated(access_token: Option<Seq<char>>, now: int)
    ensures
        SessionView::initial(access_token).access_token == access_token,
        !SessionView::initial(access_token).valid_at(now),
{
}

/// Clearing a session, whatever it held, leaves none of the three values, and a
/// session that is authenticated at no time.
pub proof fn lemma_cleared_holds_nothing(before: SessionView, now: int)
    ensures
        after_change(before, SessionChange::Clear).access_token is None,
        after_change(before, SessionChange::Clear).refresh_token is None,
        after_change(before, SessionChange::Clear).expires_at is None,
        !after_change(before, SessionChange::Clear).valid_at(now),
{
}

} // verus!
