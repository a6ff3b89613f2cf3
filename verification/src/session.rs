//! How a run comes by a token that it may use.
//!
//! The manager is a state machine. It names the one thing it waits for, the
//! program around it does that thing and reports what came of it, and the
//! manager moves on. Interactive authorization, the exchange with the
//! service and the token file all lie outside; the order in which they are
//! asked for is decided here.

use crate::error::ControlError;
use crate::token::{required_scope_names, required_scopes, CachedToken, TokenView};
use vstd::prelude::*;

verus! {

/// Where the manager stands.
pub enum StateView {
    /// It waits to learn what the token cache holds.
    Loading,
    /// It waits for the user to authorize and the service to grant a token.
    Authorizing,
    /// It waits for the service to renew the token.
    Refreshing { refresh_token: Seq<char> },
    /// It waits for `token` to be written to the cache.
    Saving { token: TokenView },
    /// It holds a token that may be used.
    Ready { token: TokenView },
    /// Authentication failed; the run cannot go on.
    Failed,
}

/// What the program around the manager reports back.
pub enum EventView {
    /// The cache was read at the time `now`; `cached` is what it held.
    CacheLoaded { cached: Option<TokenView>, now: int },
    /// The service granted `token`, on authorization or on renewal.
    Granted { token: TokenView },
    /// The token was written to the cache.
    Saved,
    /// What the manager waited for did not come about.
    Failed,
}

/// What the manager waits for.
pub enum ActionView {
    LoadCache,
    Authorize,
    Refresh { refresh_token: Seq<char> },
    Save { token: TokenView },
    Proceed { token: TokenView },
    Abort,
}

/// Where a token read from the cache at `now` leads.
///
/// Without a token, or with one that lacks a required scope, the user has
/// to authorize anew. A token that covers the scopes is used as it is while
/// it has not expired. Once expired it is renewed with its refresh token;
/// one that has none is of no use, and the user authorizes anew.
pub open spec fn after_load(token: Option<TokenView>, now: int) -> StateView {
    match token {
        None => StateView::Authorizing,
        Some(t) => if !t.covers(required_scope_names()) {
            StateView::Authorizing
        } else if !t.is_expired(now) {
            StateView::Ready { token: t }
        } else {
            match t.refresh_token {
                Some(refresh_token) => StateView::Refreshing { refresh_token },
                None => StateView::Authorizing,
            }
        },
    }
}

/// The token to keep after a renewal that was asked for with
/// `refresh_token` and answered with `granted`: the answer, with the old
/// refresh token where the answer brings none.
pub open spec fn renewed(refresh_token: Seq<char>, granted: TokenView) -> TokenView {
    TokenView {
        refresh_token: match granted.refresh_token {
            Some(rotated) => Some(rotated),
            None => Some(refresh_token),
        },
        ..granted
    }
}

/// The state that follows `state` on `event`.
///
/// A failure while authorizing, renewing or saving ends the run. An event
/// that the state does not wait for changes nothing.
pub open spec fn next_state(state: StateView, event: EventView) -> StateView {
    match (state, event) {
        (StateView::Loading, EventView::CacheLoaded { cached, now }) => after_load(cached, now),
        (StateView::Authorizing, EventView::Granted { token }) => StateView::Saving { token },
        (StateView::Authorizing, EventView::Failed) => StateView::Failed,
        (StateView::Refreshing { refresh_token }, EventView::Granted { token }) => StateView::Saving {
            token: renewed(refresh_token, token),
        },
        (StateView::Refreshing { .. }, EventView::Failed) => StateView::Failed,
        (StateView::Saving { token }, EventView::Saved) => StateView::Ready { token },
        (StateView::Saving { .. }, EventView::Failed) => StateView::Failed,
        _ => state,
    }
}

/// What a state waits for.
pub open spec fn pending_action(state: StateView) -> ActionView {
    match state {
        StateView::Loading => ActionView::LoadCache,
        StateView::Authorizing => ActionView::Authorize,
        StateView::Refreshing { refresh_token } => ActionView::Refresh { refresh_token },
        StateView::Saving { token } => ActionView::Save { token },
        StateView::Ready { token } => ActionView::Proceed { token },
        StateView::Failed => ActionView::Abort,
    }
}

/// What the program around the manager reports back.
#[derive(Clone, Debug, PartialEq, Eq)]
pub enum SessionEvent {
    /// The cache was read at the time `now`, in seconds since the Unix
    /// epoch; `cached` is what it held, `None` where the file is missing or
    /// cannot be read as a token.
    CacheLoaded { cached: Option<CachedToken>, now: i64 },
    /// The service granted `token`, on authorization or on renewal.
    Granted { token: CachedToken },
    /// The token was written to the cache.
    Saved,
    /// What the manager waited for did not come about: the user did not
    /// authorize, the service refused or could not be reached, or the token
    /// could not be written.
    Failed,
}

impl View for SessionEvent {
    type V = EventView;

    open spec fn view(&self) -> EventView {
        match self {
            SessionEvent::CacheLoaded { cached, now } => EventView::CacheLoaded {
                cached: cached.deep_view(),
                now: *now as int,
            },
            SessionEvent::Granted { token } => EventView::Granted { token: token@ },
            SessionEvent::Saved => EventView::Saved,
            SessionEvent::Failed => EventView::Failed,
        }
    }
}

/// What the manager waits for; the program around it does this next.
#[derive(Clone, Copy, Debug, PartialEq, Eq)]
pub enum SessionAction<'a> {
    /// Read the token cache and report `CacheLoaded`.
    LoadCache,
    /// Send the user to authorize, exchange the code for a token and report
    /// `Granted`.
    Authorize,
    /// Ask the service for a new access token with `refresh_token` and
    /// report `Granted`.
    Refresh { refresh_token: &'a String },
    /// Write `token` to the cache and report `Saved`.
    Save { token: &'a CachedToken },
    /// Go on to the command with `token`.
    Proceed { token: &'a CachedToken },
    /// Give up with an authentication error.
    Abort,
}

impl<'a> View for SessionAction<'a> {
    type V = ActionView;

    open spec fn view(&self) -> ActionView {
        match self {
            SessionAction::LoadCache => ActionView::LoadCache,
            SessionAction::Authorize => ActionView::Authorize,
            SessionAction::Refresh { refresh_token } => ActionView::Refresh {
                refresh_token: refresh_token@,
            },
            SessionAction::Save { token } => ActionView::Save { token: token@ },
            SessionAction::Proceed { token } => ActionView::Proceed { token: token@ },
            SessionAction::Abort => ActionView::Abort,
        }
    }
}

#[derive(Clone, Debug, PartialEq, Eq)]
enum SessionState {
    Loading,
    Authorizing,
    Refreshing { refresh_token: String },
    Saving { token: CachedToken },
    Ready { token: CachedToken },
    Failed,
}

impl View for SessionState {
    type V = StateView;

    closed spec fn view(&self) -> StateView {
        match self {
            SessionState::Loading => StateView::Loading,
            SessionState::Authorizing => StateView::Authorizing,
            SessionState::Refreshing { refresh_token } => StateView::Refreshing {
                refresh_token: refresh_token@,
            },
            SessionState::Saving { token } => StateView::Saving { token: token@ },
            SessionState::Ready { token } => StateView::Ready { token: token@ },
            SessionState::Failed => StateView::Failed,
        }
    }
}

/// The one owner of a run's token.
///
/// A manager starts out waiting for the cache, and hands out a token only
/// once it is ready: after a cached token was found good, or after a new
/// one was granted and saved.
#[derive(Clone, Debug, PartialEq, Eq)]
pub struct SessionManager {
    state: SessionState,
}

impl View for SessionManager {
    type V = StateView;

    closed spec fn view(&self) -> StateView {
        self.state@
    }
}

/// The state that a token read from the cache at `now` leads to.
fn state_after_load(token: Option<CachedToken>, now: i64) -> (state: SessionState)
    ensures
        state@ == after_load(token.deep_view(), now as int),
{
    match token {
        None => SessionState::Authorizing,
        Some(t) => {
            let required = required_scopes();
            if !t.covers(&required) {
                SessionState::Authorizing
            } else if !t.is_expired(now) {
                SessionState::Ready { token: t }
            } else {
                match t.refresh_token {
                    Some(refresh_token) => SessionState::Refreshing { refresh_token },
                    None => SessionState::Authorizing,
                }
            }
        },
    }
}

/// The token to keep after a renewal.
fn renew(refresh_token: String, granted: CachedToken) -> (token: CachedToken)
    ensures
        token@ == renewed(refresh_token@, granted@),
{
    let CachedToken { access_token, refresh_token: rotated, expires_at, granted_scopes } = granted;
    let kept = match rotated {
        Some(r) => Some(r),
        None => Some(refresh_token),
    };
    CachedToken { access_token, refresh_token: kept, expires_at, granted_scopes }
}

impl SessionManager {
    /// A manager at the start of a run.
    pub fn new() -> (manager: SessionManager)
        ensures
            manager@ == StateView::Loading,
            manager@.pending() == ActionView::LoadCache,
    {
        SessionManager { state: SessionState::Loading }
    }

    /// What the manager waits for.
    pub fn pending(&self) -> (action: SessionAction<'_>)
        ensures
            action@ == pending_action(self@),
    {
        match &self.state {
            SessionState::Loading => SessionAction::LoadCache,
            SessionState::Authorizing => SessionAction::Authorize,
            SessionState::Refreshing { refresh_token } => SessionAction::Refresh { refresh_token },
            SessionState::Saving { token } => SessionAction::Save { token },
            SessionState::Ready { token } => SessionAction::Proceed { token },
            SessionState::Failed => SessionAction::Abort,
        }
    }

    /// The manager after `event`.
    pub fn step(self, event: SessionEvent) -> (next: SessionManager)
        ensures
            next@ == next_state(self@, event@),
    {
        let state = match (self.state, event) {
            (SessionState::Loading, SessionEvent::CacheLoaded { cached, now }) => state_after_load(
                cached,
                now,
            ),
            (SessionState::Authorizing, SessionEvent::Granted { token }) => SessionState::Saving {
                token,
            },
            (SessionState::Authorizing, SessionEvent::Failed) => SessionState::Failed,
            (
                SessionState::Refreshing { refresh_token },
                SessionEvent::Granted { token },
            ) => SessionState::Saving { token: renew(refresh_token, token) },
            (SessionState::Refreshing { .. }, SessionEvent::Failed) => SessionState::Failed,
            (SessionState::Saving { token }, SessionEvent::Saved) => SessionState::Ready { token },
            (SessionState::Saving { .. }, SessionEvent::Failed) => SessionState::Failed,
            (state, _) => state,
        };
        SessionManager { state }
    }

    /// The token of a manager that is ready, and `None` of any other.
    pub fn token(&self) -> (token: Option<&CachedToken>)
        ensures
            token.deep_view() == self@.ready_token(),
    {
        match &self.state {
            SessionState::Ready { token } => Some(token),
            _ => None,
        }
    }

    /// The error of a manager that has failed, and `None` of any other.
    pub fn failure(&self) -> (error: Option<ControlError>)
        ensures
            error == self@.failure(),
    {
        match &self.state {
            SessionState::Failed => Some(ControlError::Authentication),
            _ => None,
        }
    }
}

/// The state that `events`, taken in their order, lead to from `state`.
pub open spec fn run(state: StateView, events: Seq<EventView>) -> StateView
    decreases events.len(),
{
    if events.len() == 0 {
        state
    } else {
        run(next_state(state, events[0]), events.drop_first())
    }
}

/// Once a manager is ready or has failed, no events change that.
pub proof fn law_final_state_stays(state: StateView, events: Seq<EventView>)
    requires
        state.is_final(),
    ensures
        run(state, events) == state,
    decreases events.len(),
{
    if events.len() > 0 {
        law_final_state_stays(state, events.drop_first());
    }
}

proof fn lemma_run_one(state: StateView, first: EventView, later: Seq<EventView>)
    ensures
        run(state, seq![first] + later) == run(next_state(state, first), later),
{
    assert((seq![first] + later).drop_first() =~= later);
}

proof fn lemma_run_three(
    state: StateView,
    first: EventView,
    second: EventView,
    third: EventView,
    later: Seq<EventView>,
)
    ensures
        run(state, seq![first, second, third] + later) == run(
            next_state(next_state(next_state(state, first), second), third),
            later,
        ),
{
    let after_first = seq![second] + (seq![third] + later);
    assert(seq![first, second, third] + later =~= seq![first] + after_first);
    lemma_run_one(state, first, after_first);
    lemma_run_one(next_state(state, first), second, seq![third] + later);
    lemma_run_one(next_state(next_state(state, first), second), third, later);
}

/// A cached token that covers the required scopes and has not expired is
/// used as it is: the manager is ready at once and stays so whatever is
/// reported later, so it never asks for authorization or renewal.
pub proof fn law_good_token_is_used(token: TokenView, now: int, later: Seq<EventView>)
    requires
        token.covers(required_scope_names()),
        !token.is_expired(now),
    ensures
        next_state(StateView::Loading, EventView::CacheLoaded { cached: Some(token), now })
            == (StateView::Ready { token }),
        run(StateView::Loading, seq![EventView::CacheLoaded { cached: Some(token), now }] + later)
            == (StateView::Ready { token }),
        (StateView::Ready { token }).pending() == (ActionView::Proceed { token }),
{
    lemma_run_one(
        StateView::Loading,
        EventView::CacheLoaded { cached: Some(token), now },
        later,
    );
    law_final_state_stays(StateView::Ready { token }, later);
}

/// A cached token that covers the required scopes, has expired and brings a
/// refresh token is renewed: the manager asks for a renewal with that
/// refresh token, saves what the service grants, and is then ready with it.
/// It does not ask the user to authorize.
pub proof fn law_expired_token_is_renewed(
    token: TokenView,
    now: int,
    granted: TokenView,
    later: Seq<EventView>,
)
    requires
        token.covers(required_scope_names()),
        token.is_expired(now),
        token.refresh_token is Some,
    ensures
        ({
            let refresh_token = token.refresh_token->0;
            let kept = renewed(refresh_token, granted);
            let loaded = EventView::CacheLoaded { cached: Some(token), now };
            let answered = EventView::Granted { token: granted };
            let renewing = next_state(StateView::Loading, loaded);
            let saving = next_state(renewing, answered);
            &&& renewing == (StateView::Refreshing { refresh_token })
            &&& renewing.pending() == (ActionView::Refresh { refresh_token })
            &&& saving == (StateView::Saving { token: kept })
            &&& saving.pending() == (ActionView::Save { token: kept })
            &&& next_state(saving, EventView::Saved) == (StateView::Ready { token: kept })
            &&& run(StateView::Loading, seq![loaded, answered, EventView::Saved] + later)
                == (StateView::Ready { token: kept })
        }),
{
    let kept = renewed(token.refresh_token->0, granted);
    lemma_run_three(
        StateView::Loading,
        EventView::CacheLoaded { cached: Some(token), now },
        EventView::Granted { token: granted },
        EventView::Saved,
        later,
    );
    law_final_state_stays(StateView::Ready { token: kept }, later);
}

/// Without a cached token the user is asked to authorize. What the service
/// then grants is saved first, and only once it is saved is the manager
/// ready with it: until then it hands out no token.
pub proof fn law_missing_token_is_authorized(now: int, granted: TokenView, later: Seq<EventView>)
    ensures
        ({
            let loaded = EventView::CacheLoaded { cached: None, now };
            let answered = EventView::Granted { token: granted };
            let authorizing = next_state(StateView::Loading, loaded);
            let saving = next_state(authorizing, answered);
            &&& authorizing == StateView::Authorizing
            &&& authorizing.pending() == ActionView::Authorize
            &&& authorizing.ready_token() is None
            &&& saving == (StateView::Saving { token: granted })
            &&& saving.pending() == (ActionView::Save { token: granted })
            &&& saving.ready_token() is None
            &&& next_state(saving, EventView::Saved) == (StateView::Ready { token: granted })
            &&& run(StateView::Loading, seq![loaded, answered, EventView::Saved] + later)
                == (StateView::Ready { token: granted })
        }),
{
    lemma_run_three(
        StateView::Loading,
        EventView::CacheLoaded { cached: None, now },
        EventView::Granted { token: granted },
        EventView::Saved,
        later,
    );
    law_final_state_stays(StateView::Ready { token: granted }, later);
}

/// A cached token that cannot serve leads to a new authorization, and one
/// that can serve never does.
pub proof fn law_authorization_replaces_unusable_tokens(token: TokenView, now: int)
    ensures
        after_load(Some(token), now) is Authorizing <==> !token.is_usable(
            required_scope_names(),
            now,
        ),
{
}

/// A failure while the manager waits for authorization, renewal or saving
/// ends the run with an authentication error, and nothing that is reported
/// later brings it back.
pub proof fn law_failure_is_final(state: StateView, later: Seq<EventView>)
    requires
        state is Authorizing || state is Refreshing || state is Saving,
    ensures
        next_state(state, EventView::Failed) == StateView::Failed,
        run(state, seq![EventView::Failed] + later) == StateView::Failed,
        StateView::Failed.failure() == Some(ControlError::Authentication),
        StateView::Failed.pending() == ActionView::Abort,
{
    lemma_run_one(state, EventView::Failed, later);
    law_final_state_stays(StateView::Failed, later);
}

/// The kept token of a renewal always brings a refresh token: the one that
/// the service sent, or else the one that was used to ask.
pub proof fn law_renewal_keeps_a_refresh_token(refresh_token: Seq<char>, granted: TokenView)
    ensures
        renewed(refresh_token, granted).refresh_token == Some(
            match granted.refresh_token {
                Some(rotated) => rotated,
                None => refresh_token,
            },
        ),
        renewed(refresh_token, granted).access_token == granted.access_token,
        renewed(refresh_token, granted).expires_at == granted.expires_at,
        renewed(refresh_token, granted).granted_scopes == granted.granted_scopes,
{
}

impl StateView {
    /// What the state waits for.
    pub open spec fn pending(self) -> ActionView {
        pending_action(self)
    }

    /// The token of the state `Ready`, and `None` of any other.
    pub open spec fn ready_token(self) -> Option<TokenView> {
        match self {
            StateView::Ready { token } => Some(token),
            _ => None,
        }
    }

    /// The error of the state `Failed`, which is always one of
    /// authentication, and `None` of any other.
    pub open spec fn failure(self) -> Option<ControlError> {
        match self {
            StateView::Failed => Some(ControlError::Authentication),
            _ => None,
        }
    }

    /// Whether no event changes the state any more.
    pub open spec fn is_final(self) -> bool {
        self is Ready || self is Failed
    }
}

} // verus!
