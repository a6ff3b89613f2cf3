//! The access token that is kept between runs, and when it still serves.

use vstd::prelude::*;
use vstd::string::StringExecFns;

verus! {

/// How many seconds before its expiry a token already counts as expired, so
/// that a call made with it has time to arrive.
pub const EXPIRY_MARGIN_SECONDS: i64 = 10;

/// An access token with what is needed to judge and renew it. It is the
/// only state that outlives a run.
#[derive(Clone, Debug, PartialEq, Eq)]
pub struct CachedToken {
    /// The credential that authorizes calls.
    pub access_token: String,
    /// The credential that obtains a new access token, if one was given.
    pub refresh_token: Option<String>,
    /// When the access token expires, in seconds since the Unix epoch.
    pub expires_at: i64,
    /// The scopes that were granted. The order carries no meaning, and a
    /// scope listed twice counts once.
    pub granted_scopes: Vec<String>,
}

/// A cached token as a mathematical value.
pub struct TokenView {
    pub access_token: Seq<char>,
    pub refresh_token: Option<Seq<char>>,
    pub expires_at: i64,
    pub granted_scopes: Seq<Seq<char>>,
}

impl View for CachedToken {
    type V = TokenView;

    open spec fn view(&self) -> TokenView {
        TokenView {
            access_token: self.access_token@,
            refresh_token: self.refresh_token.deep_view(),
            expires_at: self.expires_at,
            granted_scopes: self.granted_scopes.deep_view(),
        }
    }
}

impl DeepView for CachedToken {
    type V = TokenView;

    open spec fn deep_view(&self) -> TokenView {
        self@
    }
}

/// The scopes that the playback commands need: one to read the player's
/// state and one to change it.
pub open spec fn required_scope_names() -> Seq<Seq<char>> {
    seq!["user-read-playback-state"@, "user-modify-playback-state"@]
}

/// Whether every scope of `required` is among `granted`.
pub open spec fn covers(granted: Seq<Seq<char>>, required: Seq<Seq<char>>) -> bool {
    required.to_set().subset_of(granted.to_set())
}

/// Whether a token that expires at `expires_at` counts as expired at `now`:
/// the expiry has passed or is no more than the margin away.
pub open spec fn expired_at(expires_at: int, now: int) -> bool {
    now + EXPIRY_MARGIN_SECONDS >= expires_at
}

impl TokenView {
    /// Whether the token was granted every scope of `required`.
    pub open spec fn covers(self, required: Seq<Seq<char>>) -> bool {
        covers(self.granted_scopes, required)
    }

    /// Whether the token counts as expired at `now`.
    pub open spec fn is_expired(self, now: int) -> bool {
        expired_at(self.expires_at as int, now)
    }

    /// Whether the token can serve at `now`: it covers `required`, and it
    /// either has not expired or can be renewed with its refresh token.
    pub open spec fn is_usable(self, required: Seq<Seq<char>>, now: int) -> bool {
        self.covers(required) && (!self.is_expired(now) || self.refresh_token is Some)
    }
}

/// The scopes that the playback commands need.
pub fn required_scopes() -> (scopes: Vec<String>)
    ensures
        scopes.deep_view() == required_scope_names(),
{
    let mut scopes: Vec<String> = Vec::new();
    scopes.push(String::from_str("user-read-playback-state"));
    scopes.push(String::from_str("user-modify-playback-state"));
    scopes
}

/// Whether `scope` is one of `scopes`.
pub fn has_scope(scopes: &Vec<String>, scope: &String) -> (found: bool)
    ensures
        found == scopes.deep_view().contains(scope@),
{
    let mut i: usize = 0;
    while i < scopes.len()
        invariant
            i <= scopes.len(),
            forall|j: int| 0 <= j < i ==> scopes.deep_view()[j] != scope@,
        decreases scopes.len() - i,
    {
        if scopes[i].eq(scope) {
            assert(scopes.deep_view()[i as int] == scope@);
            return true;
        }
        i += 1;
    }
    false
}

impl CachedToken {
    /// Whether the token was granted every scope of `required`.
    pub fn covers(&self, required: &Vec<String>) -> (all: bool)
        ensures
            all == self@.covers(required.deep_view()),
    {
        let mut i: usize = 0;
        while i < required.len()
            invariant
                i <= required.len(),
                forall|j: int|
                    0 <= j < i ==> self.granted_scopes.deep_view().contains(
                        #[trigger] required.deep_view()[j],
                    ),
            decreases required.len() - i,
        {
            if !has_scope(&self.granted_scopes, &required[i]) {
                proof {
                    let missing = required.deep_view()[i as int];
                    assert(required.deep_view().to_set().contains(missing));
                }
                return false;
            }
            i += 1;
        }
        true
    }

    /// Whether the token counts as expired at `now`, given in seconds since
    /// the Unix epoch.
    pub fn is_expired(&self, now: i64) -> (expired: bool)
        ensures
            expired == self@.is_expired(now as int),
    {
        now as i128 + EXPIRY_MARGIN_SECONDS as i128 >= self.expires_at as i128
    }

    /// Whether the token can serve at `now`.
    pub fn is_usable(&self, required: &Vec<String>, now: i64) -> (usable: bool)
        ensures
            usable == self@.is_usable(required.deep_view(), now as int),
    {
        self.covers(required) && (!self.is_expired(now) || self.refresh_token.is_some())
    }
}

} // verus!
