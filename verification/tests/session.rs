use spotifyctl::error::ControlError;
use spotifyctl::session::{SessionAction, SessionEvent, SessionManager};
use spotifyctl::token::CachedToken;

fn token(access: &str, expires_at: i64, refresh: Option<&str>) -> CachedToken {
    CachedToken {
        access_token: access.to_string(),
        refresh_token: refresh.map(|r| r.to_string()),
        expires_at,
        granted_scopes: vec![
            "user-modify-playback-state".to_string(),
            "user-read-playback-state".to_string(),
        ],
    }
}

fn loaded(cached: Option<CachedToken>, now: i64) -> SessionManager {
    SessionManager::new().step(SessionEvent::CacheLoaded { cached, now })
}

#[test]
fn a_manager_starts_by_asking_for_the_cache() {
    let m = SessionManager::new();
    assert_eq!(m.pending(), SessionAction::LoadCache);
    assert_eq!(m.token(), None);
    assert_eq!(m.failure(), None);
}

#[test]
fn a_good_cached_token_is_used_as_it_is() {
    let t = token("a", 1_000, Some("r"));
    let m = loaded(Some(t.clone()), 100);
    assert_eq!(m.pending(), SessionAction::Proceed { token: &t });
    assert_eq!(m.token(), Some(&t));
    let t = token("a", 1_000, None);
    let m = loaded(Some(t.clone()), 989);
    assert_eq!(m.pending(), SessionAction::Proceed { token: &t });
}

#[test]
fn a_ready_manager_stays_ready() {
    let t = token("a", 1_000, Some("r"));
    let mut m = loaded(Some(t.clone()), 100);
    for event in [
        SessionEvent::Failed,
        SessionEvent::Saved,
        SessionEvent::Granted { token: token("other", 5, None) },
        SessionEvent::CacheLoaded { cached: None, now: 5_000 },
    ] {
        m = m.step(event);
        assert_eq!(m.pending(), SessionAction::Proceed { token: &t });
    }
}

#[test]
fn without_a_cached_token_the_user_authorizes_and_the_token_is_saved_first() {
    let m = loaded(None, 100);
    assert_eq!(m.pending(), SessionAction::Authorize);
    assert_eq!(m.token(), None);
    let granted = token("new", 4_000, Some("r"));
    let m = m.step(SessionEvent::Granted { token: granted.clone() });
    assert_eq!(m.pending(), SessionAction::Save { token: &granted });
    assert_eq!(m.token(), None);
    let m = m.step(SessionEvent::Saved);
    assert_eq!(m.pending(), SessionAction::Proceed { token: &granted });
    assert_eq!(m.token(), Some(&granted));
    assert_eq!(m.failure(), None);
}

#[test]
fn a_token_that_lacks_a_scope_is_replaced() {
    let mut t = token("a", 1_000, Some("r"));
    t.granted_scopes.pop();
    assert_eq!(loaded(Some(t.clone()), 100).pending(), SessionAction::Authorize);
    assert_eq!(loaded(Some(t), 5_000).pending(), SessionAction::Authorize);
}

#[test]
fn an_expired_token_is_renewed_with_its_refresh_token() {
    let refresh = "r".to_string();
    for now in [990, 1_000, 5_000] {
        let m = loaded(Some(token("old", 1_000, Some("r"))), now);
        assert_eq!(m.pending(), SessionAction::Refresh { refresh_token: &refresh });
        assert_eq!(m.token(), None);
    }
}

#[test]
fn a_renewal_keeps_the_old_refresh_token_where_none_is_sent() {
    let m = loaded(Some(token("old", 1_000, Some("r"))), 5_000);
    let m = m.step(SessionEvent::Granted { token: token("new", 9_000, None) });
    let kept = token("new", 9_000, Some("r"));
    assert_eq!(m.pending(), SessionAction::Save { token: &kept });
    let m = m.step(SessionEvent::Saved);
    assert_eq!(m.token(), Some(&kept));
}

#[test]
fn a_renewal_takes_the_refresh_token_that_is_sent() {
    let m = loaded(Some(token("old", 1_000, Some("r"))), 5_000);
    let m = m.step(SessionEvent::Granted { token: token("new", 9_000, Some("rotated")) });
    let kept = token("new", 9_000, Some("rotated"));
    assert_eq!(m.pending(), SessionAction::Save { token: &kept });
    let m = m.step(SessionEvent::Saved);
    assert_eq!(m.pending(), SessionAction::Proceed { token: &kept });
}

#[test]
fn an_expired_token_without_refresh_token_is_replaced() {
    let m = loaded(Some(token("old", 1_000, None)), 5_000);
    assert_eq!(m.pending(), SessionAction::Authorize);
}

#[test]
fn a_failure_ends_the_run_with_an_authentication_error() {
    let waiting = [
        loaded(None, 0),
        loaded(Some(token("old", 1_000, Some("r"))), 5_000),
        loaded(None, 0).step(SessionEvent::Granted { token: token("new", 1, None) }),
    ];
    for m in waiting {
        let m = m.step(SessionEvent::Failed);
        assert_eq!(m.pending(), SessionAction::Abort);
        assert_eq!(m.failure(), Some(ControlError::Authentication));
        assert_eq!(m.token(), None);
        let m = m.step(SessionEvent::Granted { token: token("late", 9_000, None) });
        assert_eq!(m.pending(), SessionAction::Abort);
        let m = m.step(SessionEvent::Saved);
        assert_eq!(m.failure(), Some(ControlError::Authentication));
    }
}

#[test]
fn an_event_that_is_not_waited_for_changes_nothing() {
    let m = SessionManager::new();
    for event in [
        SessionEvent::Saved,
        SessionEvent::Failed,
        SessionEvent::Granted { token: token("a", 1, None) },
    ] {
        assert_eq!(m.clone().step(event), m);
    }
    let m = loaded(None, 0);
    for event in [SessionEvent::Saved, SessionEvent::CacheLoaded { cached: None, now: 0 }] {
        assert_eq!(m.clone().step(event), m);
    }
    let m = loaded(None, 0).step(SessionEvent::Granted { token: token("new", 1, None) });
    for event in [
        SessionEvent::Granted { token: token("b", 2, None) },
        SessionEvent::CacheLoaded { cached: None, now: 0 },
    ] {
        assert_eq!(m.clone().step(event), m);
    }
}
