use identity_client::clock::LATEST_SECOND;
use identity_client::session::SessionManager;
use identity_client::types::TokenResponse;

fn tokens(access: &str, refresh: &str, expires_in: i64) -> TokenResponse {
    TokenResponse {
        access_token: access.to_string(),
        refresh_token: refresh.to_string(),
        expires_in,
    }
}

#[test]
fn new_session_without_token_is_empty() {
    let session = SessionManager::new(None);
    assert_eq!(session.get_access_token(), None);
    assert_eq!(session.get_refresh_token(), None);
    assert_eq!(session.get_expires_at(), None);
    assert!(!session.is_authenticated());
}

#[test]
fn default_session_is_empty() {
    let session = SessionManager::default();
    assert_eq!(session.get_access_token(), None);
    assert_eq!(session.get_refresh_token(), None);
    assert_eq!(session.get_expires_at(), None);
    assert!(!session.is_authenticated_at(0));
}

#[test]
fn bare_token_is_held_but_not_authenticated() {
    let session = SessionManager::new(Some("bare".to_string()));
    assert!(!session.is_authenticated());
    assert_eq!(session.get_access_token(), Some("bare".to_string()));
    assert_eq!(session.get_refresh_token(), None);
    assert_eq!(session.get_expires_at(), None);
    assert!(!session.is_authenticated_at(i64::MIN));
    assert!(!session.is_authenticated_at(0));
    assert!(!session.is_authenticated_at(i64::MAX));
}

#[test]
fn set_tokens_then_is_authenticated() {
    let mut session = SessionManager::new(None);
    session.set_tokens(tokens("a", "r", 3600));
    assert!(session.is_authenticated());
    assert_eq!(session.get_access_token(), Some("a".to_string()));
    assert_eq!(session.get_refresh_token(), Some("r".to_string()));
}

#[test]
fn set_tokens_reads_the_wall_clock() {
    let mut session = SessionManager::new(None);
    session.set_tokens(tokens("a", "r", 3600));
    let expires_at = session.get_expires_at().expect("an expiry is set");
    let written_at = expires_at - 3600;
    assert!(written_at >= 0);
    assert!(written_at <= LATEST_SECOND);
    // Any working clock is past the year 2001 by now.
    assert!(written_at > 1_000_000_000);
    assert!(session.is_authenticated_at(written_at));
    assert!(!session.is_authenticated_at(expires_at));
}

#[test]
fn expiry_is_write_time_plus_lifetime() {
    let mut session = SessionManager::new(None);
    session.set_tokens_at(tokens("a", "r", 3600), 1_700_000_000);
    assert_eq!(session.get_expires_at(), Some(1_700_003_600));
    session.set_tokens_at(tokens("a", "r", 0), 5);
    assert_eq!(session.get_expires_at(), Some(5));
    session.set_tokens_at(tokens("a", "r", -10), 100);
    assert_eq!(session.get_expires_at(), Some(90));
    session.set_tokens_at(tokens("a", "r", i64::MAX), 0);
    assert_eq!(session.get_expires_at(), Some(i64::MAX));
    session.set_tokens_at(tokens("a", "r", i64::MIN), 0);
    assert_eq!(session.get_expires_at(), Some(i64::MIN));
}

#[test]
fn authenticated_strictly_before_expiry_only() {
    let mut session = SessionManager::new(None);
    let now = 1_700_000_000;
    session.set_tokens_at(tokens("a", "r", 3600), now);
    assert!(session.is_authenticated_at(now));
    assert!(session.is_authenticated_at(now + 3599));
    assert!(!session.is_authenticated_at(now + 3600));
    assert!(!session.is_authenticated_at(now + 3601));
    assert!(!session.is_authenticated_at(i64::MAX));
    assert!(session.is_authenticated_at(i64::MIN));
}

#[test]
fn lifetime_of_zero_or_less_is_never_authenticated_from_the_write_on() {
    let mut session = SessionManager::new(None);
    session.set_tokens_at(tokens("a", "r", 0), 1000);
    assert!(!session.is_authenticated_at(1000));
    assert!(session.is_authenticated_at(999));
    session.set_tokens_at(tokens("a", "r", -1), 1000);
    assert!(!session.is_authenticated_at(1000));
    assert!(!session.is_authenticated_at(999));
    assert!(session.is_authenticated_at(998));
}

#[test]
fn expired_tokens_are_still_held() {
    let mut session = SessionManager::new(None);
    session.set_tokens_at(tokens("a", "r", 10), 0);
    assert!(!session.is_authenticated_at(11));
    assert_eq!(session.get_access_token(), Some("a".to_string()));
    assert_eq!(session.get_refresh_token(), Some("r".to_string()));
    assert_eq!(session.get_expires_at(), Some(10));
    // The clock of any machine that runs this is long past second 10.
    assert!(!session.is_authenticated());
}

#[test]
fn set_tokens_replaces_a_bare_token() {
    let mut session = SessionManager::new(Some("bare".to_string()));
    session.set_tokens_at(tokens("fresh", "again", 60), 10);
    assert_eq!(session.get_access_token(), Some("fresh".to_string()));
    assert_eq!(session.get_refresh_token(), Some("again".to_string()));
    assert_eq!(session.get_expires_at(), Some(70));
}

#[test]
fn token_contents_are_not_examined() {
    let mut session = SessionManager::new(Some(String::new()));
    assert_eq!(session.get_access_token(), Some(String::new()));
    session.set_tokens_at(tokens("", "", 1), 1);
    assert_eq!(session.get_access_token(), Some(String::new()));
    assert_eq!(session.get_refresh_token(), Some(String::new()));
    session.set_tokens_at(tokens("not a token\n", "\u{1F511}", 1), 1);
    assert_eq!(session.get_access_token(), Some("not a token\n".to_string()));
    assert_eq!(session.get_refresh_token(), Some("\u{1F511}".to_string()));
}

#[test]
fn clear_forgets_everything() {
    let mut session = SessionManager::new(None);
    session.set_tokens(tokens("a", "r", 3600));
    session.clear();
    assert_eq!(session.get_access_token(), None);
    assert_eq!(session.get_refresh_token(), None);
    assert_eq!(session.get_expires_at(), None);
    assert!(!session.is_authenticated());
    assert!(!session.is_authenticated_at(0));
}

#[test]
fn clear_after_any_prior_state() {
    let mut bare = SessionManager::new(Some("bare".to_string()));
    bare.clear();
    assert_eq!(bare.get_access_token(), None);
    assert!(!bare.is_authenticated());

    let mut empty = SessionManager::new(None);
    empty.clear();
    empty.clear();
    assert_eq!(empty.get_access_token(), None);
    assert_eq!(empty.get_refresh_token(), None);
    assert_eq!(empty.get_expires_at(), None);
    assert!(!empty.is_authenticated());

    let mut again = SessionManager::new(None);
    again.set_tokens_at(tokens("a", "r", 5), 5);
    again.clear();
    again.set_tokens_at(tokens("b", "s", 7), 7);
    assert_eq!(again.get_access_token(), Some("b".to_string()));
    assert_eq!(again.get_refresh_token(), Some("s".to_string()));
    assert_eq!(again.get_expires_at(), Some(14));
}

#[test]
fn writes_in_a_row_leave_the_triple_of_one_write() {
    let mut session = SessionManager::new(None);
    let n: i64 = 25;
    for i in 0..n {
        session.set_tokens_at(tokens(&format!("a{}", i), &format!("r{}", i), 100 + i), 1000 * i);
    }
    let access = session.get_access_token().expect("an access token is held");
    let index: i64 = access[1..].parse().expect("one of the written tokens");
    assert!((0..n).contains(&index));
    assert_eq!(session.get_refresh_token(), Some(format!("r{}", index)));
    assert_eq!(session.get_expires_at(), Some(1000 * index + 100 + index));
    assert_eq!(index, n - 1);
}

#[test]
fn clone_is_a_snapshot() {
    let mut session = SessionManager::new(None);
    session.set_tokens_at(tokens("a", "r", 10), 20);
    let snapshot = session.clone();
    session.clear();
    assert_eq!(snapshot.get_access_token(), Some("a".to_string()));
    assert_eq!(snapshot.get_refresh_token(), Some("r".to_string()));
    assert_eq!(snapshot.get_expires_at(), Some(30));
    assert_eq!(session.get_access_token(), None);
}
