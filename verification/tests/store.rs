use spotifyctl::store::{decode, encode, load};
use spotifyctl::token::CachedToken;

fn token() -> CachedToken {
    CachedToken {
        access_token: "abcde".to_string(),
        refresh_token: Some("xyz".to_string()),
        expires_at: 1_700_000_000,
        granted_scopes: vec![
            "user-read-playback-state".to_string(),
            "user-modify-playback-state".to_string(),
        ],
    }
}

#[test]
fn a_token_is_kept_in_the_documented_layout() {
    let expected = "+00000000001700000000\
                    00000000000000000005abcde\
                    +00000000000000000003xyz\
                    00000000000000000002\
                    00000000000000000024user-read-playback-state\
                    00000000000000000026user-modify-playback-state";
    assert_eq!(encode(&token()), expected);
}

#[test]
fn loading_a_saved_token_gives_it_back() {
    let saved = encode(&token());
    assert_eq!(decode(&saved), Some(token()));
    assert_eq!(load(Some(&saved)), Some(token()));
}

#[test]
fn a_token_without_refresh_token_or_scopes_round_trips() {
    let bare = CachedToken {
        access_token: String::new(),
        refresh_token: None,
        expires_at: 0,
        granted_scopes: vec![],
    };
    let saved = encode(&bare);
    assert_eq!(saved, "+0000000000000000000000000000000000000000-00000000000000000000");
    assert_eq!(decode(&saved), Some(bare));
}

#[test]
fn the_extremes_of_the_expiry_round_trip() {
    for expires_at in [i64::MIN, -1, 0, 1, i64::MAX] {
        let t = CachedToken { expires_at, ..token() };
        assert_eq!(decode(&encode(&t)), Some(t));
    }
    let low = CachedToken { expires_at: i64::MIN, ..token() };
    assert!(encode(&low).starts_with("-09223372036854775808"));
}

#[test]
fn strings_of_any_characters_round_trip() {
    let t = CachedToken {
        access_token: "line\nbreak +- 0123 \u{e9}\u{1F3B5}".to_string(),
        refresh_token: Some("-".to_string()),
        expires_at: -5,
        granted_scopes: vec!["".to_string(), "+".to_string(), "a b".to_string()],
    };
    assert_eq!(decode(&encode(&t)), Some(t));
}

#[test]
fn a_missing_file_holds_no_token() {
    assert_eq!(load(None), None);
}

#[test]
fn a_malformed_file_holds_no_token() {
    assert_eq!(decode(""), None);
    assert_eq!(decode("{\"access_token\":\"abc\"}"), None);
    assert_eq!(load(Some("not a token")), None);
    let saved = encode(&token());
    // one character too few, one too many
    assert_eq!(decode(&saved[..saved.len() - 1]), None);
    assert_eq!(decode(&format!("{}x", saved)), None);
    // a sign that is neither plus nor minus
    assert_eq!(decode(&format!("*{}", &saved[1..])), None);
    // minus zero is not how zero is written
    assert_eq!(decode("-0000000000000000000000000000000000000000-00000000000000000000"), None);
    // an expiry beyond the range
    assert_eq!(decode("+0922337203685477580800000000000000000000-00000000000000000000"), None);
    // a length that runs past the end
    assert_eq!(decode("+0000000000000000000000000000000000000009-00000000000000000000"), None);
    // a count of scopes that are not there
    assert_eq!(decode("+0000000000000000000000000000000000000000-00000000000000000001"), None);
    assert_eq!(decode("+0000000000000000000000000000000000000000-99999999999999999999"), None);
}
