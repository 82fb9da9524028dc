use gitlit::store::{token_from_contents, MemoryTokenStore, TokenStore};

#[test]
fn token_path_sanitizes_identity() {
    let store = TokenStore::in_dir("/cfg/tokens");
    assert_eq!(
        store.token_path("https://api.example.com:8080/x"),
        "/cfg/tokens/https___api_example_com_8080_x.token"
    );
}

#[test]
fn token_path_joins_like_a_path() {
    assert_eq!(TokenStore::in_dir("/cfg/").token_path("h"), "/cfg/h.token");
    assert_eq!(TokenStore::in_dir("").token_path("h"), "h.token");
}

#[test]
fn store_lies_under_config_dir() {
    let s = TokenStore::under_config_dir(Some("/home/u/.config/gitlit-cli".to_string())).unwrap();
    assert_eq!(s.path, "/home/u/.config/gitlit-cli/tokens");
    let s = TokenStore::under_config_dir(Some("/c/".to_string())).unwrap();
    assert_eq!(s.path, "/c/tokens");
    assert!(matches!(TokenStore::under_config_dir(None), Err(gitlit::error::GitLitError::Io(_))));
}

#[test]
fn token_path_keeps_letters_and_digits() {
    let store = TokenStore::in_dir("d");
    assert_eq!(store.token_path("abcXYZ019"), "d/abcXYZ019.token");
    assert_eq!(store.token_path(""), "d/.token");
    assert_eq!(store.token_path("é-"), "d/__.token");
}

#[test]
fn contents_are_trimmed() {
    assert_eq!(token_from_contents("  abc \n"), Some("abc".to_string()));
    assert_eq!(token_from_contents("\u{3000}a b\u{a0}"), Some("a b".to_string()));
    assert_eq!(token_from_contents("tok"), Some("tok".to_string()));
}

#[test]
fn blank_contents_hold_no_token() {
    assert_eq!(token_from_contents(""), None);
    assert_eq!(token_from_contents(" \t\r\n "), None);
}

#[test]
fn save_then_load_round_trips() {
    let mut store = MemoryTokenStore::new("/cfg");
    store.save("https://a.example", &"secret-1".to_string());
    assert_eq!(store.load("https://a.example"), Some("secret-1".to_string()));
    store.save("https://a.example", &"secret-2".to_string());
    assert_eq!(store.load("https://a.example"), Some("secret-2".to_string()));
}

#[test]
fn load_trims_surrounding_white_space() {
    let mut store = MemoryTokenStore::new("/cfg");
    store.save("h", &"  tok\n".to_string());
    assert_eq!(store.load("h"), Some("tok".to_string()));
    store.save("h", &"   ".to_string());
    assert_eq!(store.load("h"), None);
}

#[test]
fn load_without_save_is_absent() {
    let store = MemoryTokenStore::new("/cfg");
    assert_eq!(store.load("https://a.example"), None);
}

#[test]
fn delete_then_load_is_absent() {
    let mut store = MemoryTokenStore::new("/cfg");
    store.save("h1", &"one".to_string());
    store.save("h2", &"two".to_string());
    store.delete("h1");
    assert_eq!(store.load("h1"), None);
    assert_eq!(store.load("h2"), Some("two".to_string()));
    store.delete("h1");
    assert_eq!(store.load("h1"), None);
}

#[test]
fn identities_that_sanitize_alike_share_a_token() {
    let mut store = MemoryTokenStore::new("/cfg");
    store.save("a.b", &"x".to_string());
    assert_eq!(store.load("a/b"), Some("x".to_string()));
}
