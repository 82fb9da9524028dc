use gitlit::client::{bearer_token, failure, with_default_scheme, GitLitClient, Method};
use gitlit::error::GitLitError;
use gitlit::model::ContentResponse;
use gitlit::store::{MemoryTokenStore, TokenStore};

fn client() -> GitLitClient {
    GitLitClient::with_store("https://api.example.com/", TokenStore::in_dir("/cfg"))
}

fn pairs(v: &[(&str, &str)]) -> Vec<(String, String)> {
    v.iter().map(|(a, b)| (a.to_string(), b.to_string())).collect()
}

fn auth_text(e: GitLitError) -> String {
    match e {
        GitLitError::Auth(m) => m,
        other => panic!("expected an auth error, got {:?}", other),
    }
}

#[test]
fn scheme_is_added_where_missing() {
    assert_eq!(with_default_scheme("api.example.com"), "https://api.example.com");
    assert_eq!(with_default_scheme("http://h"), "http://h");
    assert_eq!(with_default_scheme("https://h"), "https://h");
    assert_eq!(with_default_scheme("httpx"), "https://httpx");
}

#[test]
fn base_url_loses_one_trailing_slash() {
    let c = client();
    assert_eq!(c.url(), "https://api.example.com");
    assert_eq!(c.host_key(), "https://api.example.com");
    let c = GitLitClient::with_store("https://h//", TokenStore::in_dir("d"));
    assert_eq!(c.url(), "https://h/");
    assert_eq!(c.token_path().unwrap(), "d/https___h_.token");
}

#[test]
fn scheme_then_client_identity() {
    let url = with_default_scheme("api.example.com");
    let c = GitLitClient::with_store(&url, TokenStore::in_dir("/cfg"));
    assert_eq!(c.host_key(), "https://api.example.com");
    assert_eq!(c.token_path().unwrap(), "/cfg/https___api_example_com.token");
}

#[test]
fn failure_names_operation_and_status() {
    assert_eq!(auth_text(failure("login", 401)), "login failed: 401");
    assert_eq!(auth_text(failure("x", 0)), "x failed: 0");
    assert_eq!(auth_text(failure("x", 65535)), "x failed: 65535");
}

#[test]
fn bearer_needs_a_non_empty_token() {
    assert!(matches!(bearer_token(None), Err(GitLitError::Unauthorized)));
    assert!(matches!(bearer_token(Some(String::new())), Err(GitLitError::Unauthorized)));
    assert_eq!(bearer_token(Some("t".to_string())).unwrap(), "t");
}

#[test]
fn login_request_shape() {
    let r = client().login_request("al\"ice", "pw");
    assert_eq!(r.method, Method::Post);
    assert_eq!(r.url, "https://api.example.com/api/v1/login");
    assert!(r.query.is_empty());
    assert_eq!(r.bearer, None);
    assert_eq!(r.body, Some(r#"{"login":"al\"ice","password":"pw"}"#.to_string()));
}

#[test]
fn login_response_reads_token() {
    assert_eq!(GitLitClient::login_response(200, r#"{"token":"abc"}"#).unwrap(), "abc");
    let e = GitLitClient::login_response(403, r#"{"token":"abc"}"#).unwrap_err();
    assert_eq!(auth_text(e), "login failed: 403");
}

#[test]
fn login_without_token_field_stores_nothing() {
    let c = client();
    let mut store = MemoryTokenStore::new("/cfg");
    let r = c.finish_login(&mut store, 200, r#"{"user":"alice"}"#);
    assert!(matches!(r, Err(GitLitError::Serde(_))));
    assert_eq!(store.load(&c.host_key()), None);
}

#[test]
fn login_stores_token_for_base_url() {
    let c = client();
    let mut store = MemoryTokenStore::new("/cfg");
    assert_eq!(c.finish_login(&mut store, 201, r#"{"token":"T1"}"#).unwrap(), "T1");
    assert_eq!(store.load("https://api.example.com"), Some("T1".to_string()));
    assert!(c.finish_login(&mut store, 500, r#"{"token":"T2"}"#).is_err());
    assert_eq!(store.load("https://api.example.com"), Some("T1".to_string()));
}

#[test]
fn authenticated_operations_without_login_are_unauthorized() {
    let c = client();
    let store = MemoryTokenStore::new("/cfg");
    let t = || store.load(&c.host_key());
    assert!(matches!(c.create_repo_request(t(), "demo", None, Some(true)), Err(GitLitError::Unauthorized)));
    assert!(matches!(c.delete_repo_request(t(), "r1"), Err(GitLitError::Unauthorized)));
    assert!(matches!(c.delete_branch_request(t(), "r1", "dev"), Err(GitLitError::Unauthorized)));
    assert!(matches!(c.logout_request(t()), Err(GitLitError::Unauthorized)));
}

#[test]
fn rejected_logout_forgets_token() {
    let c = client();
    let mut store = MemoryTokenStore::new("/cfg");
    store.save(&c.host_key(), &"T".to_string());
    let req = c.logout_request(store.load(&c.host_key())).unwrap();
    assert_eq!(req.bearer, Some("T".to_string()));
    assert_eq!(req.url, "https://api.example.com/api/v1/logout");
    assert_eq!(req.headers, pairs(&[("Accept", "application/json"), ("Content-Length", "0")]));
    assert!(matches!(c.finish_logout(&mut store, 401), Err(GitLitError::Unauthorized)));
    assert_eq!(store.load(&c.host_key()), None);
    assert!(matches!(
        c.create_repo_request(store.load(&c.host_key()), "demo", None, None),
        Err(GitLitError::Unauthorized)
    ));
}

#[test]
fn logout_outcomes() {
    let c = client();
    let mut store = MemoryTokenStore::new("/cfg");
    store.save(&c.host_key(), &"T".to_string());
    let e = c.finish_logout(&mut store, 500).unwrap_err();
    assert_eq!(auth_text(e), "logout failed: 500");
    assert_eq!(store.load(&c.host_key()), Some("T".to_string()));
    assert!(c.finish_logout(&mut store, 204).is_ok());
    assert_eq!(store.load(&c.host_key()), None);
    let o = GitLitClient::logout_response(418);
    assert!(!o.forget_token);
}

#[test]
fn list_repos_sends_only_given_parameters() {
    let r = client().list_repos_request(Some("alice"), None, None);
    assert_eq!(r.method, Method::Get);
    assert_eq!(r.url, "https://api.example.com/api/v1/repos");
    assert_eq!(r.query, pairs(&[("owner", "alice")]));
    let r = client().list_repos_request(None, Some(""), Some("x y"));
    assert_eq!(r.query, pairs(&[("filter", ""), ("q", "x y")]));
    assert!(client().list_repos_request(None, None, None).query.is_empty());
}

#[test]
fn list_repos_response_status() {
    let e = GitLitClient::list_repos_response(404, "[]").unwrap_err();
    assert_eq!(auth_text(e), "list_repos failed: 404");
    assert_eq!(GitLitClient::list_repos_response(200, "[]").unwrap().len(), 0);
    assert!(matches!(GitLitClient::list_repos_response(200, "{}"), Err(GitLitError::Serde(_))));
}

#[test]
fn create_repo_round_trip() {
    let c = client();
    let r = c.create_repo_request(Some("T".to_string()), "demo", None, Some(true)).unwrap();
    assert_eq!(r.method, Method::Post);
    assert_eq!(r.url, "https://api.example.com/api/v1/create");
    assert_eq!(r.bearer, Some("T".to_string()));
    assert_eq!(r.body, Some(r#"{"name":"demo","isPrivate":true}"#.to_string()));
    let body = r#"{"id":"r1","user":"alice","name":"demo","description":"","isPrivate":true,"createdAt":"a","updatedAt":"b"}"#;
    let repo = GitLitClient::create_repo_response(201, body).unwrap();
    assert_eq!(repo.name, "demo");
    let e = GitLitClient::create_repo_response(200, body).unwrap_err();
    assert_eq!(auth_text(e), "create_repo failed: 200");
}

#[test]
fn delete_requests_shape() {
    let c = client();
    let r = c.delete_repo_request(Some("T".to_string()), "r1").unwrap();
    assert_eq!(r.method, Method::Delete);
    assert_eq!(r.query, pairs(&[("id", "r1")]));
    let r = c.delete_branch_request(Some("T".to_string()), "r1", "dev").unwrap();
    assert_eq!(r.url, "https://api.example.com/api/v1/branch");
    assert_eq!(r.query, pairs(&[("id", "r1"), ("branch", "dev")]));
    assert!(GitLitClient::delete_repo_response(200, r#"{"ok":true}"#).unwrap().ok);
    assert_eq!(GitLitClient::delete_branch_response(200, r#"{"message":"m"}"#).unwrap().message, "m");
    assert!(GitLitClient::delete_branch_response(403, "").is_err());
}

#[test]
fn read_requests_shape() {
    let c = client();
    let r = c.branches_request("r1");
    assert_eq!(r.url, "https://api.example.com/api/v1/branches");
    assert_eq!(r.query, pairs(&[("id", "r1")]));
    assert_eq!(r.bearer, None);
    let r = c.commits_request("r1", None, Some(25));
    assert_eq!(r.query, pairs(&[("id", "r1"), ("limit", "25")]));
    let r = c.content_request("r1", Some("src"), None, Some("abc"));
    assert_eq!(r.url, "https://api.example.com/api/v1/content");
    assert_eq!(r.query, pairs(&[("id", "r1"), ("path", "src"), ("commit", "abc")]));
    let r = c.download_request("r1", None, Some("main"), None);
    assert_eq!(r.url, "https://api.example.com/api/v1/download");
    assert_eq!(r.query, pairs(&[("id", "r1"), ("branch", "main")]));
}

#[test]
fn read_responses() {
    let b = GitLitClient::branches_response(200, r#"{"branches":[]}"#).unwrap();
    assert!(b.branches.is_empty());
    let cs = GitLitClient::commits_response(200, "[]").unwrap();
    assert!(cs.is_empty());
    assert!(GitLitClient::commits_response(500, "[]").is_err());
    match GitLitClient::content_response(200, r#"{"kind":"blob","contentBase64":"eA=="}"#).unwrap() {
        ContentResponse::blob { content_base64 } => assert_eq!(content_base64, "eA=="),
        _ => panic!("expected a blob"),
    }
    assert_eq!(GitLitClient::download_response(200, vec![1, 2, 3]).unwrap(), vec![1, 2, 3]);
    let e = GitLitClient::download_response(404, vec![1]).unwrap_err();
    assert_eq!(auth_text(e), "download failed: 404");
}

#[test]
fn register_flow() {
    let r = client().register_request("u", "e@x", "p");
    assert_eq!(r.body, Some(r#"{"email":"e@x","password":"p","username":"u"}"#.to_string()));
    assert_eq!(GitLitClient::register_response(201, "welcome").unwrap(), "welcome");
    let e = GitLitClient::register_response(200, "welcome").unwrap_err();
    assert_eq!(auth_text(e), "register failed: 200");
}
