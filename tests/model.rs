use gitlit::model::{
    commits_from_json, repositories_from_json, BrancheDeleteResponse, BranchesResponse,
    ContentResponse, CreateRepoRequest, OkResponse, Repository, TreeEntry,
};

const REPO: &str = r#"{"id":"r1","user":"alice","name":"demo","description":"d","isPrivate":true,"createdAt":"t0","updatedAt":"t1","forkedFrom":null}"#;

#[test]
fn repository_reads_all_fields() {
    let r = Repository::from_json(REPO).unwrap();
    assert_eq!(r._id, "r1");
    assert_eq!(r.user, "alice");
    assert_eq!(r.name, "demo");
    assert_eq!(r.description, "d");
    assert!(r.is_private);
    assert_eq!(r.created_at, "t0");
    assert_eq!(r.updated_at, "t1");
    assert_eq!(r.forked_from, None);
}

#[test]
fn repository_fork_source_is_kept() {
    let t = r#"{"id":"r2","user":"bob","name":"n","description":"","isPrivate":false,"createdAt":"a","updatedAt":"b","forkedFrom":"r1"}"#;
    let r = Repository::from_json(t).unwrap();
    assert_eq!(r.forked_from, Some("r1".to_string()));
    assert!(!r.is_private);
}

#[test]
fn repository_missing_field_fails() {
    assert!(Repository::from_json(r#"{"id":"r1"}"#).is_err());
    assert!(Repository::from_json("not json").is_err());
}

#[test]
fn repository_list_in_order() {
    let t = format!("[{},{}]", REPO, REPO.replace("r1", "r9"));
    let xs = repositories_from_json(&t).unwrap();
    assert_eq!(xs.len(), 2);
    assert_eq!(xs[0]._id, "r1");
    assert_eq!(xs[1]._id, "r9");
    assert_eq!(repositories_from_json("[]").unwrap().len(), 0);
    assert!(repositories_from_json(r#"[{"x":1}]"#).is_err());
}

#[test]
fn branches_read() {
    let t = r#"{"branches":[{"isHead":true,"name":"main","oid":"abc","upstream":"origin/main"},{"isHead":false,"name":"dev","oid":"def"}]}"#;
    let b = BranchesResponse::from_json(t).unwrap();
    assert_eq!(b.branches.len(), 2);
    assert!(b.branches[0].is_head);
    assert_eq!(b.branches[0].upstream, Some("origin/main".to_string()));
    assert_eq!(b.branches[1].name, "dev");
    assert_eq!(b.branches[1].upstream, None);
}

#[test]
fn commits_read() {
    let t = r#"[{"hash":"h","name":"A","email":"a@x","timestampSecs":-5,"subject":"init"}]"#;
    let cs = commits_from_json(t).unwrap();
    assert_eq!(cs.len(), 1);
    assert_eq!(cs[0].timestamp_secs, -5);
    assert_eq!(cs[0].subject, "init");
}

#[test]
fn small_answers_read() {
    assert!(OkResponse::from_json(r#"{"ok":true}"#).unwrap().ok);
    assert!(OkResponse::from_json(r#"{"ok":"yes"}"#).is_err());
    assert_eq!(BrancheDeleteResponse::from_json(r#"{"message":"gone"}"#).unwrap().message, "gone");
}

#[test]
fn tree_entry_accepts_unknown_kind() {
    let e = TreeEntry::from_json(r#"{"mode":"100644","kind":"symlink-ish","oid":"o","path":"p"}"#).unwrap();
    assert_eq!(e.kind, "\"symlink-ish\"");
    assert_eq!(e.size, None);
    let e = TreeEntry::from_json(r#"{"mode":"040000","kind":{"x":1},"oid":"o","path":"d","size":12}"#).unwrap();
    assert_eq!(e.size, Some(12));
    assert_eq!(e.kind, r#"{"x":1}"#);
    let e = TreeEntry::from_json(r#"{"mode":"160000","kind":7,"oid":"o","path":"m"}"#).unwrap();
    assert_eq!(e.kind, "7");
}

#[test]
fn tree_entry_without_kind_fails() {
    assert!(TreeEntry::from_json(r#"{"mode":"100644","oid":"o","path":"p"}"#).is_err());
}

#[test]
fn content_tree_variant() {
    let t = r#"{"kind":"tree","entries":[{"mode":"100644","kind":"blob","oid":"o1","path":"a.txt","size":3}]}"#;
    match ContentResponse::from_json(t).unwrap() {
        ContentResponse::tree { entries } => {
            assert_eq!(entries.len(), 1);
            assert_eq!(entries[0].path, "a.txt");
            assert_eq!(entries[0].kind, "\"blob\"");
        }
        ContentResponse::blob { .. } => panic!("expected a tree"),
    }
}

#[test]
fn content_blob_variant() {
    let t = r#"{"kind":"blob","contentBase64":"aGk="}"#;
    match ContentResponse::from_json(t).unwrap() {
        ContentResponse::blob { content_base64 } => assert_eq!(content_base64, "aGk="),
        ContentResponse::tree { .. } => panic!("expected a blob"),
    }
}

#[test]
fn content_unknown_kind_fails() {
    assert!(ContentResponse::from_json(r#"{"kind":"link"}"#).is_err());
    assert!(ContentResponse::from_json(r#"{"kind":"blob"}"#).is_err());
}

#[test]
fn create_request_leaves_out_absent_fields() {
    let r = CreateRepoRequest { name: "demo".to_string(), description: None, is_private: None };
    assert_eq!(r.to_json(), r#"{"name":"demo"}"#);
    let r = CreateRepoRequest {
        name: "a\"b".to_string(),
        description: Some("x".to_string()),
        is_private: Some(false),
    };
    assert_eq!(r.to_json(), r#"{"name":"a\"b","description":"x","isPrivate":false}"#);
    let r = CreateRepoRequest { name: "t\ta\\b\u{1}\u{1f}é".to_string(), description: None, is_private: None };
    assert_eq!(r.to_json(), r#"{"name":"t\ta\\b\u0001\u001fé"}"#);
}
