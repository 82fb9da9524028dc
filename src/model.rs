//! The records exchanged with the server, and how each is read from JSON.
use vstd::prelude::*;
use crate::text::same_text;
use crate::json::{
    bool_field, int_field, items, items_field, json_member_text, json_bool_field, json_int_field,
    json_items, json_items_field, json_opt_int_field, json_opt_text_field, json_quoted,
    json_text_field, opt_int_field, opt_text_field, quote, text_field, member_text, custom_error,
};

verus! {

/// The text of an optional string.
pub open spec fn opt_text(o: Option<String>) -> Option<Seq<char>> {
    match o {
        Some(s) => Some(s@),
        None => None,
    }
}

/// A repository as the server describes it.
#[derive(Debug, Clone)]
pub struct Repository {
    pub _id: String,
    pub user: String,
    pub name: String,
    pub description: String,
    pub is_private: bool,
    pub created_at: String,
    pub updated_at: String,
    pub forked_from: Option<String>,
}

/// The fields of a repository that the client sends when creating one.
#[derive(Debug, Clone)]
pub struct CreateRepoRequest {
    pub name: String,
    pub description: Option<String>,
    pub is_private: Option<bool>,
}

/// The answer to a deletion.
#[derive(Debug, Clone)]
pub struct OkResponse {
    pub ok: bool,
}

/// A branch of a repository.
#[derive(Debug, Clone)]
pub struct Branch {
    pub is_head: bool,
    pub name: String,
    pub oid: String,
    pub upstream: Option<String>,
}

/// The branches of a repository.
#[derive(Debug, Clone)]
pub struct BranchesResponse {
    pub branches: Vec<Branch>,
}

/// The answer to the deletion of a branch.
#[derive(Debug, Clone)]
pub struct BrancheDeleteResponse {
    pub message: String,
}

/// One commit of a history.
#[derive(Debug, Clone)]
pub struct CommitInfo {
    pub hash: String,
    pub name: String,
    pub email: String,
    pub timestamp_secs: i64,
    pub subject: String,
}

/// What a path of a repository holds: a directory listing or a file's bytes.
#[allow(non_camel_case_types)]
#[derive(Debug, Clone)]
pub enum ContentResponse {
    tree { entries: Vec<TreeEntry> },
    blob { content_base64: String },
}

/// One entry of a directory listing. `kind` is kept as the server sent it:
/// the JSON text of that member, whatever kind it names.
#[derive(Debug, Clone)]
pub struct TreeEntry {
    pub mode: String,
    pub kind: String,
    pub oid: String,
    pub path: String,
    pub size: Option<i64>,
}

/// `x` is the repository that the JSON object `t` describes.
pub open spec fn repository_json(t: Seq<char>, x: Repository) -> bool {
    &&& json_text_field(t, "id"@) == Some(x._id@)
    &&& json_text_field(t, "user"@) == Some(x.user@)
    &&& json_text_field(t, "name"@) == Some(x.name@)
    &&& json_text_field(t, "description"@) == Some(x.description@)
    &&& json_bool_field(t, "isPrivate"@) == Some(x.is_private)
    &&& json_text_field(t, "createdAt"@) == Some(x.created_at@)
    &&& json_text_field(t, "updatedAt"@) == Some(x.updated_at@)
    &&& json_opt_text_field(t, "forkedFrom"@) == Some(opt_text(x.forked_from))
}

/// The JSON object `t` describes a repository.
pub open spec fn repository_parses(t: Seq<char>) -> bool {
    &&& json_text_field(t, "id"@) is Some
    &&& json_text_field(t, "user"@) is Some
    &&& json_text_field(t, "name"@) is Some
    &&& json_text_field(t, "description"@) is Some
    &&& json_bool_field(t, "isPrivate"@) is Some
    &&& json_text_field(t, "createdAt"@) is Some
    &&& json_text_field(t, "updatedAt"@) is Some
    &&& json_opt_text_field(t, "forkedFrom"@) is Some
}

impl Repository {
    /// Reads a repository from its JSON object.
    pub fn from_json(t: &str) -> (r: Result<Repository, serde_json::Error>)
        ensures
            r is Ok <==> repository_parses(t@),
            r matches Ok(x) ==> repository_json(t@, x),
    {
        let _id = text_field(t, "id")?;
        let user = text_field(t, "user")?;
        let name = text_field(t, "name")?;
        let description = text_field(t, "description")?;
        let is_private = bool_field(t, "isPrivate")?;
        let created_at = text_field(t, "createdAt")?;
        let updated_at = text_field(t, "updatedAt")?;
        let forked_from = opt_text_field(t, "forkedFrom")?;
        Ok(Repository { _id, user, name, description, is_private, created_at, updated_at, forked_from })
    }
}

/// `xs` are the repositories that the JSON array `t` lists, in order.
pub open spec fn repositories_json(t: Seq<char>, xs: Seq<Repository>) -> bool {
    &&& json_items(t) is Some
    &&& json_items(t).unwrap().len() == xs.len()
    &&& forall|i: int| 0 <= i < xs.len() ==> repository_json(#[trigger] json_items(t).unwrap()[i], xs[i])
}

/// The JSON array `t` lists repositories.
pub open spec fn repositories_parse(t: Seq<char>) -> bool {
    &&& json_items(t) is Some
    &&& forall|i: int| 0 <= i < json_items(t).unwrap().len() ==> repository_parses(#[trigger] json_items(t).unwrap()[i])
}

/// Reads the JSON array of repositories `t`.
pub fn repositories_from_json(t: &str) -> (r: Result<Vec<Repository>, serde_json::Error>)
    ensures
        r is Ok <==> repositories_parse(t@),
        r matches Ok(xs) ==> repositories_json(t@, xs@),
{
    let texts = items(t)?;
    let ghost ts = json_items(t@).unwrap();
    let mut out: Vec<Repository> = Vec::new();
    let mut i: usize = 0;
    while i < texts.len()
        invariant
            i <= texts@.len() == ts.len(),
            ts == texts@.map_values(|s: String| s@),
            json_items(t@) == Some(ts),
            out@.len() == i,
            forall|j: int| 0 <= j < i ==> repository_json(#[trigger] ts[j], out@[j]),
            forall|j: int| 0 <= j < i ==> repository_parses(#[trigger] ts[j]),
        decreases texts@.len() - i,
    {
        assert(ts[i as int] == texts@[i as int]@);
        match Repository::from_json(texts[i].as_str()) {
            Ok(x) => out.push(x),
            Err(e) => {
                assert(!repository_parses(json_items(t@).unwrap()[i as int]));
                return Err(e);
            },
        }
        i = i + 1;
    }
    Ok(out)
}

/// `x` is the branch that the JSON object `t` describes.
pub open spec fn branch_json(t: Seq<char>, x: Branch) -> bool {
    &&& json_bool_field(t, "isHead"@) == Some(x.is_head)
    &&& json_text_field(t, "name"@) == Some(x.name@)
    &&& json_text_field(t, "oid"@) == Some(x.oid@)
    &&& json_opt_text_field(t, "upstream"@) == Some(opt_text(x.upstream))
}

/// The JSON object `t` describes a branch.
pub open spec fn branch_parses(t: Seq<char>) -> bool {
    &&& json_bool_field(t, "isHead"@) is Some
    &&& json_text_field(t, "name"@) is Some
    &&& json_text_field(t, "oid"@) is Some
    &&& json_opt_text_field(t, "upstream"@) is Some
}

impl Branch {
    /// Reads a branch from its JSON object.
    pub fn from_json(t: &str) -> (r: Result<Branch, serde_json::Error>)
        ensures
            r is Ok <==> branch_parses(t@),
            r matches Ok(x) ==> branch_json(t@, x),
    {
        let is_head = bool_field(t, "isHead")?;
        let name = text_field(t, "name")?;
        let oid = text_field(t, "oid")?;
        let upstream = opt_text_field(t, "upstream")?;
        Ok(Branch { is_head, name, oid, upstream })
    }
}

/// `x` lists, in order, the branches of the array held by member `branches` of `t`.
pub open spec fn branches_json(t: Seq<char>, x: BranchesResponse) -> bool {
    &&& json_items_field(t, "branches"@) is Some
    &&& json_items_field(t, "branches"@).unwrap().len() == x.branches@.len()
    &&& forall|i: int| 0 <= i < x.branches@.len() ==> branch_json(#[trigger] json_items_field(t, "branches"@).unwrap()[i], x.branches@[i])
}

/// Member `branches` of the JSON object `t` is an array of branches.
pub open spec fn branches_parse(t: Seq<char>) -> bool {
    &&& json_items_field(t, "branches"@) is Some
    &&& forall|i: int| 0 <= i < json_items_field(t, "branches"@).unwrap().len() ==> branch_parses(#[trigger] json_items_field(t, "branches"@).unwrap()[i])
}

impl BranchesResponse {
    /// Reads the branch list of a repository from its JSON object.
    pub fn from_json(t: &str) -> (r: Result<BranchesResponse, serde_json::Error>)
        ensures
            r is Ok <==> branches_parse(t@),
            r matches Ok(x) ==> branches_json(t@, x),
    {
        let texts = items_field(t, "branches")?;
        let ghost ts = json_items_field(t@, "branches"@).unwrap();
        let mut out: Vec<Branch> = Vec::new();
        let mut i: usize = 0;
        while i < texts.len()
            invariant
                i <= texts@.len() == ts.len(),
                ts == texts@.map_values(|s: String| s@),
                json_items_field(t@, "branches"@) == Some(ts),
                out@.len() == i,
                forall|j: int| 0 <= j < i ==> branch_json(#[trigger] ts[j], out@[j]),
                forall|j: int| 0 <= j < i ==> branch_parses(#[trigger] ts[j]),
            decreases texts@.len() - i,
        {
            assert(ts[i as int] == texts@[i as int]@);
            match Branch::from_json(texts[i].as_str()) {
                Ok(x) => out.push(x),
                Err(e) => {
                    assert(!branch_parses(json_items_field(t@, "branches"@).unwrap()[i as int]));
                    return Err(e);
                },
            }
            i = i + 1;
        }
        Ok(BranchesResponse { branches: out })
    }
}

/// `x` is the commit that the JSON object `t` describes.
pub open spec fn commit_json(t: Seq<char>, x: CommitInfo) -> bool {
    &&& json_text_field(t, "hash"@) == Some(x.hash@)
    &&& json_text_field(t, "name"@) == Some(x.name@)
    &&& json_text_field(t, "email"@) == Some(x.email@)
    &&& json_int_field(t, "timestampSecs"@) == Some(x.timestamp_secs)
    &&& json_text_field(t, "subject"@) == Some(x.subject@)
}

/// The JSON object `t` describes a commit.
pub open spec fn commit_parses(t: Seq<char>) -> bool {
    &&& json_text_field(t, "hash"@) is Some
    &&& json_text_field(t, "name"@) is Some
    &&& json_text_field(t, "email"@) is Some
    &&& json_int_field(t, "timestampSecs"@) is Some
    &&& json_text_field(t, "subject"@) is Some
}

impl CommitInfo {
    /// Reads a commit from its JSON object.
    pub fn from_json(t: &str) -> (r: Result<CommitInfo, serde_json::Error>)
        ensures
            r is Ok <==> commit_parses(t@),
            r matches Ok(x) ==> commit_json(t@, x),
    {
        let hash = text_field(t, "hash")?;
        let name = text_field(t, "name")?;
        let email = text_field(t, "email")?;
        let timestamp_secs = int_field(t, "timestampSecs")?;
        let subject = text_field(t, "subject")?;
        Ok(CommitInfo { hash, name, email, timestamp_secs, subject })
    }
}

/// `xs` are the commits that the JSON array `t` lists, in order.
pub open spec fn commits_json(t: Seq<char>, xs: Seq<CommitInfo>) -> bool {
    &&& json_items(t) is Some
    &&& json_items(t).unwrap().len() == xs.len()
    &&& forall|i: int| 0 <= i < xs.len() ==> commit_json(#[trigger] json_items(t).unwrap()[i], xs[i])
}

/// The JSON array `t` lists commits.
pub open spec fn commits_parse(t: Seq<char>) -> bool {
    &&& json_items(t) is Some
    &&& forall|i: int| 0 <= i < json_items(t).unwrap().len() ==> commit_parses(#[trigger] json_items(t).unwrap()[i])
}

/// Reads the JSON array of commits `t`.
pub fn commits_from_json(t: &str) -> (r: Result<Vec<CommitInfo>, serde_json::Error>)
    ensures
        r is Ok <==> commits_parse(t@),
        r matches Ok(xs) ==> commits_json(t@, xs@),
{
    let texts = items(t)?;
    let ghost ts = json_items(t@).unwrap();
    let mut out: Vec<CommitInfo> = Vec::new();
    let mut i: usize = 0;
    while i < texts.len()
        invariant
            i <= texts@.len() == ts.len(),
            ts == texts@.map_values(|s: String| s@),
            json_items(t@) == Some(ts),
            out@.len() == i,
            forall|j: int| 0 <= j < i ==> commit_json(#[trigger] ts[j], out@[j]),
            forall|j: int| 0 <= j < i ==> commit_parses(#[trigger] ts[j]),
        decreases texts@.len() - i,
    {
        assert(ts[i as int] == texts@[i as int]@);
        match CommitInfo::from_json(texts[i].as_str()) {
            Ok(x) => out.push(x),
            Err(e) => {
                assert(!commit_parses(json_items(t@).unwrap()[i as int]));
                return Err(e);
            },
        }
        i = i + 1;
    }
    Ok(out)
}

impl OkResponse {
    /// Reads the answer to a deletion: member `ok` of the JSON object `t`.
    pub fn from_json(t: &str) -> (r: Result<OkResponse, serde_json::Error>)
        ensures
            r is Ok <==> json_bool_field(t@, "ok"@) is Some,
            r matches Ok(x) ==> json_bool_field(t@, "ok"@) == Some(x.ok),
    {
        let ok = bool_field(t, "ok")?;
        Ok(OkResponse { ok })
    }
}

impl BrancheDeleteResponse {
    /// Reads the answer to a branch deletion: member `message` of the JSON object `t`.
    pub fn from_json(t: &str) -> (r: Result<BrancheDeleteResponse, serde_json::Error>)
        ensures
            r is Ok <==> json_text_field(t@, "message"@) is Some,
            r matches Ok(x) ==> json_text_field(t@, "message"@) == Some(x.message@),
    {
        let message = text_field(t, "message")?;
        Ok(BrancheDeleteResponse { message })
    }
}

/// `x` is the directory entry that the JSON object `t` describes.
pub open spec fn tree_entry_json(t: Seq<char>, x: TreeEntry) -> bool {
    &&& json_text_field(t, "mode"@) == Some(x.mode@)
    &&& json_member_text(t, "kind"@) == Some(Some(x.kind@))
    &&& json_text_field(t, "oid"@) == Some(x.oid@)
    &&& json_text_field(t, "path"@) == Some(x.path@)
    &&& json_opt_int_field(t, "size"@) == Some(x.size)
}

/// The JSON object `t` describes a directory entry.
pub open spec fn tree_entry_parses(t: Seq<char>) -> bool {
    &&& json_text_field(t, "mode"@) is Some
    &&& json_member_text(t, "kind"@) matches Some(Some(_))
    &&& json_text_field(t, "oid"@) is Some
    &&& json_text_field(t, "path"@) is Some
    &&& json_opt_int_field(t, "size"@) is Some
}

impl TreeEntry {
    /// Reads a directory entry from its JSON object; any `kind` is accepted
    /// and kept as its JSON text.
    pub fn from_json(t: &str) -> (r: Result<TreeEntry, serde_json::Error>)
        ensures
            r is Ok <==> tree_entry_parses(t@),
            r matches Ok(x) ==> tree_entry_json(t@, x),
    {
        let mode = text_field(t, "mode")?;
        let kind = match member_text(t, "kind")? {
            Some(k) => k,
            None => return Err(custom_error("missing field `kind`")),
        };
        let oid = text_field(t, "oid")?;
        let path = text_field(t, "path")?;
        let size = opt_int_field(t, "size")?;
        Ok(TreeEntry { mode, kind, oid, path, size })
    }
}

/// `c` is the content that the JSON object `t` describes; its member `kind`
/// names the variant.
pub open spec fn content_json(t: Seq<char>, c: ContentResponse) -> bool {
    match c {
        ContentResponse::tree { entries } => {
            &&& json_text_field(t, "kind"@) == Some("tree"@)
            &&& json_items_field(t, "entries"@) is Some
            &&& json_items_field(t, "entries"@).unwrap().len() == entries@.len()
            &&& forall|i: int| 0 <= i < entries@.len() ==> tree_entry_json(#[trigger] json_items_field(t, "entries"@).unwrap()[i], entries@[i])
        },
        ContentResponse::blob { content_base64 } => {
            &&& json_text_field(t, "kind"@) == Some("blob"@)
            &&& json_text_field(t, "contentBase64"@) == Some(content_base64@)
        },
    }
}

/// The JSON object `t` describes a directory listing or a file.
pub open spec fn content_parses(t: Seq<char>) -> bool {
    ||| {
        &&& json_text_field(t, "kind"@) == Some("tree"@)
        &&& json_items_field(t, "entries"@) is Some
        &&& forall|i: int| 0 <= i < json_items_field(t, "entries"@).unwrap().len() ==> tree_entry_parses(#[trigger] json_items_field(t, "entries"@).unwrap()[i])
    }
    ||| {
        &&& json_text_field(t, "kind"@) == Some("blob"@)
        &&& json_text_field(t, "contentBase64"@) is Some
    }
}

impl ContentResponse {
    /// Reads the content of a path from its JSON object, by its tag `kind`.
    pub fn from_json(t: &str) -> (r: Result<ContentResponse, serde_json::Error>)
        ensures
            r is Ok <==> content_parses(t@),
            r matches Ok(c) ==> content_json(t@, c),
    {
        let tag = text_field(t, "kind")?;
        proof {
            reveal_strlit("tree");
            reveal_strlit("blob");
            assert("tree"@[0] != "blob"@[0]);
        }
        if same_text(tag.as_str(), "tree") {
            let texts = items_field(t, "entries")?;
            let ghost ts = json_items_field(t@, "entries"@).unwrap();
            let mut out: Vec<TreeEntry> = Vec::new();
            let mut i: usize = 0;
            while i < texts.len()
                invariant
                    i <= texts@.len() == ts.len(),
                    ts == texts@.map_values(|s: String| s@),
                    json_items_field(t@, "entries"@) == Some(ts),
                    json_text_field(t@, "kind"@) == Some("tree"@),
                    "tree"@ != "blob"@,
                    out@.len() == i,
                    forall|j: int| 0 <= j < i ==> tree_entry_json(#[trigger] ts[j], out@[j]),
                    forall|j: int| 0 <= j < i ==> tree_entry_parses(#[trigger] ts[j]),
                decreases texts@.len() - i,
            {
                assert(ts[i as int] == texts@[i as int]@);
                match TreeEntry::from_json(texts[i].as_str()) {
                    Ok(x) => out.push(x),
                    Err(e) => {
                        assert(!tree_entry_parses(json_items_field(t@, "entries"@).unwrap()[i as int]));
                        return Err(e);
                    },
                }
                i = i + 1;
            }
            Ok(ContentResponse::tree { entries: out })
        } else if same_text(tag.as_str(), "blob") {
            let content_base64 = text_field(t, "contentBase64")?;
            Ok(ContentResponse::blob { content_base64 })
        } else {
            Err(custom_error("unknown content kind, expected `tree` or `blob`"))
        }
    }
}

/// The JSON text of a creation request: absent optional fields are left out.
pub open spec fn create_body(
    name: Seq<char>,
    description: Option<Seq<char>>,
    is_private: Option<bool>,
) -> Seq<char> {
    "{\"name\":"@ + json_quoted(name) + match description {
        Some(d) => ",\"description\":"@ + json_quoted(d),
        None => Seq::empty(),
    } + match is_private {
        Some(b) => ",\"isPrivate\":"@ + if b { "true"@ } else { "false"@ },
        None => Seq::empty(),
    } + "}"@
}

/// The JSON text of the request `x`.
pub open spec fn create_repo_json(x: CreateRepoRequest) -> Seq<char> {
    create_body(x.name@, opt_text(x.description), x.is_private)
}

impl CreateRepoRequest {
    /// Writes the request as a JSON object.
    pub fn to_json(&self) -> (r: String)
        ensures
            r@ == create_repo_json(*self),
    {
        let mut out = String::new();
        out.push_str("{\"name\":");
        let name = quote(self.name.as_str());
        out.push_str(name.as_str());
        match &self.description {
            Some(d) => {
                out.push_str(",\"description\":");
                let q = quote(d.as_str());
                out.push_str(q.as_str());
            },
            None => {},
        }
        match self.is_private {
            Some(b) => {
                out.push_str(",\"isPrivate\":");
                if b {
                    out.push_str("true");
                } else {
                    out.push_str("false");
                }
            },
            None => {},
        }
        out.push_str("}");
        proof {
            reveal_strlit("{\"name\":");
            reveal_strlit("}");
        }
        assert(out@ =~= create_repo_json(*self));
        out
    }
}

} // verus!
