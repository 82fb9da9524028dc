//! The client: which request each operation sends, how the credential is
//! attached, and what each answer of the server means.
//!
//! An operation is one round trip. `*_request` builds the request (failing
//! with `Unauthorized` before anything is sent where a credential is needed
//! and none is stored); `*_response` reads the status code and the body that
//! came back. Sending is left to the caller.
use vstd::prelude::*;
use crate::error::GitLitError;
use crate::json::{json_bool_field, json_quoted, json_text_field, quote, text_field};
use crate::model::{
    BrancheDeleteResponse, BranchesResponse, CommitInfo, ContentResponse, CreateRepoRequest,
    OkResponse, Repository, branches_json, branches_parse, commits_from_json, commits_json,
    commits_parse, content_json, content_parses, create_body, opt_text,
    repositories_from_json, repositories_json, repositories_parse, repository_json,
    repository_parses,
};
use crate::store::{MemoryTokenStore, TokenStore, joined, other_io_error, token_file};
use crate::text::{decimal, has_prefix, push_decimal};

verus! {

/// The HTTP method of a request.
#[derive(Debug, Clone, Copy, PartialEq, Eq, Structural)]
pub enum Method {
    Get,
    Post,
    Delete,
}

/// One request to the server, ready to send.
#[derive(Debug, Clone)]
pub struct ApiRequest {
    pub method: Method,
    pub url: String,
    /// Query parameters in order; an absent optional parameter has no entry.
    pub query: Vec<(String, String)>,
    /// Extra headers.
    pub headers: Vec<(String, String)>,
    /// The bearer credential, for operations that need one.
    pub bearer: Option<String>,
    /// A JSON body.
    pub body: Option<String>,
}

/// The texts of a list of pairs.
pub open spec fn pairs_view(v: Seq<(String, String)>) -> Seq<(Seq<char>, Seq<char>)> {
    v.map_values(|p: (String, String)| (p.0@, p.1@))
}

/// The text of an optional string slice.
pub open spec fn opt_str(o: Option<&str>) -> Option<Seq<char>> {
    match o {
        Some(s) => Some(s@),
        None => None,
    }
}

/// The parameter `key=v` where `v` is given, nothing where it is not.
pub open spec fn opt_param(key: Seq<char>, v: Option<Seq<char>>) -> Seq<(Seq<char>, Seq<char>)> {
    match v {
        Some(x) => seq![(key, x)],
        None => Seq::empty(),
    }
}

/// `r` has exactly these parts.
pub open spec fn request_is(
    r: ApiRequest,
    method: Method,
    url: Seq<char>,
    query: Seq<(Seq<char>, Seq<char>)>,
    headers: Seq<(Seq<char>, Seq<char>)>,
    bearer: Option<Seq<char>>,
    body: Option<Seq<char>>,
) -> bool {
    &&& r.method == method
    &&& r.url@ == url
    &&& pairs_view(r.query@) == query
    &&& pairs_view(r.headers@) == headers
    &&& opt_text(r.bearer) == bearer
    &&& opt_text(r.body) == body
}

/// The address of endpoint `name` under the base URL `base`.
pub open spec fn endpoint_url(base: Seq<char>, name: Seq<char>) -> Seq<char> {
    base + "/api/v1/"@ + name
}

/// The base URL with one trailing slash removed.
pub open spec fn normalized(url: Seq<char>) -> Seq<char> {
    if url.len() > 0 && url.last() == '/' {
        url.drop_last()
    } else {
        url
    }
}

/// The URL as given where it names the scheme `http` or `https`, else with
/// `https://` in front.
pub open spec fn with_scheme(url: Seq<char>) -> Seq<char> {
    if url.len() >= 7 && url.subrange(0, 7) == "http://"@ {
        url
    } else if url.len() >= 8 && url.subrange(0, 8) == "https://"@ {
        url
    } else {
        "https://"@ + url
    }
}

/// A 2xx status.
pub open spec fn is_success(status: u16) -> bool {
    200 <= status && status < 300
}

/// A stored token that can be sent: present and not empty.
pub open spec fn token_usable(t: Option<Seq<char>>) -> bool {
    t is Some && t.unwrap().len() > 0
}

/// The text of the error for an unexpected status of operation `op`.
pub open spec fn failure_text(op: Seq<char>, status: u16) -> Seq<char> {
    op + " failed: "@ + decimal(status as nat)
}

/// `e` reports the unexpected status `status` of operation `op`.
pub open spec fn failed_with(e: GitLitError, op: Seq<char>, status: u16) -> bool {
    e matches GitLitError::Auth(m) && m@ == failure_text(op, status)
}

/// The JSON body of a login.
pub open spec fn login_body(login: Seq<char>, password: Seq<char>) -> Seq<char> {
    "{\"login\":"@ + json_quoted(login) + ",\"password\":"@ + json_quoted(password) + "}"@
}

/// The JSON body of a registration.
pub open spec fn register_body(username: Seq<char>, email: Seq<char>, password: Seq<char>) -> Seq<
    char,
> {
    "{\"email\":"@ + json_quoted(email) + ",\"password\":"@ + json_quoted(password)
        + ",\"username\":"@ + json_quoted(username) + "}"@
}

/// The parameters that select a path of a repository at a branch or commit.
pub open spec fn path_params(
    id: Seq<char>,
    path: Option<Seq<char>>,
    branch: Option<Seq<char>>,
    commit: Option<Seq<char>>,
) -> Seq<(Seq<char>, Seq<char>)> {
    seq![("id"@, id)] + opt_param("path"@, path) + opt_param("branch"@, branch) + opt_param(
        "commit"@,
        commit,
    )
}

/// What the client does after the server answered a logout.
#[derive(Debug)]
pub struct LogoutOutcome {
    /// The stored token is to be removed.
    pub forget_token: bool,
    pub result: Result<(), GitLitError>,
}

/// Puts `https://` in front of a URL that names neither `http` nor `https`.
pub fn with_default_scheme(url: &str) -> (r: String)
    ensures
        r@ == with_scheme(url@),
{
    proof {
        reveal_strlit("http://");
        reveal_strlit("https://");
    }
    if has_prefix(url, "http://") || has_prefix(url, "https://") {
        url.to_owned()
    } else {
        let mut r = "https://".to_owned();
        r.push_str(url);
        r
    }
}

/// The error for an unexpected status of operation `op`.
pub fn failure(op: &str, status: u16) -> (e: GitLitError)
    ensures
        failed_with(e, op@, status),
{
    let mut m = op.to_owned();
    m.push_str(" failed: ");
    push_decimal(&mut m, status as u64);
    GitLitError::Auth(m)
}

/// The token to send, from what the store held.
pub fn bearer_token(stored: Option<String>) -> (r: Result<String, GitLitError>)
    ensures
        r is Ok <==> token_usable(opt_text(stored)),
        r matches Ok(t) ==> opt_text(stored) == Some(t@),
        r matches Err(e) ==> e is Unauthorized,
{
    match stored {
        Some(t) => {
            if t.unicode_len() > 0 {
                Ok(t)
            } else {
                Err(GitLitError::Unauthorized)
            }
        },
        None => Err(GitLitError::Unauthorized),
    }
}

/// Appends `key=v` to `q` where `v` is given.
fn push_param(q: &mut Vec<(String, String)>, key: &str, v: Option<&str>)
    ensures
        pairs_view(final(q)@) == pairs_view(old(q)@) + opt_param(key@, opt_str(v)),
{
    match v {
        Some(x) => {
            q.push((key.to_owned(), x.to_owned()));
            assert(pairs_view(q@) =~= pairs_view(old(q)@) + opt_param(key@, opt_str(v)));
        },
        None => {
            assert(pairs_view(q@) =~= pairs_view(old(q)@) + opt_param(key@, opt_str(v)));
        },
    }
}

/// The parameters `id`, then `path`, `branch` and `commit` where given.
fn path_query(id: &str, path: Option<&str>, branch: Option<&str>, commit: Option<&str>) -> (r: Vec<
    (String, String),
>)
    ensures
        pairs_view(r@) == path_params(id@, opt_str(path), opt_str(branch), opt_str(commit)),
{
    let mut q: Vec<(String, String)> = Vec::new();
    push_param(&mut q, "id", Some(id));
    push_param(&mut q, "path", path);
    push_param(&mut q, "branch", branch);
    push_param(&mut q, "commit", commit);
    assert(pairs_view(q@) =~= path_params(id@, opt_str(path), opt_str(branch), opt_str(commit)));
    q
}

/// A client of the server at one base URL, with the store of its credential
/// where the platform gives one.
#[derive(Debug, Clone)]
pub struct GitLitClient {
    url: String,
    token_store: Option<TokenStore>,
}

impl GitLitClient {
    /// The base URL, without a trailing slash; it is also the identity under
    /// which the credential is stored.
    pub closed spec fn base_url(&self) -> Seq<char> {
        self.url@
    }

    /// The directory of the credential store, if there is one.
    pub closed spec fn token_dir(&self) -> Option<Seq<char>> {
        match self.token_store {
            Some(s) => Some(s.path@),
            None => None,
        }
    }

    /// A client of `url`, with the credential store under the application's
    /// configuration directory. Construction does not fail: where there is no
    /// such directory, the operations that need the store fail instead.
    pub fn new(url: &str) -> (r: GitLitClient)
        ensures
            r.base_url() == normalized(url@),
            r.token_dir() matches Some(p) ==> exists|d: Seq<char>| p == joined(d, "tokens"@),
    {
        let token_store = match TokenStore::new() {
            Ok(s) => Some(s),
            Err(_) => None,
        };
        GitLitClient { url: GitLitClient::normalize(url), token_store }
    }

    /// A client of `url` whose credential store is `token_store`.
    pub fn with_store(url: &str, token_store: TokenStore) -> (r: GitLitClient)
        ensures
            r.base_url() == normalized(url@),
            r.token_dir() == Some(token_store.path@),
    {
        GitLitClient { url: GitLitClient::normalize(url), token_store: Some(token_store) }
    }

    fn normalize(url: &str) -> (r: String)
        ensures
            r@ == normalized(url@),
    {
        let n = url.unicode_len();
        if n > 0 && url.get_char(n - 1) == '/' {
            crate::text::copy_range(url, 0, n - 1)
        } else {
            url.to_owned()
        }
    }

    /// The base URL.
    pub fn url(&self) -> (r: &String)
        ensures
            r@ == self.base_url(),
    {
        &self.url
    }

    /// The identity under which the credential is stored.
    pub fn host_key(&self) -> (r: String)
        ensures
            r@ == self.base_url(),
    {
        self.url.clone()
    }

    /// The file that holds the credential; an I/O error where there is no
    /// credential store.
    pub fn token_path(&self) -> (r: Result<String, GitLitError>)
        ensures
            self.token_dir() matches Some(p) ==> (r matches Ok(t) && t@ == token_file(p, self.base_url())),
            self.token_dir() is None ==> (r matches Err(e) && e is Io),
    {
        match &self.token_store {
            Some(s) => Ok(s.token_path(self.url.as_str())),
            None => Err(GitLitError::Io(other_io_error("no config dir"))),
        }
    }

    fn endpoint(&self, name: &str) -> (r: String)
        ensures
            r@ == endpoint_url(self.base_url(), name@),
    {
        let mut r = self.url.clone();
        r.push_str("/api/v1/");
        r.push_str(name);
        r
    }

    /// `POST /login` with the user's login and password.
    pub fn login_request(&self, login: &str, password: &str) -> (r: ApiRequest)
        ensures
            request_is(r, Method::Post, endpoint_url(self.base_url(), "login"@), seq![], seq![], None, Some(login_body(login@, password@))),
    {
        let mut body = "{\"login\":".to_owned();
        let q = quote(login);
        body.push_str(q.as_str());
        body.push_str(",\"password\":");
        let q = quote(password);
        body.push_str(q.as_str());
        body.push_str("}");
        let r = ApiRequest {
            method: Method::Post,
            url: self.endpoint("login"),
            query: Vec::new(),
            headers: Vec::new(),
            bearer: None,
            body: Some(body),
        };
        assert(pairs_view(r.query@) =~= seq![]);
        assert(pairs_view(r.headers@) =~= seq![]);
        r
    }

    /// Reads the answer to a login: on a 2xx status the member `token` of the
    /// body, which the caller then stores.
    pub fn login_response(status: u16, body: &str) -> (r: Result<String, GitLitError>)
        ensures
            !is_success(status) ==> (r matches Err(e) && failed_with(e, "login"@, status)),
            is_success(status) ==> (r is Ok <==> json_text_field(body@, "token"@) is Some),
            is_success(status) ==> (r matches Ok(t) ==> json_text_field(body@, "token"@) == Some(t@)),
            is_success(status) ==> (r matches Err(e) ==> e is Serde),
    {
        if !(200 <= status && status < 300) {
            return Err(failure("login", status));
        }
        match text_field(body, "token") {
            Ok(t) => Ok(t),
            Err(e) => Err(GitLitError::Serde(e)),
        }
    }

    /// Completes a login against `store`: the token that the server sent is
    /// stored for this client's base URL; nothing is stored on a failure.
    pub fn finish_login(&self, store: &mut MemoryTokenStore, status: u16, body: &str) -> (r: Result<String, GitLitError>)
        ensures
            final(store).store == old(store).store,
            r is Ok <==> (is_success(status) && json_text_field(body@, "token"@) is Some),
            r matches Ok(t) ==> json_text_field(body@, "token"@) == Some(t@),
            r matches Ok(t) ==> final(store)@ == old(store)@.insert(token_file(old(store).store.path@, self.base_url()), t@),
            r is Err ==> final(store)@ == old(store)@,
            !is_success(status) ==> (r matches Err(e) && failed_with(e, "login"@, status)),
            is_success(status) ==> (r matches Err(e) ==> e is Serde),
    {
        let r = GitLitClient::login_response(status, body);
        match r {
            Ok(t) => {
                store.save(self.url.as_str(), &t);
                Ok(t)
            },
            Err(e) => Err(e),
        }
    }

    /// `POST /register` with the new user's name, e-mail and password.
    pub fn register_request(&self, username: &str, email: &str, password: &str) -> (r: ApiRequest)
        ensures
            request_is(r, Method::Post, endpoint_url(self.base_url(), "register"@), seq![], seq![], None, Some(register_body(username@, email@, password@))),
    {
        let mut body = "{\"email\":".to_owned();
        let q = quote(email);
        body.push_str(q.as_str());
        body.push_str(",\"password\":");
        let q = quote(password);
        body.push_str(q.as_str());
        body.push_str(",\"username\":");
        let q = quote(username);
        body.push_str(q.as_str());
        body.push_str("}");
        let r = ApiRequest {
            method: Method::Post,
            url: self.endpoint("register"),
            query: Vec::new(),
            headers: Vec::new(),
            bearer: None,
            body: Some(body),
        };
        assert(pairs_view(r.query@) =~= seq![]);
        assert(pairs_view(r.headers@) =~= seq![]);
        r
    }

    /// Reads the answer to a registration: the body as text on status 201.
    pub fn register_response(status: u16, body: &str) -> (r: Result<String, GitLitError>)
        ensures
            status == 201 ==> (r matches Ok(t) && t@ == body@),
            status != 201 ==> (r matches Err(e) && failed_with(e, "register"@, status)),
    {
        if status != 201 {
            return Err(failure("register", status));
        }
        Ok(body.to_owned())
    }

    /// `POST /logout` with the stored token; `Unauthorized` where none is stored.
    pub fn logout_request(&self, stored: Option<String>) -> (r: Result<ApiRequest, GitLitError>)
        ensures
            r is Ok <==> token_usable(opt_text(stored)),
            r matches Err(e) ==> e is Unauthorized,
            r matches Ok(q) ==> request_is(q, Method::Post, endpoint_url(self.base_url(), "logout"@), seq![], seq![("Accept"@, "application/json"@), ("Content-Length"@, "0"@)], opt_text(stored), None),
    {
        let token = bearer_token(stored)?;
        let mut headers: Vec<(String, String)> = Vec::new();
        headers.push(("Accept".to_owned(), "application/json".to_owned()));
        headers.push(("Content-Length".to_owned(), "0".to_owned()));
        let r = ApiRequest {
            method: Method::Post,
            url: self.endpoint("logout"),
            query: Vec::new(),
            headers,
            bearer: Some(token),
            body: None,
        };
        assert(pairs_view(r.query@) =~= seq![]);
        assert(pairs_view(r.headers@) =~= seq![("Accept"@, "application/json"@), ("Content-Length"@, "0"@)]);
        Ok(r)
    }

    /// Reads the answer to a logout. A 2xx status or a 401 both remove the
    /// stored token; a 401 is reported as `Unauthorized`.
    pub fn logout_response(status: u16) -> (r: LogoutOutcome)
        ensures
            status == 401 ==> r.forget_token && (r.result matches Err(e) && e is Unauthorized),
            is_success(status) ==> r.forget_token && (r.result is Ok),
            status != 401 && !is_success(status) ==> !r.forget_token && (r.result matches Err(e) && failed_with(e, "logout"@, status)),
    {
        if status == 401 {
            LogoutOutcome { forget_token: true, result: Err(GitLitError::Unauthorized) }
        } else if !(200 <= status && status < 300) {
            LogoutOutcome { forget_token: false, result: Err(failure("logout", status)) }
        } else {
            LogoutOutcome { forget_token: true, result: Ok(()) }
        }
    }

    /// Completes a logout against `store`, removing the token where the
    /// answer says so.
    pub fn finish_logout(&self, store: &mut MemoryTokenStore, status: u16) -> (r: Result<(), GitLitError>)
        ensures
            final(store).store == old(store).store,
            status == 401 ==> (r matches Err(e) && e is Unauthorized),
            is_success(status) ==> r is Ok,
            status != 401 && !is_success(status) ==> (r matches Err(e) && failed_with(e, "logout"@, status)),
            (status == 401 || is_success(status)) ==> final(store)@ == old(store)@.remove(token_file(old(store).store.path@, self.base_url())),
            !(status == 401 || is_success(status)) ==> final(store)@ == old(store)@,
    {
        let outcome = GitLitClient::logout_response(status);
        if outcome.forget_token {
            store.delete(self.url.as_str());
        }
        outcome.result
    }

    /// `GET /repos` with `owner`, `filter` and `q`, each only where given.
    pub fn list_repos_request(&self, owner: Option<&str>, filter: Option<&str>, q: Option<&str>) -> (r: ApiRequest)
        ensures
            request_is(r, Method::Get, endpoint_url(self.base_url(), "repos"@),
                opt_param("owner"@, opt_str(owner)) + opt_param("filter"@, opt_str(filter)) + opt_param("q"@, opt_str(q)),
                seq![], None, None),
    {
        let mut query: Vec<(String, String)> = Vec::new();
        push_param(&mut query, "owner", owner);
        push_param(&mut query, "filter", filter);
        push_param(&mut query, "q", q);
        let r = ApiRequest {
            method: Method::Get,
            url: self.endpoint("repos"),
            query,
            headers: Vec::new(),
            bearer: None,
            body: None,
        };
        assert(pairs_view(seq![]) + opt_param("owner"@, opt_str(owner)) =~= opt_param("owner"@, opt_str(owner)));
        assert(pairs_view(r.headers@) =~= seq![]);
        r
    }

    /// Reads the answer to a repository listing.
    pub fn list_repos_response(status: u16, body: &str) -> (r: Result<Vec<Repository>, GitLitError>)
        ensures
            !is_success(status) ==> (r matches Err(e) && failed_with(e, "list_repos"@, status)),
            is_success(status) ==> (r is Ok <==> repositories_parse(body@)),
            is_success(status) ==> (r matches Ok(xs) ==> repositories_json(body@, xs@)),
            is_success(status) ==> (r matches Err(e) ==> e is Serde),
    {
        if !(200 <= status && status < 300) {
            return Err(failure("list_repos", status));
        }
        match repositories_from_json(body) {
            Ok(xs) => Ok(xs),
            Err(e) => Err(GitLitError::Serde(e)),
        }
    }

    /// `POST /create` with the stored token and the new repository's fields;
    /// `Unauthorized` where no token is stored.
    pub fn create_repo_request(&self, stored: Option<String>, name: &str, description: Option<&str>, is_private: Option<bool>) -> (r: Result<ApiRequest, GitLitError>)
        ensures
            r is Ok <==> token_usable(opt_text(stored)),
            r matches Err(e) ==> e is Unauthorized,
            r matches Ok(q) ==> request_is(q, Method::Post, endpoint_url(self.base_url(), "create"@), seq![], seq![], opt_text(stored), Some(create_body(name@, opt_str(description), is_private))),
    {
        let token = bearer_token(stored)?;
        let description = match description {
            Some(d) => Some(d.to_owned()),
            None => None,
        };
        let req = CreateRepoRequest { name: name.to_owned(), description, is_private };
        let body = req.to_json();
        let r = ApiRequest {
            method: Method::Post,
            url: self.endpoint("create"),
            query: Vec::new(),
            headers: Vec::new(),
            bearer: Some(token),
            body: Some(body),
        };
        assert(pairs_view(r.query@) =~= seq![]);
        assert(pairs_view(r.headers@) =~= seq![]);
        Ok(r)
    }

    /// Reads the answer to a creation: the new repository on status 201.
    pub fn create_repo_response(status: u16, body: &str) -> (r: Result<Repository, GitLitError>)
        ensures
            status != 201 ==> (r matches Err(e) && failed_with(e, "create_repo"@, status)),
            status == 201 ==> (r is Ok <==> repository_parses(body@)),
            status == 201 ==> (r matches Ok(x) ==> repository_json(body@, x)),
            status == 201 ==> (r matches Err(e) ==> e is Serde),
    {
        if status != 201 {
            return Err(failure("create_repo", status));
        }
        match Repository::from_json(body) {
            Ok(x) => Ok(x),
            Err(e) => Err(GitLitError::Serde(e)),
        }
    }

    /// `DELETE /delete?id` with the stored token; `Unauthorized` where none is stored.
    pub fn delete_repo_request(&self, stored: Option<String>, id: &str) -> (r: Result<ApiRequest, GitLitError>)
        ensures
            r is Ok <==> token_usable(opt_text(stored)),
            r matches Err(e) ==> e is Unauthorized,
            r matches Ok(q) ==> request_is(q, Method::Delete, endpoint_url(self.base_url(), "delete"@), seq![("id"@, id@)], seq![], opt_text(stored), None),
    {
        let token = bearer_token(stored)?;
        let mut query: Vec<(String, String)> = Vec::new();
        push_param(&mut query, "id", Some(id));
        let r = ApiRequest {
            method: Method::Delete,
            url: self.endpoint("delete"),
            query,
            headers: Vec::new(),
            bearer: Some(token),
            body: None,
        };
        assert(pairs_view(r.query@) =~= seq![("id"@, id@)]);
        assert(pairs_view(r.headers@) =~= seq![]);
        Ok(r)
    }

    /// Reads the answer to a repository deletion.
    pub fn delete_repo_response(status: u16, body: &str) -> (r: Result<OkResponse, GitLitError>)
        ensures
            !is_success(status) ==> (r matches Err(e) && failed_with(e, "delete_repo"@, status)),
            is_success(status) ==> (r is Ok <==> json_bool_field(body@, "ok"@) is Some),
            is_success(status) ==> (r matches Ok(x) ==> json_bool_field(body@, "ok"@) == Some(x.ok)),
            is_success(status) ==> (r matches Err(e) ==> e is Serde),
    {
        if !(200 <= status && status < 300) {
            return Err(failure("delete_repo", status));
        }
        match OkResponse::from_json(body) {
            Ok(x) => Ok(x),
            Err(e) => Err(GitLitError::Serde(e)),
        }
    }

    /// `GET /branches?id`.
    pub fn branches_request(&self, id: &str) -> (r: ApiRequest)
        ensures
            request_is(r, Method::Get, endpoint_url(self.base_url(), "branches"@), seq![("id"@, id@)], seq![], None, None),
    {
        let mut query: Vec<(String, String)> = Vec::new();
        push_param(&mut query, "id", Some(id));
        let r = ApiRequest {
            method: Method::Get,
            url: self.endpoint("branches"),
            query,
            headers: Vec::new(),
            bearer: None,
            body: None,
        };
        assert(pairs_view(r.query@) =~= seq![("id"@, id@)]);
        assert(pairs_view(r.headers@) =~= seq![]);
        r
    }

    /// Reads the answer to a branch listing.
    pub fn branches_response(status: u16, body: &str) -> (r: Result<BranchesResponse, GitLitError>)
        ensures
            !is_success(status) ==> (r matches Err(e) && failed_with(e, "branches"@, status)),
            is_success(status) ==> (r is Ok <==> branches_parse(body@)),
            is_success(status) ==> (r matches Ok(x) ==> branches_json(body@, x)),
            is_success(status) ==> (r matches Err(e) ==> e is Serde),
    {
        if !(200 <= status && status < 300) {
            return Err(failure("branches", status));
        }
        match BranchesResponse::from_json(body) {
            Ok(x) => Ok(x),
            Err(e) => Err(GitLitError::Serde(e)),
        }
    }

    /// `DELETE /branch?id&branch` with the stored token; `Unauthorized` where
    /// none is stored.
    pub fn delete_branch_request(&self, stored: Option<String>, id: &str, branch: &str) -> (r: Result<ApiRequest, GitLitError>)
        ensures
            r is Ok <==> token_usable(opt_text(stored)),
            r matches Err(e) ==> e is Unauthorized,
            r matches Ok(q) ==> request_is(q, Method::Delete, endpoint_url(self.base_url(), "branch"@), seq![("id"@, id@), ("branch"@, branch@)], seq![], opt_text(stored), None),
    {
        let token = bearer_token(stored)?;
        let mut query: Vec<(String, String)> = Vec::new();
        push_param(&mut query, "id", Some(id));
        push_param(&mut query, "branch", Some(branch));
        let r = ApiRequest {
            method: Method::Delete,
            url: self.endpoint("branch"),
            query,
            headers: Vec::new(),
            bearer: Some(token),
            body: None,
        };
        assert(pairs_view(r.query@) =~= seq![("id"@, id@), ("branch"@, branch@)]);
        assert(pairs_view(r.headers@) =~= seq![]);
        Ok(r)
    }

    /// Reads the answer to a branch deletion.
    pub fn delete_branch_response(status: u16, body: &str) -> (r: Result<BrancheDeleteResponse, GitLitError>)
        ensures
            !is_success(status) ==> (r matches Err(e) && failed_with(e, "delete_branch"@, status)),
            is_success(status) ==> (r is Ok <==> json_text_field(body@, "message"@) is Some),
            is_success(status) ==> (r matches Ok(x) ==> json_text_field(body@, "message"@) == Some(x.message@)),
            is_success(status) ==> (r matches Err(e) ==> e is Serde),
    {
        if !(200 <= status && status < 300) {
            return Err(failure("delete_branch", status));
        }
        match BrancheDeleteResponse::from_json(body) {
            Ok(x) => Ok(x),
            Err(e) => Err(GitLitError::Serde(e)),
        }
    }

    /// `GET /commits?id` with `branch` and `limit` where given.
    pub fn commits_request(&self, id: &str, branch: Option<&str>, limit: Option<u32>) -> (r: ApiRequest)
        ensures
            request_is(r, Method::Get, endpoint_url(self.base_url(), "commits"@),
                seq![("id"@, id@)] + opt_param("branch"@, opt_str(branch)) + opt_param("limit"@, match limit {
                    Some(n) => Some(decimal(n as nat)),
                    None => None,
                }),
                seq![], None, None),
    {
        let mut query: Vec<(String, String)> = Vec::new();
        push_param(&mut query, "id", Some(id));
        push_param(&mut query, "branch", branch);
        let ghost before = query@;
        match limit {
            Some(n) => {
                let mut t = String::new();
                push_decimal(&mut t, n as u64);
                query.push(("limit".to_owned(), t));
                assert(pairs_view(query@) =~= pairs_view(before).push(("limit"@, decimal(n as nat))));
            },
            None => {},
        }
        let r = ApiRequest {
            method: Method::Get,
            url: self.endpoint("commits"),
            query,
            headers: Vec::new(),
            bearer: None,
            body: None,
        };
        assert(pairs_view(r.query@) =~= seq![("id"@, id@)] + opt_param("branch"@, opt_str(branch)) + opt_param("limit"@, match limit {
            Some(n) => Some(decimal(n as nat)),
            None => None,
        }));
        assert(pairs_view(r.headers@) =~= seq![]);
        r
    }

    /// Reads the answer to a commit listing.
    pub fn commits_response(status: u16, body: &str) -> (r: Result<Vec<CommitInfo>, GitLitError>)
        ensures
            !is_success(status) ==> (r matches Err(e) && failed_with(e, "commits"@, status)),
            is_success(status) ==> (r is Ok <==> commits_parse(body@)),
            is_success(status) ==> (r matches Ok(xs) ==> commits_json(body@, xs@)),
            is_success(status) ==> (r matches Err(e) ==> e is Serde),
    {
        if !(200 <= status && status < 300) {
            return Err(failure("commits", status));
        }
        match commits_from_json(body) {
            Ok(xs) => Ok(xs),
            Err(e) => Err(GitLitError::Serde(e)),
        }
    }

    /// `GET /content?id` with `path`, `branch` and `commit` where given.
    pub fn content_request(&self, id: &str, path: Option<&str>, branch: Option<&str>, commit: Option<&str>) -> (r: ApiRequest)
        ensures
            request_is(r, Method::Get, endpoint_url(self.base_url(), "content"@),
                path_params(id@, opt_str(path), opt_str(branch), opt_str(commit)), seq![], None, None),
    {
        let r = ApiRequest {
            method: Method::Get,
            url: self.endpoint("content"),
            query: path_query(id, path, branch, commit),
            headers: Vec::new(),
            bearer: None,
            body: None,
        };
        assert(pairs_view(r.headers@) =~= seq![]);
        r
    }

    /// Reads the answer to a content request: a directory listing or a file,
    /// as the body's `kind` says.
    pub fn content_response(status: u16, body: &str) -> (r: Result<ContentResponse, GitLitError>)
        ensures
            !is_success(status) ==> (r matches Err(e) && failed_with(e, "content"@, status)),
            is_success(status) ==> (r is Ok <==> content_parses(body@)),
            is_success(status) ==> (r matches Ok(c) ==> content_json(body@, c)),
            is_success(status) ==> (r matches Err(e) ==> e is Serde),
    {
        if !(200 <= status && status < 300) {
            return Err(failure("content", status));
        }
        match ContentResponse::from_json(body) {
            Ok(c) => Ok(c),
            Err(e) => Err(GitLitError::Serde(e)),
        }
    }

    /// `GET /download?id` with `path`, `branch` and `commit` where given.
    pub fn download_request(&self, id: &str, path: Option<&str>, branch: Option<&str>, commit: Option<&str>) -> (r: ApiRequest)
        ensures
            request_is(r, Method::Get, endpoint_url(self.base_url(), "download"@),
                path_params(id@, opt_str(path), opt_str(branch), opt_str(commit)), seq![], None, None),
    {
        let r = ApiRequest {
            method: Method::Get,
            url: self.endpoint("download"),
            query: path_query(id, path, branch, commit),
            headers: Vec::new(),
            bearer: None,
            body: None,
        };
        assert(pairs_view(r.headers@) =~= seq![]);
        r
    }

    /// Reads the answer to a download: the raw bytes on a 2xx status.
    pub fn download_response(status: u16, body: Vec<u8>) -> (r: Result<Vec<u8>, GitLitError>)
        ensures
            !is_success(status) ==> (r matches Err(e) && failed_with(e, "download"@, status)),
            is_success(status) ==> (r matches Ok(b) && b@ == body@),
    {
        if !(200 <= status && status < 300) {
            return Err(failure("download", status));
        }
        Ok(body)
    }
}

} // verus!
