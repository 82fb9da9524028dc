//! The credential store: one token per endpoint identity, one file per token.
//!
//! Where the token file of an identity lies and what its contents yield is
//! decided here; reading and writing the files is left to the caller.
//! `MemoryTokenStore` keeps the same files in memory.
use vstd::prelude::*;
use crate::error::GitLitError;
use crate::model::opt_text;
use crate::text::{push_sanitized, sanitized, trim_text, trimmed};

verus! {

/// The path of `name` in the directory `dir`: a separator is put between
/// them unless `dir` is empty or already ends with one.
pub open spec fn joined(dir: Seq<char>, name: Seq<char>) -> Seq<char> {
    if dir.len() == 0 || dir.last() == '/' {
        dir + name
    } else {
        dir + "/"@ + name
    }
}

/// The token file of `host` in the directory `dir`.
pub open spec fn token_file(dir: Seq<char>, host: Seq<char>) -> Seq<char> {
    joined(dir, sanitized(host) + ".token"@)
}

/// Appends a separator to the directory `dir` where `joined` puts one.
fn push_separator(dir: &mut String)
    ensures
        forall|name: Seq<char>| #[trigger] joined(old(dir)@, name) == final(dir)@ + name,
{
    let n = dir.unicode_len();
    if n > 0 && dir.get_char(n - 1) == '/' {
    } else if n > 0 {
        dir.push('/');
        proof {
            reveal_strlit("/");
            assert("/"@ =~= seq!['/']);
        }
        assert forall|name: Seq<char>| #[trigger] joined(old(dir)@, name) == dir@ + name by {
            assert(old(dir)@ + "/"@ + name =~= dir@ + name);
        }
    }
}

/// The token that a file with these contents holds: the contents without
/// surrounding white space, or none where nothing else is left.
pub open spec fn token_in(contents: Seq<char>) -> Option<Seq<char>> {
    if trimmed(contents).len() == 0 {
        None
    } else {
        Some(trimmed(contents))
    }
}

/// The token stored for `host` when the directory `dir` holds `files`
/// (from path to contents).
pub open spec fn load_from(files: Map<Seq<char>, Seq<char>>, dir: Seq<char>, host: Seq<char>) -> Option<Seq<char>> {
    if files.contains_key(token_file(dir, host)) {
        token_in(files[token_file(dir, host)])
    } else {
        None
    }
}

/// The token that a file holds, from its contents.
pub fn token_from_contents(data: &str) -> (r: Option<String>)
    ensures
        opt_text(r) == token_in(data@),
{
    let t = trim_text(data);
    if t.unicode_len() == 0 {
        None
    } else {
        Some(t)
    }
}

/// Relies on `directories::ProjectDirs::from` and `ProjectDirs::config_dir`:
/// the configuration directory of an application on this platform, if the
/// environment gives one. It depends on the environment, so nothing is stated.
#[verifier::external_body]
pub(crate) fn project_config_dir(qualifier: &str, organization: &str, application: &str) -> Option<String> {
    directories::ProjectDirs::from(qualifier, organization, application)
        .map(|p| p.config_dir().to_string_lossy().into_owned())
}

/// Relies on `std::io::Error::new`: an error of kind `Other` with message `msg`.
#[verifier::external_body]
pub(crate) fn other_io_error(msg: &str) -> std::io::Error {
    std::io::Error::new(std::io::ErrorKind::Other, msg)
}

/// Where the token files lie.
#[derive(Debug, Clone)]
pub struct TokenStore {
    pub path: String,
}

impl TokenStore {
    /// The store in the directory `tokens` of the configuration directory
    /// `dir`; fails with an I/O error where there is no such directory.
    pub fn under_config_dir(dir: Option<String>) -> (r: Result<TokenStore, GitLitError>)
        ensures
            dir matches Some(d) ==> (r matches Ok(s) && s.path@ == joined(d@, "tokens"@)),
            dir is None ==> (r matches Err(e) && e is Io),
    {
        match dir {
            Some(d) => {
                let mut path = d;
                push_separator(&mut path);
                path.push_str("tokens");
                Ok(TokenStore { path })
            },
            None => Err(GitLitError::Io(other_io_error("no config dir"))),
        }
    }

    /// The store under the application's configuration directory; fails with
    /// an I/O error where the platform gives no such directory.
    pub fn new() -> (r: Result<TokenStore, GitLitError>)
        ensures
            r matches Ok(s) ==> exists|d: Seq<char>| s.path@ == joined(d, "tokens"@),
            r matches Err(e) ==> e is Io,
    {
        TokenStore::under_config_dir(project_config_dir("com", "gitlit", "gitlit-cli"))
    }

    /// The store whose files lie in `dir`.
    pub fn in_dir(dir: &str) -> (r: TokenStore)
        ensures
            r.path@ == dir@,
    {
        TokenStore { path: dir.to_string() }
    }

    /// The file that holds the token of `host`: every character of `host` that
    /// is not an ASCII letter or digit becomes `_`, `.token` is appended, and
    /// the name is joined to the directory.
    pub fn token_path(&self, host: &str) -> (r: String)
        ensures
            r@ == token_file(self.path@, host@),
    {
        let mut r = self.path.clone();
        push_separator(&mut r);
        let ghost base = r@;
        push_sanitized(&mut r, host);
        r.push_str(".token");
        assert(r@ =~= base + (sanitized(host@) + ".token"@));
        r
    }
}

/// The files of a directory as a list of (path, contents), a later entry
/// taking the place of an earlier one with the same path.
pub open spec fn files_of(s: Seq<(String, String)>) -> Map<Seq<char>, Seq<char>>
    decreases s.len(),
{
    if s.len() == 0 {
        Map::empty()
    } else {
        files_of(s.drop_last()).insert(s.last().0@, s.last().1@)
    }
}

/// A credential store held in memory, with the same files as on disk.
pub struct MemoryTokenStore {
    pub store: TokenStore,
    pub files: Vec<(String, String)>,
}

impl View for MemoryTokenStore {
    type V = Map<Seq<char>, Seq<char>>;

    open spec fn view(&self) -> Map<Seq<char>, Seq<char>> {
        files_of(self.files@)
    }
}

impl MemoryTokenStore {
    /// An empty store whose files would lie in `dir`.
    pub fn new(dir: &str) -> (r: MemoryTokenStore)
        ensures
            r.store.path@ == dir@,
            r@ == Map::<Seq<char>, Seq<char>>::empty(),
    {
        MemoryTokenStore { store: TokenStore::in_dir(dir), files: Vec::new() }
    }

    /// The token stored for `host`, if any.
    pub fn load(&self, host: &str) -> (r: Option<String>)
        ensures
            opt_text(r) == load_from(self@, self.store.path@, host@),
    {
        let p = self.store.token_path(host);
        let mut found: Option<String> = None;
        let mut i: usize = 0;
        while i < self.files.len()
            invariant
                i <= self.files@.len(),
                p@ == token_file(self.store.path@, host@),
                opt_text(found) == (if files_of(self.files@.take(i as int)).contains_key(p@) {
                    Some(files_of(self.files@.take(i as int))[p@])
                } else {
                    None
                }),
            decreases self.files@.len() - i,
        {
            assert(self.files@.take(i + 1).drop_last() =~= self.files@.take(i as int));
            if self.files[i].0 == p {
                found = Some(self.files[i].1.clone());
            }
            i = i + 1;
        }
        assert(self.files@.take(i as int) =~= self.files@);
        match found {
            Some(c) => token_from_contents(c.as_str()),
            None => None,
        }
    }

    /// Stores `token` for `host`, in place of any earlier one.
    pub fn save(&mut self, host: &str, token: &String)
        ensures
            final(self).store == old(self).store,
            final(self)@ == old(self)@.insert(token_file(old(self).store.path@, host@), token@),
    {
        self.delete(host);
        let p = self.store.token_path(host);
        let ghost before = self.files@;
        self.files.push((p, token.clone()));
        assert(self.files@.drop_last() =~= before);
        assert(self@ =~= old(self)@.insert(token_file(old(self).store.path@, host@), token@));
    }

    /// Removes the token of `host`; nothing happens where there is none.
    pub fn delete(&mut self, host: &str)
        ensures
            final(self).store == old(self).store,
            final(self)@ == old(self)@.remove(token_file(old(self).store.path@, host@)),
    {
        let p = self.store.token_path(host);
        let mut kept: Vec<(String, String)> = Vec::new();
        let mut i: usize = 0;
        while i < self.files.len()
            invariant
                i <= self.files@.len(),
                p@ == token_file(self.store.path@, host@),
                files_of(kept@) == files_of(self.files@.take(i as int)).remove(p@),
            decreases self.files@.len() - i,
        {
            assert(self.files@.take(i + 1).drop_last() =~= self.files@.take(i as int));
            assert(self.files@.take(i + 1).last() == self.files@[i as int]);
            if self.files[i].0 != p {
                let e = (self.files[i].0.clone(), self.files[i].1.clone());
                let ghost before = kept@;
                kept.push(e);
                assert(kept@.drop_last() =~= before);
                assert(files_of(kept@) =~= files_of(self.files@.take(i + 1)).remove(p@));
            } else {
                assert(files_of(self.files@.take(i + 1)).remove(p@) =~= files_of(self.files@.take(i as int)).remove(p@));
            }
            i = i + 1;
        }
        assert(self.files@.take(i as int) =~= self.files@);
        self.files = kept;
    }
}

} // verus!
