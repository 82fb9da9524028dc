//! The command line of the client program: the base URL and one command.
use vstd::prelude::*;
use crate::client::{with_default_scheme, with_scheme};

verus! {

/// The parsed command line.
#[derive(Debug, Clone)]
pub struct Cli {
    /// The server's base URL, with or without a scheme.
    pub url: String,
    pub command: Commands,
}

/// One operation of the client, with its arguments.
#[derive(Debug, Clone)]
pub enum Commands {
    Login { login: String, password: String },
    Register { username: String, email: String, password: String },
    Logout,
    Repos { owner: Option<String>, filter: Option<String>, q: Option<String> },
    CreateRepo { name: String, description: Option<String>, private: Option<bool> },
    DeleteRepo { id: String },
    Branches { id: String },
    Commits { id: String, branch: Option<String>, limit: Option<u32> },
    Content { id: String, path: Option<String>, branch: Option<String>, commit: Option<String> },
    Download {
        id: String,
        path: Option<String>,
        branch: Option<String>,
        commit: Option<String>,
        out: String,
    },
}

impl Cli {
    /// The base URL to connect to: `https://` is put in front of a URL that
    /// names neither `http` nor `https`.
    pub fn base_url(&self) -> (r: String)
        ensures
            r@ == with_scheme(self.url@),
    {
        with_default_scheme(self.url.as_str())
    }
}

} // verus!
