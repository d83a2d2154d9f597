//! The server's settings.

use vstd::prelude::*;
use crate::error::VocasyncError;

verus! {

/// The address the server listens on, where the settings name none.
pub fn default_listen_address() -> (res: String)
    ensures
        res@ == "http://0.0.0.0:3939"@,
{
    String::from_str("http://0.0.0.0:3939")
}

/// The web front end the server forwards page requests to, where the
/// settings name none.
pub fn default_frontend_url() -> (res: String)
    ensures
        res@ == "http://localhost:3000"@,
{
    String::from_str("http://localhost:3000")
}

/// How to reach the NetEase Cloud Music API server, and the account to log
/// in with.
pub struct NeteaseConfig {
    pub url: String,
    pub phone_num: String,
    pub password: String,
}

/// The server's settings.
pub struct Config {
    pub listen_address: String,
    pub frontend_url: String,
    pub database_url: String,
    pub neteaseapi: NeteaseConfig,
}

impl Config {
    /// Checks the settings; every setting is accepted.
    pub fn check(&self) -> (res: Result<(), VocasyncError>)
        ensures
            res is Ok,
    {
        Ok(())
    }

    /// Where a page request for `path` is forwarded: the front end's URL,
    /// a slash, and the path (empty for the root page).
    pub fn frontend_target(&self, path: &str) -> (res: String)
        ensures
            res@ == self.frontend_url@ + "/"@ + path@,
    {
        let mut u = self.frontend_url.clone();
        u.append("/");
        u.append(path);
        u
    }
}

} // verus!
