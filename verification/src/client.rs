//! The session that a login attempt runs in: one origin, one cookie jar, one
//! browser identity.

use vstd::prelude::*;
use vstd::string::StringExecFns;

verus! {

/// The portal's origin.
pub const BASE_URL: &'static str = "https://jwzf.scau.edu.cn";

/// The browser identity that every request carries.
pub const USER_AGENT: &'static str =
    "Mozilla/5.0 (Windows NT 10.0; Win64; x64) AppleWebKit/537.36";

/// The time allowed for one request, in seconds.
pub const TIMEOUT_SECS: u64 = 30;

/// What a session is set up with. The transport that is built from it owns
/// the cookie jar, and one session serves one login attempt at a time.
#[derive(Clone, Debug)]
pub struct ScauClient {
    base_url: String,
    user_agent: String,
    timeout_secs: u64,
    cookie_store: bool,
}

impl ScauClient {
    /// The origin that every path is resolved against.
    pub closed spec fn origin(&self) -> Seq<char> {
        self.base_url@
    }

    /// The browser identity.
    pub closed spec fn agent(&self) -> Seq<char> {
        self.user_agent@
    }

    /// The request timeout in seconds.
    pub closed spec fn timeout(&self) -> u64 {
        self.timeout_secs
    }

    /// Whether cookies persist from one request to the next.
    pub closed spec fn keeps_cookies(&self) -> bool {
        self.cookie_store
    }

    /// A session bound to the portal, with cookies kept, a timeout of thirty
    /// seconds and the fixed browser identity.
    pub fn new() -> (client: Self)
        ensures
            client.origin() == BASE_URL@,
            client.agent() == USER_AGENT@,
            client.timeout() == TIMEOUT_SECS,
            client.keeps_cookies(),
    {
        ScauClient {
            base_url: String::from_str(BASE_URL),
            user_agent: String::from_str(USER_AGENT),
            timeout_secs: TIMEOUT_SECS,
            cookie_store: true,
        }
    }

    /// The origin.
    pub fn base_url(&self) -> (s: &str)
        ensures
            s@ == self.origin(),
    {
        self.base_url.as_str()
    }

    /// The browser identity.
    pub fn user_agent(&self) -> (s: &str)
        ensures
            s@ == self.agent(),
    {
        self.user_agent.as_str()
    }

    /// The request timeout in seconds.
    pub fn timeout_secs(&self) -> (secs: u64)
        ensures
            secs == self.timeout(),
    {
        self.timeout_secs
    }

    /// Whether cookies persist from one request to the next.
    pub fn cookie_store(&self) -> (kept: bool)
        ensures
            kept == self.keeps_cookies(),
    {
        self.cookie_store
    }

    /// The absolute URL of `path`: the origin followed by the path as it is.
    pub fn url(&self, path: &str) -> (s: String)
        ensures
            s@ == self.origin() + path@,
    {
        String::from_str(self.base_url.as_str()).concat(path)
    }
}

impl Default for ScauClient {
    fn default() -> (client: Self)
        ensures
            client.origin() == BASE_URL@,
            client.agent() == USER_AGENT@,
            client.timeout() == TIMEOUT_SECS,
            client.keeps_cookies(),
    {
        Self::new()
    }
}

} // verus!
