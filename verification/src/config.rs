use vstd::prelude::*;
use vstd::string::*;
use crate::ws::errors::{decimal, decimal_text};

verus! {

/// The key that signs session cookies.
pub type SecretKey = [u8; 4096];

/// The name of the configuration file where none is given.
pub const DEFAULT_CONFIG_NAME: &'static str = "pentagame.toml";

/// The name of the key file where none is given.
pub const DEFAULT_KEY_FILE: &'static str = "secret.key";

/// The number of requests that a client may make where no limit is given.
pub const DEFAULT_RATE_LIMIT: usize = 100;

/// The configuration of the process.
#[derive(Clone)]
pub struct Config {
    pub server: ServerConfig,
    pub auth: AuthenticationConfig,
    pub admin: AdminConfig,
}

/// Where the session key lies, and how long a session lasts, in hours.
#[derive(Clone)]
pub struct AuthenticationConfig {
    pub file: String,
    pub salt: String,
    pub session: i64,
}

/// The administrator's account.
#[derive(Clone)]
pub struct AdminConfig {
    pub username: String,
    pub password: String,
}

/// Where the server listens.
#[derive(Clone)]
pub struct ServerConfig {
    pub ip: String,
    pub port: Option<u32>,
}

/// The address to bind to: the ip, a colon and the port, 8080 where none is
/// configured.
pub open spec fn host_text(ip: Seq<char>, port: Option<u32>) -> Seq<char> {
    match port {
        Some(port) => ip + ":"@ + decimal_text(port as nat),
        None => ip + ":8080"@,
    }
}

impl ServerConfig {
    /// The address that the server binds to.
    pub fn host(&self) -> (out: String)
        ensures
            out@ == host_text(self.ip@, self.port),
    {
        let mut out = self.ip.clone();
        match self.port {
            Some(port) => {
                out.append(":");
                let digits = decimal(port as u64);
                out.append(digits.as_str());
            },
            None => {
                out.append(":8080");
            },
        }
        out
    }
}

impl AuthenticationConfig {
    /// How long a session cookie lasts, in seconds; `None` where the
    /// configured hours are more than the cookie's age can hold.
    pub fn max_age(&self) -> (seconds: Option<i64>)
        ensures
            match seconds {
                Some(age) => age == 3600 * self.session,
                None => 3600 * self.session < i64::MIN || 3600 * self.session > i64::MAX,
            },
    {
        if self.session > i64::MAX / 3600 || self.session < i64::MIN / 3600 {
            None
        } else {
            Some(3600 * self.session)
        }
    }
}

impl Config {
    /// Whether a new key is to be generated: the configured key file is
    /// `NEW`.
    pub fn wants_new_key(&self) -> (fresh: bool)
        ensures
            fresh == (self.auth.file@ == "NEW"@),
    {
        let marker = String::from_str("NEW");
        self.auth.file == marker
    }

    /// Points this configuration to the default key file.
    pub fn use_default_key(&mut self)
        ensures
            final(self).auth.file@ == DEFAULT_KEY_FILE@,
            final(self).auth.salt == old(self).auth.salt,
            final(self).auth.session == old(self).auth.session,
            final(self).server == old(self).server,
            final(self).admin == old(self).admin,
    {
        self.auth.file = String::from_str(DEFAULT_KEY_FILE);
    }
}

} // verus!
