//! Configuration, read once from the environment before serving begins and
//! passed into the components that need it. Only the shared secret matters to
//! the request-handling core; the other values steer process bootstrap.

use vstd::prelude::*;
use vstd::string::StringExecFns;

verus! {

/// The server's configuration. `secret` has no default: when it is absent,
/// every publish attempt is unauthorized.
pub struct Config {
    pub redis_url: String,
    pub host: String,
    pub port: String,
    pub secret: Option<String>,
}

impl Config {
    /// Builds the configuration from raw environment values, applying the
    /// documented defaults where a value is absent: a local backend URL,
    /// the loopback host, and port 3000.
    pub fn from_env_values(
        redis_url: Option<String>,
        host: Option<String>,
        port: Option<String>,
        secret: Option<String>,
    ) -> (c: Config)
        ensures
            redis_url matches Some(u) ==> c.redis_url@ == u@,
            redis_url is None ==> c.redis_url@ == "redis://127.0.0.1/"@,
            host matches Some(h) ==> c.host@ == h@,
            host is None ==> c.host@ == "127.0.0.1"@,
            port matches Some(p) ==> c.port@ == p@,
            port is None ==> c.port@ == "3000"@,
            c.secret == secret,
    {
        Config {
            redis_url: match redis_url {
                Some(u) => u,
                None => "redis://127.0.0.1/".to_owned(),
            },
            host: match host {
                Some(h) => h,
                None => "127.0.0.1".to_owned(),
            },
            port: match port {
                Some(p) => p,
                None => "3000".to_owned(),
            },
            secret,
        }
    }

    /// The listener address: host, a colon, port.
    pub fn bind_address(&self) -> (a: String)
        ensures
            a@ == self.host@ + ":"@ + self.port@,
    {
        self.host.clone().concat(":").concat(self.port.as_str())
    }
}

} // verus!
