//! The plain configuration values the services load at start-up.
//!
//! Reading and deserializing configuration files is the unverified runtime's
//! work; these are the settled shapes it hands over, plus the few pieces of
//! text the services derive from them (bind addresses, client URLs).
use crate::json::{append_u64, spec_u64_string};
use vstd::prelude::*;

verus! {

/// The web server's own settings.
#[derive(Clone, Debug)]
pub struct ApplicationSettings {
    pub host: String,
    pub port: u16,
    pub base_url: String,
    pub workers: usize,
    pub max_json_payload_size: usize,
}

/// Logging settings.
#[derive(Clone, Debug)]
pub struct LogSettings {
    pub level: String,
    pub rust_log: String,
    pub rust_backtrace: String,
    pub redacted_errors: bool,
}

/// Tracing settings.
#[derive(Clone, Debug)]
pub struct Tracer {
    pub jaeger: Jaeger,
}

/// Where the tracing agent listens.
#[derive(Clone, Debug)]
pub struct Jaeger {
    pub host: String,
    pub port: u16,
}

/// Request rate-limiting settings.
#[derive(Clone, Copy, Debug, PartialEq, Eq, Structural)]
pub struct RateLimitingSettings {
    pub burst_size: u32,
    pub frequency: u64,
}

/// Where the cache server listens.
#[derive(Clone, Debug)]
pub struct RedisClientSettings {
    pub port: u16,
    pub host: String,
}

/// A mount and path within the secret store.
#[derive(Clone, Debug)]
pub struct VaultKvPath {
    pub mount: String,
    pub path: String,
}

/// `host:port`, as servers and agents are dialed.
pub open spec fn spec_endpoint(host: Seq<char>, port: u16) -> Seq<char> {
    host + ":"@ + spec_u64_string(port as nat)
}

/// Renders `host:port`.
pub fn endpoint(host: &str, port: u16) -> (r: String)
    ensures
        r@ == spec_endpoint(host@, port),
{
    let mut out = host.to_owned();
    out.append(":");
    append_u64(&mut out, port as u64);
    proof {
        assert(out@ =~= spec_endpoint(host@, port));
    }
    out
}

impl ApplicationSettings {
    /// The address the web server binds.
    pub fn server_address(&self) -> (r: String)
        ensures
            r@ == spec_endpoint(self.host@, self.port),
    {
        endpoint(self.host.as_str(), self.port)
    }
}

impl Jaeger {
    /// The address the tracing agent is dialed at.
    pub fn agent_endpoint(&self) -> (r: String)
        ensures
            r@ == spec_endpoint(self.host@, self.port),
    {
        endpoint(self.host.as_str(), self.port)
    }
}

impl RedisClientSettings {
    /// The URL the cache client connects to.
    pub fn url(&self) -> (r: String)
        ensures
            r@ == "redis://"@ + spec_endpoint(self.host@, self.port),
    {
        let mut out = String::from_str("redis://");
        out.append(self.host.as_str());
        out.append(":");
        append_u64(&mut out, self.port as u64);
        proof {
            assert(out@ =~= "redis://"@ + spec_endpoint(self.host@, self.port));
        }
        out
    }
}

} // verus!
