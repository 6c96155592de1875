//! The daemon's configuration, as the core consumes it.

use crate::clock::duration_nanos;
use std::path::PathBuf;
use std::time::Duration;
use vstd::prelude::*;

verus! {

/// `std::path::PathBuf`; the core carries paths and never reads them.
#[verifier::external_type_specification]
#[verifier::external_body]
pub struct ExPathBuf(PathBuf);

/// `PathBuf::clone`; the core carries paths and never reads them, so nothing
/// is claimed of the copy.
pub assume_specification[ <PathBuf as Clone>::clone ](path: &PathBuf) -> (copy: PathBuf)
;

/// The security mode, which has no default.
#[derive(Debug, Clone, Copy, PartialEq, Eq, Structural)]
pub enum SecurityMode {
    /// Hardened mode: the secrets live in the daemon only.
    Sidecar,
    /// Development mode. The core behaves as in `Sidecar`; a warning is owed
    /// at startup.
    Standalone,
}

/// The configuration of one daemon.
#[derive(Debug, Clone)]
pub struct Config {
    /// The security mode.
    pub mode: SecurityMode,
    /// Where the local socket is bound.
    pub socket_path: PathBuf,
    /// Where the session key is kept.
    pub session_key_path: PathBuf,
    /// The only user id whose connections are served.
    pub appuser_uid: u32,
    /// The time to live of grants and of tickets, in seconds.
    pub grant_ttl_secs: u64,
    /// The largest request that is read, in bytes.
    pub max_request_size_bytes: u64,
    /// The log level; the core does not read it.
    pub log_level: String,
}

/// The warning owed at startup in standalone mode.
pub open spec fn standalone_warning() -> Seq<char> {
    "STANDALONE MODE ACTIVE: secrets are not isolated from the orchestrator; for development only"@
}

impl Config {
    /// Looks the configuration over and returns the warning that is owed at
    /// startup: one in standalone mode, none in sidecar mode.
    pub fn validate(&self) -> (warning: Option<String>)
        ensures
            self.mode == SecurityMode::Standalone ==> warning is Some && warning->0@ == standalone_warning(),
            self.mode == SecurityMode::Sidecar ==> warning is None,
    {
        if self.mode == SecurityMode::Standalone {
            Some(
                "STANDALONE MODE ACTIVE: secrets are not isolated from the orchestrator; for development only".to_string(),
            )
        } else {
            None
        }
    }

    /// How often the tables are cleaned up: once every time to live, so that
    /// no expired entry outlives its expiry by more than one interval; once a
    /// second where the time to live is zero.
    pub fn cleanup_interval(&self) -> (interval: Duration)
        ensures
            self.grant_ttl_secs > 0 ==> duration_nanos(interval) == self.grant_ttl_secs * 1_000_000_000,
            self.grant_ttl_secs == 0 ==> duration_nanos(interval) == 1_000_000_000,
    {
        if self.grant_ttl_secs == 0 {
            Duration::from_secs(1)
        } else {
            Duration::from_secs(self.grant_ttl_secs)
        }
    }

    /// The time to live of grants and of tickets.
    pub fn grant_ttl(&self) -> (ttl: Duration)
        ensures
            duration_nanos(ttl) == self.grant_ttl_secs * 1_000_000_000,
    {
        Duration::from_secs(self.grant_ttl_secs)
    }
}

} // verus!
