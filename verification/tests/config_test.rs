use elspeth_sidecar::config::Config;
use elspeth_sidecar::config::SecurityMode;
use std::path::PathBuf;

fn config(mode: SecurityMode, socket: &str, session: &str, ttl: u64, log_level: &str) -> Config {
    Config {
        mode,
        socket_path: PathBuf::from(socket),
        session_key_path: PathBuf::from(session),
        appuser_uid: 1000,
        grant_ttl_secs: ttl,
        max_request_size_bytes: 1024 * 1024,
        log_level: log_level.to_string(),
    }
}

#[test]
fn test_config_standalone_mode() {
    let config = config(SecurityMode::Standalone, "/tmp/dev.sock", "/tmp/dev.session", 60, "debug");
    assert_eq!(config.mode, SecurityMode::Standalone);
    let warning = config.validate();
    assert!(warning.is_some());
    assert!(warning.unwrap().contains("STANDALONE MODE ACTIVE"));
}

#[test]
fn test_config_grant_ttl_conversion() {
    let config = config(SecurityMode::Sidecar, "/run/sidecar/auth.sock", "/run/sidecar/.session", 120, "info");
    assert_eq!(config.grant_ttl().as_secs(), 120);
    assert_eq!(config.grant_ttl().subsec_nanos(), 0);
}

#[test]
fn sidecar_mode_owes_no_warning() {
    let config = config(SecurityMode::Sidecar, "/run/sidecar/auth.sock", "/run/sidecar/.session", 60, "debug");
    assert_eq!(config.mode, SecurityMode::Sidecar);
    assert_eq!(config.socket_path, PathBuf::from("/run/sidecar/auth.sock"));
    assert_eq!(config.session_key_path, PathBuf::from("/run/sidecar/.session"));
    assert_eq!(config.appuser_uid, 1000);
    assert_eq!(config.grant_ttl_secs, 60);
    assert_eq!(config.log_level, "debug");
    assert!(config.validate().is_none());
}

#[test]
fn grant_ttl_at_the_limits() {
    let zero = config(SecurityMode::Sidecar, "/a", "/b", 0, "info");
    assert_eq!(zero.grant_ttl().as_nanos(), 0);
    let most = config(SecurityMode::Sidecar, "/a", "/b", u64::MAX, "info");
    assert_eq!(most.grant_ttl().as_secs(), u64::MAX);
}
