use ruad::config::{ConfigError, LogLevel, Options, SUPPORTED_CONFIG_VERSION};

fn parts() -> (LogLevel, String, Option<u64>, u64, bool) {
    (LogLevel::Info, String::from("reg"), Some(60_000), 5_000, true)
}

#[test]
fn from_parts_rejects_unknown_version() {
    let (level, cmd, after, interval, at_startup) = parts();
    let r = Options::from_parts(2, level, cmd, after, interval, at_startup);
    assert_eq!(r, Err(ConfigError::UnknownVersion));
}

#[test]
fn from_parts_rejects_zero_interval() {
    let (level, cmd, after, _, at_startup) = parts();
    let r = Options::from_parts(SUPPORTED_CONFIG_VERSION, level, cmd, after, 0, at_startup);
    assert_eq!(r, Err(ConfigError::ZeroInterval));
}

#[test]
fn from_parts_keeps_every_field() {
    let (level, cmd, after, interval, at_startup) = parts();
    let r = Options::from_parts(SUPPORTED_CONFIG_VERSION, level, cmd, after, interval, at_startup)
        .unwrap();
    assert_eq!(r.log_level, LogLevel::Info);
    assert_eq!(r.reg_cmd, "reg");
    assert_eq!(r.exec_after_logon, Some(60_000));
    assert_eq!(r.exec_at_interval, 5_000);
    assert!(r.exec_at_startup);
}

#[test]
fn unknown_version_wins_over_zero_interval() {
    let (level, cmd, after, _, at_startup) = parts();
    let r = Options::from_parts(0, level, cmd, after, 0, at_startup);
    assert_eq!(r, Err(ConfigError::UnknownVersion));
}
