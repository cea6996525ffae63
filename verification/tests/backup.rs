use kehrkraft::backup::naming::Slot;
use kehrkraft::backup::{
    alias_target, canary_time, check_canary, check_integrity, is_valid_prefix, rand_hex,
    run_plan, BackupEnv, BackupError, Config, RunPlan,
};
use chrono::DateTime;
use kehrkraft::dates::UtcTime;

/// An RFC 3339 instant, as chrono parses it.
fn utc(s: &str) -> UtcTime {
    let t = DateTime::parse_from_rfc3339(s).expect("RFC 3339 instant");
    UtcTime {
        secs: t.timestamp(),
        nanos: t.timestamp_subsec_nanos(),
    }
}

fn env(bucket: Option<&str>) -> BackupEnv {
    BackupEnv {
        bucket: bucket.map(str::to_string),
        access_key: Some("access".to_string()),
        secret_key: Some("secret".to_string()),
        passphrase: Some("pw".to_string()),
        ..BackupEnv::default()
    }
}

fn config_message(r: Result<Option<Config>, BackupError>) -> String {
    match r {
        Err(BackupError::Config(m)) => m,
        other => panic!("expected a configuration error, got {other:?}"),
    }
}

#[test]
fn backup_requires_passphrase_but_is_optional_without_bucket() {
    assert!(matches!(Config::from_env(&BackupEnv::default()), Ok(None)));
    assert!(matches!(Config::from_env(&env(Some("  "))), Ok(None)));
    let mut e = env(Some("bucket"));
    e.passphrase = None;
    assert_eq!(
        config_message(Config::from_env(&e)),
        "KEHRKRAFT_BACKUP_PASSPHRASE must be set when backups are enabled; refusing to store unencrypted backups"
    );
}

#[test]
fn configuration_defaults_and_trimming() {
    let c = Config::from_env(&env(Some(" bucket "))).unwrap().unwrap();
    assert_eq!(c.bucket, "bucket");
    assert_eq!(c.region, "us-east-1");
    assert_eq!(c.prefix, "kehrkraft");
    assert_eq!(c.max_age_hours, 26);
    assert!(c.endpoint.is_none());
    let mut e = env(Some("b"));
    e.max_age_hours = Some(" 48 ".to_string());
    e.endpoint = Some("https://s3.example".to_string());
    e.region = Some("eu-central-1".to_string());
    let c = Config::from_env(&e).unwrap().unwrap();
    assert_eq!(c.max_age_hours, 48);
    assert_eq!(c.endpoint.as_deref(), Some("https://s3.example"));
    assert_eq!(c.region, "eu-central-1");
}

#[test]
fn configuration_errors_in_order() {
    let mut e = env(Some("b"));
    e.access_key = None;
    e.secret_key = None;
    assert_eq!(
        config_message(Config::from_env(&e)),
        "KEHRKRAFT_BACKUP_ACCESS_KEY must be set"
    );
    let mut e = env(Some("b"));
    e.secret_key = Some(" ".to_string());
    assert_eq!(
        config_message(Config::from_env(&e)),
        "KEHRKRAFT_BACKUP_SECRET_KEY must be set"
    );
    let mut e = env(Some("b"));
    e.prefix = Some("a/b".to_string());
    assert_eq!(
        config_message(Config::from_env(&e)),
        "invalid KEHRKRAFT_BACKUP_PREFIX \"a/b\": use only ASCII letters, digits, '.', '-' and '_'"
    );
    let mut e = env(Some("b"));
    e.max_age_hours = Some("zwei".to_string());
    assert_eq!(
        config_message(Config::from_env(&e)),
        "invalid KEHRKRAFT_BACKUP_MAX_AGE_HOURS \"zwei\": expected hours as a number"
    );
}

#[test]
fn prefixes() {
    assert!(is_valid_prefix("kehrkraft.prod-1_a"));
    assert!(!is_valid_prefix(""));
    assert!(!is_valid_prefix("a b"));
    assert!(!is_valid_prefix("ä"));
}

#[test]
fn skips_already_covered_slot_then_backs_up_next_hour() {
    let now = utc("2026-09-07T09:30:00Z");
    let earlier = utc("2026-09-07T09:00:05Z");
    match run_plan("kehrkraft", Some(earlier), now) {
        RunPlan::Skip { slot } => assert_eq!(slot, Slot::Hourly),
        other => panic!("unexpected {other:?}"),
    }
    let next_hour = utc("2026-09-07T10:00:00Z");
    match run_plan("kehrkraft", Some(earlier), next_hour) {
        RunPlan::Store { object_name, alias_name, backed_up_at } => {
            assert_eq!(object_name, "kehrkraft.hourly-10.db.age");
            assert_eq!(alias_name, "kehrkraft.hourly-latest.alias");
            assert_eq!(backed_up_at, "2026-09-07T10:00:00Z");
        }
        other => panic!("unexpected {other:?}"),
    }
    assert!(matches!(run_plan("k", None, now), RunPlan::Store { .. }));
}

#[test]
fn canary_reading() {
    assert!(canary_time(None).is_none());
    assert!(canary_time(Some("yesterday")).is_none());
    let t = canary_time(Some("2026-09-07T10:00:00+02:00")).unwrap();
    assert_eq!(t, utc("2026-09-07T08:00:00Z"));
}

#[test]
fn verify_accepts_fresh_backup() {
    let now = utc("2026-09-08T10:00:00Z");
    assert!(check_canary("o", Some("2026-09-07T08:00:00Z"), now, 26).is_ok());
    // Exactly the maximum age is still fresh; a canary from the future too.
    assert!(check_canary("o", Some("2026-09-07T08:00:00Z"), now, 26).is_ok());
    assert!(check_canary("o", Some("2026-09-09T08:00:00Z"), now, 0).is_ok());
}

#[test]
fn verify_rejects_stale_backup() {
    let now = utc("2026-09-08T10:00:01Z");
    match check_canary("o", Some("2026-09-07T08:00:00Z"), now, 26) {
        Err(BackupError::Msg(m)) => assert_eq!(
            m,
            "backup canary too old: 2026-09-07T08:00:00Z (max age 26h)"
        ),
        other => panic!("unexpected {other:?}"),
    }
    match check_canary("obj", None, now, 26) {
        Err(BackupError::Msg(m)) => assert_eq!(m, "backup obj has no canary row"),
        other => panic!("unexpected {other:?}"),
    }
    match check_canary("obj", Some("nope"), now, 26) {
        Err(BackupError::Msg(m)) => assert!(m.starts_with("cannot parse canary timestamp \"nope\": ")),
        other => panic!("unexpected {other:?}"),
    }
}

#[test]
fn alias_and_integrity_checks() {
    assert_eq!(alias_target("a", b" k.hourly-09.db.age\n").unwrap(), "k.hourly-09.db.age");
    match alias_target("a", b"  ") {
        Err(BackupError::Msg(m)) => assert_eq!(m, "alias a is empty"),
        other => panic!("unexpected {other:?}"),
    }
    match alias_target("a", &[0xff, 0xfe]) {
        Err(BackupError::Msg(m)) => assert_eq!(m, "alias a is not valid UTF-8"),
        other => panic!("unexpected {other:?}"),
    }
    assert!(check_integrity("o", "ok").is_ok());
    match check_integrity("o", "row 3 missing") {
        Err(BackupError::Msg(m)) => assert_eq!(m, "integrity check failed for o: row 3 missing"),
        other => panic!("unexpected {other:?}"),
    }
}

#[test]
fn random_hex_names() {
    let a = rand_hex();
    let b = rand_hex();
    assert_eq!(a.len(), 32);
    assert!(a.chars().all(|c| c.is_ascii_digit() || ('a'..='f').contains(&c)));
    assert_ne!(a, b);
}

#[test]
fn bytes_render_as_two_lowercase_hex_digits_each() {
    assert_eq!(kehrkraft::backup::hex_string(&[0x00, 0xab, 0x7f, 0x10]), "00ab7f10");
    assert_eq!(kehrkraft::backup::hex_string(&[]), "");
}

#[test]
fn maximum_ages_from_two_to_the_63_wrap_to_negative_hours() {
    let now = utc("2026-09-08T10:00:00Z");
    // u64::MAX reads as -1 hour: every canary, however fresh, is too old.
    match check_canary("o", Some("2026-09-08T10:00:00Z"), now, u64::MAX) {
        Err(BackupError::Msg(m)) => assert_eq!(
            m,
            "backup canary too old: 2026-09-08T10:00:00Z (max age 18446744073709551615h)"
        ),
        other => panic!("unexpected {other:?}"),
    }
    // Without a canary the maximum is never read.
    match check_canary("obj", None, now, 1u64 << 62) {
        Err(BackupError::Msg(m)) => assert_eq!(m, "backup obj has no canary row"),
        other => panic!("unexpected {other:?}"),
    }
}

#[test]
fn the_canary_a_run_writes_is_checked_by_its_age() {
    let t0 = utc("2026-09-05T10:00:00Z");
    let written = match run_plan("test", None, t0) {
        RunPlan::Store { backed_up_at, .. } => backed_up_at,
        other => panic!("unexpected {other:?}"),
    };
    assert_eq!(written, "2026-09-05T10:00:00Z");
    assert!(check_canary("o", Some(&written), t0, 26).is_ok());
    assert!(check_canary("o", Some(&written), utc("2026-09-06T12:00:00Z"), 26).is_ok());
    match check_canary("o", Some(&written), utc("2026-09-07T10:00:00Z"), 26) {
        Err(BackupError::Msg(m)) => assert!(m.contains("too old"), "{m}"),
        other => panic!("unexpected {other:?}"),
    }
}

#[test]
fn verify_canary_reports_where_chrono_cannot_count_the_hours() {
    let now = utc("2026-09-08T10:00:00Z");
    assert!(kehrkraft::backup::verify_canary("o", Some("2026-09-08T09:00:00Z"), now, 1u64 << 62).is_none());
    assert!(matches!(
        kehrkraft::backup::verify_canary("o", None, now, 1u64 << 62),
        Some(Err(BackupError::Msg(_)))
    ));
    assert!(matches!(
        kehrkraft::backup::verify_canary("o", Some("2026-09-08T09:00:00Z"), now, 26),
        Some(Ok(()))
    ));
    assert!(kehrkraft::backup::hours_in_range(26));
    assert!(kehrkraft::backup::hours_in_range(u64::MAX));
    assert!(!kehrkraft::backup::hours_in_range(1u64 << 62));
}
