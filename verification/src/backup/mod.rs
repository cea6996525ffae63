//! Hourly encrypted SQLite backups to S3-compatible storage with retention.
//!
//! A consistent snapshot, age/scrypt encryption, deterministic slot-based
//! object names that implement retention purely by overwriting (no deletion
//! step), a canary row that keeps a restart from overwriting the current
//! slot's backup, and a check that downloads, decrypts and inspects the
//! latest backup. This module holds what those steps decide; the database,
//! the object store and the clock are driven around it.

pub mod encrypt;
pub mod naming;

use crate::backup::naming::{
    is_last_sunday_of_year, law_different_hours_different_objects,
    latest_alias_name, latest_alias_name_spec, object_name, object_name_spec, slot_of, slot_spec,
    Slot,
};
use crate::dates::{
    chrono_duration_since, chrono_parse_rfc3339, chrono_rfc3339_error, chrono_rfc3339_secs,
    duration_since, format_rfc3339_secs, parse_rfc3339, weekday_of, whole_second_text_of, UtcTime,
};
use crate::db::queries::random_bytes;
use crate::text::{
    debug_text, decimal, decode_utf8, is_blank, parse_unsigned, parse_unsigned_spec, push_char,
    push_decimal, rust_debug_text, str_eq, to_owned, trim, trim_spec, utf8_text,
};
use vstd::prelude::*;

verus! {

#[verifier::external_type_specification]
#[verifier::external_body]
pub struct ExStoreError(object_store::Error);

#[verifier::external_type_specification]
#[verifier::external_body]
pub struct ExEncryptError(age::EncryptError);

#[verifier::external_type_specification]
#[verifier::external_body]
pub struct ExDecryptError(age::DecryptError);

#[verifier::external_type_specification]
#[verifier::external_body]
pub struct ExIoError(std::io::Error);

/// Why a backup step failed.
#[derive(Debug)]
pub enum BackupError {
    Config(String),
    Sqlx(sqlx::Error),
    Store(object_store::Error),
    Encrypt(age::EncryptError),
    Decrypt(age::DecryptError),
    Io(std::io::Error),
    Msg(String),
}

// ---------------------------------------------------------------------------
// Configuration

/// The raw values of the `KEHRKRAFT_BACKUP_*` environment variables, `None`
/// for an unset one.
#[derive(Debug, Clone, Default)]
pub struct BackupEnv {
    pub bucket: Option<String>,
    pub region: Option<String>,
    pub endpoint: Option<String>,
    pub access_key: Option<String>,
    pub secret_key: Option<String>,
    pub passphrase: Option<String>,
    pub prefix: Option<String>,
    pub max_age_hours: Option<String>,
}

/// Backup configuration, read from the `KEHRKRAFT_BACKUP_*` environment.
#[derive(Debug, Clone)]
pub struct Config {
    pub bucket: String,
    pub region: String,
    /// S3-compatible endpoint, e.g. `https://s3.us-west-004.backblazeb2.com`.
    /// When unset, the AWS regional endpoint is used.
    pub endpoint: Option<String>,
    pub access_key: String,
    pub secret_key: String,
    pub passphrase: String,
    /// Object name prefix; defaults to `kehrkraft`.
    pub prefix: String,
    /// Maximum acceptable canary age in hours; used by the backup check.
    pub max_age_hours: u64,
}

/// An environment value as the configuration reads it: trimmed, and unset
/// when blank.
pub open spec fn env_value(raw: Option<String>) -> Option<Seq<char>> {
    match raw {
        Some(v) => if trim_spec(v@).len() == 0 {
            None
        } else {
            Some(trim_spec(v@))
        },
        None => None,
    }
}

fn env_var(raw: &Option<String>) -> (res: Option<String>)
    ensures
        match res {
            Some(v) => env_value(*raw) == Some(v@),
            None => env_value(*raw) is None,
        },
{
    match raw {
        Some(v) => {
            let t = trim(v.as_str());
            if t.unicode_len() == 0 {
                None
            } else {
                Some(to_owned(t))
            }
        },
        None => None,
    }
}

/// A character allowed in an object name prefix: an ASCII letter or digit,
/// `.`, `-` or `_`.
pub open spec fn is_prefix_char(c: char) -> bool {
    let v = c as u32;
    ||| 48 <= v <= 57
    ||| 65 <= v <= 90
    ||| 97 <= v <= 122
    ||| c == '.'
    ||| c == '-'
    ||| c == '_'
}

/// A usable object name prefix: not empty, and made of allowed characters
/// only.
pub open spec fn valid_prefix(prefix: Seq<char>) -> bool {
    prefix.len() > 0 && forall|i: int| 0 <= i < prefix.len() ==> is_prefix_char(#[trigger] prefix[i])
}

pub fn is_valid_prefix(prefix: &str) -> (res: bool)
    ensures
        res == valid_prefix(prefix@),
{
    let n = prefix.unicode_len();
    if n == 0 {
        return false;
    }
    let mut i: usize = 0;
    while i < n
        invariant
            n == prefix@.len(),
            i <= n,
            forall|k: int| 0 <= k < i ==> is_prefix_char(#[trigger] prefix@[k]),
        decreases n - i,
    {
        let c = prefix.get_char(i);
        let v = c as u32;
        if !((48 <= v && v <= 57) || (65 <= v && v <= 90) || (97 <= v && v <= 122) || c == '.'
            || c == '-' || c == '_') {
            return false;
        }
        i = i + 1;
    }
    true
}

/// The largest value of `u64`, the type of the maximum canary age.
pub open spec fn max_u64() -> int {
    0xffff_ffff_ffff_ffff
}

/// The error message for a missing required variable.
pub open spec fn must_be_set(name: Seq<char>) -> Seq<char> {
    name + " must be set"@
}

/// The error message for a missing passphrase.
pub open spec fn passphrase_required() -> Seq<char> {
    "KEHRKRAFT_BACKUP_PASSPHRASE must be set when backups are enabled; refusing to store unencrypted backups"@
}

/// The error message for a prefix with other characters.
pub open spec fn invalid_prefix_message(prefix: Seq<char>) -> Seq<char> {
    "invalid KEHRKRAFT_BACKUP_PREFIX "@ + rust_debug_text(prefix)
        + ": use only ASCII letters, digits, '.', '-' and '_'"@
}

/// The error message for a maximum age that is not a number.
pub open spec fn invalid_max_age_message(value: Seq<char>) -> Seq<char> {
    "invalid KEHRKRAFT_BACKUP_MAX_AGE_HOURS "@ + rust_debug_text(value)
        + ": expected hours as a number"@
}

/// Whether `res` is the configuration error `message`.
pub open spec fn is_config_error<T>(res: Result<T, BackupError>, message: Seq<char>) -> bool {
    res matches Err(BackupError::Config(m)) && m@ == message
}

/// The outcome of reading the backup configuration: disabled without a
/// bucket; with one, the credentials and the passphrase are required
/// (backups are never stored unencrypted), the region defaults to
/// `us-east-1`, the prefix to `kehrkraft` and must be valid, and the
/// maximum canary age defaults to 26 hours and must be a number. The checks
/// go in that order, the first failing one is reported.
pub open spec fn from_env_spec(env: BackupEnv, res: Result<Option<Config>, BackupError>) -> bool {
    if env_value(env.bucket) is None {
        res matches Ok(None)
    } else if env_value(env.access_key) is None {
        is_config_error(res, must_be_set("KEHRKRAFT_BACKUP_ACCESS_KEY"@))
    } else if env_value(env.secret_key) is None {
        is_config_error(res, must_be_set("KEHRKRAFT_BACKUP_SECRET_KEY"@))
    } else if env_value(env.passphrase) is None {
        is_config_error(res, passphrase_required())
    } else {
        let prefix = match env_value(env.prefix) {
            Some(p) => p,
            None => "kehrkraft"@,
        };
        if !valid_prefix(prefix) {
            is_config_error(res, invalid_prefix_message(prefix))
        } else {
            match env_value(env.max_age_hours) {
                Some(v) if parse_unsigned_spec(v, max_u64()) is None => is_config_error(
                    res,
                    invalid_max_age_message(v),
                ),
                _ => res matches Ok(Some(c)) && {
                    &&& Some(c.bucket@) == env_value(env.bucket)
                    &&& c.region@ == match env_value(env.region) {
                        Some(r) => r,
                        None => "us-east-1"@,
                    }
                    &&& opt_seq(c.endpoint) == env_value(env.endpoint)
                    &&& Some(c.access_key@) == env_value(env.access_key)
                    &&& Some(c.secret_key@) == env_value(env.secret_key)
                    &&& Some(c.passphrase@) == env_value(env.passphrase)
                    &&& c.prefix@ == prefix
                    &&& c.max_age_hours == match env_value(env.max_age_hours) {
                        Some(v) => parse_unsigned_spec(v, max_u64())->0,
                        None => 26,
                    }
                },
            }
        }
    }
}

pub open spec fn opt_seq(s: Option<String>) -> Option<Seq<char>> {
    match s {
        Some(x) => Some(x@),
        None => None,
    }
}

fn config_error<T>(message: String) -> (res: Result<T, BackupError>)
    ensures
        is_config_error(res, message@),
{
    Err(BackupError::Config(message))
}

impl Config {
    /// Read the backup configuration from the values of the environment
    /// variables (see [`from_env_spec`]): `Ok(None)` when backups are
    /// disabled (`KEHRKRAFT_BACKUP_BUCKET` unset).
    pub fn from_env(env: &BackupEnv) -> (res: Result<Option<Config>, BackupError>)
        ensures
            from_env_spec(*env, res),
    {
        let bucket = match env_var(&env.bucket) {
            Some(b) => b,
            None => {
                return Ok(None);
            },
        };
        let access_key = match env_var(&env.access_key) {
            Some(v) => v,
            None => {
                let mut m = to_owned("KEHRKRAFT_BACKUP_ACCESS_KEY");
                m.append(" must be set");
                return config_error(m);
            },
        };
        let secret_key = match env_var(&env.secret_key) {
            Some(v) => v,
            None => {
                let mut m = to_owned("KEHRKRAFT_BACKUP_SECRET_KEY");
                m.append(" must be set");
                return config_error(m);
            },
        };
        let passphrase = match env_var(&env.passphrase) {
            Some(p) => p,
            None => {
                return config_error(
                    to_owned(
                        "KEHRKRAFT_BACKUP_PASSPHRASE must be set when backups are enabled; refusing to store unencrypted backups",
                    ),
                );
            },
        };
        let region = match env_var(&env.region) {
            Some(r) => r,
            None => to_owned("us-east-1"),
        };
        let prefix = match env_var(&env.prefix) {
            Some(p) => p,
            None => to_owned("kehrkraft"),
        };
        if !is_valid_prefix(prefix.as_str()) {
            let mut m = to_owned("invalid KEHRKRAFT_BACKUP_PREFIX ");
            let quoted = debug_text(prefix.as_str());
            m.append(quoted.as_str());
            m.append(": use only ASCII letters, digits, '.', '-' and '_'");
            return config_error(m);
        }
        let max_age_hours: u64 = match env_var(&env.max_age_hours) {
            None => 26,
            Some(v) => match parse_unsigned(v.as_str(), 0xffff_ffff_ffff_ffff) {
                Some(h) => h,
                None => {
                    let mut m = to_owned("invalid KEHRKRAFT_BACKUP_MAX_AGE_HOURS ");
                    let quoted = debug_text(v.as_str());
                    m.append(quoted.as_str());
                    m.append(": expected hours as a number");
                    return config_error(m);
                },
            },
        };
        let endpoint = env_var(&env.endpoint);
        Ok(
            Some(
                Config {
                    bucket,
                    region,
                    endpoint,
                    access_key,
                    secret_key,
                    passphrase,
                    prefix,
                    max_age_hours,
                },
            ),
        )
    }
}

// ---------------------------------------------------------------------------
// A backup run

/// The outcome of a single backup run.
#[derive(Debug)]
pub enum RunOutcome {
    Stored { object_name: String },
    Skipped { slot: Slot },
}

/// What a backup run does, once it knows when the last backup was taken.
#[derive(Debug)]
pub enum RunPlan {
    /// The current slot is covered already: keep its backup.
    Skip { slot: Slot },
    /// Take the backup: record `backed_up_at` in the canary, store the
    /// encrypted snapshot as `object_name`, and point `alias_name` at it.
    Store { object_name: String, alias_name: String, backed_up_at: String },
}

/// The plan of a run at `now` for a canary that records the previous
/// backup at `previous` (if it records a readable time): skip when that
/// backup has the object name a backup now would get (e.g. after a restart
/// within the same hour), so the existing backup is not overwritten;
/// otherwise store under the current slot's names.
pub open spec fn run_plan_spec(prefix: Seq<char>, previous: Option<UtcTime>, now: UtcTime, plan: RunPlan) -> bool {
    if previous matches Some(p) && object_name_spec(prefix, p) == object_name_spec(prefix, now) {
        plan matches RunPlan::Skip { slot } && slot == slot_spec(now)
    } else {
        plan matches RunPlan::Store { object_name, alias_name, backed_up_at } && object_name@
            == object_name_spec(prefix, now) && alias_name@ == latest_alias_name_spec(
            prefix,
            slot_spec(now),
        ) && backed_up_at@ == chrono_rfc3339_secs(now.secs as int, now.nanos as int)
    }
}

/// A run one hour after a backup stores a new object: the previous backup's
/// name is not the current one, so nothing is skipped.
pub proof fn law_next_hour_is_stored(prefix: Seq<char>, previous: UtcTime, now: UtcTime, plan: RunPlan)
    requires
        now.secs == previous.secs + 3600,
        run_plan_spec(prefix, Some(previous), now, plan),
    ensures
        plan matches RunPlan::Store { object_name, .. } && object_name@ == object_name_spec(
            prefix,
            now,
        ),
{
    let s = previous.secs as int;
    let r = s % 86400;
    let q = s / 86400;
    assert(s == 86400 * q + r && 0 <= r < 86400);
    if r < 82800 {
        assert(s + 3600 == 86400 * q + (r + 3600));
        assert(now.second_of_day() == r + 3600);
    } else {
        assert(s + 3600 == 86400 * (q + 1) + (r + 3600 - 86400));
        assert(now.second_of_day() == r + 3600 - 86400);
    }
    assert(now.hour_spec() != previous.hour_spec());
    law_different_hours_different_objects(prefix, previous, now);
}

/// Decide a backup run at `now` (see [`run_plan_spec`]).
pub fn run_plan(prefix: &str, previous: Option<UtcTime>, now: UtcTime) -> (res: RunPlan)
    requires
        now.valid(),
        previous matches Some(p) ==> p.valid(),
    ensures
        run_plan_spec(prefix@, previous, now, res),
{
    let name = object_name(prefix, now);
    match previous {
        Some(p) => {
            let before = object_name(prefix, p);
            if str_eq(before.as_str(), name.as_str()) {
                return RunPlan::Skip { slot: slot_of(now) };
            }
        },
        None => {},
    }
    let alias_name = latest_alias_name(prefix, slot_of(now));
    let backed_up_at = format_rfc3339_secs(now);
    RunPlan::Store { object_name: name, alias_name, backed_up_at }
}

/// A run never overwrites the backup that the canary records: it stores
/// only under a name different from that backup's.
pub proof fn law_run_keeps_covered_slot(prefix: Seq<char>, previous: UtcTime, now: UtcTime, plan: RunPlan)
    requires
        run_plan_spec(prefix, Some(previous), now, plan),
        plan is Store,
    ensures
        plan->Store_object_name@ != object_name_spec(prefix, previous),
{
}

/// A stored run points the latest alias of the slot of `now` at its
/// object: `{prefix}.hourly-latest.alias` outside 04:00 UTC;
/// `{prefix}.daily-latest.alias` at 04:00 from Monday to Saturday;
/// `{prefix}.weekly-latest.alias` at 04:00 on a Sunday other than the last
/// Sunday of the year; `{prefix}.yearly-latest.alias` at 04:00 on that one.
pub proof fn law_stored_alias_names_the_slot(
    prefix: Seq<char>,
    previous: Option<UtcTime>,
    now: UtcTime,
    plan: RunPlan,
)
    requires
        run_plan_spec(prefix, previous, now, plan),
        plan is Store,
    ensures
        plan->Store_alias_name@ == prefix + seq!['.'] + (if now.hour_spec() != 4 {
            "hourly"@
        } else if weekday_of(now.date_days()) != 6 {
            "daily"@
        } else if is_last_sunday_of_year(now.date_days()) {
            "yearly"@
        } else {
            "weekly"@
        }) + "-latest.alias"@,
{
}

/// The time a canary's `backed_up_at` records: `None` when the canary is
/// missing or unreadable (the protection is best-effort, and a corrupt
/// canary must not stop future backups forever).
pub fn canary_time(backed_up_at: Option<&str>) -> (res: Option<UtcTime>)
    ensures
        match backed_up_at {
            None => res is None,
            Some(raw) => match chrono_parse_rfc3339(raw@) {
                Some(t) => res matches Some(r) && r.valid() && (r.secs as int, r.nanos as int)
                    == t,
                None => res is None,
            },
        },
{
    match backed_up_at {
        None => None,
        Some(raw) => match parse_rfc3339(raw) {
            Ok(t) => Some(t),
            Err(_) => None,
        },
    }
}

// ---------------------------------------------------------------------------
// Checking the latest backup

/// The error `Msg(message)`.
pub open spec fn is_msg_error<T>(res: Result<T, BackupError>, message: Seq<char>) -> bool {
    res matches Err(BackupError::Msg(m)) && m@ == message
}

fn msg_error<T>(message: String) -> (res: Result<T, BackupError>)
    ensures
        is_msg_error(res, message@),
{
    Err(BackupError::Msg(message))
}

/// The object an alias names: its content read as UTF-8 and trimmed, which
/// must not be empty.
pub fn alias_target(alias: &str, content: &[u8]) -> (res: Result<String, BackupError>)
    ensures
        match utf8_text(content@) {
            None => is_msg_error(res, "alias "@ + alias@ + " is not valid UTF-8"@),
            Some(text) => if trim_spec(text).len() == 0 {
                is_msg_error(res, "alias "@ + alias@ + " is empty"@)
            } else {
                res matches Ok(name) && name@ == trim_spec(text)
            },
        },
{
    let text = match decode_utf8(content) {
        Some(t) => t,
        None => {
            let mut m = to_owned("alias ");
            m.append(alias);
            m.append(" is not valid UTF-8");
            return msg_error(m);
        },
    };
    let name = trim(text.as_str());
    if name.unicode_len() == 0 {
        let mut m = to_owned("alias ");
        m.append(alias);
        m.append(" is empty");
        return msg_error(m);
    }
    Ok(to_owned(name))
}

/// The result of SQLite's `PRAGMA integrity_check` must be `ok`.
pub fn check_integrity(object_name: &str, integrity: &str) -> (res: Result<(), BackupError>)
    ensures
        integrity@ == "ok"@ ==> res is Ok,
        integrity@ != "ok"@ ==> is_msg_error(
            res,
            "integrity check failed for "@ + object_name@ + ": "@ + integrity@,
        ),
{
    if str_eq(integrity, "ok") {
        return Ok(());
    }
    let mut m = to_owned("integrity check failed for ");
    m.append(object_name);
    m.append(": ");
    m.append(integrity);
    msg_error(m)
}

/// The most hours a maximum canary age can have: chrono's `TimeDelta`
/// holds at most `i64::MAX` milliseconds, and `TimeDelta::hours` panics
/// beyond that.
pub open spec fn max_age_hours_limit() -> int {
    2562047788015
}

/// The configured maximum age as the signed hour count the check uses
/// (`max_age_hours as i64`): values from 2^63 on wrap to negative counts.
pub open spec fn signed_hours(max_age_hours: int) -> int {
    if max_age_hours < 0x8000_0000_0000_0000 {
        max_age_hours
    } else {
        max_age_hours - 0x1_0000_0000_0000_0000
    }
}

/// Whether chrono's `TimeDelta::hours` accepts the signed hour count of the
/// configured maximum; it panics beyond.
pub open spec fn hours_representable(max_age_hours: int) -> bool {
    -max_age_hours_limit() <= signed_hours(max_age_hours) <= max_age_hours_limit()
}

/// Whether a canary of age `span` is too old for a maximum of `hours`: a
/// negative age counts as zero, and an age of exactly the maximum is still
/// fresh (so every age is too old for a negative maximum).
pub open spec fn too_old(span_nanos: int, hours: int) -> bool {
    (if span_nanos < 0 {
        0
    } else {
        span_nanos
    }) > hours * 3600 * 1_000_000_000
}

/// The age at `now` of a canary stamped `t` (seconds and nanoseconds), in
/// nanoseconds: the difference of the two instants, as chrono's
/// `signed_duration_since` gives it (see [`chrono_duration_since`] for the
/// case of leap seconds).
pub open spec fn canary_age(now: UtcTime, t: (int, int)) -> int {
    if now.nanos < 1_000_000_000 && t.1 < 1_000_000_000 {
        (now.secs - t.0) * 1_000_000_000 + now.nanos - t.1
    } else {
        let d = chrono_duration_since(now.secs as int, now.nanos as int, t.0, t.1);
        d.0 * 1_000_000_000 + d.1
    }
}

/// A canary outside leap seconds is too old exactly when more than
/// `max_age_hours` hours lie between it and `now`.
pub proof fn law_canary_age_is_the_difference(now: UtcTime, t: (int, int), max_age_hours: int)
    requires
        max_age_hours >= 0,
        now.nanos < 1_000_000_000,
        0 <= t.1 < 1_000_000_000,
    ensures
        too_old(canary_age(now, t), max_age_hours) <==> (now.secs - t.0) * 1_000_000_000 + now.nanos
            - t.1 > max_age_hours * 3600 * 1_000_000_000,
{
}

/// The canary check: the backup must carry a canary row, its timestamp must
/// parse, and its age at `now` must not exceed `max_age_hours`.
pub open spec fn canary_check_spec(
    object_name: Seq<char>,
    backed_up_at: Option<Seq<char>>,
    now: UtcTime,
    max_age_hours: int,
    res: Result<(), BackupError>,
) -> bool {
    match backed_up_at {
        None => is_msg_error(res, "backup "@ + object_name + " has no canary row"@),
        Some(raw) => match chrono_parse_rfc3339(raw) {
            None => is_msg_error(
                res,
                "cannot parse canary timestamp "@ + rust_debug_text(raw) + ": "@
                    + chrono_rfc3339_error(raw),
            ),
            Some(t) => {
                let span = canary_age(now, t);
                if too_old(span, signed_hours(max_age_hours)) {
                    is_msg_error(
                        res,
                        "backup canary too old: "@ + raw + " (max age "@ + decimal(
                            max_age_hours as nat,
                        ) + "h)"@,
                    )
                } else {
                    res is Ok
                }
            },
        },
    }
}

/// For a canary written as the whole-second text of an instant `t` (as a
/// backup run writes it), the check passes exactly when the canary is not
/// too old at `now`, its age being the difference of `now` and `t` without
/// its fraction.
pub open spec fn fresh_text_verdict(raw: Seq<char>, now: UtcTime, max_age_hours: int, res: Result<(), BackupError>) -> bool {
    forall|t: UtcTime|
        #[trigger] whole_second_text_of(raw, t) ==> ((res is Ok) <==> !too_old(
            canary_age(now, (t.secs as int, 0int)),
            signed_hours(max_age_hours),
        ))
}

/// Check the canary of a downloaded backup (see [`canary_check_spec`]).
/// chrono's `TimeDelta::hours` panics on a maximum beyond its range once a
/// canary has parsed, so such a maximum is left out then.
pub fn check_canary(object_name: &str, backed_up_at: Option<&str>, now: UtcTime, max_age_hours: u64) -> (res: Result<(), BackupError>)
    requires
        now.valid(),
        (backed_up_at matches Some(b) && chrono_parse_rfc3339(b@) is Some) ==> hours_representable(
            max_age_hours as int,
        ),
    ensures
        canary_check_spec(
            object_name@,
            match backed_up_at {
                Some(b) => Some(b@),
                None => None,
            },
            now,
            max_age_hours as int,
            res,
        ),
        backed_up_at matches Some(b) ==> fresh_text_verdict(b@, now, max_age_hours as int, res),
{
    let raw = match backed_up_at {
        Some(b) => b,
        None => {
            let mut m = to_owned("backup ");
            m.append(object_name);
            m.append(" has no canary row");
            return msg_error(m);
        },
    };
    let timestamp = match parse_rfc3339(raw) {
        Ok(t) => t,
        Err(e) => {
            let mut m = to_owned("cannot parse canary timestamp ");
            let quoted = debug_text(raw);
            m.append(quoted.as_str());
            m.append(": ");
            m.append(e.as_str());
            return msg_error(m);
        },
    };
    let age = duration_since(now, timestamp);
    let raw_span: i128 = age.secs as i128 * 1_000_000_000i128 + age.subsec_nanos as i128;
    let span: i128 = if raw_span < 0 {
        0
    } else {
        raw_span
    };
    let hours: i128 = if max_age_hours <= 0x7fff_ffff_ffff_ffffu64 {
        max_age_hours as i128
    } else {
        max_age_hours as i128 - 0x1_0000_0000_0000_0000i128
    };
    let limit: i128 = hours * 3600i128 * 1_000_000_000i128;
    if span > limit {
        let mut m = to_owned("backup canary too old: ");
        m.append(raw);
        m.append(" (max age ");
        push_decimal(&mut m, max_age_hours);
        m.append("h)");
        return msg_error(m);
    }
    Ok(())
}

/// Whether chrono's `TimeDelta::hours` accepts the signed hour count of the
/// configured maximum (see [`hours_representable`]).
pub fn hours_in_range(max_age_hours: u64) -> (res: bool)
    ensures
        res == hours_representable(max_age_hours as int),
{
    let hours: i128 = if max_age_hours <= 0x7fff_ffff_ffff_ffffu64 {
        max_age_hours as i128
    } else {
        max_age_hours as i128 - 0x1_0000_0000_0000_0000i128
    };
    -2562047788015i128 <= hours && hours <= 2562047788015i128
}

/// The canary check of `verify`, or `None` where chrono's `TimeDelta::hours`
/// would panic: the canary parses and the maximum age lies beyond chrono's
/// range (see [`check_canary`]).
pub fn verify_canary(object_name: &str, backed_up_at: Option<&str>, now: UtcTime, max_age_hours: u64) -> (res: Option<Result<(), BackupError>>)
    requires
        now.valid(),
    ensures
        match res {
            None => (backed_up_at matches Some(b) && chrono_parse_rfc3339(b@) is Some)
                && !hours_representable(max_age_hours as int),
            Some(r) => canary_check_spec(
                object_name@,
                match backed_up_at {
                    Some(b) => Some(b@),
                    None => None,
                },
                now,
                max_age_hours as int,
                r,
            ) && (backed_up_at matches Some(b) ==> fresh_text_verdict(
                b@,
                now,
                max_age_hours as int,
                r,
            )),
        },
{
    if !hours_in_range(max_age_hours) && canary_time(backed_up_at).is_some() {
        return None;
    }
    Some(check_canary(object_name, backed_up_at, now, max_age_hours))
}

// ---------------------------------------------------------------------------
// Random names

/// The two lowercase hex digits of a byte.
pub open spec fn hex_digit(d: int) -> char {
    if d < 10 {
        (48 + d) as char
    } else {
        (87 + d) as char
    }
}

/// Bytes as lowercase hex, two digits each.
pub open spec fn hex_spec(bytes: Seq<u8>) -> Seq<char>
    decreases bytes.len(),
{
    if bytes.len() == 0 {
        seq![]
    } else {
        hex_spec(bytes.drop_last()) + seq![
            hex_digit(bytes.last() as int / 16),
            hex_digit(bytes.last() as int % 16),
        ]
    }
}

fn hex_char(d: u8) -> (res: char)
    requires
        d < 16,
    ensures
        res == hex_digit(d as int),
{
    if d < 10 {
        (48 + d) as char
    } else {
        (87 + d) as char
    }
}

/// Bytes as lowercase hex, two digits per byte.
pub fn hex_string(bytes: &[u8]) -> (res: String)
    ensures
        res@ == hex_spec(bytes@),
{
    let mut out = String::new();
    let mut i: usize = 0;
    while i < bytes.len()
        invariant
            i <= bytes@.len(),
            out@ == hex_spec(bytes@.subrange(0, i as int)),
        decreases bytes@.len() - i,
    {
        let b = bytes[i];
        push_char(&mut out, hex_char(b / 16));
        push_char(&mut out, hex_char(b % 16));
        proof {
            let s = bytes@.subrange(0, i + 1);
            assert(s.drop_last() =~= bytes@.subrange(0, i as int));
            assert(s.last() == b);
        }
        assert(out@ =~= hex_spec(bytes@.subrange(0, i + 1)));
        i = i + 1;
    }
    assert(bytes@.subrange(0, bytes@.len() as int) =~= bytes@);
    out
}

/// Random lowercase-hex string for temp file names and canary job ids (16
/// random bytes, 32 hex digits).
pub fn rand_hex() -> (res: String)
    ensures
        exists|b: Seq<u8>| b.len() == 16 && res@ == hex_spec(b),
{
    let bytes = random_bytes(16);
    hex_string(bytes.as_slice())
}

} // verus!
