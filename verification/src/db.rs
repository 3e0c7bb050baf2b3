//! The family database's records and the decisions made around its
//! queries: how to connect, which exception lookup to run, how to number a
//! rolled-back policy, and summary arithmetic. The queries themselves run in
//! the application.
use vstd::prelude::*;
use crate::text::{decimal_text, format_i64, str_equal};

verus! {

/// Where the database lives and the optional SQLCipher key.
#[derive(Debug, Clone)]
pub struct DatabaseConfig {
    pub path: String,
    pub encryption_key: Option<String>,
}

/// Connections kept open by the pool.
pub const MAX_POOL_CONNECTIONS: u32 = 5;

impl DatabaseConfig {
    /// The default settings: the file `family.db`, no encryption.
    pub fn default_config() -> (c: DatabaseConfig)
        ensures
            c.path@ == "family.db"@,
            c.encryption_key is None,
    {
        DatabaseConfig { path: String::from_str("family.db"), encryption_key: None }
    }

    /// The SQLite URL of the database.
    pub fn connection_url(&self) -> (url: String)
        ensures
            url@ == "sqlite://"@ + self.path@,
    {
        let mut url = String::from_str("sqlite://");
        url.append(self.path.as_str());
        url
    }

    /// The SQLCipher pragmas to set: the key as a hex literal, a page size
    /// of 4096 and 256000 key-derivation rounds; none without a key.
    pub fn encryption_pragmas(&self) -> (p: Vec<(String, String)>)
        ensures
            self.encryption_key is None ==> p@.len() == 0,
            self.encryption_key matches Some(k) ==> {
                &&& p@.len() == 3
                &&& p@[0].0@ == "key"@ && p@[0].1@ == "x'"@ + k@ + "'"@
                &&& p@[1].0@ == "cipher_page_size"@ && p@[1].1@ == "4096"@
                &&& p@[2].0@ == "kdf_iter"@ && p@[2].1@ == "256000"@
            },
    {
        let mut p = Vec::new();
        match &self.encryption_key {
            Some(key) => {
                let mut value = String::from_str("x'");
                value.append(key.as_str());
                value.append("'");
                p.push((String::from_str("key"), value));
                p.push((String::from_str("cipher_page_size"), String::from_str("4096")));
                p.push((String::from_str("kdf_iter"), String::from_str("256000")));
            },
            None => {},
        }
        p
    }
}

impl Default for DatabaseConfig {
    fn default() -> (c: Self)
        ensures
            c.path@ == "family.db"@,
            c.encryption_key is None,
    {
        DatabaseConfig::default_config()
    }
}

/// How many migrations are applied and pending, and the last applied.
#[derive(Debug, Clone)]
pub struct MigrationStatus {
    pub applied_migrations: i64,
    pub pending_migrations: i64,
    pub last_applied: Option<String>,
}

/// A fresh random UUID from `uuid::Uuid::new_v4`, in the hyphenated
/// lower-case form that its `Display` gives: 36 characters, whatever the
/// random bits.
#[verifier::external_body]
pub(crate) fn new_uuid_string() -> (s: String)
    ensures
        s@.len() == 36,
{
    uuid::Uuid::new_v4().to_string()
}

/// A day's usage summary to record. `date` is the day's number as
/// `chrono::NaiveDate::num_days_from_ce` counts it; the three lists are
/// JSON arrays.
#[derive(Debug, Clone)]
pub struct NewDailySummary {
    pub profile_id: String,
    pub date: i32,
    pub screen_time_seconds: i64,
    pub active_time_seconds: i64,
    pub idle_time_seconds: i64,
    pub app_launches: i64,
    pub unique_apps: i64,
    pub websites_visited: i64,
    pub blocks_count: i64,
    pub violations_count: i64,
    pub top_apps: String,
    pub top_categories: String,
    pub top_websites: String,
}

impl NewDailySummary {
    /// An empty summary of `date` for `profile_id`: every count zero and
    /// every list empty.
    pub fn new(profile_id: String, date: i32) -> (s: NewDailySummary)
        ensures
            s.profile_id == profile_id,
            s.date == date,
            s.screen_time_seconds == 0 && s.active_time_seconds == 0 && s.idle_time_seconds == 0,
            s.app_launches == 0 && s.unique_apps == 0 && s.websites_visited == 0,
            s.blocks_count == 0 && s.violations_count == 0,
            s.top_apps@ == "[]"@ && s.top_categories@ == "[]"@ && s.top_websites@ == "[]"@,
    {
        NewDailySummary {
            profile_id,
            date,
            screen_time_seconds: 0,
            active_time_seconds: 0,
            idle_time_seconds: 0,
            app_launches: 0,
            unique_apps: 0,
            websites_visited: 0,
            blocks_count: 0,
            violations_count: 0,
            top_apps: String::from_str("[]"),
            top_categories: String::from_str("[]"),
            top_websites: String::from_str("[]"),
        }
    }
}

/// An audit-log entry to record.
#[derive(Debug, Clone)]
pub struct NewAuditLog {
    pub actor: String,
    pub action: String,
    pub resource: String,
    pub resource_id: Option<String>,
    pub ip_address: Option<String>,
    pub success: bool,
    pub details: Option<String>,
}

/// A session to open.
#[derive(Debug, Clone)]
pub struct NewSession {
    pub id: String,
    pub profile_id: String,
}

impl NewSession {
    /// A session for `profile_id` with a fresh identifier.
    pub fn new(profile_id: String) -> (s: NewSession)
        ensures
            s.profile_id == profile_id,
            s.id@.len() == 36,
    {
        NewSession { id: new_uuid_string(), profile_id }
    }
}

/// A profile to create; the birthday is a day count.
#[derive(Debug, Clone)]
pub struct NewProfile {
    pub id: String,
    pub name: String,
    pub username: Option<String>,
    pub age_group: String,
    pub birthday: Option<i32>,
    pub config: String,
}

impl NewProfile {
    /// A profile with a fresh identifier and no user name or birthday.
    pub fn new(name: String, age_group: String, config: String) -> (p: NewProfile)
        ensures
            p.name == name,
            p.username is None,
            p.age_group == age_group,
            p.birthday is None,
            p.config == config,
            p.id@.len() == 36,
    {
        NewProfile { id: new_uuid_string(), name, username: None, age_group, birthday: None, config }
    }

    /// A profile with a fresh identifier and the given user name.
    pub fn with_username(name: String, username: Option<String>, age_group: String, config: String) -> (p: NewProfile)
        ensures
            p.name == name,
            p.username == username,
            p.age_group == age_group,
            p.birthday is None,
            p.config == config,
            p.id@.len() == 36,
    {
        NewProfile { id: new_uuid_string(), name, username, age_group, birthday: None, config }
    }
}

/// An activity to record.
#[derive(Debug, Clone)]
pub struct NewActivity {
    pub session_id: String,
    pub profile_id: String,
    pub app_id: String,
    pub app_name: String,
    pub category: Option<String>,
    pub window_title: Option<String>,
    pub duration_seconds: i64,
}

/// An event to record.
#[derive(Debug, Clone)]
pub struct NewEvent {
    pub profile_id: Option<String>,
    pub event_type: String,
    pub severity: String,
    pub details: Option<String>,
    pub metadata: Option<String>,
}

/// A temporary exception to a policy; the expiry is in milliseconds since
/// the Unix epoch.
#[derive(Debug, Clone)]
pub struct NewException {
    pub id: String,
    pub profile_id: String,
    pub exception_type: String,
    pub granted_by: String,
    pub expires_at: i64,
    pub reason: Option<String>,
    pub amount_minutes: Option<i64>,
    pub app_id: Option<String>,
    pub website: Option<String>,
    pub scope: Option<String>,
}

impl NewException {
    /// An exception with a fresh identifier and no details.
    pub fn new(profile_id: String, exception_type: String, granted_by: String, expires_at: i64) -> (e: NewException)
        ensures
            e.profile_id == profile_id,
            e.exception_type == exception_type,
            e.granted_by == granted_by,
            e.expires_at == expires_at,
            e.reason is None,
            e.amount_minutes is None,
            e.app_id is None,
            e.website is None,
            e.scope is None,
            e.id@.len() == 36,
    {
        NewException {
            id: new_uuid_string(),
            profile_id,
            exception_type,
            granted_by,
            expires_at,
            reason: None,
            amount_minutes: None,
            app_id: None,
            website: None,
            scope: None,
        }
    }
}

/// Network activity to record.
#[derive(Debug, Clone)]
pub struct NewNetworkActivity {
    pub profile_id: String,
    pub domain: String,
    pub category: Option<String>,
    pub duration_seconds: Option<i64>,
    pub blocked: bool,
    pub action: String,
    pub reason: Option<String>,
}

/// A terminal command to record.
#[derive(Debug, Clone)]
pub struct NewTerminalActivity {
    pub profile_id: String,
    pub command: String,
    pub risk_level: String,
    pub action: String,
    pub blocked: bool,
}

/// A version of a profile's policy to record.
#[derive(Debug, Clone)]
pub struct NewPolicyVersion {
    pub profile_id: String,
    pub version: i64,
    pub config: String,
    pub changed_by: String,
    pub reason: Option<String>,
}

/// A memory event as stored; times in milliseconds.
#[derive(Debug, Clone)]
pub struct DbMemoryEvent {
    pub id: i64,
    pub profile_id: i64,
    pub pid: i32,
    pub comm: String,
    pub event_type: i32,
    pub size: i64,
    pub page_order: Option<i32>,
    pub timestamp: i64,
}

/// A memory event to store.
#[derive(Debug, Clone)]
pub struct NewMemoryEvent {
    pub profile_id: i64,
    pub pid: i32,
    pub comm: String,
    pub event_type: i32,
    pub size: i64,
    pub page_order: Option<i32>,
    pub timestamp: i64,
}

/// A disk I/O event as stored.
#[derive(Debug, Clone)]
pub struct DbDiskIoEvent {
    pub id: i64,
    pub profile_id: i64,
    pub pid: i32,
    pub comm: String,
    pub device_major: i32,
    pub device_minor: i32,
    pub sector: i64,
    pub nr_sectors: i32,
    pub event_type: i32,
    pub latency_ns: Option<i64>,
    pub timestamp: i64,
}

/// A disk I/O event to store.
#[derive(Debug, Clone)]
pub struct NewDiskIoEvent {
    pub profile_id: i64,
    pub pid: i32,
    pub comm: String,
    pub device_major: i32,
    pub device_minor: i32,
    pub sector: i64,
    pub nr_sectors: i32,
    pub event_type: i32,
    pub latency_ns: Option<i64>,
    pub timestamp: i64,
}

/// Memory statistics of a process over an hour.
#[derive(Debug, Clone)]
pub struct DbMemoryStatsHourly {
    pub id: i64,
    pub profile_id: i64,
    pub pid: i32,
    pub comm: String,
    pub hour_timestamp: i64,
    pub total_allocated_bytes: i64,
    pub total_freed_bytes: i64,
    pub net_allocation_bytes: i64,
    pub peak_allocation_bytes: i64,
    pub allocation_count: i64,
    pub free_count: i64,
}

/// Disk I/O statistics of a process over an hour.
#[derive(Debug, Clone)]
pub struct DbDiskIoStatsHourly {
    pub id: i64,
    pub profile_id: i64,
    pub pid: i32,
    pub comm: String,
    pub device_major: i32,
    pub device_minor: i32,
    pub hour_timestamp: i64,
    pub total_read_bytes: i64,
    pub total_write_bytes: i64,
    pub read_count: i64,
    pub write_count: i64,
    pub total_latency_ns: i64,
    pub min_latency_ns: Option<i64>,
    pub max_latency_ns: Option<i64>,
    pub avg_latency_ns: Option<i64>,
}

/// An application's cached name, category and desktop file.
#[derive(Debug, Clone)]
pub struct NewAppInfoCache {
    pub app_id: String,
    pub app_name: String,
    pub category: Option<String>,
    pub desktop_file: Option<String>,
}

/// Counts over the application cache.
#[derive(Debug, Clone, Copy)]
pub struct AppCacheStats {
    pub total_apps: i64,
    pub apps_with_categories: i64,
    pub unique_categories: i64,
    pub apps_with_desktop_files: i64,
}

/// Counts over the policy cache.
#[derive(Debug, Clone, Copy)]
pub struct PolicyCacheStats {
    pub active_entries: i64,
    pub total_entries: i64,
    pub expired_entries: i64,
    pub profiles_with_cache: i64,
}

/// A rule of a filter list as stored.
#[derive(Debug, Clone)]
pub struct FilterRule {
    pub id: i64,
    pub list_id: String,
    pub rule_type: String,
    pub pattern: String,
    pub action: String,
    pub category: Option<String>,
    pub created_at: i64,
}

/// A rule of a filter list to store.
#[derive(Debug, Clone)]
pub struct FilterRuleData {
    pub rule_type: String,
    pub pattern: String,
    pub action: String,
    pub category: Option<String>,
}

/// Which active exception to look up.
#[derive(Debug, Clone)]
pub enum ExceptionLookup {
    /// An application exception for this application.
    App(String),
    /// A website exception for this website.
    Website(String),
    /// A screen-time exception.
    Time,
    /// An exception of this type, whatever its resource.
    Generic(String),
}

/// Chooses the lookup for an active exception of `exception_type` on
/// `resource_id`: application and website exceptions need a resource, time
/// exceptions have none; anything else is looked up by its type alone.
pub fn exception_lookup(exception_type: &str, resource_id: Option<&str>) -> (l: ExceptionLookup)
    ensures
        exception_type@ == "app"@ && resource_id is Some ==> (l matches ExceptionLookup::App(a)
            && a@ == resource_id->0@),
        exception_type@ == "website"@ && resource_id is Some ==> (l matches ExceptionLookup::Website(w)
            && w@ == resource_id->0@),
        exception_type@ == "time"@ && resource_id is None ==> l is Time,
        !(exception_type@ == "app"@ && resource_id is Some) && !(exception_type@ == "website"@ && resource_id is Some)
            && !(exception_type@ == "time"@ && resource_id is None) ==> (l matches ExceptionLookup::Generic(t)
            && t@ == exception_type@),
{
    proof {
        reveal_strlit("app");
        reveal_strlit("website");
        reveal_strlit("time");
        assert("app"@.len() != "website"@.len());
        assert("app"@ != "website"@);
    }
    match resource_id {
        Some(r) => {
            if str_equal(exception_type, "app") {
                return ExceptionLookup::App(String::from_str(r));
            }
            if str_equal(exception_type, "website") {
                return ExceptionLookup::Website(String::from_str(r));
            }
        },
        None => {
            if str_equal(exception_type, "time") {
                return ExceptionLookup::Time;
            }
        },
    }
    ExceptionLookup::Generic(String::from_str(exception_type))
}

/// The reason recorded for a rollback to `target_version`.
pub open spec fn rollback_reason(target_version: i64, reason: Option<Seq<char>>) -> Seq<char> {
    match reason {
        Some(r) => "Rollback to version "@ + decimal_text(target_version as int) + ": "@ + r,
        None => "Rollback to version "@ + decimal_text(target_version as int),
    }
}

/// The policy version that rolls a profile back to `target_version`: the
/// target's configuration under the number after the latest one.
pub fn rollback_version(
    profile_id: &str,
    target_version: i64,
    target_config: String,
    latest_version: Option<i64>,
    changed_by: &str,
    reason: Option<&str>,
) -> (v: NewPolicyVersion)
    requires
        latest_version matches Some(l) ==> l < i64::MAX,
    ensures
        v.profile_id@ == profile_id@,
        v.version == (match latest_version {
            Some(l) => l + 1,
            None => 1,
        }),
        v.config == target_config,
        v.changed_by@ == changed_by@,
        v.reason matches Some(r) && r@ == rollback_reason(target_version, match reason {
            Some(r) => Some(r@),
            None => None,
        }),
{
    let latest = match latest_version {
        Some(l) => l,
        None => 0,
    };
    let mut text = String::from_str("Rollback to version ");
    let number = format_i64(target_version);
    text.append(number.as_str());
    match reason {
        Some(r) => {
            text.append(": ");
            text.append(r);
        },
        None => {},
    }
    NewPolicyVersion {
        profile_id: String::from_str(profile_id),
        version: latest + 1,
        config: target_config,
        changed_by: String::from_str(changed_by),
        reason: Some(text),
    }
}

/// The daily average of a week's screen time: the total divided by the
/// days from `week_start` to `week_end` inclusive (day numbers), rounded
/// toward zero; `None` when that span is not positive.
pub fn weekly_daily_average(total_seconds: i64, week_start: i32, week_end: i32) -> (avg: Option<i64>)
    ensures
        (week_end as int) - (week_start as int) + 1 <= 0 ==> avg is None,
        (week_end as int) - (week_start as int) + 1 > 0 ==> (avg matches Some(a) && a == (if total_seconds >= 0 {
            total_seconds as int / ((week_end as int) - (week_start as int) + 1)
        } else {
            -((-(total_seconds as int)) / ((week_end as int) - (week_start as int) + 1))
        })),
{
    let days: i64 = (week_end as i64) - (week_start as i64) + 1;
    if days <= 0 {
        return None;
    }
    if total_seconds >= 0 {
        Some(total_seconds / days)
    } else {
        let m: i128 = -(total_seconds as i128);
        let d: i128 = days as i128;
        let q: i128 = m / d;
        proof {
            assert(0 <= q <= m) by (nonlinear_arith)
                requires
                    m > 0,
                    d >= 1,
                    q == m / d,
            ;
        }
        Some((-q) as i64)
    }
}

} // verus!
