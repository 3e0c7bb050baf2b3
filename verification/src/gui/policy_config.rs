//! The policy settings of a profile.
use vstd::prelude::*;
use crate::profile::{ApplicationMode, Profile, ProfileView};
use crate::text::{join_strings, joined, list_entries, parse_comma_list};

verus! {

/// What the user does in the policy settings.
pub enum PolicyConfigMsg {
    UpdateProfile(Profile),
    SetApplicationMode(ApplicationMode),
    SetDailyTimeLimit(u32),
    SetBedtimeHour(u32),
    SetWakeupHour(u32),
    SetAllowedApps(String),
    SetBlockedApps(String),
    SaveConfiguration,
    LoadConfiguration,
}

/// The work that a message leaves for the window.
pub enum PolicyConfigEffect {
    /// The settings are to be saved.
    Save,
    /// The settings are to be loaded.
    Load,
}

/// The policy settings view.
pub struct PolicyConfig {
    pub profile: Profile,
    pub application_mode: ApplicationMode,
    pub daily_time_limit_minutes: u32,
    pub bedtime_hour: u32,
    pub wakeup_hour: u32,
    pub allowed_apps: String,
    pub blocked_apps: String,
}

impl PolicyConfig {
    /// The settings of `profile`: its application mode and daily limit,
    /// bedtime at 21 and wake-up at 7, and its application lists joined
    /// with ", ".
    pub fn init(profile: Profile) -> (c: PolicyConfig)
        ensures
            c.profile == profile,
            c.application_mode == profile.config.applications.mode,
            c.daily_time_limit_minutes == profile.config.screen_time.daily_limit_minutes,
            c.bedtime_hour == 21,
            c.wakeup_hour == 7,
            c.allowed_apps@ == joined(profile@.allowed_apps, ", "@),
            c.blocked_apps@ == joined(profile@.blocked_apps, ", "@),
    {
        let allowed_apps = join_strings(&profile.config.applications.allowed, ", ");
        let blocked_apps = join_strings(&profile.config.applications.blocked, ", ");
        PolicyConfig {
            application_mode: profile.config.applications.mode,
            daily_time_limit_minutes: profile.config.screen_time.daily_limit_minutes,
            profile,
            bedtime_hour: 21,
            wakeup_hour: 7,
            allowed_apps,
            blocked_apps,
        }
    }

    /// Handles one message. Application lists are read as comma-separated
    /// names, trimmed, empty names left out.
    pub fn update(&mut self, msg: PolicyConfigMsg) -> (effect: Option<PolicyConfigEffect>)
        ensures
            match msg {
                PolicyConfigMsg::UpdateProfile(p) => *final(self) == (PolicyConfig { profile: p, ..*old(self) })
                    && effect is None,
                PolicyConfigMsg::SetApplicationMode(m) => *final(self) == (PolicyConfig {
                    profile: final(self).profile,
                    application_mode: m,
                    ..*old(self)
                }) && final(self).profile@ == (ProfileView { application_mode: m, ..old(self).profile@ })
                    && effect is None,
                PolicyConfigMsg::SetDailyTimeLimit(m) => *final(self) == (PolicyConfig {
                    profile: final(self).profile,
                    daily_time_limit_minutes: m,
                    ..*old(self)
                }) && final(self).profile@ == (ProfileView { daily_limit_minutes: m, ..old(self).profile@ })
                    && effect is None,
                PolicyConfigMsg::SetBedtimeHour(h) => *final(self) == (PolicyConfig { bedtime_hour: h, ..*old(self) })
                    && effect is None,
                PolicyConfigMsg::SetWakeupHour(h) => *final(self) == (PolicyConfig { wakeup_hour: h, ..*old(self) })
                    && effect is None,
                PolicyConfigMsg::SetAllowedApps(a) => *final(self) == (PolicyConfig {
                    profile: final(self).profile,
                    allowed_apps: a,
                    ..*old(self)
                }) && final(self).profile@ == (ProfileView { allowed_apps: list_entries(a@), ..old(self).profile@ })
                    && effect is None,
                PolicyConfigMsg::SetBlockedApps(a) => *final(self) == (PolicyConfig {
                    profile: final(self).profile,
                    blocked_apps: a,
                    ..*old(self)
                }) && final(self).profile@ == (ProfileView { blocked_apps: list_entries(a@), ..old(self).profile@ })
                    && effect is None,
                PolicyConfigMsg::SaveConfiguration => *final(self) == *old(self)
                    && effect matches Some(PolicyConfigEffect::Save),
                PolicyConfigMsg::LoadConfiguration => *final(self) == *old(self)
                    && effect matches Some(PolicyConfigEffect::Load),
            },
    {
        match msg {
            PolicyConfigMsg::UpdateProfile(profile) => {
                self.profile = profile;
                None
            },
            PolicyConfigMsg::SetApplicationMode(mode) => {
                self.application_mode = mode;
                self.profile.config.applications.mode = mode;
                None
            },
            PolicyConfigMsg::SetDailyTimeLimit(minutes) => {
                self.daily_time_limit_minutes = minutes;
                self.profile.config.screen_time.daily_limit_minutes = minutes;
                None
            },
            PolicyConfigMsg::SetBedtimeHour(hour) => {
                self.bedtime_hour = hour;
                None
            },
            PolicyConfigMsg::SetWakeupHour(hour) => {
                self.wakeup_hour = hour;
                None
            },
            PolicyConfigMsg::SetAllowedApps(apps) => {
                self.profile.config.applications.allowed = parse_comma_list(apps.as_str());
                self.allowed_apps = apps;
                None
            },
            PolicyConfigMsg::SetBlockedApps(apps) => {
                self.profile.config.applications.blocked = parse_comma_list(apps.as_str());
                self.blocked_apps = apps;
                None
            },
            PolicyConfigMsg::SaveConfiguration => Some(PolicyConfigEffect::Save),
            PolicyConfigMsg::LoadConfiguration => Some(PolicyConfigEffect::Load),
        }
    }
}

} // verus!
