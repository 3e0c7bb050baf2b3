//! The parent's dashboard of a profile.
use vstd::prelude::*;
use crate::profile::Profile;

verus! {

/// What the user, the timer and the daemon's answers do on the dashboard.
pub enum DashboardMsg {
    UpdateProfile(Profile),
    UpdateRemainingTime(u32),
    UpdateActivity(String),
    UpdateConnectionStatus(bool),
    RefreshData,
    ConnectToDaemon,
}

/// The work that a message leaves for the window.
pub enum DashboardEffect {
    /// Connect to the daemon and report the outcome.
    Connect,
    /// Ask the daemon for the remaining time and the active profile.
    FetchStatus,
    /// Handle this message next.
    Next(DashboardMsg),
}

/// The dashboard.
pub struct Dashboard {
    pub profile: Profile,
    pub remaining_time: u32,
    pub current_activity: String,
    pub connection_status: bool,
}

/// The text shown for the daemon's active profile.
pub fn activity_line(active_profile: &str) -> (s: String)
    ensures
        s@ == "Profile: "@ + active_profile@,
{
    let mut s = String::from_str("Profile: ");
    s.append(active_profile);
    s
}

/// Seconds between two refreshes of the dashboard.
pub const DASHBOARD_REFRESH_SECONDS: u64 = 10;

impl Dashboard {
    /// The dashboard for `profile`, not connected, with 120 minutes left;
    /// the window then refreshes it every ten seconds and first connects.
    pub fn init(profile: Profile) -> (r: (Dashboard, DashboardMsg))
        ensures
            r.0.profile == profile,
            r.0.remaining_time == 120,
            r.0.current_activity@ == "No activity detected"@,
            !r.0.connection_status,
            r.1 is ConnectToDaemon,
    {
        (
            Dashboard {
                profile,
                remaining_time: 120,
                current_activity: String::from_str("No activity detected"),
                connection_status: false,
            },
            DashboardMsg::ConnectToDaemon,
        )
    }

    /// Handles one message. A refresh asks the daemon when connected and
    /// reconnects first otherwise.
    pub fn update(&mut self, msg: DashboardMsg) -> (effect: Option<DashboardEffect>)
        ensures
            match msg {
                DashboardMsg::UpdateProfile(p) => *final(self) == (Dashboard { profile: p, ..*old(self) })
                    && effect is None,
                DashboardMsg::UpdateRemainingTime(t) => *final(self) == (Dashboard { remaining_time: t, ..*old(self) })
                    && effect is None,
                DashboardMsg::UpdateActivity(a) => *final(self) == (Dashboard { current_activity: a, ..*old(self) })
                    && effect is None,
                DashboardMsg::UpdateConnectionStatus(b) => *final(self) == (Dashboard {
                    connection_status: b,
                    ..*old(self)
                }) && effect is None,
                DashboardMsg::ConnectToDaemon => *final(self) == *old(self) && effect matches Some(DashboardEffect::Connect),
                DashboardMsg::RefreshData => *final(self) == *old(self) && if old(self).connection_status {
                    effect matches Some(DashboardEffect::FetchStatus)
                } else {
                    effect matches Some(DashboardEffect::Next(DashboardMsg::ConnectToDaemon))
                },
            },
    {
        match msg {
            DashboardMsg::UpdateProfile(profile) => {
                self.profile = profile;
                None
            },
            DashboardMsg::UpdateRemainingTime(time) => {
                self.remaining_time = time;
                None
            },
            DashboardMsg::UpdateActivity(activity) => {
                self.current_activity = activity;
                None
            },
            DashboardMsg::UpdateConnectionStatus(status) => {
                self.connection_status = status;
                None
            },
            DashboardMsg::ConnectToDaemon => Some(DashboardEffect::Connect),
            DashboardMsg::RefreshData => {
                if self.connection_status {
                    Some(DashboardEffect::FetchStatus)
                } else {
                    Some(DashboardEffect::Next(DashboardMsg::ConnectToDaemon))
                }
            },
        }
    }
}

} // verus!
