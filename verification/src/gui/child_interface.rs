//! The child's own view of screen time.
use vstd::prelude::*;
use crate::profile::Profile;

verus! {

/// What the timer, the child and the daemon's answers do in the view.
pub enum ChildInterfaceMsg {
    UpdateProfile(Profile),
    UpdateRemainingTime(u32),
    UpdateActivity(String),
    ShowTimeWarning(bool),
    RefreshData,
    RequestExtraTime,
    RequestPermission(String),
}

/// The work that a message leaves for the window.
pub enum ChildInterfaceEffect {
    /// Ask the daemon for the remaining time and the active profile.
    FetchStatus,
    /// Handle this message next.
    Next(ChildInterfaceMsg),
}

/// Minutes left at or below which the child is warned.
pub const TIME_WARNING_MINUTES: u32 = 15;

/// Seconds between two refreshes of the view.
pub const CHILD_REFRESH_SECONDS: u64 = 30;

/// The child's view.
pub struct ChildInterface {
    pub profile: Profile,
    pub remaining_time: u32,
    pub current_activity: String,
    pub time_limit_warning: bool,
}

/// The text shown for the daemon's active profile.
pub fn current_line(active_profile: &str) -> (s: String)
    ensures
        s@ == "Current: "@ + active_profile@,
{
    let mut s = String::from_str("Current: ");
    s.append(active_profile);
    s
}

impl ChildInterface {
    /// The view for `profile` with 45 minutes left, then a refresh; the
    /// window refreshes it every thirty seconds.
    pub fn init(profile: Profile) -> (r: (ChildInterface, ChildInterfaceMsg))
        ensures
            r.0.profile == profile,
            r.0.remaining_time == 45,
            r.0.current_activity@ == "Reading app"@,
            !r.0.time_limit_warning,
            r.1 is RefreshData,
    {
        (
            ChildInterface {
                profile,
                remaining_time: 45,
                current_activity: String::from_str("Reading app"),
                time_limit_warning: false,
            },
            ChildInterfaceMsg::RefreshData,
        )
    }

    /// Handles one message. A new remaining time is followed by turning the
    /// warning on exactly when at most fifteen minutes are left.
    pub fn update(&mut self, msg: ChildInterfaceMsg) -> (effect: Option<ChildInterfaceEffect>)
        ensures
            match msg {
                ChildInterfaceMsg::UpdateProfile(p) => *final(self) == (ChildInterface { profile: p, ..*old(self) })
                    && effect is None,
                ChildInterfaceMsg::UpdateRemainingTime(t) => *final(self) == (ChildInterface {
                    remaining_time: t,
                    ..*old(self)
                })
                    && (effect matches Some(ChildInterfaceEffect::Next(ChildInterfaceMsg::ShowTimeWarning(w)))
                        && w == (t <= TIME_WARNING_MINUTES)),
                ChildInterfaceMsg::UpdateActivity(a) => *final(self) == (ChildInterface {
                    current_activity: a,
                    ..*old(self)
                }) && effect is None,
                ChildInterfaceMsg::ShowTimeWarning(w) => *final(self) == (ChildInterface {
                    time_limit_warning: w,
                    ..*old(self)
                }) && effect is None,
                ChildInterfaceMsg::RefreshData => *final(self) == *old(self)
                    && effect matches Some(ChildInterfaceEffect::FetchStatus),
                ChildInterfaceMsg::RequestExtraTime => *final(self) == *old(self) && effect is None,
                ChildInterfaceMsg::RequestPermission(_) => *final(self) == *old(self) && effect is None,
            },
    {
        match msg {
            ChildInterfaceMsg::UpdateProfile(profile) => {
                self.profile = profile;
                None
            },
            ChildInterfaceMsg::UpdateRemainingTime(time) => {
                self.remaining_time = time;
                Some(ChildInterfaceEffect::Next(ChildInterfaceMsg::ShowTimeWarning(time <= TIME_WARNING_MINUTES)))
            },
            ChildInterfaceMsg::UpdateActivity(activity) => {
                self.current_activity = activity;
                None
            },
            ChildInterfaceMsg::ShowTimeWarning(warning) => {
                self.time_limit_warning = warning;
                None
            },
            ChildInterfaceMsg::RefreshData => Some(ChildInterfaceEffect::FetchStatus),
            ChildInterfaceMsg::RequestExtraTime => None,
            ChildInterfaceMsg::RequestPermission(_request) => None,
        }
    }
}

} // verus!
