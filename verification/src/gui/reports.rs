//! The activity reports of a profile. The reports themselves are shown as
//! the daemon sends them; this view decides which report to ask for.
use vstd::prelude::*;
use crate::profile::Profile;

verus! {

/// Which report is shown.
#[derive(Debug, Clone, Copy, PartialEq, Eq, Structural)]
pub enum ReportViewMode {
    Daily,
    Weekly,
    Monthly,
}

/// A row of a report table.
pub struct ReportEntry {
    pub date: String,
    pub screen_time: u32,
    pub top_activity: String,
    pub violations: u32,
}

/// What the user and the daemon's answers do in the view; `D` is a daily
/// report, `W` a weekly one.
pub enum ReportsMsg<D, W> {
    UpdateProfile(Profile),
    RefreshReports,
    ExportReports,
    ViewDaily,
    ViewWeekly,
    ViewMonthly,
    UpdateDailyReport(D),
    UpdateWeeklyReport(W),
    ExportComplete(String),
}

/// The work that a message leaves for the window.
pub enum ReportsEffect<D, W> {
    /// Ask the daemon for the report of this kind for the profile.
    Fetch { mode: ReportViewMode, profile_id: u128 },
    /// Ask the daemon for an export of the last thirty days.
    Export { profile_id: u128 },
    /// An export arrived.
    ExportDone(String),
    /// Handle this message next.
    Next(ReportsMsg<D, W>),
}

/// The reports view.
pub struct Reports<D, W> {
    pub profile: Profile,
    pub current_report: Option<D>,
    pub current_weekly: Option<W>,
    pub view_mode: ReportViewMode,
}

/// The first day of the period a report covers, as a day number: today for
/// a daily report, six days back for a weekly one, the first of the month
/// for a monthly one.
pub open spec fn report_start(mode: ReportViewMode, today: int, day_of_month: int) -> int {
    match mode {
        ReportViewMode::Daily => today,
        ReportViewMode::Weekly => today - 6,
        ReportViewMode::Monthly => today - (day_of_month - 1),
    }
}

/// The first day of the period a report of `mode` covers; `today` is a
/// day number and `day_of_month` today's day in its month.
pub fn report_start_day(mode: ReportViewMode, today: i32, day_of_month: u32) -> (d: i32)
    requires
        1 <= day_of_month <= 31,
        today >= i32::MIN + 31,
    ensures
        d == report_start(mode, today as int, day_of_month as int),
{
    match mode {
        ReportViewMode::Daily => today,
        ReportViewMode::Weekly => today - 6,
        ReportViewMode::Monthly => today - ((day_of_month - 1) as i32),
    }
}

/// The first and last day of an export: the thirty days before today, and
/// today.
pub fn export_range(today: i32) -> (r: (i32, i32))
    requires
        today >= i32::MIN + 30,
    ensures
        r.0 == today - 30,
        r.1 == today,
{
    (today - 30, today)
}

impl<D, W> Reports<D, W> {
    /// The view for `profile`, showing the daily report, which is asked for
    /// at once.
    pub fn init(profile: Profile) -> (r: (Reports<D, W>, ReportsEffect<D, W>))
        ensures
            r.0.view_mode == ReportViewMode::Daily,
            r.0.current_report is None,
            r.0.current_weekly is None,
            r.0.profile == profile,
            r.1 matches ReportsEffect::Fetch { mode, profile_id } && mode == ReportViewMode::Daily
                && profile_id == profile.id,
    {
        let id = profile.id;
        (
            Reports { profile, current_report: None, current_weekly: None, view_mode: ReportViewMode::Daily },
            ReportsEffect::Fetch { mode: ReportViewMode::Daily, profile_id: id },
        )
    }

    /// Handles one message. A new profile or a new kind of report is
    /// followed by a refresh, which asks for the report of the kind shown.
    pub fn update(&mut self, msg: ReportsMsg<D, W>) -> (effect: Option<ReportsEffect<D, W>>)
        ensures
            match msg {
                ReportsMsg::UpdateProfile(p) => *final(self) == (Reports { profile: p, ..*old(self) })
                    && effect matches Some(ReportsEffect::Next(ReportsMsg::RefreshReports)),
                ReportsMsg::RefreshReports => *final(self) == *old(self)
                    && (effect matches Some(ReportsEffect::Fetch { mode, profile_id })
                        && mode == old(self).view_mode && profile_id == old(self).profile.id),
                ReportsMsg::ExportReports => *final(self) == *old(self)
                    && (effect matches Some(ReportsEffect::Export { profile_id }) && profile_id == old(self).profile.id),
                ReportsMsg::ViewDaily => *final(self) == (Reports { view_mode: ReportViewMode::Daily, ..*old(self) })
                    && effect matches Some(ReportsEffect::Next(ReportsMsg::RefreshReports)),
                ReportsMsg::ViewWeekly => *final(self) == (Reports { view_mode: ReportViewMode::Weekly, ..*old(self) })
                    && effect matches Some(ReportsEffect::Next(ReportsMsg::RefreshReports)),
                ReportsMsg::ViewMonthly => *final(self) == (Reports { view_mode: ReportViewMode::Monthly, ..*old(self) })
                    && effect matches Some(ReportsEffect::Next(ReportsMsg::RefreshReports)),
                ReportsMsg::UpdateDailyReport(r) => *final(self) == (Reports { current_report: Some(r), ..*old(self) })
                    && effect is None,
                ReportsMsg::UpdateWeeklyReport(r) => *final(self) == (Reports { current_weekly: Some(r), ..*old(self) })
                    && effect is None,
                ReportsMsg::ExportComplete(data) => *final(self) == *old(self)
                    && (effect matches Some(ReportsEffect::ExportDone(d)) && d == data),
            },
    {
        match msg {
            ReportsMsg::UpdateProfile(profile) => {
                self.profile = profile;
                Some(ReportsEffect::Next(ReportsMsg::RefreshReports))
            },
            ReportsMsg::RefreshReports => Some(
                ReportsEffect::Fetch { mode: self.view_mode, profile_id: self.profile.id },
            ),
            ReportsMsg::ExportReports => Some(ReportsEffect::Export { profile_id: self.profile.id }),
            ReportsMsg::ViewDaily => {
                self.view_mode = ReportViewMode::Daily;
                Some(ReportsEffect::Next(ReportsMsg::RefreshReports))
            },
            ReportsMsg::ViewWeekly => {
                self.view_mode = ReportViewMode::Weekly;
                Some(ReportsEffect::Next(ReportsMsg::RefreshReports))
            },
            ReportsMsg::ViewMonthly => {
                self.view_mode = ReportViewMode::Monthly;
                Some(ReportsEffect::Next(ReportsMsg::RefreshReports))
            },
            ReportsMsg::UpdateDailyReport(report) => {
                self.current_report = Some(report);
                None
            },
            ReportsMsg::UpdateWeeklyReport(report) => {
                self.current_weekly = Some(report);
                None
            },
            ReportsMsg::ExportComplete(data) => Some(ReportsEffect::ExportDone(data)),
        }
    }
}

/// Whether a reply of the daemon is an error object: it starts with
/// `{"error"`.
pub fn is_daemon_error_reply(reply: &str) -> (r: bool)
    ensures
        r == (reply@.len() >= 8 && reply@.take(8) == "{\"error\""@),
{
    let prefix = "{\"error\"";
    proof {
        reveal_strlit("{\"error\"");
    }
    if reply.unicode_len() < 8 {
        return false;
    }
    let mut i: usize = 0;
    while i < 8
        invariant
            i <= 8,
            reply@.len() >= 8,
            prefix@ == "{\"error\""@,
            prefix@.len() == 8,
            forall|j: int| 0 <= j < i ==> reply@[j] == prefix@[j],
        decreases 8 - i,
    {
        if reply.get_char(i) != prefix.get_char(i) {
            return false;
        }
        i = i + 1;
    }
    proof {
        assert(reply@.take(8) =~= prefix@);
    }
    true
}

} // verus!
