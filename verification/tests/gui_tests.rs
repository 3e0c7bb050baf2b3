use dots_family::gui::app_model::{page_title, visible_page, AppEffect, AppMode, AppModel, AppMsg};
use dots_family::gui::approval_requests::{
    pending_outcome, review_outcome, ApprovalEffect, ApprovalRequests, ApprovalRequestsMsg,
};
use dots_family::gui::cards::{
    ApprovalRequest, ApprovalRequestCard, ApprovalRequestCardMsg, SidebarRow, SidebarRowMsg,
};
use dots_family::gui::child_interface::{
    current_line, ChildInterface, ChildInterfaceEffect, ChildInterfaceMsg,
};
use dots_family::gui::child_lockscreen::{
    ChildLockscreen, ChildLockscreenMsg, LockscreenEffect, LockscreenReason, BEDTIME_LOCK_SECONDS,
};
use dots_family::gui::content_filtering::{ContentFiltering, ContentFilteringMsg};
use dots_family::gui::dashboard::{activity_line, Dashboard, DashboardEffect, DashboardMsg};
use dots_family::gui::overview::{Overview, OverviewMsg};
use dots_family::gui::policy_config::{PolicyConfig, PolicyConfigEffect, PolicyConfigMsg};
use dots_family::gui::profile_editor::{age_group_index, ProfileEditor, ProfileEditorMsg};
use dots_family::gui::reports::{
    export_range, is_daemon_error_reply, report_start_day, ReportViewMode, Reports, ReportsEffect,
    ReportsMsg,
};
use dots_family::profile::{AgeGroup, ApplicationMode, Profile};

fn sample() -> Profile {
    let (model, first) = AppModel::init();
    assert_eq!(model.store.profiles.len(), 1);
    first
}

#[test]
fn app_model_starts_on_welcome_with_sample_profile() {
    let (model, first) = AppModel::init();
    assert_eq!(model.mode, AppMode::Welcome);
    assert!(model.is_parent_mode);
    assert_eq!(model.store.selected_profile_id, None);
    assert_eq!(first.name, "Alice");
    assert_eq!(first.age_group, AgeGroup::LateElementary);
    assert_eq!(first.config.screen_time.daily_limit_minutes, 120);
}

#[test]
fn app_model_select_edit_save_cycle() {
    let (mut model, first) = AppModel::init();
    let id = first.id;
    let effects = model.update(AppMsg::EditProfile);
    assert!(effects.is_empty());
    assert_eq!(model.mode, AppMode::Welcome);

    let effects = model.update(AppMsg::SelectProfile(first));
    assert_eq!(model.mode, AppMode::Dashboard);
    assert_eq!(model.store.selected_profile_id, Some(id));
    assert!(matches!(&effects[0], AppEffect::ShowProfile(p) if p.id == id));

    let effects = model.update(AppMsg::EditProfile);
    assert_eq!(model.mode, AppMode::Edit);
    let mut edited = match &effects[0] {
        AppEffect::ResetEditor(p, false) => p.duplicate(),
        _ => panic!("editor not reset"),
    };
    edited.name = "Alicia".to_string();

    let effects = model.update(AppMsg::SaveProfile(edited));
    assert_eq!(effects.len(), 2);
    assert!(matches!(&effects[0], AppEffect::RefreshSidebar(ps) if ps.len() == 1 && ps[0].name == "Alicia"));
    assert_eq!(model.store.profiles.len(), 1);
    assert_eq!(model.store.get_selected_profile().unwrap().name, "Alicia");
    assert_eq!(model.mode, AppMode::Dashboard);
}

#[test]
fn app_model_add_and_toggle() {
    let (mut model, _) = AppModel::init();
    let effects = model.update(AppMsg::AddProfile);
    assert_eq!(model.mode, AppMode::Edit);
    assert!(matches!(&effects[0], AppEffect::ResetEditor(p, true) if p.name.is_empty()));
    model.update(AppMsg::CancelEdit);
    assert_eq!(model.mode, AppMode::Welcome);
    model.update(AppMsg::ToggleMode);
    assert!(!model.is_parent_mode);
    assert_eq!(model.mode, AppMode::ChildView);
    model.update(AppMsg::ToggleMode);
    assert!(model.is_parent_mode);
    assert_eq!(model.mode, AppMode::Welcome);
}

#[test]
fn page_titles_and_pages() {
    assert_eq!(page_title(AppMode::Dashboard, true), "Dashboard");
    assert_eq!(page_title(AppMode::Dashboard, false), "DOTS Family Mode");
    assert_eq!(page_title(AppMode::ChildView, false), "My Screen Time");
    assert_eq!(page_title(AppMode::Edit, false), "Edit Profile");
    assert_eq!(visible_page(AppMode::Reports, false), "child");
    assert_eq!(visible_page(AppMode::ChildView, true), "welcome");
    assert_eq!(visible_page(AppMode::Welcome, false), "welcome");
}

fn request(id: &str) -> ApprovalRequest {
    ApprovalRequest {
        id: id.to_string(),
        profile_id: "p".to_string(),
        profile_name: "Alice".to_string(),
        request_type: "app".to_string(),
        details: "firefox".to_string(),
        created_at: "today".to_string(),
        status: "pending".to_string(),
    }
}

#[test]
fn approval_requests_need_client_and_selection() {
    let mut view = ApprovalRequests::init(sample());
    assert!(matches!(view.update(ApprovalRequestsMsg::RefreshRequests), Some(ApprovalEffect::NoDaemonClient)));
    view.update(ApprovalRequestsMsg::SelectRequest("r1".to_string()));
    assert!(view.update(ApprovalRequestsMsg::ApproveSelected).is_none());
    assert_eq!(view.selected_request, Some("r1".to_string()));

    view.has_daemon_client = true;
    assert!(matches!(view.update(ApprovalRequestsMsg::RefreshRequests), Some(ApprovalEffect::FetchPending)));
    view.update(ApprovalRequestsMsg::UpdateRequests(vec![request("r1")]));
    view.update(ApprovalRequestsMsg::UpdateResponseMessage("ok for today".to_string()));
    match view.update(ApprovalRequestsMsg::ApproveSelected) {
        Some(ApprovalEffect::Approve { request_id, message }) => {
            assert_eq!(request_id, "r1");
            assert_eq!(message, "ok for today");
        }
        _ => panic!("no approval"),
    }
    assert_eq!(view.selected_request, None);
    assert!(view.response_message.is_empty());
    assert!(view.update(ApprovalRequestsMsg::DenySelected).is_none());
}

#[test]
fn approval_outcome_messages() {
    let m = review_outcome(true, Ok(()));
    assert_eq!(m.len(), 2);
    assert!(matches!(&m[0], ApprovalRequestsMsg::ShowMessage(s) if s == "Request approved successfully"));
    assert!(matches!(&m[1], ApprovalRequestsMsg::RefreshRequests));
    let m = review_outcome(false, Ok(()));
    assert!(matches!(&m[0], ApprovalRequestsMsg::ShowMessage(s) if s == "Request denied"));
    let m = review_outcome(false, Err("timeout".to_string()));
    assert_eq!(m.len(), 1);
    assert!(matches!(&m[0], ApprovalRequestsMsg::ShowMessage(s) if s == "Failed to deny request: timeout"));
}

#[test]
fn pending_requests_outcome() {
    assert!(matches!(pending_outcome(Some(vec![request("r1")])), ApprovalRequestsMsg::UpdateRequests(rs) if rs.len() == 1 && rs[0].id == "r1"));
    assert!(matches!(pending_outcome(None), ApprovalRequestsMsg::UpdateRequests(rs) if rs.is_empty()));
}

#[test]
fn cards_emit_their_subject() {
    let card = ApprovalRequestCard::init_model(request("r7"));
    assert_eq!(card.update(ApprovalRequestCardMsg::Select), "r7");
    let row = SidebarRow::init_model(sample());
    assert_eq!(row.update(SidebarRowMsg::Select).name, "Alice");
    let copy = request("r8").duplicate();
    assert_eq!(copy.details, "firefox");
}

#[test]
fn child_interface_warns_at_fifteen_minutes() {
    let (mut view, first) = ChildInterface::init(sample());
    assert!(matches!(first, ChildInterfaceMsg::RefreshData));
    assert_eq!(view.remaining_time, 45);
    assert_eq!(view.current_activity, "Reading app");
    match view.update(ChildInterfaceMsg::UpdateRemainingTime(15)) {
        Some(ChildInterfaceEffect::Next(ChildInterfaceMsg::ShowTimeWarning(w))) => assert!(w),
        _ => panic!("no warning step"),
    }
    match view.update(ChildInterfaceMsg::UpdateRemainingTime(16)) {
        Some(ChildInterfaceEffect::Next(ChildInterfaceMsg::ShowTimeWarning(w))) => assert!(!w),
        _ => panic!("no warning step"),
    }
    view.update(ChildInterfaceMsg::ShowTimeWarning(true));
    assert!(view.time_limit_warning);
    assert!(matches!(view.update(ChildInterfaceMsg::RefreshData), Some(ChildInterfaceEffect::FetchStatus)));
    assert_eq!(current_line("Alice"), "Current: Alice");
}

#[test]
fn lockscreen_bedtime_counts_down_and_unlocks() {
    let mut lock = ChildLockscreen::init(sample(), LockscreenReason::BedtimeEnforcement);
    assert_eq!(lock.countdown_seconds, BEDTIME_LOCK_SECONDS);
    assert_eq!(BEDTIME_LOCK_SECONDS, 8 * 3600);
    lock.update(ChildLockscreenMsg::UpdateCountdown(2));
    assert!(lock.update(ChildLockscreenMsg::Tick).is_none());
    assert!(matches!(lock.update(ChildLockscreenMsg::Tick), Some(LockscreenEffect::Unlock)));
    assert!(lock.update(ChildLockscreenMsg::Tick).is_none());
    let other = ChildLockscreen::init(sample(), LockscreenReason::ParentalLock);
    assert_eq!(other.countdown_seconds, 0);
}

#[test]
fn lockscreen_stops_after_three_failures() {
    let mut lock = ChildLockscreen::init(sample(), LockscreenReason::ScreenTimeLimitExceeded);
    lock.update(ChildLockscreenMsg::ShowParentOverride);
    for _ in 0..3 {
        lock.update(ChildLockscreenMsg::ParentPasswordChanged("wrong".to_string()));
        match lock.update(ChildLockscreenMsg::AttemptParentAuth) {
            Some(LockscreenEffect::Authenticate { password }) => assert_eq!(password, "wrong"),
            _ => panic!("no attempt"),
        }
        assert!(lock.update(ChildLockscreenMsg::AuthenticationResult(false)).is_none());
        assert!(lock.parent_password.is_empty());
        assert!(lock.authentication_failed);
    }
    assert_eq!(lock.authentication_attempts, 3);
    lock.update(ChildLockscreenMsg::ParentPasswordChanged("right".to_string()));
    assert!(lock.update(ChildLockscreenMsg::AttemptParentAuth).is_none());
    assert!(lock.authentication_failed);
}

#[test]
fn lockscreen_unlocks_on_success_and_describes_reasons() {
    let mut lock = ChildLockscreen::init(sample(), LockscreenReason::ParentalLock);
    assert!(matches!(lock.update(ChildLockscreenMsg::AuthenticationResult(true)), Some(LockscreenEffect::Unlock)));
    assert_eq!(LockscreenReason::ScreenTimeLimitExceeded.describe(), "Screen time limit reached for today");
    assert_eq!(LockscreenReason::BedtimeEnforcement.describe(), "It's bedtime! Time to rest");
    assert_eq!(LockscreenReason::BlockedAppAccess("steam".to_string()).describe(), "Access to steam is not allowed");
    assert_eq!(LockscreenReason::ParentalLock.describe(), "Computer locked by parent");
}

#[test]
fn content_filtering_keeps_lists_apart() {
    let mut view = ContentFiltering::init(false);
    assert!(view.filtering_config.block_categories.contains("adult"));
    assert!(view.filtering_config.allow_categories.contains("children"));
    view.update(ContentFilteringMsg::ToggleCategoryAllow("adult".to_string(), true));
    assert!(!view.filtering_config.block_categories.contains("adult"));
    assert!(view.filtering_config.allow_categories.contains("adult"));
    view.update(ContentFilteringMsg::UpdateNewBlockedDomain("bad.example".to_string()));
    view.update(ContentFilteringMsg::AddBlockedDomain);
    assert!(view.filtering_config.blocked_domains.contains("bad.example"));
    assert!(view.new_blocked_domain.is_empty());
    view.update(ContentFilteringMsg::UpdateNewAllowedDomain("bad.example".to_string()));
    view.update(ContentFilteringMsg::AddAllowedDomain);
    assert!(!view.filtering_config.blocked_domains.contains("bad.example"));
    assert!(view.filtering_config.allowed_domains.contains("bad.example"));
    view.update(ContentFilteringMsg::AddAllowedDomain);
    assert_eq!(view.filtering_config.allowed_domains.to_vec().len(), 1);
    assert_eq!(
        view.update(ContentFilteringMsg::SaveConfiguration),
        Some("Content filtering settings saved".to_string())
    );
    assert_eq!(
        view.update(ContentFilteringMsg::ResetToDefaults),
        Some("Reset to default settings".to_string())
    );
    assert!(view.filtering_config.block_categories.contains("adult"));
    assert!(view.filtering_config.allowed_domains.to_vec().is_empty());
}

#[test]
fn dashboard_refresh_connects_first() {
    let (mut d, first) = Dashboard::init(sample());
    assert!(matches!(first, DashboardMsg::ConnectToDaemon));
    assert_eq!(d.remaining_time, 120);
    assert_eq!(d.current_activity, "No activity detected");
    assert!(matches!(d.update(DashboardMsg::RefreshData), Some(DashboardEffect::Next(DashboardMsg::ConnectToDaemon))));
    d.update(DashboardMsg::UpdateConnectionStatus(true));
    assert!(matches!(d.update(DashboardMsg::RefreshData), Some(DashboardEffect::FetchStatus)));
    assert!(matches!(d.update(DashboardMsg::ConnectToDaemon), Some(DashboardEffect::Connect)));
    assert_eq!(activity_line("Alice"), "Profile: Alice");
}

#[test]
fn overview_follows_profile() {
    let mut o = Overview::init(sample());
    let mut p = sample();
    p.name = "Bob".to_string();
    o.update(OverviewMsg::UpdateProfile(p));
    assert_eq!(o.profile.name, "Bob");
}

#[test]
fn policy_config_round_trips_lists() {
    let mut p = sample();
    p.config.applications.allowed = vec!["firefox".to_string(), "calculator".to_string()];
    let mut view = PolicyConfig::init(p);
    assert_eq!(view.allowed_apps, "firefox, calculator");
    assert_eq!(view.blocked_apps, "");
    assert_eq!(view.bedtime_hour, 21);
    assert_eq!(view.wakeup_hour, 7);
    view.update(PolicyConfigMsg::SetAllowedApps(view.allowed_apps.clone()));
    assert_eq!(view.profile.config.applications.allowed, vec!["firefox", "calculator"]);
    view.update(PolicyConfigMsg::SetBlockedApps(" steam ,, discord,".to_string()));
    assert_eq!(view.profile.config.applications.blocked, vec!["steam", "discord"]);
    view.update(PolicyConfigMsg::SetApplicationMode(ApplicationMode::Allowlist));
    assert_eq!(view.profile.config.applications.mode, ApplicationMode::Allowlist);
    view.update(PolicyConfigMsg::SetDailyTimeLimit(90));
    assert_eq!(view.profile.config.screen_time.daily_limit_minutes, 90);
    assert!(matches!(view.update(PolicyConfigMsg::SaveConfiguration), Some(PolicyConfigEffect::Save)));
}

#[test]
fn profile_editor_edits_and_saves() {
    let mut e = ProfileEditor::init(sample(), false);
    e.update(ProfileEditorMsg::UpdateName("Bob".to_string()));
    e.update(ProfileEditorMsg::UpdateAgeGroup(2));
    e.update(ProfileEditorMsg::UpdateDailyLimit(30));
    e.update(ProfileEditorMsg::ToggleActive(false));
    match e.update(ProfileEditorMsg::Save) {
        Some(Some(p)) => {
            assert_eq!(p.name, "Bob");
            assert_eq!(p.age_group, AgeGroup::HighSchool);
            assert_eq!(p.config.screen_time.daily_limit_minutes, 30);
            assert!(!p.active);
        }
        _ => panic!("not saved"),
    }
    assert!(matches!(e.update(ProfileEditorMsg::Cancel), Some(None)));
    e.update(ProfileEditorMsg::UpdateAgeGroup(7));
    assert_eq!(e.profile.age_group, AgeGroup::HighSchool);
    assert_eq!(age_group_index(AgeGroup::EarlyElementary), 0);
    assert_eq!(age_group_index(AgeGroup::LateElementary), 1);
}

#[test]
fn reports_ask_for_the_kind_shown() {
    let (mut r, first): (Reports<u32, u32>, ReportsEffect<u32, u32>) = Reports::init(sample());
    let id = r.profile.id;
    assert!(matches!(first, ReportsEffect::Fetch { mode: ReportViewMode::Daily, profile_id } if profile_id == id));
    assert!(matches!(r.update(ReportsMsg::ViewWeekly), Some(ReportsEffect::Next(ReportsMsg::RefreshReports))));
    assert!(matches!(
        r.update(ReportsMsg::RefreshReports),
        Some(ReportsEffect::Fetch { mode: ReportViewMode::Weekly, .. })
    ));
    r.update(ReportsMsg::UpdateWeeklyReport(5));
    assert_eq!(r.current_weekly, Some(5));
    assert!(matches!(r.update(ReportsMsg::ExportReports), Some(ReportsEffect::Export { profile_id }) if profile_id == id));
    assert!(matches!(r.update(ReportsMsg::ExportComplete("csv".to_string())), Some(ReportsEffect::ExportDone(d)) if d == "csv"));
}

#[test]
fn report_periods() {
    assert_eq!(report_start_day(ReportViewMode::Daily, 738000, 15), 738000);
    assert_eq!(report_start_day(ReportViewMode::Weekly, 738000, 15), 737994);
    assert_eq!(report_start_day(ReportViewMode::Monthly, 738000, 15), 737986);
    assert_eq!(report_start_day(ReportViewMode::Monthly, 738000, 1), 738000);
    assert_eq!(export_range(738000), (737970, 738000));
    assert!(is_daemon_error_reply("{\"error\": \"no daemon\"}"));
    assert!(!is_daemon_error_reply("{\"date\": 1}"));
    assert!(!is_daemon_error_reply("{\"err"));
}
