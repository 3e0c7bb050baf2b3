//! The family management window: which page is shown, parent or child
//! mode, and the profile store.
use vstd::prelude::*;
use crate::profile::{first_with_id, profile_views, Profile, ProfileStore, blank_profile_view};

verus! {

/// The page shown.
#[derive(Debug, Clone, Copy, PartialEq, Eq, Structural)]
pub enum AppMode {
    Welcome,
    Dashboard,
    Reports,
    ChildView,
    Edit,
}

/// What the user and the editor do in the window.
pub enum AppMsg {
    SelectProfile(Profile),
    AddProfile,
    EditProfile,
    SaveProfile(Profile),
    CancelEdit,
    ShowDashboard,
    ShowReports,
    ShowChildView,
    ToggleMode,
}

/// The work that a message leaves for the window.
pub enum AppEffect {
    /// Show this profile on the dashboard, the reports and the child view.
    ShowProfile(Profile),
    /// Open the editor on this profile; the flag tells whether it is new.
    ResetEditor(Profile, bool),
    /// Fill the sidebar with these profiles.
    RefreshSidebar(Vec<Profile>),
}

/// The page for a selected profile: the dashboard for a parent, the
/// child's view otherwise.
pub open spec fn profile_page(is_parent_mode: bool) -> AppMode {
    if is_parent_mode { AppMode::Dashboard } else { AppMode::ChildView }
}

/// The window's state.
pub struct AppModel {
    pub store: ProfileStore,
    pub mode: AppMode,
    pub is_parent_mode: bool,
}

/// A copy of a list of profiles.
pub fn copy_profiles(v: &Vec<Profile>) -> (r: Vec<Profile>)
    ensures
        profile_views(r@) == profile_views(v@),
{
    let mut r: Vec<Profile> = Vec::new();
    let n = v.len();
    for i in 0..n
        invariant
            n == v@.len(),
            profile_views(r@) == profile_views(v@).take(i as int),
    {
        let ghost before = r@;
        r.push(v[i].duplicate());
        proof {
            assert(profile_views(r@) =~= profile_views(before).push(v@[i as int]@));
            assert(profile_views(v@).take(i + 1) =~= profile_views(v@).take(i as int).push(v@[i as int]@));
        }
    }
    proof {
        assert(profile_views(v@).take(n as int) =~= profile_views(v@));
    }
    r
}

/// The title of the page shown.
pub open spec fn page_title_spec(mode: AppMode, is_parent_mode: bool) -> Seq<char> {
    match (mode, is_parent_mode) {
        (AppMode::Dashboard, true) => "Dashboard"@,
        (AppMode::Reports, true) => "Reports"@,
        (AppMode::ChildView, false) => "My Screen Time"@,
        (AppMode::Edit, _) => "Edit Profile"@,
        _ => "DOTS Family Mode"@,
    }
}

/// The name of the stack page shown.
pub open spec fn visible_page_spec(mode: AppMode, is_parent_mode: bool) -> Seq<char> {
    match (mode, is_parent_mode) {
        (AppMode::Welcome, _) => "welcome"@,
        (AppMode::Dashboard, true) => "dashboard"@,
        (AppMode::Reports, true) => "reports"@,
        (AppMode::ChildView, false) => "child"@,
        (AppMode::Edit, _) => "edit"@,
        (_, false) => "child"@,
        _ => "welcome"@,
    }
}

/// The title of the page shown.
pub fn page_title(mode: AppMode, is_parent_mode: bool) -> (s: String)
    ensures
        s@ == page_title_spec(mode, is_parent_mode),
{
    match (mode, is_parent_mode) {
        (AppMode::Dashboard, true) => String::from_str("Dashboard"),
        (AppMode::Reports, true) => String::from_str("Reports"),
        (AppMode::ChildView, false) => String::from_str("My Screen Time"),
        (AppMode::Edit, _) => String::from_str("Edit Profile"),
        _ => String::from_str("DOTS Family Mode"),
    }
}

/// The name of the stack page shown.
pub fn visible_page(mode: AppMode, is_parent_mode: bool) -> (s: String)
    ensures
        s@ == visible_page_spec(mode, is_parent_mode),
{
    match (mode, is_parent_mode) {
        (AppMode::Welcome, _) => String::from_str("welcome"),
        (AppMode::Dashboard, true) => String::from_str("dashboard"),
        (AppMode::Reports, true) => String::from_str("reports"),
        (AppMode::ChildView, false) => String::from_str("child"),
        (AppMode::Edit, _) => String::from_str("edit"),
        (_, false) => String::from_str("child"),
        _ => String::from_str("welcome"),
    }
}

impl AppModel {
    /// The window at start: the sample store, the welcome page, parent
    /// mode. The second result is the profile first shown in the views:
    /// the store's first, or a blank one.
    pub fn init() -> (r: (AppModel, Profile))
        ensures
            r.0.mode == AppMode::Welcome,
            r.0.is_parent_mode,
            r.0.store.selected_profile_id is None,
            r.0.store.profiles@.len() == 1,
            r.0.store.profiles@[0]@.name == "Alice"@,
            r.1@ == r.0.store.profiles@[0]@,
            crate::activity::is_random_uuid(r.1.id),
    {
        let store = ProfileStore::new();
        let first = if store.profiles.len() > 0 {
            store.profiles[0].duplicate()
        } else {
            Profile::blank()
        };
        (AppModel { store, mode: AppMode::Welcome, is_parent_mode: true }, first)
    }

    /// Handles one message.
    pub fn update(&mut self, msg: AppMsg) -> (effects: Vec<AppEffect>)
        ensures
            match msg {
                AppMsg::SelectProfile(p) => {
                    &&& final(self).store.selected_profile_id == Some(p.id)
                    &&& final(self).store.profiles == old(self).store.profiles
                    &&& final(self).mode == profile_page(old(self).is_parent_mode)
                    &&& final(self).is_parent_mode == old(self).is_parent_mode
                    &&& effects@.len() == 1 && (effects@[0] matches AppEffect::ShowProfile(q) && q@ == p@)
                },
                AppMsg::AddProfile => {
                    &&& final(self).store == old(self).store
                    &&& final(self).mode == AppMode::Edit
                    &&& effects@.len() == 1 && (effects@[0] matches AppEffect::ResetEditor(q, true)
                        && q@ == blank_profile_view())
                },
                AppMsg::EditProfile => {
                    &&& final(self).store == old(self).store
                    &&& match old(self).store.selected_profile_id {
                        Some(id) if first_with_id(old(self).store.profiles_view(), id) is Some => {
                            &&& final(self).mode == AppMode::Edit
                            &&& effects@.len() == 1 && (effects@[0] matches AppEffect::ResetEditor(q, false)
                                && q@ == old(self).store.profiles_view()[first_with_id(old(self).store.profiles_view(), id)->0])
                        },
                        _ => final(self).mode == old(self).mode && effects@.len() == 0,
                    }
                },
                AppMsg::SaveProfile(p) => {
                    &&& final(self).store.selected_profile_id == Some(p.id)
                    &&& match first_with_id(old(self).store.profiles_view(), p.id) {
                        Some(i) => final(self).store.profiles_view() == old(self).store.profiles_view().update(i, p@),
                        None => final(self).store.profiles_view() == old(self).store.profiles_view().push(p@),
                    }
                    &&& final(self).mode == profile_page(old(self).is_parent_mode)
                    &&& effects@.len() == 2
                    &&& effects@[0] matches AppEffect::RefreshSidebar(ps)
                        && profile_views(ps@) == final(self).store.profiles_view()
                    &&& effects@[1] matches AppEffect::ShowProfile(q) && q@ == p@
                },
                AppMsg::CancelEdit => {
                    &&& final(self).store == old(self).store
                    &&& final(self).mode == (if old(self).store.selected_profile_id is Some {
                        profile_page(old(self).is_parent_mode)
                    } else {
                        AppMode::Welcome
                    })
                    &&& effects@.len() == 0
                },
                AppMsg::ShowDashboard => final(self).mode == AppMode::Dashboard && final(self).store == old(self).store
                    && effects@.len() == 0,
                AppMsg::ShowReports => final(self).mode == AppMode::Reports && final(self).store == old(self).store
                    && effects@.len() == 0,
                AppMsg::ShowChildView => final(self).mode == AppMode::ChildView && final(self).store == old(self).store
                    && effects@.len() == 0,
                AppMsg::ToggleMode => {
                    &&& final(self).is_parent_mode == !old(self).is_parent_mode
                    &&& final(self).store == old(self).store
                    &&& final(self).mode == (if !old(self).is_parent_mode {
                        if old(self).store.selected_profile_id is Some { AppMode::Dashboard } else { AppMode::Welcome }
                    } else {
                        AppMode::ChildView
                    })
                    &&& effects@.len() == 0
                },
            },
            match msg {
                AppMsg::ToggleMode => true,
                _ => final(self).is_parent_mode == old(self).is_parent_mode,
            },
    {
        let mut effects: Vec<AppEffect> = Vec::new();
        match msg {
            AppMsg::SelectProfile(profile) => {
                self.store.selected_profile_id = Some(profile.id);
                effects.push(AppEffect::ShowProfile(profile));
                self.mode = if self.is_parent_mode { AppMode::Dashboard } else { AppMode::ChildView };
            },
            AppMsg::AddProfile => {
                effects.push(AppEffect::ResetEditor(Profile::blank(), true));
                self.mode = AppMode::Edit;
            },
            AppMsg::EditProfile => {
                let selected = self.store.get_selected_profile();
                match selected {
                    Some(profile) => {
                        effects.push(AppEffect::ResetEditor(profile.duplicate(), false));
                        self.mode = AppMode::Edit;
                    },
                    None => {},
                }
            },
            AppMsg::SaveProfile(profile) => {
                let id = profile.id;
                let copy = profile.duplicate();
                self.store.update_profile(profile);
                effects.push(AppEffect::RefreshSidebar(copy_profiles(&self.store.profiles)));
                effects.push(AppEffect::ShowProfile(copy));
                self.store.selected_profile_id = Some(id);
                self.mode = if self.is_parent_mode { AppMode::Dashboard } else { AppMode::ChildView };
            },
            AppMsg::CancelEdit => {
                if self.store.selected_profile_id.is_some() {
                    self.mode = if self.is_parent_mode { AppMode::Dashboard } else { AppMode::ChildView };
                } else {
                    self.mode = AppMode::Welcome;
                }
            },
            AppMsg::ShowDashboard => {
                self.mode = AppMode::Dashboard;
            },
            AppMsg::ShowReports => {
                self.mode = AppMode::Reports;
            },
            AppMsg::ShowChildView => {
                self.mode = AppMode::ChildView;
            },
            AppMsg::ToggleMode => {
                self.is_parent_mode = !self.is_parent_mode;
                self.mode = if self.is_parent_mode {
                    if self.store.selected_profile_id.is_some() {
                        AppMode::Dashboard
                    } else {
                        AppMode::Welcome
                    }
                } else {
                    AppMode::ChildView
                };
            },
        }
        effects
    }
}

/// The name of the page that shows `mode`.
pub open spec fn mode_page_name(mode: AppMode) -> Seq<char> {
    match mode {
        AppMode::Welcome => "welcome"@,
        AppMode::Dashboard => "dashboard"@,
        AppMode::Reports => "reports"@,
        AppMode::ChildView => "child"@,
        AppMode::Edit => "edit"@,
    }
}

/// Whether `mode` belongs to the role: the dashboard and the reports are a
/// parent's, the child's view is a child's, the welcome page and the
/// editor anyone's.
pub open spec fn mode_allowed(mode: AppMode, is_parent_mode: bool) -> bool {
    match mode {
        AppMode::Dashboard | AppMode::Reports => is_parent_mode,
        AppMode::ChildView => !is_parent_mode,
        AppMode::Welcome | AppMode::Edit => true,
    }
}

/// The window shows the page of the chosen mode whenever the mode belongs
/// to the role; otherwise a child sees the child's view and a parent the
/// welcome page.
pub proof fn lemma_visible_page_follows_mode(mode: AppMode, is_parent_mode: bool)
    ensures
        mode_allowed(mode, is_parent_mode) ==> visible_page_spec(mode, is_parent_mode) == mode_page_name(mode),
        !mode_allowed(mode, is_parent_mode) ==> visible_page_spec(mode, is_parent_mode) == (if is_parent_mode {
            "welcome"@
        } else {
            "child"@
        }),
{
}

} // verus!
