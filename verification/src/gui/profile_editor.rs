//! The profile editor.
use vstd::prelude::*;
use crate::profile::{AgeGroup, Profile, ProfileView};

verus! {

/// What the user does in the editor. The daily limit comes in whole
/// minutes.
pub enum ProfileEditorMsg {
    Reset(Profile, bool),
    UpdateName(String),
    UpdateAgeGroup(u32),
    UpdateDailyLimit(u32),
    ToggleActive(bool),
    Save,
    Cancel,
}

/// The age group at a position of the editor's list.
pub open spec fn age_group_at(index: u32) -> AgeGroup {
    if index == 0 {
        AgeGroup::EarlyElementary
    } else if index == 1 {
        AgeGroup::LateElementary
    } else {
        AgeGroup::HighSchool
    }
}

/// The position of an age group in the editor's list.
pub fn age_group_index(g: AgeGroup) -> (i: u32)
    ensures
        age_group_at(i) == g,
        i <= 2,
{
    match g {
        AgeGroup::EarlyElementary => 0,
        AgeGroup::LateElementary => 1,
        AgeGroup::HighSchool => 2,
    }
}

/// The profile editor: the profile being edited and whether it is new.
pub struct ProfileEditor {
    pub profile: Profile,
    pub is_new: bool,
}

impl ProfileEditor {
    /// An editor for `profile`.
    pub fn init(profile: Profile, is_new: bool) -> (e: ProfileEditor)
        ensures
            e.profile == profile,
            e.is_new == is_new,
    {
        ProfileEditor { profile, is_new }
    }

    /// Handles one message. Saving emits the edited profile, cancelling
    /// emits nothing (`Some(None)`); other messages emit no output (`None`).
    pub fn update(&mut self, msg: ProfileEditorMsg) -> (out: Option<Option<Profile>>)
        ensures
            match msg {
                ProfileEditorMsg::Reset(p, n) => final(self).profile == p && final(self).is_new == n && out is None,
                ProfileEditorMsg::UpdateName(name) => final(self).profile@ == (ProfileView { name: name@, ..old(self).profile@ })
                    && out is None,
                ProfileEditorMsg::UpdateAgeGroup(i) => final(self).profile@ == (ProfileView {
                    age_group: age_group_at(i),
                    ..old(self).profile@
                }) && out is None,
                ProfileEditorMsg::UpdateDailyLimit(m) => final(self).profile@ == (ProfileView {
                    daily_limit_minutes: m,
                    ..old(self).profile@
                }) && out is None,
                ProfileEditorMsg::ToggleActive(a) => final(self).profile@ == (ProfileView { active: a, ..old(self).profile@ })
                    && out is None,
                ProfileEditorMsg::Save => final(self).profile@ == old(self).profile@
                    && (out matches Some(Some(p)) && p@ == old(self).profile@),
                ProfileEditorMsg::Cancel => final(self).profile@ == old(self).profile@ && out matches Some(None),
            },
            !(msg is Reset) ==> final(self).is_new == old(self).is_new,
    {
        match msg {
            ProfileEditorMsg::Reset(profile, is_new) => {
                self.profile = profile;
                self.is_new = is_new;
                None
            },
            ProfileEditorMsg::UpdateName(name) => {
                self.profile.name = name;
                None
            },
            ProfileEditorMsg::UpdateAgeGroup(index) => {
                self.profile.age_group = if index == 0 {
                    AgeGroup::EarlyElementary
                } else if index == 1 {
                    AgeGroup::LateElementary
                } else {
                    AgeGroup::HighSchool
                };
                None
            },
            ProfileEditorMsg::UpdateDailyLimit(limit) => {
                self.profile.config.screen_time.daily_limit_minutes = limit;
                None
            },
            ProfileEditorMsg::ToggleActive(active) => {
                self.profile.active = active;
                None
            },
            ProfileEditorMsg::Save => Some(Some(self.profile.duplicate())),
            ProfileEditorMsg::Cancel => Some(None),
        }
    }
}

} // verus!
