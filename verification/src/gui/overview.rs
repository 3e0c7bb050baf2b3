//! The overview of a profile.
use vstd::prelude::*;
use crate::profile::Profile;

verus! {

/// A new profile to show.
pub enum OverviewMsg {
    UpdateProfile(Profile),
}

/// The overview.
pub struct Overview {
    pub profile: Profile,
}

impl Overview {
    /// The overview of `profile`.
    pub fn init(profile: Profile) -> (o: Overview)
        ensures
            o.profile == profile,
    {
        Overview { profile }
    }

    /// Shows the new profile.
    pub fn update(&mut self, msg: OverviewMsg)
        ensures
            match msg {
                OverviewMsg::UpdateProfile(p) => final(self).profile == p,
            },
    {
        match msg {
            OverviewMsg::UpdateProfile(p) => {
                self.profile = p;
            },
        }
    }
}

} // verus!
