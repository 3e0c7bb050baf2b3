//! The rows of the approval-request list and of the profile sidebar.
use vstd::prelude::*;
use crate::profile::Profile;

verus! {

/// A child's request for approval, as the daemon lists it.
pub struct ApprovalRequest {
    pub id: String,
    pub profile_id: String,
    pub profile_name: String,
    pub request_type: String,
    pub details: String,
    pub created_at: String,
    pub status: String,
}

impl ApprovalRequest {
    /// A copy of the request.
    pub fn duplicate(&self) -> (r: ApprovalRequest)
        ensures
            r.id@ == self.id@,
            r.profile_id@ == self.profile_id@,
            r.profile_name@ == self.profile_name@,
            r.request_type@ == self.request_type@,
            r.details@ == self.details@,
            r.created_at@ == self.created_at@,
            r.status@ == self.status@,
    {
        ApprovalRequest {
            id: self.id.clone(),
            profile_id: self.profile_id.clone(),
            profile_name: self.profile_name.clone(),
            request_type: self.request_type.clone(),
            details: self.details.clone(),
            created_at: self.created_at.clone(),
            status: self.status.clone(),
        }
    }
}

/// Selecting a card.
pub enum ApprovalRequestCardMsg {
    Select,
}

/// One card of the approval-request list.
pub struct ApprovalRequestCard {
    pub request: ApprovalRequest,
}

impl ApprovalRequestCard {
    /// A card showing `request`.
    pub fn init_model(request: ApprovalRequest) -> (c: ApprovalRequestCard)
        ensures
            c.request == request,
    {
        ApprovalRequestCard { request }
    }

    /// Selecting the card emits the request's identifier.
    pub fn update(&self, msg: ApprovalRequestCardMsg) -> (out: String)
        ensures
            out@ == self.request.id@,
    {
        match msg {
            ApprovalRequestCardMsg::Select => self.request.id.clone(),
        }
    }
}

/// Selecting a sidebar row.
pub enum SidebarRowMsg {
    Select,
}

/// One row of the profile sidebar.
pub struct SidebarRow {
    pub profile: Profile,
}

impl SidebarRow {
    /// A row showing `profile`.
    pub fn init_model(profile: Profile) -> (r: SidebarRow)
        ensures
            r.profile == profile,
    {
        SidebarRow { profile }
    }

    /// Selecting the row emits its profile.
    pub fn update(&self, msg: SidebarRowMsg) -> (out: Profile)
        ensures
            out@ == self.profile@,
    {
        match msg {
            SidebarRowMsg::Select => self.profile.duplicate(),
        }
    }
}

} // verus!
