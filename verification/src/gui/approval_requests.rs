//! The view of pending approval requests.
use vstd::prelude::*;
use crate::gui::cards::ApprovalRequest;
use crate::profile::Profile;

verus! {

/// What the user and the daemon's answers do in the view.
pub enum ApprovalRequestsMsg {
    UpdateProfile(Profile),
    RefreshRequests,
    UpdateRequests(Vec<ApprovalRequest>),
    SelectRequest(String),
    ApproveSelected,
    DenySelected,
    UpdateResponseMessage(String),
    ShowMessage(String),
}

/// The work that a message leaves for the window.
pub enum ApprovalEffect {
    /// Ask the daemon for the pending requests.
    FetchPending,
    /// There is no daemon client to ask.
    NoDaemonClient,
    /// Send the approval of a request with a message.
    Approve { request_id: String, message: String },
    /// Send the denial of a request with a message.
    Deny { request_id: String, message: String },
    /// Emit text for the window to show.
    Output(String),
}

/// The approval-request view.
pub struct ApprovalRequests {
    pub profile: Profile,
    pub has_daemon_client: bool,
    pub requests: Vec<ApprovalRequest>,
    pub selected_request: Option<String>,
    pub response_message: String,
}

impl ApprovalRequests {
    /// The view for `profile`, with no daemon client yet, no requests and
    /// nothing selected.
    pub fn init(profile: Profile) -> (v: ApprovalRequests)
        ensures
            v.profile == profile,
            !v.has_daemon_client,
            v.requests@.len() == 0,
            v.selected_request is None,
            v.response_message@.len() == 0,
    {
        ApprovalRequests {
            profile,
            has_daemon_client: false,
            requests: Vec::new(),
            selected_request: None,
            response_message: String::new(),
        }
    }

    /// Handles one message. Approving or denying acts on the selected
    /// request, only with a daemon client, and clears the selection and the
    /// response text.
    pub fn update(&mut self, msg: ApprovalRequestsMsg) -> (effect: Option<ApprovalEffect>)
        ensures
            final(self).has_daemon_client == old(self).has_daemon_client,
            match msg {
                ApprovalRequestsMsg::UpdateProfile(p) => *final(self) == (ApprovalRequests { profile: p, ..*old(self) })
                    && effect is None,
                ApprovalRequestsMsg::RefreshRequests => *final(self) == *old(self) && if old(self).has_daemon_client {
                    effect matches Some(ApprovalEffect::FetchPending)
                } else {
                    effect matches Some(ApprovalEffect::NoDaemonClient)
                },
                ApprovalRequestsMsg::UpdateRequests(rs) => *final(self) == (ApprovalRequests {
                    requests: rs,
                    ..*old(self)
                }) && effect is None,
                ApprovalRequestsMsg::SelectRequest(id) => *final(self) == (ApprovalRequests {
                    selected_request: Some(id),
                    response_message: final(self).response_message,
                    ..*old(self)
                }) && final(self).response_message@.len() == 0 && effect is None,
                ApprovalRequestsMsg::ApproveSelected => match (old(self).selected_request, old(self).has_daemon_client) {
                    (Some(id), true) => {
                        &&& effect matches Some(ApprovalEffect::Approve { request_id, message })
                            && request_id@ == id@ && message@ == old(self).response_message@
                        &&& *final(self) == (ApprovalRequests {
                            selected_request: None,
                            response_message: final(self).response_message,
                            ..*old(self)
                        })
                        &&& final(self).response_message@.len() == 0
                    },
                    _ => effect is None && *final(self) == *old(self),
                },
                ApprovalRequestsMsg::DenySelected => match (old(self).selected_request, old(self).has_daemon_client) {
                    (Some(id), true) => {
                        &&& effect matches Some(ApprovalEffect::Deny { request_id, message })
                            && request_id@ == id@ && message@ == old(self).response_message@
                        &&& *final(self) == (ApprovalRequests {
                            selected_request: None,
                            response_message: final(self).response_message,
                            ..*old(self)
                        })
                        &&& final(self).response_message@.len() == 0
                    },
                    _ => effect is None && *final(self) == *old(self),
                },
                ApprovalRequestsMsg::UpdateResponseMessage(m) => *final(self) == (ApprovalRequests {
                    response_message: m,
                    ..*old(self)
                }) && effect is None,
                ApprovalRequestsMsg::ShowMessage(m) => *final(self) == *old(self)
                    && (effect matches Some(ApprovalEffect::Output(s)) && s == m),
            },
    {
        match msg {
            ApprovalRequestsMsg::UpdateProfile(profile) => {
                self.profile = profile;
                None
            },
            ApprovalRequestsMsg::RefreshRequests => {
                if self.has_daemon_client {
                    Some(ApprovalEffect::FetchPending)
                } else {
                    Some(ApprovalEffect::NoDaemonClient)
                }
            },
            ApprovalRequestsMsg::UpdateRequests(requests) => {
                self.requests = requests;
                None
            },
            ApprovalRequestsMsg::SelectRequest(request_id) => {
                self.selected_request = Some(request_id);
                self.response_message = String::new();
                None
            },
            ApprovalRequestsMsg::ApproveSelected => {
                if self.has_daemon_client && self.selected_request.is_some() {
                    let request_id = match self.selected_request.take() {
                        Some(id) => id,
                        None => String::new(),
                    };
                    let mut message = String::new();
                    std::mem::swap(&mut message, &mut self.response_message);
                    Some(ApprovalEffect::Approve { request_id, message })
                } else {
                    None
                }
            },
            ApprovalRequestsMsg::DenySelected => {
                if self.has_daemon_client && self.selected_request.is_some() {
                    let request_id = match self.selected_request.take() {
                        Some(id) => id,
                        None => String::new(),
                    };
                    let mut message = String::new();
                    std::mem::swap(&mut message, &mut self.response_message);
                    Some(ApprovalEffect::Deny { request_id, message })
                } else {
                    None
                }
            },
            ApprovalRequestsMsg::UpdateResponseMessage(message) => {
                self.response_message = message;
                None
            },
            ApprovalRequestsMsg::ShowMessage(message) => Some(ApprovalEffect::Output(message)),
        }
    }
}

/// The messages that follow the daemon's answer to an approval
/// (`approved`) or a denial: on success a confirmation and a refresh, on
/// failure the error.
pub fn review_outcome(approved: bool, result: Result<(), String>) -> (msgs: Vec<ApprovalRequestsMsg>)
    ensures
        match result {
            Ok(()) => msgs@.len() == 2 && (msgs@[0] matches ApprovalRequestsMsg::ShowMessage(s) && s@ == (if approved {
                "Request approved successfully"@
            } else {
                "Request denied"@
            })) && msgs@[1] is RefreshRequests,
            Err(e) => msgs@.len() == 1 && (msgs@[0] matches ApprovalRequestsMsg::ShowMessage(s) && s@ == (if approved {
                "Failed to approve request: "@
            } else {
                "Failed to deny request: "@
            }) + e@),
        },
{
    let mut msgs = Vec::new();
    match result {
        Ok(()) => {
            if approved {
                msgs.push(ApprovalRequestsMsg::ShowMessage(String::from_str("Request approved successfully")));
            } else {
                msgs.push(ApprovalRequestsMsg::ShowMessage(String::from_str("Request denied")));
            }
            msgs.push(ApprovalRequestsMsg::RefreshRequests);
        },
        Err(e) => {
            let mut s = if approved {
                String::from_str("Failed to approve request: ")
            } else {
                String::from_str("Failed to deny request: ")
            };
            s.append(e.as_str());
            msgs.push(ApprovalRequestsMsg::ShowMessage(s));
        },
    }
    msgs
}

/// The message that follows the daemon's answer to a request for the
/// pending requests: the requests it sent, or none when it failed or sent
/// something unreadable.
pub fn pending_outcome(fetched: Option<Vec<ApprovalRequest>>) -> (msg: ApprovalRequestsMsg)
    ensures
        match fetched {
            Some(rs) => msg == ApprovalRequestsMsg::UpdateRequests(rs),
            None => msg matches ApprovalRequestsMsg::UpdateRequests(rs) && rs@.len() == 0,
        },
{
    match fetched {
        Some(requests) => ApprovalRequestsMsg::UpdateRequests(requests),
        None => ApprovalRequestsMsg::UpdateRequests(Vec::new()),
    }
}

} // verus!
