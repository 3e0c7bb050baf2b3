//! The lock screen shown to a child.
use vstd::prelude::*;
use crate::profile::Profile;

verus! {

/// Why the screen is locked.
pub enum LockscreenReason {
    ScreenTimeLimitExceeded,
    BedtimeEnforcement,
    BlockedAppAccess(String),
    ParentalLock,
}

/// The sentence that explains a reason.
pub open spec fn reason_text(r: LockscreenReason) -> Seq<char> {
    match r {
        LockscreenReason::ScreenTimeLimitExceeded => "Screen time limit reached for today"@,
        LockscreenReason::BedtimeEnforcement => "It's bedtime! Time to rest"@,
        LockscreenReason::BlockedAppAccess(app) => "Access to "@ + app@ + " is not allowed"@,
        LockscreenReason::ParentalLock => "Computer locked by parent"@,
    }
}

impl LockscreenReason {
    /// The sentence shown for the reason.
    pub fn describe(&self) -> (s: String)
        ensures
            s@ == reason_text(*self),
    {
        match self {
            LockscreenReason::ScreenTimeLimitExceeded => String::from_str("Screen time limit reached for today"),
            LockscreenReason::BedtimeEnforcement => String::from_str("It's bedtime! Time to rest"),
            LockscreenReason::BlockedAppAccess(app) => {
                let mut s = String::from_str("Access to ");
                s.append(app.as_str());
                s.append(" is not allowed");
                s
            },
            LockscreenReason::ParentalLock => String::from_str("Computer locked by parent"),
        }
    }
}

/// What the child, the parent and the clock do on the lock screen.
pub enum ChildLockscreenMsg {
    UpdateProfile(Profile),
    SetReason(LockscreenReason),
    UpdateCountdown(u32),
    ShowParentOverride,
    HideParentOverride,
    ParentPasswordChanged(String),
    AttemptParentAuth,
    AuthenticationResult(bool),
    RequestEmergencyAccess,
    AcceptRestriction,
    Tick,
}

/// The work that a message leaves for the window.
pub enum LockscreenEffect {
    /// Ask the daemon to authenticate the parent with this password.
    Authenticate { password: String },
    /// Lift the lock.
    Unlock,
}

/// Failed parent authentications after which no more attempts are made.
pub const MAX_AUTH_ATTEMPTS: u32 = 3;

/// Seconds the bedtime lock lasts.
pub const BEDTIME_LOCK_SECONDS: u32 = 28800;

/// The lock screen.
pub struct ChildLockscreen {
    pub profile: Profile,
    pub reason: LockscreenReason,
    pub countdown_seconds: u32,
    pub show_parent_override: bool,
    pub parent_password: String,
    pub authentication_failed: bool,
    pub authentication_attempts: u32,
}

/// What one message does to the lock screen `old`, giving `new` and
/// `effect`.
pub open spec fn lockscreen_step(
    old: ChildLockscreen,
    msg: ChildLockscreenMsg,
    new: ChildLockscreen,
    effect: Option<LockscreenEffect>,
) -> bool {
    match msg {
        ChildLockscreenMsg::UpdateProfile(p) => new == (ChildLockscreen { profile: p, ..old })
            && effect is None,
        ChildLockscreenMsg::SetReason(r) => new == (ChildLockscreen { reason: r, ..old })
            && effect is None,
        ChildLockscreenMsg::UpdateCountdown(s) => new == (ChildLockscreen {
            countdown_seconds: s,
            ..old
        }) && effect is None,
        ChildLockscreenMsg::ShowParentOverride => new == (ChildLockscreen {
            show_parent_override: true,
            parent_password: new.parent_password,
            authentication_failed: false,
            ..old
        }) && new.parent_password@.len() == 0 && effect is None,
        ChildLockscreenMsg::HideParentOverride => new == (ChildLockscreen {
            show_parent_override: false,
            parent_password: new.parent_password,
            authentication_failed: false,
            ..old
        }) && new.parent_password@.len() == 0 && effect is None,
        ChildLockscreenMsg::ParentPasswordChanged(p) => new == (ChildLockscreen {
            parent_password: p,
            authentication_failed: false,
            ..old
        }) && effect is None,
        ChildLockscreenMsg::AttemptParentAuth => if old.authentication_attempts >= MAX_AUTH_ATTEMPTS {
            new == (ChildLockscreen { authentication_failed: true, ..old }) && effect is None
        } else {
            new == old && (effect matches Some(LockscreenEffect::Authenticate { password })
                && password@ == old.parent_password@)
        },
        ChildLockscreenMsg::AuthenticationResult(true) => new == old
            && effect matches Some(LockscreenEffect::Unlock),
        ChildLockscreenMsg::AuthenticationResult(false) => new == (ChildLockscreen {
            authentication_attempts: new.authentication_attempts,
            authentication_failed: true,
            parent_password: new.parent_password,
            ..old
        }) && new.authentication_attempts == old.authentication_attempts + 1 && new.parent_password@.len() == 0
            && effect is None,
        ChildLockscreenMsg::RequestEmergencyAccess => new == old && effect is None,
        ChildLockscreenMsg::AcceptRestriction => new == old && effect is None,
        ChildLockscreenMsg::Tick => if old.countdown_seconds > 0 {
            &&& new == (ChildLockscreen {
                countdown_seconds: (old.countdown_seconds - 1) as u32,
                ..old
            })
            &&& (new.countdown_seconds == 0) == (effect matches Some(LockscreenEffect::Unlock))
            &&& new.countdown_seconds > 0 ==> effect is None
        } else {
            new == old && effect is None
        },
    }
}

impl ChildLockscreen {
    /// The lock screen for `profile` and `reason`; a bedtime lock counts
    /// down eight hours, other locks do not count down. The window ticks
    /// the clock every second while `countdown_seconds` is positive.
    pub fn init(profile: Profile, reason: LockscreenReason) -> (s: ChildLockscreen)
        ensures
            s.countdown_seconds == (if reason is BedtimeEnforcement { BEDTIME_LOCK_SECONDS } else { 0 }),
            s.profile == profile,
            s.reason == reason,
            !s.show_parent_override,
            s.parent_password@.len() == 0,
            !s.authentication_failed,
            s.authentication_attempts == 0,
    {
        let countdown_seconds = match &reason {
            LockscreenReason::BedtimeEnforcement => BEDTIME_LOCK_SECONDS,
            _ => 0,
        };
        ChildLockscreen {
            profile,
            reason,
            countdown_seconds,
            show_parent_override: false,
            parent_password: String::new(),
            authentication_failed: false,
            authentication_attempts: 0,
        }
    }

    /// Handles one message. After three failed authentications no more are
    /// attempted; the lock lifts on a successful authentication or when the
    /// countdown reaches zero.
    pub fn update(&mut self, msg: ChildLockscreenMsg) -> (effect: Option<LockscreenEffect>)
        requires
            msg matches ChildLockscreenMsg::AuthenticationResult(false) ==> old(self).authentication_attempts < u32::MAX,
        ensures
            lockscreen_step(*old(self), msg, *final(self), effect),
    {
        match msg {
            ChildLockscreenMsg::UpdateProfile(profile) => {
                self.profile = profile;
                None
            },
            ChildLockscreenMsg::SetReason(reason) => {
                self.reason = reason;
                None
            },
            ChildLockscreenMsg::UpdateCountdown(seconds) => {
                self.countdown_seconds = seconds;
                None
            },
            ChildLockscreenMsg::ShowParentOverride => {
                self.show_parent_override = true;
                self.parent_password = String::new();
                self.authentication_failed = false;
                None
            },
            ChildLockscreenMsg::HideParentOverride => {
                self.show_parent_override = false;
                self.parent_password = String::new();
                self.authentication_failed = false;
                None
            },
            ChildLockscreenMsg::ParentPasswordChanged(password) => {
                self.parent_password = password;
                self.authentication_failed = false;
                None
            },
            ChildLockscreenMsg::AttemptParentAuth => {
                if self.authentication_attempts >= MAX_AUTH_ATTEMPTS {
                    self.authentication_failed = true;
                    return None;
                }
                Some(LockscreenEffect::Authenticate { password: self.parent_password.clone() })
            },
            ChildLockscreenMsg::AuthenticationResult(success) => {
                if success {
                    Some(LockscreenEffect::Unlock)
                } else {
                    self.authentication_attempts = self.authentication_attempts + 1;
                    self.authentication_failed = true;
                    self.parent_password = String::new();
                    None
                }
            },
            ChildLockscreenMsg::RequestEmergencyAccess => None,
            ChildLockscreenMsg::AcceptRestriction => None,
            ChildLockscreenMsg::Tick => {
                if self.countdown_seconds > 0 {
                    self.countdown_seconds = self.countdown_seconds - 1;
                    if self.countdown_seconds == 0 {
                        return Some(LockscreenEffect::Unlock);
                    }
                }
                None
            },
        }
    }
}

/// Failed authentications are never forgotten, and once three have failed
/// no password is sent to the daemon again, whatever the messages.
pub proof fn lemma_failed_attempts_stay_counted(
    old: ChildLockscreen,
    msg: ChildLockscreenMsg,
    new: ChildLockscreen,
    effect: Option<LockscreenEffect>,
)
    requires
        lockscreen_step(old, msg, new, effect),
    ensures
        new.authentication_attempts >= old.authentication_attempts,
        old.authentication_attempts >= MAX_AUTH_ATTEMPTS ==> !(effect matches Some(LockscreenEffect::Authenticate { .. })),
{
}

} // verus!
