//! The activity monitor: which window has the focus, how long it had it,
//! the window tree of the Sway compositor, and the polling loop's counters.
use vstd::prelude::*;
use crate::activity::{Activity, ActivityType, NIL_ID, is_random_uuid, new_random_id, utc_now_millis};
use std::time::Instant;

verus! {

/// Default polling interval of the monitor, in milliseconds.
pub fn default_polling_interval() -> (ms: u64)
    ensures
        ms == 1000,
{
    1000
}

/// Default idle threshold of the monitor, in seconds.
pub fn default_idle_threshold() -> (s: u64)
    ensures
        s == 60,
{
    60
}

/// Settings of the monitor.
#[derive(Debug, Clone, Copy)]
pub struct MonitorConfig {
    pub polling_interval_ms: u64,
    pub report_idle_threshold_seconds: u64,
}

/// Errors of the monitor.
#[derive(Debug, Clone)]
pub enum MonitorError {
    NoDaemonConnection,
    Daemon(String),
}

impl MonitorConfig {
    /// The default settings: polling every second, idle after a minute.
    pub fn default_config() -> (c: MonitorConfig)
        ensures
            c.polling_interval_ms == 1000,
            c.report_idle_threshold_seconds == 60,
    {
        MonitorConfig { polling_interval_ms: 1000, report_idle_threshold_seconds: 60 }
    }

    /// The settings in use, which are the defaults.
    pub fn load() -> (r: Result<MonitorConfig, MonitorError>)
        ensures
            r matches Ok(c) && c.polling_interval_ms == 1000 && c.report_idle_threshold_seconds == 60,
    {
        Ok(MonitorConfig::default_config())
    }
}

impl Default for MonitorConfig {
    fn default() -> (c: Self)
        ensures
            c.polling_interval_ms == 1000,
            c.report_idle_threshold_seconds == 60,
    {
        MonitorConfig::default_config()
    }
}

/// A window as the compositor reports it.
#[derive(Debug, Clone, PartialEq)]
pub struct WindowInfo {
    pub app_id: Option<String>,
    pub title: Option<String>,
    pub _pid: Option<u32>,
}

/// Whether two windows count as the same: same application and same title.
pub open spec fn same_window(a: WindowInfo, b: WindowInfo) -> bool {
    a.app_id.deep_view() == b.app_id.deep_view() && a.title.deep_view() == b.title.deep_view()
}

/// Compares two optional strings by their characters.
pub fn opt_str_eq(a: &Option<String>, b: &Option<String>) -> (r: bool)
    ensures
        r == (a.deep_view() == b.deep_view()),
{
    match a {
        Some(x) => match b {
            Some(y) => {
                let e = *x == *y;
                proof {
                    assert(a.deep_view() == Some(x@));
                    assert(b.deep_view() == Some(y@));
                    assert(e == (x@ == y@));
                }
                e
            },
            None => false,
        },
        None => b.is_none(),
    }
}

/// A point of std's monotonic clock, `std::time::Instant`.
#[verifier::external_type_specification]
#[verifier::external_body]
pub struct ExInstant(Instant);

/// The std clock's current instant, from `std::time::Instant::now`.
#[verifier::external_body]
pub(crate) fn instant_now() -> (t: Instant) {
    Instant::now()
}

/// The whole milliseconds since `since` on std's monotonic clock, from
/// `Instant::elapsed`, capped at `u64::MAX`. What it reads depends on the
/// clock, so nothing is stated of it.
#[verifier::external_body]
pub(crate) fn millis_since(since: &Instant) -> (ms: u64) {
    u64::try_from(since.elapsed().as_millis()).unwrap_or(u64::MAX)
}

/// Whole seconds in a span of milliseconds, a started second counting as one.
pub open spec fn seconds_rounded_up(ms: u64) -> int {
    if ms % 1000 == 0 { (ms / 1000) as int } else { ms / 1000 + 1 }
}

/// Seconds in a span of milliseconds, rounded up, kept to 32 bits.
pub fn duration_seconds_of(ms: u64) -> (s: u32)
    ensures
        s == (seconds_rounded_up(ms) as u32),
{
    let whole = ms / 1000;
    let secs: u64 = if ms % 1000 == 0 { whole } else { whole + 1 };
    secs as u32
}

/// The milliseconds from clock reading `start` to reading `now`; none when
/// the clock seems to have gone back.
pub open spec fn elapsed_between(start: u64, now: u64) -> u64 {
    if now >= start { (now - start) as u64 } else { 0 }
}

/// The window that has the focus and the clock reading, in milliseconds
/// since the tracker started, at which it got it.
#[derive(Debug)]
pub struct FocusedWindow {
    pub info: WindowInfo,
    pub start_ms: u64,
}

/// Follows the focus and reports each window's time when it loses it.
/// Times are read in milliseconds since the tracker was made.
#[derive(Debug)]
pub struct ActivityTracker {
    started: Instant,
    current_focus: Option<FocusedWindow>,
}

/// The record of the time a window had the focus.
pub open spec fn usage_report(info: WindowInfo, id: u128, timestamp_ms: i64, elapsed_ms: u64, a: Activity) -> bool {
    &&& a.id == id
    &&& a.profile_id == NIL_ID
    &&& a.timestamp_ms == timestamp_ms
    &&& a.activity_type is ApplicationUsage
    &&& a.application.deep_view() == info.app_id.deep_view()
    &&& a.window_title.deep_view() == info.title.deep_view()
    &&& a.duration_seconds == (seconds_rounded_up(elapsed_ms) as u32)
}

/// What a focus change to `new_window` at clock reading `now_ms` does to a
/// tracker whose focus was `before`, giving focus `after` and `report`,
/// labelled with `id` and `timestamp_ms`. A report is made when a focused
/// window loses the focus to another window or to none, for the time from
/// its reading to `now_ms`; the same window again changes nothing.
pub open spec fn focus_step(
    before: Option<(WindowInfo, u64)>,
    new_window: Option<WindowInfo>,
    now_ms: u64,
    id: u128,
    timestamp_ms: i64,
    after: Option<(WindowInfo, u64)>,
    report: Option<Activity>,
) -> bool {
    match (before, new_window) {
        (Some((cur, start)), Some(w)) => if same_window(cur, w) {
            report is None && after == before
        } else {
            &&& report matches Some(a) && usage_report(cur, id, timestamp_ms, elapsed_between(start, now_ms), a)
            &&& after == Some((w, now_ms))
        },
        (Some((cur, start)), None) => {
            &&& report matches Some(a) && usage_report(cur, id, timestamp_ms, elapsed_between(start, now_ms), a)
            &&& after is None
        },
        (None, Some(w)) => report is None && after == Some((w, now_ms)),
        (None, None) => report is None && after is None,
    }
}

impl ActivityTracker {
    /// The focused window, if any, with the clock reading at which it got
    /// the focus.
    pub closed spec fn focus(&self) -> Option<(WindowInfo, u64)> {
        match self.current_focus {
            Some(f) => Some((f.info, f.start_ms)),
            None => None,
        }
    }

    /// A tracker with no focused window, its clock starting now.
    pub fn new() -> (t: Self)
        ensures
            t.focus() is None,
    {
        ActivityTracker { started: instant_now(), current_focus: None }
    }

    /// Records a focus change at clock reading `now_ms`; `id` and
    /// `timestamp_ms` label the report, as `focus_step` says.
    pub fn apply_focus_change(
        &mut self,
        new_window: Option<WindowInfo>,
        now_ms: u64,
        id: u128,
        timestamp_ms: i64,
    ) -> (report: Option<Activity>)
        ensures
            focus_step(old(self).focus(), new_window, now_ms, id, timestamp_ms, final(self).focus(), report),
    {
        let old_focus = self.current_focus.take();
        match (old_focus, new_window) {
            (Some(current), Some(new)) => {
                let same = opt_str_eq(&current.info.app_id, &new.app_id) && opt_str_eq(
                    &current.info.title,
                    &new.title,
                );
                if same {
                    self.current_focus = Some(current);
                    None
                } else {
                    let elapsed: u64 = if now_ms >= current.start_ms { now_ms - current.start_ms } else { 0 };
                    let report = Activity {
                        id,
                        profile_id: NIL_ID,
                        timestamp_ms,
                        activity_type: ActivityType::ApplicationUsage,
                        application: current.info.app_id,
                        window_title: current.info.title,
                        duration_seconds: duration_seconds_of(elapsed),
                    };
                    self.current_focus = Some(FocusedWindow { info: new, start_ms: now_ms });
                    Some(report)
                }
            },
            (Some(current), None) => {
                let elapsed: u64 = if now_ms >= current.start_ms { now_ms - current.start_ms } else { 0 };
                let report = Activity {
                    id,
                    profile_id: NIL_ID,
                    timestamp_ms,
                    activity_type: ActivityType::ApplicationUsage,
                    application: current.info.app_id,
                    window_title: current.info.title,
                    duration_seconds: duration_seconds_of(elapsed),
                };
                self.current_focus = None;
                Some(report)
            },
            (None, Some(new)) => {
                self.current_focus = Some(FocusedWindow { info: new, start_ms: now_ms });
                None
            },
            (None, None) => None,
        }
    }

    /// Records a focus change now: one reading of the tracker's clock, a
    /// fresh random identifier and the UTC time, as `focus_step` says.
    pub fn update_focus(&mut self, new_window: Option<WindowInfo>) -> (report: Option<Activity>)
        ensures
            exists|now_ms: u64, id: u128, timestamp_ms: i64| {
                &&& is_random_uuid(id)
                &&& #[trigger] focus_step(old(self).focus(), new_window, now_ms, id, timestamp_ms, final(self).focus(), report)
            },
    {
        let now_ms = millis_since(&self.started);
        let id = new_random_id();
        let timestamp_ms = utc_now_millis();
        let report = self.apply_focus_change(new_window, now_ms, id, timestamp_ms);
        proof {
            assert(focus_step(old(self).focus(), new_window, now_ms, id, timestamp_ms, self.focus(), report));
        }
        report
    }
}

impl Default for ActivityTracker {
    fn default() -> (t: Self)
        ensures
            t.focus() is None,
    {
        ActivityTracker::new()
    }
}

/// The compositors whose focused window the monitor can read.
#[derive(Debug, Clone, Copy, PartialEq, Eq, Structural)]
pub enum CompositorType {
    Niri,
    Sway,
    Hyprland,
    Unknown,
}

/// The compositor named by the session's environment: Niri, then Sway,
/// then Hyprland, by which of their variables is set.
pub open spec fn compositor_for(niri_socket: bool, sway_socket: bool, hyprland_signature: bool) -> CompositorType {
    if niri_socket {
        CompositorType::Niri
    } else if sway_socket {
        CompositorType::Sway
    } else if hyprland_signature {
        CompositorType::Hyprland
    } else {
        CompositorType::Unknown
    }
}

/// Picks the compositor from which of `NIRI_SOCKET`, `SWAYSOCK` and
/// `HYPRLAND_INSTANCE_SIGNATURE` are set.
pub fn detect_compositor(niri_socket: bool, sway_socket: bool, hyprland_signature: bool) -> (c: CompositorType)
    ensures
        c == compositor_for(niri_socket, sway_socket, hyprland_signature),
{
    if niri_socket {
        return CompositorType::Niri;
    }
    if sway_socket {
        return CompositorType::Sway;
    }
    if hyprland_signature {
        return CompositorType::Hyprland;
    }
    CompositorType::Unknown
}

/// Reads the focused window from the compositor of the session.
pub struct WaylandMonitor {
    compositor: CompositorType,
}

impl WaylandMonitor {
    /// The compositor this monitor asks.
    pub closed spec fn compositor_spec(&self) -> CompositorType {
        self.compositor
    }

    /// A monitor for the compositor that the environment names; the flags
    /// tell which of `NIRI_SOCKET`, `SWAYSOCK` and
    /// `HYPRLAND_INSTANCE_SIGNATURE` are set.
    pub fn new(niri_socket: bool, sway_socket: bool, hyprland_signature: bool) -> (r: Result<WaylandMonitor, MonitorError>)
        ensures
            r matches Ok(m) && m.compositor_spec() == compositor_for(niri_socket, sway_socket, hyprland_signature),
    {
        Ok(WaylandMonitor { compositor: detect_compositor(niri_socket, sway_socket, hyprland_signature) })
    }

    /// The compositor this monitor asks.
    pub fn compositor(&self) -> (c: CompositorType)
        ensures
            c == self.compositor_spec(),
    {
        self.compositor
    }
}

/// A node of Sway's window tree, with the fields the monitor reads.
pub struct WindowTreeNode {
    pub focused: bool,
    pub app_id: Option<String>,
    pub name: Option<String>,
    pub pid: Option<u64>,
    pub nodes: Vec<WindowTreeNode>,
    pub floating_nodes: Vec<WindowTreeNode>,
}

/// The first focused node of a tree, in pre-order, tiled children before
/// floating ones.
pub open spec fn focused_node(node: WindowTreeNode) -> Option<WindowTreeNode>
    decreases node, 0int,
{
    if node.focused {
        Some(node)
    } else {
        match focused_in(node.nodes@, 0) {
            Some(n) => Some(n),
            None => focused_in(node.floating_nodes@, 0),
        }
    }
}

/// The first focused node among the trees `nodes[i..]`.
pub open spec fn focused_in(nodes: Seq<WindowTreeNode>, i: int) -> Option<WindowTreeNode>
    decreases nodes, nodes.len() - i,
{
    if i < 0 || i >= nodes.len() {
        None
    } else {
        match focused_node(nodes[i]) {
            Some(n) => Some(n),
            None => focused_in(nodes, i + 1),
        }
    }
}

/// The node that an optional reference points to.
pub open spec fn node_of(r: Option<&WindowTreeNode>) -> Option<WindowTreeNode> {
    match r {
        Some(n) => Some(*n),
        None => None,
    }
}

/// Finds the first focused node in `nodes`.
fn find_focused_in<'a>(nodes: &'a Vec<WindowTreeNode>) -> (r: Option<&'a WindowTreeNode>)
    ensures
        node_of(r) == focused_in(nodes@, 0),
    decreases nodes@, 0int,
{
    let n = nodes.len();
    let mut i: usize = 0;
    while i < n
        invariant
            n == nodes@.len(),
            i <= n,
            focused_in(nodes@, 0) == focused_in(nodes@, i as int),
        decreases n - i,
    {
        let found = find_focused_node(&nodes[i]);
        if found.is_some() {
            return found;
        }
        i = i + 1;
    }
    None
}

/// Finds the first focused node of a window tree: the node itself when it
/// has the focus, else the first found among its tiled children, else among
/// its floating ones.
pub fn find_focused_node<'a>(node: &'a WindowTreeNode) -> (r: Option<&'a WindowTreeNode>)
    ensures
        node_of(r) == focused_node(*node),
    decreases *node, 1int,
{
    if node.focused {
        return Some(node);
    }
    let tiled = find_focused_in(&node.nodes);
    if tiled.is_some() {
        return tiled;
    }
    find_focused_in(&node.floating_nodes)
}

/// The window that a Sway tree node describes; the pid keeps its low 32 bits.
pub fn sway_window_info(node: &WindowTreeNode) -> (w: WindowInfo)
    ensures
        w.app_id == node.app_id,
        w.title == node.name,
        w._pid == (match node.pid {
            Some(p) => Some(p as u32),
            None => None,
        }),
{
    WindowInfo {
        app_id: node.app_id.clone(),
        title: node.name.clone(),
        _pid: match node.pid {
            Some(p) => Some(p as u32),
            None => None,
        },
    }
}

/// Counts polls between heartbeats to the daemon.
pub struct HeartbeatCounter {
    count: u32,
}

/// Polls between two heartbeats.
pub const HEARTBEAT_INTERVAL: u32 = 100;

/// Whether the poll after `count` earlier ones is due a heartbeat.
pub open spec fn heartbeat_due(count: nat) -> bool {
    count + 1 >= HEARTBEAT_INTERVAL
}

/// The count after one more poll: it starts again from zero on a heartbeat.
pub open spec fn next_count(count: nat) -> nat {
    if heartbeat_due(count) { 0 } else { count + 1 }
}

/// The count after `n` polls of a fresh counter.
pub open spec fn count_after(n: nat) -> nat
    decreases n,
{
    if n == 0 { 0 } else { next_count(count_after((n - 1) as nat)) }
}

impl HeartbeatCounter {
    /// The polls counted since the last heartbeat.
    pub closed spec fn polls(&self) -> nat {
        self.count as nat
    }

    /// Fewer polls than a heartbeat interval are ever counted.
    #[verifier::type_invariant]
    closed spec fn below_interval(&self) -> bool {
        self.count < HEARTBEAT_INTERVAL
    }

    /// A counter at zero.
    pub fn new() -> (c: Self)
        ensures
            c.polls() == 0,
    {
        HeartbeatCounter { count: 0 }
    }

    /// The polls counted since the last heartbeat, always below the
    /// interval.
    pub fn polls_since_heartbeat(&self) -> (n: u32)
        ensures
            n == self.polls(),
            n < HEARTBEAT_INTERVAL,
    {
        proof {
            use_type_invariant(self);
        }
        self.count
    }

    /// Counts one poll; answers whether a heartbeat is due now, in which
    /// case the count starts again from zero.
    pub fn poll_done(&mut self) -> (due: bool)
        ensures
            due == heartbeat_due(old(self).polls()),
            final(self).polls() == next_count(old(self).polls()),
            final(self).polls() < HEARTBEAT_INTERVAL,
    {
        proof {
            use_type_invariant(&*self);
        }
        let next = self.count + 1;
        if next >= HEARTBEAT_INTERVAL {
            self.count = 0;
            true
        } else {
            self.count = next;
            false
        }
    }
}

/// What the daemon answered when asked for the active profile: an error,
/// when its reply had an `error` member (its JSON text), and the `id`
/// member when that was a string.
pub struct ProfileReply {
    pub error: Option<String>,
    pub id: Option<String>,
}

/// Why the active profile's identifier could not be had.
#[derive(Debug)]
pub enum ProfileIdError {
    /// The daemon answered an error.
    Daemon(String),
    /// The reply named no identifier.
    MissingId,
    /// The identifier is not a UUID.
    InvalidId(String),
}

/// The UUID that `uuid::Uuid::parse_str` reads from the text, as a
/// big-endian integer (`Uuid::as_u128`); `None` where it refuses the text.
pub uninterp spec fn uuid_parsed(text: Seq<char>) -> Option<u128>;

/// Parses a UUID with `uuid::Uuid::parse_str` and gives it as an integer
/// with `Uuid::as_u128`; `None` where the text is not a UUID.
#[verifier::external_body]
pub(crate) fn parse_uuid(text: &str) -> (r: Option<u128>)
    ensures
        r == uuid_parsed(text@),
{
    match uuid::Uuid::parse_str(text) {
        Ok(u) => Some(u.as_u128()),
        Err(_) => None,
    }
}

/// The active profile's identifier from the daemon's reply: an error
/// reply is an error, a reply without an identifier is one too, and an
/// identifier that is not a UUID is refused.
pub fn active_profile_id(reply: &ProfileReply) -> (r: Result<u128, ProfileIdError>)
    ensures
        reply.error is Some ==> (r matches Err(ProfileIdError::Daemon(e)) && e@ == reply.error->0@),
        reply.error is None ==> match reply.id {
            None => r matches Err(ProfileIdError::MissingId),
            Some(t) => match uuid_parsed(t@) {
                Some(u) => r == Ok::<u128, ProfileIdError>(u),
                None => r matches Err(ProfileIdError::InvalidId(x)) && x@ == t@,
            },
        },
{
    match &reply.error {
        Some(e) => Err(ProfileIdError::Daemon(e.clone())),
        None => match &reply.id {
            None => Err(ProfileIdError::MissingId),
            Some(t) => match parse_uuid(t.as_str()) {
                Some(u) => Ok(u),
                None => Err(ProfileIdError::InvalidId(t.clone())),
            },
        },
    }
}

/// Stamps a completed activity with the active profile; when the daemon
/// did not name one the nil identifier is used.
pub fn attach_profile(activity: &mut Activity, active_profile: Option<u128>)
    ensures
        *final(activity) == (Activity {
            profile_id: match active_profile {
                Some(p) => p,
                None => NIL_ID,
            },
            ..*old(activity)
        }),
{
    activity.profile_id = match active_profile {
        Some(p) => p,
        None => NIL_ID,
    };
}

/// A node that the search finds has the focus.
pub proof fn lemma_found_node_is_focused(node: WindowTreeNode)
    ensures
        focused_node(node) matches Some(m) ==> m.focused,
    decreases node, 0int,
{
    if !node.focused {
        lemma_found_in_is_focused(node.nodes@, 0);
        lemma_found_in_is_focused(node.floating_nodes@, 0);
    }
}

/// A node that the search of a list of trees finds has the focus.
pub proof fn lemma_found_in_is_focused(nodes: Seq<WindowTreeNode>, i: int)
    ensures
        focused_in(nodes, i) matches Some(m) ==> m.focused,
    decreases nodes, nodes.len() - i,
{
    if 0 <= i < nodes.len() {
        lemma_found_node_is_focused(nodes[i]);
        lemma_found_in_is_focused(nodes, i + 1);
    }
}

/// Any time spent on a window counts as at least one second, and at most
/// one second more than its whole seconds.
pub proof fn lemma_started_second_counts(ms: u64)
    ensures
        ms > 0 ==> seconds_rounded_up(ms) >= 1,
        ms / 1000 <= seconds_rounded_up(ms) <= ms / 1000 + 1,
        ms % 1000 == 0 ==> seconds_rounded_up(ms) * 1000 == ms,
{
}

/// A fresh counter has counted `n % 100` polls after `n` polls, and the
/// `n`-th poll is due a heartbeat exactly when `n` is a multiple of 100:
/// one heartbeat every hundred polls.
pub proof fn lemma_heartbeat_every_interval(n: nat)
    ensures
        count_after(n) == n % (HEARTBEAT_INTERVAL as nat),
        n > 0 ==> (heartbeat_due(count_after((n - 1) as nat)) <==> n % (HEARTBEAT_INTERVAL as nat) == 0),
    decreases n,
{
    if n > 0 {
        lemma_heartbeat_every_interval((n - 1) as nat);
    }
}

/// A focus change to a window of another application, or with another
/// title, reports the window that had the focus (its application and
/// title, for the time since its reading) and hands the focus to the new
/// window; the same application with the same title changes nothing.
pub proof fn lemma_other_window_is_reported(
    cur: WindowInfo,
    start: u64,
    w: WindowInfo,
    now_ms: u64,
    id: u128,
    timestamp_ms: i64,
    after: Option<(WindowInfo, u64)>,
    report: Option<Activity>,
)
    requires
        focus_step(Some((cur, start)), Some(w), now_ms, id, timestamp_ms, after, report),
    ensures
        cur.app_id.deep_view() != w.app_id.deep_view() || cur.title.deep_view() != w.title.deep_view() ==> {
            &&& report matches Some(a) && a.application.deep_view() == cur.app_id.deep_view()
                && a.window_title.deep_view() == cur.title.deep_view()
                && a.duration_seconds == (seconds_rounded_up(elapsed_between(start, now_ms)) as u32)
            &&& after == Some((w, now_ms))
        },
        cur.app_id.deep_view() == w.app_id.deep_view() && cur.title.deep_view() == w.title.deep_view() ==> {
            &&& report is None
            &&& after == Some((cur, start))
        },
{
}

/// The node reached from `node` by following `path`: each step picks a
/// tiled child (`false`) or a floating child (`true`) by its index.
pub open spec fn node_at(node: WindowTreeNode, path: Seq<(bool, int)>) -> Option<WindowTreeNode>
    decreases path.len(),
{
    if path.len() == 0 {
        Some(node)
    } else {
        let (floating, i) = path[0];
        let children = if floating { node.floating_nodes@ } else { node.nodes@ };
        if 0 <= i < children.len() {
            node_at(children[i], path.drop_first())
        } else {
            None
        }
    }
}

/// The search of a list of trees finds something when any tree from index
/// `j` on holds a focused node that the search of that tree finds.
proof fn lemma_found_in_from(nodes: Seq<WindowTreeNode>, j: int, i: int)
    requires
        0 <= j <= i < nodes.len(),
        focused_node(nodes[i]) is Some,
    ensures
        focused_in(nodes, j) is Some,
    decreases i - j,
{
    if j < i && focused_node(nodes[j]) is None {
        lemma_found_in_from(nodes, j + 1, i);
    }
}

/// The search is complete: when any node reachable from the root through
/// tiled and floating children, at any depth, has the focus, the search
/// finds a focused node.
pub proof fn lemma_focused_node_found_at_any_depth(root: WindowTreeNode, path: Seq<(bool, int)>)
    requires
        node_at(root, path) matches Some(n) && n.focused,
    ensures
        focused_node(root) matches Some(m) && m.focused,
    decreases path.len(),
{
    lemma_found_node_is_focused(root);
    if path.len() > 0 && !root.focused {
        let (floating, i) = path[0];
        let children = if floating { root.floating_nodes@ } else { root.nodes@ };
        lemma_focused_node_found_at_any_depth(children[i], path.drop_first());
        lemma_found_in_from(children, 0, i);
    }
}

} // verus!
