//! Child profiles and their policies, and the store of profiles that the
//! management window works on.
use vstd::prelude::*;
use crate::activity::{is_random_uuid, new_random_id, utc_now_millis, NIL_ID};
use crate::strset::string_views;

verus! {

/// The age group of a child.
#[derive(Debug, Clone, Copy, PartialEq, Eq, Structural)]
pub enum AgeGroup {
    EarlyElementary,
    LateElementary,
    HighSchool,
}

/// Whether applications are listed as allowed or as blocked.
#[derive(Debug, Clone, Copy, PartialEq, Eq, Structural)]
pub enum ApplicationMode {
    Allowlist,
    Blocklist,
}

/// A span of the day in which the computer may be used, as "HH:MM" texts.
pub struct TimeWindow {
    pub start: String,
    pub end: String,
}

/// The usage windows on weekdays and on weekends.
pub struct TimeWindows {
    pub weekday: Vec<TimeWindow>,
    pub weekend: Vec<TimeWindow>,
}

/// Screen-time limits.
pub struct ScreenTimeConfig {
    pub daily_limit_minutes: u32,
    pub weekend_bonus_minutes: u32,
    pub exempt_categories: Vec<String>,
    pub windows: TimeWindows,
}

/// Which applications may run.
pub struct ApplicationConfig {
    pub mode: ApplicationMode,
    pub allowed: Vec<String>,
    pub blocked: Vec<String>,
    pub blocked_categories: Vec<String>,
}

/// Web filtering of a profile.
pub struct WebFilteringConfig {
    pub enabled: bool,
    pub safe_search: bool,
    pub blocked_categories: Vec<String>,
    pub allowed_domains: Vec<String>,
    pub blocked_domains: Vec<String>,
}

/// Terminal filtering of a profile.
pub struct TerminalFilteringConfig {
    pub enabled: bool,
}

/// The policies of a profile.
pub struct ProfileConfig {
    pub screen_time: ScreenTimeConfig,
    pub applications: ApplicationConfig,
    pub web_filtering: WebFilteringConfig,
    pub terminal_filtering: TerminalFilteringConfig,
}

/// A child's profile. The identifier is a UUID as an integer; times are
/// milliseconds since the Unix epoch; the birthday is a day count.
pub struct Profile {
    pub id: u128,
    pub name: String,
    pub age_group: AgeGroup,
    pub birthday: Option<i32>,
    pub created_at: i64,
    pub updated_at: i64,
    pub config: ProfileConfig,
    pub active: bool,
}

/// A time window's texts.
pub open spec fn window_views(v: Seq<TimeWindow>) -> Seq<(Seq<char>, Seq<char>)> {
    v.map_values(|w: TimeWindow| (w.start@, w.end@))
}

/// A profile with its strings and lists taken as sequences.
#[verifier::ext_equal]
pub struct ProfileView {
    pub id: u128,
    pub name: Seq<char>,
    pub age_group: AgeGroup,
    pub birthday: Option<i32>,
    pub created_at: i64,
    pub updated_at: i64,
    pub daily_limit_minutes: u32,
    pub weekend_bonus_minutes: u32,
    pub exempt_categories: Seq<Seq<char>>,
    pub weekday_windows: Seq<(Seq<char>, Seq<char>)>,
    pub weekend_windows: Seq<(Seq<char>, Seq<char>)>,
    pub application_mode: ApplicationMode,
    pub allowed_apps: Seq<Seq<char>>,
    pub blocked_apps: Seq<Seq<char>>,
    pub blocked_app_categories: Seq<Seq<char>>,
    pub web_filtering_enabled: bool,
    pub safe_search: bool,
    pub web_blocked_categories: Seq<Seq<char>>,
    pub allowed_domains: Seq<Seq<char>>,
    pub blocked_domains: Seq<Seq<char>>,
    pub terminal_filtering_enabled: bool,
    pub active: bool,
}

impl View for Profile {
    type V = ProfileView;

    open spec fn view(&self) -> ProfileView {
        ProfileView {
            id: self.id,
            name: self.name@,
            age_group: self.age_group,
            birthday: self.birthday,
            created_at: self.created_at,
            updated_at: self.updated_at,
            daily_limit_minutes: self.config.screen_time.daily_limit_minutes,
            weekend_bonus_minutes: self.config.screen_time.weekend_bonus_minutes,
            exempt_categories: string_views(self.config.screen_time.exempt_categories@),
            weekday_windows: window_views(self.config.screen_time.windows.weekday@),
            weekend_windows: window_views(self.config.screen_time.windows.weekend@),
            application_mode: self.config.applications.mode,
            allowed_apps: string_views(self.config.applications.allowed@),
            blocked_apps: string_views(self.config.applications.blocked@),
            blocked_app_categories: string_views(self.config.applications.blocked_categories@),
            web_filtering_enabled: self.config.web_filtering.enabled,
            safe_search: self.config.web_filtering.safe_search,
            web_blocked_categories: string_views(self.config.web_filtering.blocked_categories@),
            allowed_domains: string_views(self.config.web_filtering.allowed_domains@),
            blocked_domains: string_views(self.config.web_filtering.blocked_domains@),
            terminal_filtering_enabled: self.config.terminal_filtering.enabled,
            active: self.active,
        }
    }
}

/// A copy of a vector of strings.
pub fn copy_strings(v: &Vec<String>) -> (r: Vec<String>)
    ensures
        string_views(r@) == string_views(v@),
{
    let mut r: Vec<String> = Vec::new();
    let n = v.len();
    for i in 0..n
        invariant
            n == v@.len(),
            string_views(r@) == string_views(v@).take(i as int),
    {
        let ghost before = r@;
        r.push(v[i].clone());
        proof {
            assert(string_views(r@) =~= string_views(before).push(v@[i as int]@));
            assert(string_views(v@).take(i + 1) =~= string_views(v@).take(i as int).push(v@[i as int]@));
        }
    }
    proof {
        assert(string_views(v@).take(n as int) =~= string_views(v@));
    }
    r
}

/// A copy of a list of time windows.
pub fn copy_windows(v: &Vec<TimeWindow>) -> (r: Vec<TimeWindow>)
    ensures
        window_views(r@) == window_views(v@),
{
    let mut r: Vec<TimeWindow> = Vec::new();
    let n = v.len();
    for i in 0..n
        invariant
            n == v@.len(),
            window_views(r@) == window_views(v@).take(i as int),
    {
        let ghost before = r@;
        r.push(TimeWindow { start: v[i].start.clone(), end: v[i].end.clone() });
        proof {
            assert(window_views(r@) =~= window_views(before).push((v@[i as int].start@, v@[i as int].end@)));
            assert(window_views(v@).take(i + 1) =~= window_views(v@).take(i as int).push(
                (v@[i as int].start@, v@[i as int].end@),
            ));
        }
    }
    proof {
        assert(window_views(v@).take(n as int) =~= window_views(v@));
    }
    r
}

impl Profile {
    /// A copy of the profile.
    pub fn duplicate(&self) -> (r: Profile)
        ensures
            r@ == self@,
    {
        Profile {
            id: self.id,
            name: self.name.clone(),
            age_group: self.age_group,
            birthday: self.birthday,
            created_at: self.created_at,
            updated_at: self.updated_at,
            config: ProfileConfig {
                screen_time: ScreenTimeConfig {
                    daily_limit_minutes: self.config.screen_time.daily_limit_minutes,
                    weekend_bonus_minutes: self.config.screen_time.weekend_bonus_minutes,
                    exempt_categories: copy_strings(&self.config.screen_time.exempt_categories),
                    windows: TimeWindows {
                        weekday: copy_windows(&self.config.screen_time.windows.weekday),
                        weekend: copy_windows(&self.config.screen_time.windows.weekend),
                    },
                },
                applications: ApplicationConfig {
                    mode: self.config.applications.mode,
                    allowed: copy_strings(&self.config.applications.allowed),
                    blocked: copy_strings(&self.config.applications.blocked),
                    blocked_categories: copy_strings(&self.config.applications.blocked_categories),
                },
                web_filtering: WebFilteringConfig {
                    enabled: self.config.web_filtering.enabled,
                    safe_search: self.config.web_filtering.safe_search,
                    blocked_categories: copy_strings(&self.config.web_filtering.blocked_categories),
                    allowed_domains: copy_strings(&self.config.web_filtering.allowed_domains),
                    blocked_domains: copy_strings(&self.config.web_filtering.blocked_domains),
                },
                terminal_filtering: TerminalFilteringConfig {
                    enabled: self.config.terminal_filtering.enabled,
                },
            },
            active: self.active,
        }
    }

    /// An empty profile: nil identifier, empty name, early elementary age
    /// group, no limits or lists, every switch off, times at the epoch.
    pub fn blank() -> (p: Profile)
        ensures
            p@ == blank_profile_view(),
    {
        let p = Profile {
            id: NIL_ID,
            name: String::new(),
            age_group: AgeGroup::EarlyElementary,
            birthday: None,
            created_at: 0,
            updated_at: 0,
            config: ProfileConfig {
                screen_time: ScreenTimeConfig {
                    daily_limit_minutes: 0,
                    weekend_bonus_minutes: 0,
                    exempt_categories: Vec::new(),
                    windows: TimeWindows { weekday: Vec::new(), weekend: Vec::new() },
                },
                applications: ApplicationConfig {
                    mode: ApplicationMode::Allowlist,
                    allowed: Vec::new(),
                    blocked: Vec::new(),
                    blocked_categories: Vec::new(),
                },
                web_filtering: WebFilteringConfig {
                    enabled: false,
                    safe_search: false,
                    blocked_categories: Vec::new(),
                    allowed_domains: Vec::new(),
                    blocked_domains: Vec::new(),
                },
                terminal_filtering: TerminalFilteringConfig { enabled: false },
            },
            active: false,
        };
        proof {
            assert(p@ =~= blank_profile_view());
        }
        p
    }
}

impl Clone for Profile {
    fn clone(&self) -> (r: Self)
        ensures
            r@ == self@,
    {
        self.duplicate()
    }
}

/// The view of `Profile::blank()`.
pub open spec fn blank_profile_view() -> ProfileView {
    ProfileView {
        id: NIL_ID,
        name: Seq::empty(),
        age_group: AgeGroup::EarlyElementary,
        birthday: None,
        created_at: 0,
        updated_at: 0,
        daily_limit_minutes: 0,
        weekend_bonus_minutes: 0,
        exempt_categories: Seq::empty(),
        weekday_windows: Seq::empty(),
        weekend_windows: Seq::empty(),
        application_mode: ApplicationMode::Allowlist,
        allowed_apps: Seq::empty(),
        blocked_apps: Seq::empty(),
        blocked_app_categories: Seq::empty(),
        web_filtering_enabled: false,
        safe_search: false,
        web_blocked_categories: Seq::empty(),
        allowed_domains: Seq::empty(),
        blocked_domains: Seq::empty(),
        terminal_filtering_enabled: false,
        active: false,
    }
}

/// The profiles of a vector, each taken by its view.
pub open spec fn profile_views(v: Seq<Profile>) -> Seq<ProfileView> {
    v.map_values(|p: Profile| p@)
}

/// The index of the first profile with identifier `id`.
pub open spec fn first_with_id(ps: Seq<ProfileView>, id: u128) -> Option<int>
    decreases ps.len(),
{
    if ps.len() == 0 {
        None
    } else {
        match first_with_id(ps.drop_last(), id) {
            Some(i) => Some(i),
            None => if ps.last().id == id {
                Some(ps.len() - 1)
            } else {
                None
            },
        }
    }
}

/// The profiles known to the management window and the one selected.
pub struct ProfileStore {
    pub profiles: Vec<Profile>,
    pub selected_profile_id: Option<u128>,
}

impl ProfileStore {
    /// The profiles, each taken by its view.
    pub open spec fn profiles_view(&self) -> Seq<ProfileView> {
        profile_views(self.profiles@)
    }

    /// A store holding one sample profile, "Alice", late elementary, with a
    /// daily limit of 120 minutes, a weekend bonus of 60, no lists, web
    /// filtering and safe search on, active; nothing selected.
    pub fn new() -> (s: ProfileStore)
        ensures
            s.selected_profile_id is None,
            s.profiles@.len() == 1,
            s.profiles@[0]@.name == "Alice"@,
            s.profiles@[0]@.age_group == AgeGroup::LateElementary,
            s.profiles@[0]@.daily_limit_minutes == 120,
            s.profiles@[0]@.weekend_bonus_minutes == 60,
            s.profiles@[0]@.exempt_categories.len() == 0,
            s.profiles@[0]@.weekday_windows.len() == 0,
            s.profiles@[0]@.weekend_windows.len() == 0,
            s.profiles@[0]@.application_mode == ApplicationMode::Blocklist,
            s.profiles@[0]@.allowed_apps.len() == 0,
            s.profiles@[0]@.blocked_apps.len() == 0,
            s.profiles@[0]@.blocked_app_categories.len() == 0,
            s.profiles@[0]@.web_filtering_enabled,
            s.profiles@[0]@.safe_search,
            s.profiles@[0]@.web_blocked_categories.len() == 0,
            s.profiles@[0]@.allowed_domains.len() == 0,
            s.profiles@[0]@.blocked_domains.len() == 0,
            !s.profiles@[0]@.terminal_filtering_enabled,
            s.profiles@[0]@.birthday is None,
            s.profiles@[0]@.active,
            is_random_uuid(s.profiles@[0]@.id),
    {
        let now = utc_now_millis();
        let p1 = Profile {
            id: new_random_id(),
            name: String::from_str("Alice"),
            age_group: AgeGroup::LateElementary,
            birthday: None,
            created_at: now,
            updated_at: now,
            config: ProfileConfig {
                screen_time: ScreenTimeConfig {
                    daily_limit_minutes: 120,
                    weekend_bonus_minutes: 60,
                    exempt_categories: Vec::new(),
                    windows: TimeWindows { weekday: Vec::new(), weekend: Vec::new() },
                },
                applications: ApplicationConfig {
                    mode: ApplicationMode::Blocklist,
                    allowed: Vec::new(),
                    blocked: Vec::new(),
                    blocked_categories: Vec::new(),
                },
                web_filtering: WebFilteringConfig {
                    enabled: true,
                    safe_search: true,
                    blocked_categories: Vec::new(),
                    allowed_domains: Vec::new(),
                    blocked_domains: Vec::new(),
                },
                terminal_filtering: TerminalFilteringConfig { enabled: false },
            },
            active: true,
        };
        let mut profiles = Vec::new();
        profiles.push(p1);
        ProfileStore { profiles, selected_profile_id: None }
    }

    /// Finds the first profile with identifier `id`.
    pub fn find_index(&self, id: u128) -> (r: Option<usize>)
        ensures
            r matches Some(i) ==> first_with_id(self.profiles_view(), id) == Some(i as int)
                && i < self.profiles@.len(),
            r is None ==> first_with_id(self.profiles_view(), id) is None,
    {
        let n = self.profiles.len();
        let mut i: usize = 0;
        while i < n
            invariant
                n == self.profiles@.len(),
                i <= n,
                first_with_id(self.profiles_view().take(i as int), id) is None,
            decreases n - i,
        {
            proof {
                assert(self.profiles_view().take(i + 1).drop_last() =~= self.profiles_view().take(i as int));
            }
            if self.profiles[i].id == id {
                proof {
                    lemma_first_with_id_prefix(self.profiles_view(), id, i + 1);
                }
                return Some(i);
            }
            i = i + 1;
        }
        proof {
            assert(self.profiles_view().take(n as int) =~= self.profiles_view());
        }
        None
    }

    /// The selected profile, if one is selected and present.
    pub fn get_selected_profile(&self) -> (r: Option<&Profile>)
        ensures
            match self.selected_profile_id {
                None => r is None,
                Some(id) => match first_with_id(self.profiles_view(), id) {
                    Some(i) => r matches Some(p) && p@ == self.profiles_view()[i],
                    None => r is None,
                },
            },
    {
        match self.selected_profile_id {
            None => None,
            Some(id) => match self.find_index(id) {
                Some(i) => Some(&self.profiles[i]),
                None => None,
            },
        }
    }

    /// Replaces the first profile with the same identifier, or adds the
    /// profile at the end when there is none.
    pub fn update_profile(&mut self, profile: Profile)
        ensures
            final(self).selected_profile_id == old(self).selected_profile_id,
            match first_with_id(old(self).profiles_view(), profile.id) {
                Some(i) => final(self).profiles_view() == old(self).profiles_view().update(i, profile@),
                None => final(self).profiles_view() == old(self).profiles_view().push(profile@),
            },
    {
        let ghost pv = profile@;
        proof {
            lemma_first_with_id_bounds(self.profiles_view(), profile.id);
        }
        match self.find_index(profile.id) {
            Some(i) => {
                let ghost before = self.profiles@;
                self.profiles.set(i, profile);
                proof {
                    assert(self.profiles_view() =~= profile_views(before).update(i as int, pv));
                }
            },
            None => {
                let ghost before = self.profiles@;
                self.profiles.push(profile);
                proof {
                    assert(self.profiles_view() =~= profile_views(before).push(pv));
                }
            },
        }
    }
}

/// The first match lies in the list and has the identifier.
pub proof fn lemma_first_with_id_bounds(ps: Seq<ProfileView>, id: u128)
    ensures
        first_with_id(ps, id) matches Some(i) ==> 0 <= i < ps.len() && ps[i].id == id,
    decreases ps.len(),
{
    if ps.len() > 0 {
        lemma_first_with_id_bounds(ps.drop_last(), id);
    }
}

/// A match found in a prefix is the first match of the whole list.
pub proof fn lemma_first_with_id_prefix(ps: Seq<ProfileView>, id: u128, k: int)
    requires
        0 < k <= ps.len(),
        first_with_id(ps.take(k - 1), id) is None,
        ps[k - 1].id == id,
    ensures
        first_with_id(ps, id) == Some(k - 1),
    decreases ps.len(),
{
    assert(ps.take(k).drop_last() =~= ps.take(k - 1));
    if k < ps.len() {
        assert(ps.drop_last().take(k - 1) =~= ps.take(k - 1));
        lemma_first_with_id_prefix(ps.drop_last(), id, k);
        assert(ps.drop_last().take(k) =~= ps.take(k));
    } else {
        assert(ps.take(k) =~= ps);
    }
}

/// After `update_profile(p)` the first profile with `p`'s identifier is
/// `p`: the replaced one, or the one added at the end.
pub proof fn lemma_updated_profile_is_found(ps: Seq<ProfileView>, p: ProfileView)
    ensures
        match first_with_id(ps, p.id) {
            Some(i) => first_with_id(ps.update(i, p), p.id) == Some(i),
            None => first_with_id(ps.push(p), p.id) == Some(ps.len() as int),
        },
    decreases ps.len(),
{
    lemma_first_with_id_bounds(ps, p.id);
    match first_with_id(ps, p.id) {
        Some(i) => {
            if i < ps.len() - 1 {
                lemma_updated_profile_is_found(ps.drop_last(), p);
                assert(ps.update(i, p).drop_last() =~= ps.drop_last().update(i, p));
            } else {
                assert(ps.update(i, p).drop_last() =~= ps.drop_last());
            }
        },
        None => {
            assert(ps.push(p).drop_last() =~= ps);
        },
    }
}

} // verus!
