//! The content-filtering settings view.
use vstd::prelude::*;
use crate::strset::StringSet;

verus! {

/// The filtering settings edited in the view.
pub struct FilteringConfig {
    pub enabled: bool,
    pub safe_search_enforcement: bool,
    pub block_categories: StringSet,
    pub allow_categories: StringSet,
    pub blocked_domains: StringSet,
    pub allowed_domains: StringSet,
    pub custom_rules_enabled: bool,
}

/// The filtering settings as sets of names.
pub struct FilteringView {
    pub enabled: bool,
    pub safe_search_enforcement: bool,
    pub block_categories: Set<Seq<char>>,
    pub allow_categories: Set<Seq<char>>,
    pub blocked_domains: Set<Seq<char>>,
    pub allowed_domains: Set<Seq<char>>,
    pub custom_rules_enabled: bool,
}

impl View for FilteringConfig {
    type V = FilteringView;

    open spec fn view(&self) -> FilteringView {
        FilteringView {
            enabled: self.enabled,
            safe_search_enforcement: self.safe_search_enforcement,
            block_categories: self.block_categories@,
            allow_categories: self.allow_categories@,
            blocked_domains: self.blocked_domains@,
            allowed_domains: self.allowed_domains@,
            custom_rules_enabled: self.custom_rules_enabled,
        }
    }
}

impl FilteringConfig {
    /// No category is both blocked and allowed, and no domain both blocked
    /// and allowed.
    pub open spec fn consistent(&self) -> bool {
        &&& self.block_categories@.disjoint(self.allow_categories@)
        &&& self.blocked_domains@.disjoint(self.allowed_domains@)
    }

    /// Whether these are the default settings.
    pub open spec fn is_default(&self) -> bool {
        &&& self.enabled
        &&& self.safe_search_enforcement
        &&& self.block_categories@ == set!["adult"@, "gambling"@, "violence"@, "drugs"@]
        &&& self.allow_categories@ == set!["educational"@, "children"@, "reference"@]
        &&& self.blocked_domains@ == Set::<Seq<char>>::empty()
        &&& self.allowed_domains@ == Set::<Seq<char>>::empty()
        &&& !self.custom_rules_enabled
    }

    /// The default settings: filtering and safe search on; adult, gambling,
    /// violence and drugs blocked; educational, children and reference
    /// allowed; no domains; custom rules off.
    pub fn defaults() -> (c: FilteringConfig)
        ensures
            c.is_default(),
            c.consistent(),
    {
        let mut blocks = StringSet::new();
        blocks.insert("adult");
        blocks.insert("gambling");
        blocks.insert("violence");
        blocks.insert("drugs");
        let mut allows = StringSet::new();
        allows.insert("educational");
        allows.insert("children");
        allows.insert("reference");
        let c = FilteringConfig {
            enabled: true,
            safe_search_enforcement: true,
            block_categories: blocks,
            allow_categories: allows,
            blocked_domains: StringSet::new(),
            allowed_domains: StringSet::new(),
            custom_rules_enabled: false,
        };
        proof {
            reveal_strlit("adult");
            reveal_strlit("gambling");
            reveal_strlit("violence");
            reveal_strlit("drugs");
            reveal_strlit("educational");
            reveal_strlit("children");
            reveal_strlit("reference");
            assert(c.block_categories@ =~= set!["adult"@, "gambling"@, "violence"@, "drugs"@]);
            assert(c.allow_categories@ =~= set!["educational"@, "children"@, "reference"@]);
            assert("gambling"@[0] != "children"@[0]);
            assert("violence"@[0] != "children"@[0]);
            assert forall|x: Seq<char>| c.block_categories@.contains(x) implies !c.allow_categories@.contains(x) by {
                assert(x == "adult"@ || x == "gambling"@ || x == "violence"@ || x == "drugs"@);
                assert(x.len() == 5 || x.len() == 8);
                if x.len() == 8 {
                    assert(x[0] == 'g' || x[0] == 'v');
                }
            }
            assert(c.block_categories@.disjoint(c.allow_categories@));
            assert(c.blocked_domains@.disjoint(c.allowed_domains@));
        }
        c
    }
}

/// What the user can do in the view.
pub enum ContentFilteringMsg {
    ToggleFiltering(bool),
    ToggleSafeSearch(bool),
    ToggleCategoryBlock(String, bool),
    ToggleCategoryAllow(String, bool),
    UpdateNewBlockedDomain(String),
    AddBlockedDomain,
    RemoveBlockedDomain(String),
    UpdateNewAllowedDomain(String),
    AddAllowedDomain,
    RemoveAllowedDomain(String),
    ToggleCustomRules(bool),
    UpdateCustomPattern(String),
    UpdateCustomReason(String),
    AddCustomPattern,
    SaveConfiguration,
    LoadConfiguration,
    ResetToDefaults,
}

/// The content-filtering view: the settings and the text being typed.
pub struct ContentFiltering {
    pub filtering_config: FilteringConfig,
    pub has_daemon_client: bool,
    pub new_blocked_domain: String,
    pub new_allowed_domain: String,
    pub new_custom_pattern: String,
    pub custom_pattern_reason: String,
}

/// The content-filtering view as plain values.
pub struct ContentFilteringView {
    pub filtering: FilteringView,
    pub has_daemon_client: bool,
    pub new_blocked_domain: Seq<char>,
    pub new_allowed_domain: Seq<char>,
    pub new_custom_pattern: Seq<char>,
    pub custom_pattern_reason: Seq<char>,
}

impl View for ContentFiltering {
    type V = ContentFilteringView;

    open spec fn view(&self) -> ContentFilteringView {
        ContentFilteringView {
            filtering: self.filtering_config@,
            has_daemon_client: self.has_daemon_client,
            new_blocked_domain: self.new_blocked_domain@,
            new_allowed_domain: self.new_allowed_domain@,
            new_custom_pattern: self.new_custom_pattern@,
            custom_pattern_reason: self.custom_pattern_reason@,
        }
    }
}

impl ContentFiltering {
    /// The view with default settings and empty text fields.
    pub fn init(has_daemon_client: bool) -> (v: ContentFiltering)
        ensures
            v.filtering_config.is_default(),
            v.filtering_config.consistent(),
            v.has_daemon_client == has_daemon_client,
            v.new_blocked_domain@.len() == 0,
            v.new_allowed_domain@.len() == 0,
            v.new_custom_pattern@.len() == 0,
            v.custom_pattern_reason@.len() == 0,
    {
        ContentFiltering {
            filtering_config: FilteringConfig::defaults(),
            has_daemon_client,
            new_blocked_domain: String::new(),
            new_allowed_domain: String::new(),
            new_custom_pattern: String::new(),
            custom_pattern_reason: String::new(),
        }
    }

    /// Handles one message; returns the text that the view emits, if any.
    /// Blocking a category or a domain takes it off the allowed list and
    /// the other way round, so the settings stay consistent.
    pub fn update(&mut self, msg: ContentFilteringMsg) -> (out: Option<String>)
        ensures
            old(self).filtering_config.consistent() ==> final(self).filtering_config.consistent(),
            ({
                let o = old(self)@;
                let f = o.filtering;
                let e = Seq::<char>::empty();
                match msg {
                    ContentFilteringMsg::ToggleFiltering(b) => out is None
                        && final(self)@ == (ContentFilteringView { filtering: FilteringView { enabled: b, ..f }, ..o }),
                    ContentFilteringMsg::ToggleSafeSearch(b) => out is None && final(self)@ == (ContentFilteringView {
                        filtering: FilteringView { safe_search_enforcement: b, ..f },
                        ..o
                    }),
                    ContentFilteringMsg::ToggleCategoryBlock(c, true) => out is None && final(self)@ == (ContentFilteringView {
                        filtering: FilteringView {
                            block_categories: f.block_categories.insert(c@),
                            allow_categories: f.allow_categories.remove(c@),
                            ..f
                        },
                        ..o
                    }),
                    ContentFilteringMsg::ToggleCategoryBlock(c, false) => out is None && final(self)@ == (ContentFilteringView {
                        filtering: FilteringView { block_categories: f.block_categories.remove(c@), ..f },
                        ..o
                    }),
                    ContentFilteringMsg::ToggleCategoryAllow(c, true) => out is None && final(self)@ == (ContentFilteringView {
                        filtering: FilteringView {
                            allow_categories: f.allow_categories.insert(c@),
                            block_categories: f.block_categories.remove(c@),
                            ..f
                        },
                        ..o
                    }),
                    ContentFilteringMsg::ToggleCategoryAllow(c, false) => out is None && final(self)@ == (ContentFilteringView {
                        filtering: FilteringView { allow_categories: f.allow_categories.remove(c@), ..f },
                        ..o
                    }),
                    ContentFilteringMsg::UpdateNewBlockedDomain(d) => out is None
                        && final(self)@ == (ContentFilteringView { new_blocked_domain: d@, ..o }),
                    ContentFilteringMsg::AddBlockedDomain => out is None && if o.new_blocked_domain.len() > 0 {
                        final(self)@ == (ContentFilteringView {
                            filtering: FilteringView {
                                blocked_domains: f.blocked_domains.insert(o.new_blocked_domain),
                                allowed_domains: f.allowed_domains.remove(o.new_blocked_domain),
                                ..f
                            },
                            new_blocked_domain: e,
                            ..o
                        })
                    } else {
                        final(self)@ == o
                    },
                    ContentFilteringMsg::RemoveBlockedDomain(d) => out is None && final(self)@ == (ContentFilteringView {
                        filtering: FilteringView { blocked_domains: f.blocked_domains.remove(d@), ..f },
                        ..o
                    }),
                    ContentFilteringMsg::UpdateNewAllowedDomain(d) => out is None
                        && final(self)@ == (ContentFilteringView { new_allowed_domain: d@, ..o }),
                    ContentFilteringMsg::AddAllowedDomain => out is None && if o.new_allowed_domain.len() > 0 {
                        final(self)@ == (ContentFilteringView {
                            filtering: FilteringView {
                                allowed_domains: f.allowed_domains.insert(o.new_allowed_domain),
                                blocked_domains: f.blocked_domains.remove(o.new_allowed_domain),
                                ..f
                            },
                            new_allowed_domain: e,
                            ..o
                        })
                    } else {
                        final(self)@ == o
                    },
                    ContentFilteringMsg::RemoveAllowedDomain(d) => out is None && final(self)@ == (ContentFilteringView {
                        filtering: FilteringView { allowed_domains: f.allowed_domains.remove(d@), ..f },
                        ..o
                    }),
                    ContentFilteringMsg::ToggleCustomRules(b) => out is None && final(self)@ == (ContentFilteringView {
                        filtering: FilteringView { custom_rules_enabled: b, ..f },
                        ..o
                    }),
                    ContentFilteringMsg::UpdateCustomPattern(p) => out is None
                        && final(self)@ == (ContentFilteringView { new_custom_pattern: p@, ..o }),
                    ContentFilteringMsg::UpdateCustomReason(r) => out is None
                        && final(self)@ == (ContentFilteringView { custom_pattern_reason: r@, ..o }),
                    ContentFilteringMsg::AddCustomPattern => out is None && if o.new_custom_pattern.len() > 0 {
                        final(self)@ == (ContentFilteringView { new_custom_pattern: e, custom_pattern_reason: e, ..o })
                    } else {
                        final(self)@ == o
                    },
                    ContentFilteringMsg::SaveConfiguration => final(self)@ == o
                        && (out matches Some(s) && s@ == "Content filtering settings saved"@),
                    ContentFilteringMsg::LoadConfiguration => final(self)@ == o
                        && (out matches Some(s) && s@ == "Content filtering settings loaded"@),
                    ContentFilteringMsg::ResetToDefaults => {
                        &&& final(self).filtering_config.is_default()
                        &&& final(self)@ == (ContentFilteringView {
                            filtering: final(self)@.filtering,
                            new_blocked_domain: e,
                            new_allowed_domain: e,
                            new_custom_pattern: e,
                            custom_pattern_reason: e,
                            ..o
                        })
                        &&& out matches Some(s) && s@ == "Reset to default settings"@
                    },
                }
            }),
    {
        match msg {
            ContentFilteringMsg::ToggleFiltering(enabled) => {
                self.filtering_config.enabled = enabled;
                None
            },
            ContentFilteringMsg::ToggleSafeSearch(enabled) => {
                self.filtering_config.safe_search_enforcement = enabled;
                None
            },
            ContentFilteringMsg::ToggleCategoryBlock(category, blocked) => {
                if blocked {
                    self.filtering_config.block_categories.insert(category.as_str());
                    self.filtering_config.allow_categories.remove(category.as_str());
                } else {
                    self.filtering_config.block_categories.remove(category.as_str());
                }
                None
            },
            ContentFilteringMsg::ToggleCategoryAllow(category, allowed) => {
                if allowed {
                    self.filtering_config.allow_categories.insert(category.as_str());
                    self.filtering_config.block_categories.remove(category.as_str());
                } else {
                    self.filtering_config.allow_categories.remove(category.as_str());
                }
                None
            },
            ContentFilteringMsg::UpdateNewBlockedDomain(domain) => {
                self.new_blocked_domain = domain;
                None
            },
            ContentFilteringMsg::AddBlockedDomain => {
                if self.new_blocked_domain.as_str().unicode_len() > 0 {
                    self.filtering_config.blocked_domains.insert(self.new_blocked_domain.as_str());
                    self.filtering_config.allowed_domains.remove(self.new_blocked_domain.as_str());
                    self.new_blocked_domain = String::new();
                }
                None
            },
            ContentFilteringMsg::RemoveBlockedDomain(domain) => {
                self.filtering_config.blocked_domains.remove(domain.as_str());
                None
            },
            ContentFilteringMsg::UpdateNewAllowedDomain(domain) => {
                self.new_allowed_domain = domain;
                None
            },
            ContentFilteringMsg::AddAllowedDomain => {
                if self.new_allowed_domain.as_str().unicode_len() > 0 {
                    self.filtering_config.allowed_domains.insert(self.new_allowed_domain.as_str());
                    self.filtering_config.blocked_domains.remove(self.new_allowed_domain.as_str());
                    self.new_allowed_domain = String::new();
                }
                None
            },
            ContentFilteringMsg::RemoveAllowedDomain(domain) => {
                self.filtering_config.allowed_domains.remove(domain.as_str());
                None
            },
            ContentFilteringMsg::ToggleCustomRules(enabled) => {
                self.filtering_config.custom_rules_enabled = enabled;
                None
            },
            ContentFilteringMsg::UpdateCustomPattern(pattern) => {
                self.new_custom_pattern = pattern;
                None
            },
            ContentFilteringMsg::UpdateCustomReason(reason) => {
                self.custom_pattern_reason = reason;
                None
            },
            ContentFilteringMsg::AddCustomPattern => {
                if self.new_custom_pattern.as_str().unicode_len() > 0 {
                    self.new_custom_pattern = String::new();
                    self.custom_pattern_reason = String::new();
                }
                None
            },
            ContentFilteringMsg::SaveConfiguration => Some(String::from_str("Content filtering settings saved")),
            ContentFilteringMsg::LoadConfiguration => Some(String::from_str("Content filtering settings loaded")),
            ContentFilteringMsg::ResetToDefaults => {
                self.filtering_config = FilteringConfig::defaults();
                self.new_blocked_domain = String::new();
                self.new_allowed_domain = String::new();
                self.new_custom_pattern = String::new();
                self.custom_pattern_reason = String::new();
                Some(String::from_str("Reset to default settings"))
            },
        }
    }
}

} // verus!
