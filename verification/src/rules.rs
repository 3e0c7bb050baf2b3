//! The URL rule engine: blocked domains, URL patterns with an action and a
//! reason, category lists, and safe-search rewriting of search URLs.
use vstd::prelude::*;
use crate::strset::StringSet;
use crate::text::str_equal;
use crate::web::{
    append_query_pair, parse_url_host, regex_compiles, regex_is_match, regex_matches,
    regex_valid, url_host, url_parses, url_with_query_pair,
};

verus! {

/// What a rule does with a request.
#[derive(Debug, Clone, Copy, PartialEq, Eq, Structural)]
pub enum FilterAction {
    Allow,
    Block,
    Warn,
}

/// What a rule's pattern is matched against.
#[derive(Debug, Clone, Copy, PartialEq, Eq, Structural)]
pub enum FilterRuleType {
    Domain,
    Url,
    Category,
    Pattern,
}

/// A filtering rule as it is stored and exchanged.
#[derive(Debug, Clone)]
pub struct FilterRule {
    pub id: String,
    pub rule_type: FilterRuleType,
    pub pattern: String,
    pub action: FilterAction,
    pub category: Option<String>,
    pub reason: Option<String>,
    pub enabled: bool,
}

/// The outcome of evaluating a request.
#[derive(Debug, Clone)]
pub struct FilterDecision {
    pub action: FilterAction,
    pub reason: String,
    pub rule_id: Option<String>,
    pub category: Option<String>,
}

/// A decision with its strings taken as character sequences.
pub struct DecisionView {
    pub action: FilterAction,
    pub reason: Seq<char>,
    pub rule_id: Option<Seq<char>>,
    pub category: Option<Seq<char>>,
}

impl View for FilterDecision {
    type V = DecisionView;

    open spec fn view(&self) -> DecisionView {
        DecisionView {
            action: self.action,
            reason: self.reason@,
            rule_id: self.rule_id.deep_view(),
            category: self.category.deep_view(),
        }
    }
}

/// A URL pattern: a regular expression, the action it calls for and the
/// reason given when it matches.
#[derive(Debug, Clone)]
pub struct UrlPattern {
    pub pattern: String,
    pub action: FilterAction,
    pub reason: String,
}

/// A URL pattern with its strings taken as character sequences.
pub struct UrlPatternView {
    pub pattern: Seq<char>,
    pub action: FilterAction,
    pub reason: Seq<char>,
}

impl View for UrlPattern {
    type V = UrlPatternView;

    open spec fn view(&self) -> UrlPatternView {
        UrlPatternView { pattern: self.pattern@, action: self.action, reason: self.reason@ }
    }
}

/// A pattern that `regex` refused.
#[derive(Debug, Clone)]
pub enum RuleError {
    InvalidPattern(String),
}

/// The state of a rule engine.
pub struct RuleEngineView {
    pub domains: Set<Seq<char>>,
    pub patterns: Seq<UrlPatternView>,
    pub category_blocks: Set<Seq<char>>,
    pub category_allows: Set<Seq<char>>,
}

impl RuleEngineView {
    /// Every pattern compiles.
    pub open spec fn wf(self) -> bool {
        forall|i: int| 0 <= i < self.patterns.len() ==> regex_valid(#[trigger] self.patterns[i].pattern)
    }
}

/// The index of the first pattern that matches `url`, looking at the
/// patterns from index `from` on.
pub open spec fn first_match_from(patterns: Seq<UrlPatternView>, url: Seq<char>, from: int) -> Option<int>
    decreases patterns.len() - from,
{
    if from < 0 || from >= patterns.len() {
        None
    } else if regex_matches(patterns[from].pattern, url) {
        Some(from)
    } else {
        first_match_from(patterns, url, from + 1)
    }
}

/// The index of the first pattern that matches `url`.
pub open spec fn first_match(patterns: Seq<UrlPatternView>, url: Seq<char>) -> Option<int> {
    first_match_from(patterns, url, 0)
}

/// The host of a URL that parses, or the empty string where it has none.
pub open spec fn host_or_empty(url: Seq<char>) -> Seq<char> {
    match url_host(url) {
        Some(h) => h,
        None => Seq::empty(),
    }
}

/// The decision that the rules `v` give for `url`.
pub open spec fn url_decision(v: RuleEngineView, url: Seq<char>) -> DecisionView {
    if !url_parses(url) {
        DecisionView {
            action: FilterAction::Block,
            reason: "Invalid URL format"@,
            rule_id: None,
            category: None,
        }
    } else if v.domains.contains(host_or_empty(url)) {
        DecisionView {
            action: FilterAction::Block,
            reason: "Domain "@ + host_or_empty(url) + " is blocked"@,
            rule_id: Some("domain:"@ + host_or_empty(url)),
            category: None,
        }
    } else {
        match first_match(v.patterns, url) {
            Some(i) => DecisionView {
                action: v.patterns[i].action,
                reason: v.patterns[i].reason,
                rule_id: Some("pattern:"@ + v.patterns[i].pattern),
                category: None,
            },
            None => DecisionView {
                action: FilterAction::Allow,
                reason: "No matching rules, allowing"@,
                rule_id: None,
                category: None,
            },
        }
    }
}

/// The query pair that turns on safe search on a search or video host.
pub open spec fn safe_search_pair(host: Seq<char>) -> Option<(Seq<char>, Seq<char>)> {
    if host == "google.com"@ || host == "www.google.com"@ {
        Some(("safe"@, "active"@))
    } else if host == "bing.com"@ || host == "www.bing.com"@ {
        Some(("adlt"@, "strict"@))
    } else if host == "duckduckgo.com"@ || host == "www.duckduckgo.com"@ {
        Some(("safe-search"@, "strict"@))
    } else if host == "youtube.com"@ || host == "www.youtube.com"@ {
        Some(("restrict_mode"@, "strict"@))
    } else {
        None
    }
}

/// The rewritten URL that safe search calls for, if any.
pub open spec fn safe_search_url(url: Seq<char>) -> Option<Seq<char>> {
    if !url_parses(url) {
        None
    } else {
        match safe_search_pair(host_or_empty(url)) {
            Some((k, val)) => Some(url_with_query_pair(url, k, val)),
            None => None,
        }
    }
}

/// The domains blocked by default.
pub open spec fn default_blocked_domains() -> Seq<Seq<char>> {
    seq![
        "pornhub.com"@,
        "xvideos.com"@,
        "xnxx.com"@,
        "redtube.com"@,
        "gambling.com"@,
        "casino.com"@,
        "bet365.com"@,
        "4chan.org"@,
        "8kun.top"@,
    ]
}

/// The categories blocked by default.
pub open spec fn default_blocked_categories() -> Seq<Seq<char>> {
    seq!["adult"@, "gambling"@, "violence"@, "drugs"@]
}

/// The categories allowed by default.
pub open spec fn default_allowed_categories() -> Seq<Seq<char>> {
    seq!["educational"@, "children"@, "reference"@]
}

/// The URL patterns added by default.
pub open spec fn default_patterns() -> Seq<UrlPatternView> {
    seq![
        UrlPatternView { pattern: "(?i).*porn.*"@, action: FilterAction::Block, reason: "Adult content"@ },
        UrlPatternView { pattern: "(?i).*xxx.*"@, action: FilterAction::Block, reason: "Adult content"@ },
        UrlPatternView { pattern: "(?i).*casino.*"@, action: FilterAction::Block, reason: "Gambling"@ },
        UrlPatternView { pattern: "(?i).*bet.*"@, action: FilterAction::Block, reason: "Gambling"@ },
    ]
}

/// Evaluates URLs against blocked domains and URL patterns, and rewrites
/// search URLs for safe search.
pub struct RuleEngine {
    domain_rules: StringSet,
    url_patterns: Vec<UrlPattern>,
    category_blocks: StringSet,
    category_allows: StringSet,
}

impl View for RuleEngine {
    type V = RuleEngineView;

    closed spec fn view(&self) -> RuleEngineView {
        RuleEngineView {
            domains: self.domain_rules@,
            patterns: self.url_patterns@.map_values(|p: UrlPattern| p@),
            category_blocks: self.category_blocks@,
            category_allows: self.category_allows@,
        }
    }
}

impl RuleEngine {
    /// Every stored URL pattern compiles.
    pub open spec fn wf(&self) -> bool {
        self@.wf()
    }

    /// An engine without rules.
    pub fn new() -> (r: Self)
        ensures
            r.wf(),
            r@.domains == Set::<Seq<char>>::empty(),
            r@.patterns == Seq::<UrlPatternView>::empty(),
            r@.category_blocks == Set::<Seq<char>>::empty(),
            r@.category_allows == Set::<Seq<char>>::empty(),
    {
        let r = RuleEngine {
            domain_rules: StringSet::new(),
            url_patterns: Vec::new(),
            category_blocks: StringSet::new(),
            category_allows: StringSet::new(),
        };
        proof {
            assert(r@.patterns =~= Seq::<UrlPatternView>::empty());
        }
        r
    }

    /// Blocks `domain`, or for `Allow` and `Warn` lifts a block on it.
    pub fn add_domain_rule(&mut self, domain: &str, action: FilterAction)
        requires
            old(self).wf(),
        ensures
            final(self).wf(),
            final(self)@.domains == (if action == FilterAction::Block {
                old(self)@.domains.insert(domain@)
            } else {
                old(self)@.domains.remove(domain@)
            }),
            final(self)@.patterns == old(self)@.patterns,
            final(self)@.category_blocks == old(self)@.category_blocks,
            final(self)@.category_allows == old(self)@.category_allows,
    {
        match action {
            FilterAction::Block => {
                self.domain_rules.insert(domain);
            },
            FilterAction::Allow => {
                self.domain_rules.remove(domain);
            },
            FilterAction::Warn => {
                self.domain_rules.remove(domain);
            },
        }
    }

    /// Adds a URL pattern at the end of the list. A pattern that `regex`
    /// refuses is reported and leaves the engine unchanged.
    pub fn add_url_pattern(&mut self, pattern: &str, action: FilterAction, reason: &str) -> (r: Result<(), RuleError>)
        requires
            old(self).wf(),
        ensures
            final(self).wf(),
            r is Ok <==> regex_valid(pattern@),
            r is Ok ==> final(self)@.patterns == old(self)@.patterns.push(
                UrlPatternView { pattern: pattern@, action, reason: reason@ },
            ),
            r is Err ==> final(self)@.patterns == old(self)@.patterns,
            r matches Err(RuleError::InvalidPattern(p)) ==> p@ == pattern@,
            final(self)@.domains == old(self)@.domains,
            final(self)@.category_blocks == old(self)@.category_blocks,
            final(self)@.category_allows == old(self)@.category_allows,
    {
        if !regex_compiles(pattern) {
            return Err(RuleError::InvalidPattern(String::from_str(pattern)));
        }
        let entry = UrlPattern {
            pattern: String::from_str(pattern),
            action,
            reason: String::from_str(reason),
        };
        let ghost before = self@.patterns;
        self.url_patterns.push(entry);
        proof {
            assert(self@.patterns =~= before.push(UrlPatternView { pattern: pattern@, action, reason: reason@ }));
        }
        Ok(())
    }

    /// Blocks or allows a category; the category leaves the other list.
    /// `Warn` allows it.
    pub fn add_category_rule(&mut self, category: &str, action: FilterAction)
        requires
            old(self).wf(),
        ensures
            final(self).wf(),
            action == FilterAction::Block ==> {
                &&& final(self)@.category_blocks == old(self)@.category_blocks.insert(category@)
                &&& final(self)@.category_allows == old(self)@.category_allows.remove(category@)
            },
            action != FilterAction::Block ==> {
                &&& final(self)@.category_allows == old(self)@.category_allows.insert(category@)
                &&& final(self)@.category_blocks == old(self)@.category_blocks.remove(category@)
            },
            final(self)@.domains == old(self)@.domains,
            final(self)@.patterns == old(self)@.patterns,
    {
        match action {
            FilterAction::Block => {
                self.category_blocks.insert(category);
                self.category_allows.remove(category);
            },
            _ => {
                self.category_allows.insert(category);
                self.category_blocks.remove(category);
            },
        }
    }

    /// Loads the default blocked domains, blocked and allowed categories and
    /// URL patterns on top of the present rules.
    pub fn load_default_rules(&mut self) -> (r: Result<(), RuleError>)
        requires
            old(self).wf(),
        ensures
            final(self).wf(),
            r is Ok <==> (forall|i: int| 0 <= i < default_patterns().len()
                ==> regex_valid(#[trigger] default_patterns()[i].pattern)),
            r is Ok ==> final(self)@.domains == old(self)@.domains.union(default_blocked_domains().to_set()),
            r is Ok ==> blocks_default_domains(final(self)@.domains),
            r is Ok ==> final(self)@.category_blocks
                == old(self)@.category_blocks.union(default_blocked_categories().to_set()),
            r is Ok ==> final(self)@.category_allows
                == old(self)@.category_allows.union(default_allowed_categories().to_set()),
            r is Ok ==> final(self)@.patterns == old(self)@.patterns + default_patterns(),
    {
        self.domain_rules.insert("pornhub.com");
        self.domain_rules.insert("xvideos.com");
        self.domain_rules.insert("xnxx.com");
        self.domain_rules.insert("redtube.com");
        self.domain_rules.insert("gambling.com");
        self.domain_rules.insert("casino.com");
        self.domain_rules.insert("bet365.com");
        self.domain_rules.insert("4chan.org");
        self.domain_rules.insert("8kun.top");
        proof {
            assert(self@.domains =~= old(self)@.domains.union(default_blocked_domains().to_set()));
            lemma_default_domains_listed();
        }
        self.category_blocks.insert("adult");
        self.category_blocks.insert("gambling");
        self.category_blocks.insert("violence");
        self.category_blocks.insert("drugs");
        self.category_allows.insert("educational");
        self.category_allows.insert("children");
        self.category_allows.insert("reference");
        proof {
            reveal_strlit("adult");
            reveal_strlit("gambling");
            reveal_strlit("violence");
            reveal_strlit("drugs");
            reveal_strlit("educational");
            reveal_strlit("children");
            reveal_strlit("reference");
            assert(self@.category_blocks =~= old(self)@.category_blocks.union(
                default_blocked_categories().to_set()));
            assert(self@.category_allows =~= old(self)@.category_allows.union(
                default_allowed_categories().to_set()));
        }
        let ghost p0 = self@.patterns;
        let r1 = self.add_url_pattern("(?i).*porn.*", FilterAction::Block, "Adult content");
        if r1.is_err() {
            proof { assert(!regex_valid(default_patterns()[0].pattern)); }
            return r1;
        }
        let r2 = self.add_url_pattern("(?i).*xxx.*", FilterAction::Block, "Adult content");
        if r2.is_err() {
            proof { assert(!regex_valid(default_patterns()[1].pattern)); }
            return r2;
        }
        let r3 = self.add_url_pattern("(?i).*casino.*", FilterAction::Block, "Gambling");
        if r3.is_err() {
            proof { assert(!regex_valid(default_patterns()[2].pattern)); }
            return r3;
        }
        let r4 = self.add_url_pattern("(?i).*bet.*", FilterAction::Block, "Gambling");
        if r4.is_err() {
            proof { assert(!regex_valid(default_patterns()[3].pattern)); }
            return r4;
        }
        proof {
            assert(self@.patterns =~= p0 + default_patterns());
            assert forall|i: int| 0 <= i < default_patterns().len()
                implies regex_valid(#[trigger] default_patterns()[i].pattern) by {
                assert(default_patterns()[i] == self@.patterns[p0.len() + i]);
            }
        }
        Ok(())
    }

    /// Decides on a URL: an unparsable URL is blocked, then a blocked domain
    /// blocks, then the first matching URL pattern decides, and otherwise
    /// the URL is allowed.
    pub fn evaluate_url(&self, url: &str) -> (d: FilterDecision)
        requires
            self.wf(),
        ensures
            d@ == url_decision(self@, url@),
    {
        let host = match parse_url_host(url) {
            None => {
                return FilterDecision {
                    action: FilterAction::Block,
                    reason: String::from_str("Invalid URL format"),
                    rule_id: None,
                    category: None,
                };
            },
            Some(h) => h,
        };
        let domain = match host {
            Some(h) => h,
            None => String::new(),
        };
        proof {
            assert(domain@ == host_or_empty(url@));
        }
        if self.domain_rules.contains(domain.as_str()) {
            let mut reason = String::from_str("Domain ");
            reason.append(domain.as_str());
            reason.append(" is blocked");
            let mut rule_id = String::from_str("domain:");
            rule_id.append(domain.as_str());
            return FilterDecision {
                action: FilterAction::Block,
                reason,
                rule_id: Some(rule_id),
                category: None,
            };
        }
        let n = self.url_patterns.len();
        for i in 0..n
            invariant
                n == self.url_patterns.len(),
                self.wf(),
                url_parses(url@),
                !self@.domains.contains(host_or_empty(url@)),
                first_match(self@.patterns, url@) == first_match_from(self@.patterns, url@, i as int),
        {
            let p = &self.url_patterns[i];
            proof {
                assert(self@.patterns[i as int] == p@);
            }
            if regex_is_match(p.pattern.as_str(), url) {
                let mut rule_id = String::from_str("pattern:");
                rule_id.append(p.pattern.as_str());
                return FilterDecision {
                    action: p.action,
                    reason: p.reason.clone(),
                    rule_id: Some(rule_id),
                    category: None,
                };
            }
        }
        FilterDecision {
            action: FilterAction::Allow,
            reason: String::from_str("No matching rules, allowing"),
            rule_id: None,
            category: None,
        }
    }

    /// The URL rewritten to turn on safe search, for Google, Bing,
    /// DuckDuckGo and YouTube hosts; `None` for other hosts and for text
    /// that does not parse as a URL.
    pub fn enforce_safe_search(&self, url: &str) -> (r: Option<String>)
        ensures
            r.deep_view() == safe_search_url(url@),
    {
        let host = match parse_url_host(url) {
            None => {
                return None;
            },
            Some(h) => h,
        };
        let domain = match host {
            Some(h) => h,
            None => String::new(),
        };
        let d = domain.as_str();
        if str_equal(d, "google.com") || str_equal(d, "www.google.com") {
            append_query_pair(url, "safe", "active")
        } else if str_equal(d, "bing.com") || str_equal(d, "www.bing.com") {
            append_query_pair(url, "adlt", "strict")
        } else if str_equal(d, "duckduckgo.com") || str_equal(d, "www.duckduckgo.com") {
            append_query_pair(url, "safe-search", "strict")
        } else if str_equal(d, "youtube.com") || str_equal(d, "www.youtube.com") {
            append_query_pair(url, "restrict_mode", "strict")
        } else {
            None
        }
    }
}

/// Text that is not a URL is blocked, whatever the rules.
pub proof fn lemma_invalid_url_is_blocked(v: RuleEngineView, url: Seq<char>)
    requires
        !url_parses(url),
    ensures
        url_decision(v, url).action == FilterAction::Block,
        url_decision(v, url).reason == "Invalid URL format"@,
{
}

/// A URL whose host is a blocked domain is blocked by the domain rule,
/// before any URL pattern is looked at.
pub proof fn lemma_blocked_domain_wins(v: RuleEngineView, url: Seq<char>)
    requires
        url_parses(url),
        v.domains.contains(host_or_empty(url)),
    ensures
        url_decision(v, url).action == FilterAction::Block,
        url_decision(v, url).rule_id == Some("domain:"@ + host_or_empty(url)),
{
}

/// `first_match` names the first pattern that matches, and is `None`
/// exactly when no pattern matches.
pub proof fn lemma_first_match_is_first(patterns: Seq<UrlPatternView>, url: Seq<char>, from: int)
    requires
        0 <= from <= patterns.len(),
    ensures
        first_match_from(patterns, url, from) matches Some(i) ==> {
            &&& from <= i < patterns.len()
            &&& regex_matches(patterns[i].pattern, url)
            &&& forall|j: int| from <= j < i ==> !regex_matches(#[trigger] patterns[j].pattern, url)
        },
        first_match_from(patterns, url, from) is None ==> forall|j: int|
            from <= j < patterns.len() ==> !regex_matches(#[trigger] patterns[j].pattern, url),
    decreases patterns.len() - from,
{
    if from < patterns.len() {
        lemma_first_match_is_first(patterns, url, from + 1);
    }
}

/// A URL that parses, whose host is not blocked and that no pattern
/// matches, is allowed.
pub proof fn lemma_default_allow(v: RuleEngineView, url: Seq<char>)
    requires
        url_parses(url),
        !v.domains.contains(host_or_empty(url)),
        forall|j: int| 0 <= j < v.patterns.len() ==> !regex_matches(#[trigger] v.patterns[j].pattern, url),
    ensures
        url_decision(v, url).action == FilterAction::Allow,
        url_decision(v, url).rule_id is None,
{
    lemma_first_match_is_first(v.patterns, url, 0);
    if first_match(v.patterns, url) is Some {
        let i = first_match(v.patterns, url)->0;
        assert(!regex_matches(v.patterns[i].pattern, url));
    }
}

/// Blocking a domain with `add_domain_rule` blocks every URL with that
/// host; lifting the block leaves the decision to the URL patterns.
pub proof fn lemma_domain_rule_decides(v: RuleEngineView, domain: Seq<char>, url: Seq<char>)
    requires
        url_parses(url),
        host_or_empty(url) == domain,
    ensures
        url_decision(RuleEngineView { domains: v.domains.insert(domain), ..v }, url).action == FilterAction::Block,
        url_decision(RuleEngineView { domains: v.domains.remove(domain), ..v }, url) == (match first_match(v.patterns, url) {
            Some(i) => DecisionView {
                action: v.patterns[i].action,
                reason: v.patterns[i].reason,
                rule_id: Some("pattern:"@ + v.patterns[i].pattern),
                category: None,
            },
            None => DecisionView {
                action: FilterAction::Allow,
                reason: "No matching rules, allowing"@,
                rule_id: None,
                category: None,
            },
        }),
{
}

/// Safe search rewrites only Google, Bing, DuckDuckGo and YouTube URLs.
pub proof fn lemma_safe_search_only_on_search_hosts(url: Seq<char>)
    requires
        safe_search_pair(host_or_empty(url)) is None,
    ensures
        safe_search_url(url) is None,
{
}

/// The nine domains that the default rules block, named one by one.
pub open spec fn blocks_default_domains(domains: Set<Seq<char>>) -> bool {
    &&& domains.contains("pornhub.com"@)
    &&& domains.contains("xvideos.com"@)
    &&& domains.contains("xnxx.com"@)
    &&& domains.contains("redtube.com"@)
    &&& domains.contains("gambling.com"@)
    &&& domains.contains("casino.com"@)
    &&& domains.contains("bet365.com"@)
    &&& domains.contains("4chan.org"@)
    &&& domains.contains("8kun.top"@)
}

/// Every set that holds the default blocked domains holds each of
/// pornhub.com, xvideos.com, xnxx.com, redtube.com, gambling.com,
/// casino.com, bet365.com, 4chan.org and 8kun.top.
pub proof fn lemma_default_domains_listed()
    ensures
        forall|d: Set<Seq<char>>| blocks_default_domains(#[trigger] d.union(default_blocked_domains().to_set())),
{
    let s = default_blocked_domains();
    assert(s[0] == "pornhub.com"@);
    assert(s[1] == "xvideos.com"@);
    assert(s[2] == "xnxx.com"@);
    assert(s[3] == "redtube.com"@);
    assert(s[4] == "gambling.com"@);
    assert(s[5] == "casino.com"@);
    assert(s[6] == "bet365.com"@);
    assert(s[7] == "4chan.org"@);
    assert(s[8] == "8kun.top"@);
    assert(s.to_set().contains(s[0]));
    assert(s.to_set().contains(s[1]));
    assert(s.to_set().contains(s[2]));
    assert(s.to_set().contains(s[3]));
    assert(s.to_set().contains(s[4]));
    assert(s.to_set().contains(s[5]));
    assert(s.to_set().contains(s[6]));
    assert(s.to_set().contains(s[7]));
    assert(s.to_set().contains(s[8]));
}

/// With the default rules loaded, a URL whose host is one of the nine
/// default blocked domains is blocked by its domain rule, named in the
/// reason, whatever the URL patterns say.
pub proof fn lemma_default_domain_blocks_url(v: RuleEngineView, url: Seq<char>)
    requires
        blocks_default_domains(v.domains),
        url_parses(url),
        host_or_empty(url) == "pornhub.com"@ || host_or_empty(url) == "xvideos.com"@
            || host_or_empty(url) == "xnxx.com"@ || host_or_empty(url) == "redtube.com"@
            || host_or_empty(url) == "gambling.com"@ || host_or_empty(url) == "casino.com"@
            || host_or_empty(url) == "bet365.com"@ || host_or_empty(url) == "4chan.org"@
            || host_or_empty(url) == "8kun.top"@,
    ensures
        url_decision(v, url).action == FilterAction::Block,
        url_decision(v, url).reason == "Domain "@ + host_or_empty(url) + " is blocked"@,
        url_decision(v, url).rule_id == Some("domain:"@ + host_or_empty(url)),
{
}

/// The eight search and video hosts and the query pair that turns on safe
/// search there: `safe=active` on Google, `adlt=strict` on Bing,
/// `safe-search=strict` on DuckDuckGo and `restrict_mode=strict` on
/// YouTube, each with and without `www.`; a URL on one of them that parses
/// is rewritten with that pair appended.
pub proof fn lemma_safe_search_hosts(url: Seq<char>)
    requires
        url_parses(url),
    ensures
        host_or_empty(url) == "google.com"@ || host_or_empty(url) == "www.google.com"@ ==> safe_search_url(url)
            == Some(url_with_query_pair(url, "safe"@, "active"@)),
        host_or_empty(url) == "bing.com"@ || host_or_empty(url) == "www.bing.com"@ ==> safe_search_url(url)
            == Some(url_with_query_pair(url, "adlt"@, "strict"@)),
        host_or_empty(url) == "duckduckgo.com"@ || host_or_empty(url) == "www.duckduckgo.com"@ ==> safe_search_url(url)
            == Some(url_with_query_pair(url, "safe-search"@, "strict"@)),
        host_or_empty(url) == "youtube.com"@ || host_or_empty(url) == "www.youtube.com"@ ==> safe_search_url(url)
            == Some(url_with_query_pair(url, "restrict_mode"@, "strict"@)),
{
    reveal_strlit("google.com");
    reveal_strlit("www.google.com");
    reveal_strlit("bing.com");
    reveal_strlit("www.bing.com");
    reveal_strlit("duckduckgo.com");
    reveal_strlit("www.duckduckgo.com");
    reveal_strlit("youtube.com");
    reveal_strlit("www.youtube.com");
    reveal_strlit("adlt");
    let h = host_or_empty(url);
    assert("google.com"@.len() == 10 && "www.google.com"@.len() == 14);
    assert("bing.com"@.len() == 8 && "www.bing.com"@.len() == 12);
    assert("duckduckgo.com"@.len() == 14 && "www.duckduckgo.com"@.len() == 18);
    assert("youtube.com"@.len() == 11 && "www.youtube.com"@.len() == 15);
    if h == "duckduckgo.com"@ {
        assert(h[0] != "www.google.com"@[0]);
    }
}

} // verus!
