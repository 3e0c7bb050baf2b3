//! The web filter's decisions on requests: the rule engine together with
//! the filter configuration, the answer of the family daemon, safe-search
//! rewriting and the page shown for blocked content.
use vstd::prelude::*;
use crate::activity::{Activity, ActivityType, NIL_ID, is_random_uuid, new_random_id, utc_now_millis};
use crate::filter_config::FilterConfig;
use crate::rules::{
    blocks_default_domains, host_or_empty, lemma_default_domain_blocks_url, lemma_default_domains_listed,
    safe_search_url, url_decision, DecisionView, FilterAction, FilterDecision, RuleEngine,
    RuleEngineView, RuleError, UrlPatternView, default_blocked_domains, default_blocked_categories,
    default_allowed_categories, default_patterns,
};
use crate::text::{escape_html, html_escape, str_equal};
use crate::web::{parse_url_host, regex_valid, url_host, url_parses};

verus! {

/// The block page up to the escaped reason.
pub const BLOCK_PAGE_HEAD: &'static str = r#"<!DOCTYPE html>
<html>
<head>
    <title>Content Blocked - DOTS Family Mode</title>
    <meta charset="utf-8">
    <meta name="viewport" content="width=device-width, initial-scale=1">
    <style>
        body {
            font-family: -apple-system, BlinkMacSystemFont, 'Segoe UI', Roboto, sans-serif;
            background: linear-gradient(135deg, #667eea 0%, #764ba2 100%);
            margin: 0;
            padding: 0;
            display: flex;
            justify-content: center;
            align-items: center;
            min-height: 100vh;
            color: #333;
        }
        .container {
            background: white;
            padding: 2rem;
            border-radius: 12px;
            box-shadow: 0 10px 30px rgba(0,0,0,0.2);
            text-align: center;
            max-width: 500px;
            margin: 1rem;
        }
        .icon {
            font-size: 4rem;
            margin-bottom: 1rem;
            color: #e74c3c;
        }
        h1 {
            color: #2c3e50;
            margin-bottom: 1rem;
            font-size: 1.8rem;
        }
        .reason {
            background: #f8f9fa;
            padding: 1rem;
            border-radius: 6px;
            margin: 1rem 0;
            border-left: 4px solid #e74c3c;
        }
        .domain {
            font-family: monospace;
            background: #ecf0f1;
            padding: 0.5rem;
            border-radius: 4px;
            margin: 0.5rem 0;
        }
        .footer {
            margin-top: 2rem;
            font-size: 0.9rem;
            color: #7f8c8d;
        }
        .back-button {
            background: #3498db;
            color: white;
            border: none;
            padding: 0.8rem 1.5rem;
            border-radius: 6px;
            cursor: pointer;
            font-size: 1rem;
            margin-top: 1rem;
            transition: background 0.2s;
        }
        .back-button:hover {
            background: #2980b9;
        }
    </style>
</head>
<body>
    <div class="container">
        <div class="icon">🛡️</div>
        <h1>Content Blocked</h1>
        <p>Access to this website has been restricted by DOTS Family Mode.</p>
        
        <div class="reason">
            <strong>Reason:</strong> "#;

/// The block page between the escaped reason and the escaped domain.
pub const BLOCK_PAGE_MIDDLE: &'static str = r#"
        </div>
        
        <div class="domain">
            <strong>Domain:</strong> "#;

/// The block page after the escaped domain.
pub const BLOCK_PAGE_TAIL: &'static str = r#"
        </div>
        
        <button class="back-button" onclick="history.back()">
            ← Go Back
        </button>
        
        <div class="footer">
            <p>If you believe this is an error, please contact your parent or guardian.</p>
            <small>DOTS Family Mode • Content Protection</small>
        </div>
    </div>
</body>
</html>"#;

/// The page shown in place of blocked content.
pub open spec fn block_page(reason: Seq<char>, domain: Seq<char>) -> Seq<char> {
    BLOCK_PAGE_HEAD@ + html_escape(reason) + BLOCK_PAGE_MIDDLE@ + html_escape(domain) + BLOCK_PAGE_TAIL@
}

/// The domain named on the block page for `url`.
pub open spec fn block_page_domain(url: Seq<char>) -> Seq<char> {
    if url_parses(url) && url_host(url) is Some {
        url_host(url)->0
    } else {
        "unknown"@
    }
}

/// The host that the daemon is asked about for a request, if any.
pub open spec fn daemon_query_host_spec(enabled: bool, url: Seq<char>) -> Option<Seq<char>> {
    if enabled && url_parses(url) {
        url_host(url)
    } else {
        None
    }
}

/// The rules after the defaults are loaded into an empty engine.
pub open spec fn default_rules(v: RuleEngineView) -> bool {
    &&& v.domains == default_blocked_domains().to_set()
    &&& v.category_blocks == default_blocked_categories().to_set()
    &&& v.category_allows == default_allowed_categories().to_set()
    &&& v.patterns == default_patterns()
}

/// Whether every default pattern compiles.
pub open spec fn default_patterns_valid() -> bool {
    forall|i: int| 0 <= i < default_patterns().len() ==> regex_valid(#[trigger] default_patterns()[i].pattern)
}

/// The decision on a request with filtering on: a daemon that refuses the
/// host blocks it; otherwise the rules decide, and the reason notes safe
/// search where it rewrites the URL.
pub open spec fn request_decision(
    rules: RuleEngineView,
    safe_search: bool,
    url: Seq<char>,
    daemon_allows: Option<bool>,
) -> DecisionView {
    if daemon_allows == Some(false) && url_parses(url) && url_host(url) is Some {
        DecisionView {
            action: FilterAction::Block,
            reason: "Domain "@ + url_host(url)->0 + " blocked by active profile"@,
            rule_id: Some("daemon_profile"@),
            category: Some("profile_policy"@),
        }
    } else {
        let d = url_decision(rules, url);
        if safe_search && safe_search_url(url) is Some && safe_search_url(url)->0 != url {
            DecisionView { reason: "Safe search enforced: "@ + d.reason, ..d }
        } else {
            d
        }
    }
}

/// The web filter's decision maker: its configuration and its rules.
pub struct FilterEngine {
    config: FilterConfig,
    rule_engine: RuleEngine,
}

impl FilterEngine {
    /// The rules are well formed.
    pub closed spec fn wf(&self) -> bool {
        self.rule_engine.wf()
    }

    /// The configuration.
    pub closed spec fn config_spec(&self) -> FilterConfig {
        self.config
    }

    /// The rules.
    pub closed spec fn rules(&self) -> RuleEngineView {
        self.rule_engine@
    }

    /// An engine with the given configuration and the default rules.
    pub fn new(config: FilterConfig) -> (r: Result<FilterEngine, RuleError>)
        ensures
            r is Ok <==> default_patterns_valid(),
            r matches Ok(e) ==> e.wf() && e.config_spec() == config && default_rules(e.rules()),
    {
        let mut rule_engine = RuleEngine::new();
        let loaded = rule_engine.load_default_rules();
        match loaded {
            Ok(()) => {
                proof {
                    assert(rule_engine@.domains =~= default_blocked_domains().to_set());
                    assert(rule_engine@.category_blocks =~= default_blocked_categories().to_set());
                    assert(rule_engine@.category_allows =~= default_allowed_categories().to_set());
                    assert(rule_engine@.patterns =~= default_patterns());
                }
                Ok(FilterEngine { config, rule_engine })
            },
            Err(e) => Err(e),
        }
    }

    /// Whether the configuration asks for a connection to the daemon.
    pub fn wants_daemon(&self) -> (r: bool)
        ensures
            r == self.config_spec().daemon.check_permissions,
    {
        self.config.daemon.check_permissions
    }

    /// Whether decisions are reported to the daemon as activity.
    pub fn logs_activity(&self) -> (r: bool)
        ensures
            r == self.config_spec().daemon.log_activity,
    {
        self.config.daemon.log_activity
    }

    /// Whether content filtering is on.
    pub fn is_filtering_enabled(&self) -> (r: bool)
        ensures
            r == self.config_spec().filtering.enabled,
    {
        self.config.filtering.enabled
    }

    /// The host to ask the daemon about before deciding on `url`: none when
    /// filtering is off, when the URL does not parse or when it has no host.
    pub fn daemon_query_host(&self, url: &str) -> (r: Option<String>)
        ensures
            r.deep_view() == daemon_query_host_spec(self.config_spec().filtering.enabled, url@),
    {
        if !self.config.filtering.enabled {
            return None;
        }
        match parse_url_host(url) {
            Some(h) => h,
            None => None,
        }
    }

    /// Decides on a request for `url`. With filtering off every request is
    /// allowed. `daemon_allows` is the daemon's answer for the URL's host,
    /// `None` where it was not asked or did not answer.
    pub fn evaluate_request(&self, url: &str, method: &str, daemon_allows: Option<bool>) -> (d: FilterDecision)
        requires
            self.wf(),
        ensures
            !self.config_spec().filtering.enabled ==> d@ == (DecisionView {
                action: FilterAction::Allow,
                reason: "Filtering disabled"@,
                rule_id: None,
                category: None,
            }),
            self.config_spec().filtering.enabled ==> d@ == request_decision(
                self.rules(),
                self.config_spec().filtering.safe_search_enforcement,
                url@,
                daemon_allows,
            ),
    {
        if !self.config.filtering.enabled {
            return FilterDecision {
                action: FilterAction::Allow,
                reason: String::from_str("Filtering disabled"),
                rule_id: None,
                category: None,
            };
        }
        if daemon_allows == Some(false) {
            if let Some(Some(domain)) = parse_url_host(url) {
                let mut reason = String::from_str("Domain ");
                reason.append(domain.as_str());
                reason.append(" blocked by active profile");
                return FilterDecision {
                    action: FilterAction::Block,
                    reason,
                    rule_id: Some(String::from_str("daemon_profile")),
                    category: Some(String::from_str("profile_policy")),
                };
            }
        }
        let mut decision = self.rule_engine.evaluate_url(url);
        if self.config.filtering.safe_search_enforcement {
            if let Some(safe_url) = self.rule_engine.enforce_safe_search(url) {
                if !str_equal(safe_url.as_str(), url) {
                    let mut reason = String::from_str("Safe search enforced: ");
                    reason.append(decision.reason.as_str());
                    decision.reason = reason;
                }
            }
        }
        decision
    }

    /// The activity reported to the daemon for a request of `url`: web
    /// browsing by the "web-filter" application, titled with the URL, with
    /// no duration and the nil profile, under a fresh identifier and the
    /// current time.
    pub fn activity_record(&self, url: &str) -> (a: Activity)
        ensures
            a.profile_id == NIL_ID,
            a.activity_type matches ActivityType::WebBrowsing { url: u } && u@ == url@,
            a.application matches Some(app) && app@ == "web-filter"@,
            a.window_title matches Some(t) && t@ == url@,
            a.duration_seconds == 0,
            is_random_uuid(a.id),
    {
        Activity {
            id: new_random_id(),
            profile_id: NIL_ID,
            timestamp_ms: utc_now_millis(),
            activity_type: ActivityType::WebBrowsing { url: String::from_str(url) },
            application: Some(String::from_str("web-filter")),
            window_title: Some(String::from_str(url)),
            duration_seconds: 0,
        }
    }

    /// The URL rewritten for safe search, when safe search is enforced.
    pub fn rewrite_url_for_safe_search(&self, url: &str) -> (r: Option<String>)
        ensures
            !self.config_spec().filtering.safe_search_enforcement ==> r is None,
            self.config_spec().filtering.safe_search_enforcement ==> r.deep_view() == safe_search_url(url@),
    {
        if !self.config.filtering.safe_search_enforcement {
            return None;
        }
        self.rule_engine.enforce_safe_search(url)
    }

    /// The HTML page shown in place of blocked content, naming the reason and
    /// the URL's host (or "unknown"), both escaped for HTML.
    pub fn get_block_page_content(&self, url: &str, reason: &str) -> (page: String)
        ensures
            page@ == block_page(reason@, block_page_domain(url@)),
    {
        let domain = match parse_url_host(url) {
            Some(Some(h)) => h,
            _ => String::from_str("unknown"),
        };
        let mut page = String::from_str(BLOCK_PAGE_HEAD);
        let r = escape_html(reason);
        page.append(r.as_str());
        page.append(BLOCK_PAGE_MIDDLE);
        let d = escape_html(domain.as_str());
        page.append(d.as_str());
        page.append(BLOCK_PAGE_TAIL);
        page
    }

    /// Replaces the rules by the default rules.
    pub fn reload_rules(&mut self) -> (r: Result<(), RuleError>)
        requires
            old(self).wf(),
        ensures
            r is Ok <==> default_patterns_valid(),
            final(self).wf(),
            final(self).config_spec() == old(self).config_spec(),
            r is Ok ==> default_rules(final(self).rules()),
    {
        self.rule_engine = RuleEngine::new();
        let r = self.rule_engine.load_default_rules();
        proof {
            if r is Ok {
                assert(self.rule_engine@.domains =~= default_blocked_domains().to_set());
                assert(self.rule_engine@.category_blocks =~= default_blocked_categories().to_set());
                assert(self.rule_engine@.category_allows =~= default_allowed_categories().to_set());
                assert(self.rule_engine@.patterns =~= default_patterns());
            }
        }
        r
    }

    /// Adds a URL pattern after the present ones.
    pub fn add_custom_rule(&mut self, pattern: &str, action: FilterAction, reason: &str) -> (r: Result<(), RuleError>)
        requires
            old(self).wf(),
        ensures
            final(self).wf(),
            final(self).config_spec() == old(self).config_spec(),
            r is Ok <==> regex_valid(pattern@),
            r is Ok ==> final(self).rules().patterns == old(self).rules().patterns.push(
                UrlPatternView { pattern: pattern@, action, reason: reason@ },
            ),
            r is Err ==> final(self).rules().patterns == old(self).rules().patterns,
            final(self).rules().domains == old(self).rules().domains,
            final(self).rules().category_blocks == old(self).rules().category_blocks,
            final(self).rules().category_allows == old(self).rules().category_allows,
    {
        self.rule_engine.add_url_pattern(pattern, action, reason)
    }
}

/// When the daemon refuses the host of a URL that parses, the request is
/// blocked by the profile policy, whatever the rules say.
pub proof fn lemma_daemon_refusal_blocks(rules: RuleEngineView, safe_search: bool, url: Seq<char>)
    requires
        url_parses(url),
        url_host(url) is Some,
    ensures
        request_decision(rules, safe_search, url, Some(false)).action == FilterAction::Block,
        request_decision(rules, safe_search, url, Some(false)).rule_id == Some("daemon_profile"@),
{
}

/// Without a refusal from the daemon the rules decide the action; safe
/// search changes only the reason.
pub proof fn lemma_rules_decide_without_refusal(
    rules: RuleEngineView,
    safe_search: bool,
    url: Seq<char>,
    daemon_allows: Option<bool>,
)
    requires
        daemon_allows != Some(false),
    ensures
        request_decision(rules, safe_search, url, daemon_allows).action == url_decision(rules, url).action,
        request_decision(rules, safe_search, url, daemon_allows).rule_id == url_decision(rules, url).rule_id,
{
}

/// With the default rules, a request for a URL on one of the nine default
/// blocked domains (pornhub.com, xvideos.com, xnxx.com, redtube.com,
/// gambling.com, casino.com, bet365.com, 4chan.org, 8kun.top) is blocked by
/// its domain rule, unless the daemon's refusal blocks it first.
pub proof fn lemma_default_rules_block_listed_domains(
    rules: RuleEngineView,
    safe_search: bool,
    url: Seq<char>,
    daemon_allows: Option<bool>,
)
    requires
        default_rules(rules),
        url_parses(url),
        daemon_allows != Some(false),
        host_or_empty(url) == "pornhub.com"@ || host_or_empty(url) == "xvideos.com"@
            || host_or_empty(url) == "xnxx.com"@ || host_or_empty(url) == "redtube.com"@
            || host_or_empty(url) == "gambling.com"@ || host_or_empty(url) == "casino.com"@
            || host_or_empty(url) == "bet365.com"@ || host_or_empty(url) == "4chan.org"@
            || host_or_empty(url) == "8kun.top"@,
    ensures
        request_decision(rules, safe_search, url, daemon_allows).action == FilterAction::Block,
        request_decision(rules, safe_search, url, daemon_allows).rule_id == Some("domain:"@ + host_or_empty(url)),
{
    lemma_default_domains_listed();
    let e = Set::<Seq<char>>::empty();
    assert(e.union(default_blocked_domains().to_set()) =~= default_blocked_domains().to_set());
    assert(blocks_default_domains(e.union(default_blocked_domains().to_set())));
    lemma_default_domain_blocks_url(rules, url);
}

} // verus!
