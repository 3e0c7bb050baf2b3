use dots_family::rules::{FilterAction, RuleEngine, RuleError};

#[test]
fn test_domain_blocking() {
    let mut engine = RuleEngine::new();
    engine.add_domain_rule("example.com", FilterAction::Block);

    let decision = engine.evaluate_url("https://example.com/path");
    assert!(matches!(decision.action, FilterAction::Block));
    assert!(decision.reason.contains("example.com"));
}

#[test]
fn test_url_pattern_blocking() {
    let mut engine = RuleEngine::new();
    engine.add_url_pattern(r".*casino.*", FilterAction::Block, "Gambling").unwrap();

    let decision = engine.evaluate_url("https://example.com/casino/games");
    assert!(matches!(decision.action, FilterAction::Block));
    assert!(decision.reason.contains("Gambling"));
}

#[test]
fn rules_test_safe_search_enforcement() {
    let engine = RuleEngine::new();

    let google_url = "https://google.com/search?q=test";
    let safe_url = engine.enforce_safe_search(google_url).unwrap();
    assert!(safe_url.contains("safe=active"));

    let youtube_url = "https://youtube.com/watch?v=123";
    let safe_youtube = engine.enforce_safe_search(youtube_url).unwrap();
    assert!(safe_youtube.contains("restrict_mode=strict"));
}

#[test]
fn test_default_allow() {
    let engine = RuleEngine::new();
    let decision = engine.evaluate_url("https://wikipedia.org/");
    assert!(matches!(decision.action, FilterAction::Allow));
}

#[test]
fn invalid_url_is_blocked_with_reason() {
    let engine = RuleEngine::new();
    let decision = engine.evaluate_url("not a url");
    assert!(matches!(decision.action, FilterAction::Block));
    assert_eq!(decision.reason, "Invalid URL format");
    assert_eq!(decision.rule_id, None);
}

#[test]
fn blocked_domain_decision_names_rule() {
    let mut engine = RuleEngine::new();
    engine.add_domain_rule("example.com", FilterAction::Block);
    let decision = engine.evaluate_url("https://example.com/path");
    assert_eq!(decision.reason, "Domain example.com is blocked");
    assert_eq!(decision.rule_id, Some("domain:example.com".to_string()));
}

#[test]
fn allowed_domain_rule_removes_block() {
    let mut engine = RuleEngine::new();
    engine.add_domain_rule("example.com", FilterAction::Block);
    engine.add_domain_rule("example.com", FilterAction::Allow);
    let decision = engine.evaluate_url("https://example.com/path");
    assert!(matches!(decision.action, FilterAction::Allow));
    assert_eq!(decision.reason, "No matching rules, allowing");
}

#[test]
fn blocked_domain_wins_over_allowing_pattern() {
    let mut engine = RuleEngine::new();
    engine.add_url_pattern(".*example.*", FilterAction::Allow, "Fine").unwrap();
    engine.add_domain_rule("example.com", FilterAction::Block);
    let decision = engine.evaluate_url("https://example.com/");
    assert!(matches!(decision.action, FilterAction::Block));
}

#[test]
fn first_matching_pattern_decides() {
    let mut engine = RuleEngine::new();
    engine.add_url_pattern(".*games.*", FilterAction::Allow, "Games are fine").unwrap();
    engine.add_url_pattern(".*casino.*", FilterAction::Block, "Gambling").unwrap();
    let decision = engine.evaluate_url("https://example.com/casino/games");
    assert!(matches!(decision.action, FilterAction::Allow));
    assert_eq!(decision.reason, "Games are fine");
    assert_eq!(decision.rule_id, Some("pattern:.*games.*".to_string()));
}

#[test]
fn invalid_pattern_is_refused() {
    let mut engine = RuleEngine::new();
    let r = engine.add_url_pattern("(unclosed", FilterAction::Block, "Broken");
    assert!(matches!(r, Err(RuleError::InvalidPattern(_))));
    let decision = engine.evaluate_url("https://example.com/(unclosed");
    assert!(matches!(decision.action, FilterAction::Allow));
}

#[test]
fn safe_search_only_on_search_hosts() {
    let engine = RuleEngine::new();
    assert_eq!(engine.enforce_safe_search("https://wikipedia.org/wiki/Rust"), None);
    assert_eq!(engine.enforce_safe_search("not a url"), None);
    let bing = engine.enforce_safe_search("https://www.bing.com/search?q=x").unwrap();
    assert!(bing.contains("adlt=strict"));
    let ddg = engine.enforce_safe_search("https://duckduckgo.com/?q=x").unwrap();
    assert!(ddg.contains("safe-search=strict"));
    let google = engine.enforce_safe_search("https://google.com/search?q=test").unwrap();
    assert_eq!(google, "https://google.com/search?q=test&safe=active");
}

#[test]
fn default_rules_block_known_sites() {
    let mut engine = RuleEngine::new();
    engine.load_default_rules().unwrap();
    let d = engine.evaluate_url("https://pornhub.com/");
    assert!(matches!(d.action, FilterAction::Block));
    assert_eq!(d.reason, "Domain pornhub.com is blocked");
    let d = engine.evaluate_url("https://example.com/online-CASINO");
    assert!(matches!(d.action, FilterAction::Block));
    assert_eq!(d.reason, "Gambling");
    let d = engine.evaluate_url("https://wikipedia.org/");
    assert!(matches!(d.action, FilterAction::Allow));
}
