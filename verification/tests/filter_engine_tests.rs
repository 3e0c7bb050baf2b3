use dots_family::filter_config::{ConfigError, FilterConfig};
use dots_family::filter_engine::FilterEngine;
use dots_family::activity::{ActivityType, NIL_ID};
use dots_family::rules::FilterAction;

fn create_test_engine() -> FilterEngine {
    let config = FilterConfig::default();
    FilterEngine::new(config).unwrap()
}

#[test]
fn test_filter_engine_initialization() {
    let engine = create_test_engine();
    assert!(engine.is_filtering_enabled());
}

#[test]
fn filter_engine_test_safe_search_enforcement() {
    let engine = create_test_engine();

    let google_url = "https://google.com/search?q=test";
    let rewritten = engine.rewrite_url_for_safe_search(google_url);

    assert!(rewritten.is_some());
    assert!(rewritten.unwrap().contains("safe=active"));
}

#[test]
fn test_block_page_generation() {
    let engine = create_test_engine();

    let content = engine.get_block_page_content("https://blocked.com", "Adult content");

    assert!(content.contains("Content Blocked"));
    assert!(content.contains("Adult content"));
    assert!(content.contains("blocked.com"));
}

#[test]
fn test_custom_rule_addition() {
    let mut engine = create_test_engine();

    engine.add_custom_rule(r".*badsite.*", FilterAction::Block, "Custom block rule").unwrap();

    let decision = engine.evaluate_request("https://badsite.com/path", "GET", None);

    assert!(matches!(decision.action, FilterAction::Block));
    assert_eq!(decision.reason, "Custom block rule");
}

#[test]
fn block_page_escapes_markup_and_names_unknown_host() {
    let engine = create_test_engine();
    let content = engine.get_block_page_content("not a url", "<b>\"Tom\" & 'Jerry'</b>");
    assert!(content.contains("&lt;b&gt;&quot;Tom&quot; &amp; &#x27;Jerry&#x27;&lt;/b&gt;"));
    assert!(!content.contains("<b>"));
    assert!(content.contains("<strong>Domain:</strong> unknown"));
}

#[test]
fn disabled_filtering_allows_everything() {
    let mut config = FilterConfig::default();
    config.filtering.enabled = false;
    let engine = FilterEngine::new(config).unwrap();
    assert!(!engine.is_filtering_enabled());
    let d = engine.evaluate_request("https://pornhub.com/", "GET", Some(false));
    assert!(matches!(d.action, FilterAction::Allow));
    assert_eq!(d.reason, "Filtering disabled");
    assert_eq!(engine.daemon_query_host("https://pornhub.com/"), None);
}

#[test]
fn daemon_refusal_blocks_request() {
    let engine = create_test_engine();
    assert_eq!(engine.daemon_query_host("https://example.org/a"), Some("example.org".to_string()));
    let d = engine.evaluate_request("https://example.org/a", "GET", Some(false));
    assert!(matches!(d.action, FilterAction::Block));
    assert_eq!(d.reason, "Domain example.org blocked by active profile");
    assert_eq!(d.rule_id, Some("daemon_profile".to_string()));
    assert_eq!(d.category, Some("profile_policy".to_string()));
    let d = engine.evaluate_request("https://example.org/a", "GET", Some(true));
    assert!(matches!(d.action, FilterAction::Allow));
}

#[test]
fn default_rules_block_and_note_safe_search() {
    let engine = create_test_engine();
    let d = engine.evaluate_request("https://xvideos.com/", "GET", None);
    assert!(matches!(d.action, FilterAction::Block));
    let d = engine.evaluate_request("https://google.com/search?q=test", "GET", None);
    assert!(matches!(d.action, FilterAction::Allow));
    assert_eq!(d.reason, "Safe search enforced: No matching rules, allowing");
}

#[test]
fn safe_search_off_rewrites_nothing() {
    let mut config = FilterConfig::default();
    config.filtering.safe_search_enforcement = false;
    let engine = FilterEngine::new(config).unwrap();
    assert_eq!(engine.rewrite_url_for_safe_search("https://google.com/search?q=test"), None);
}

#[test]
fn reload_rules_drops_custom_rules() {
    let mut engine = create_test_engine();
    engine.add_custom_rule(".*badsite.*", FilterAction::Block, "Custom").unwrap();
    engine.reload_rules().unwrap();
    let d = engine.evaluate_request("https://badsite.com/path", "GET", None);
    assert!(matches!(d.action, FilterAction::Allow));
}

#[test]
fn invalid_custom_rule_is_refused() {
    let mut engine = create_test_engine();
    assert!(engine.add_custom_rule("[", FilterAction::Block, "Broken").is_err());
}

#[test]
fn config_validation() {
    let mut config = FilterConfig::default();
    assert!(config.validate().is_ok());
    config.proxy.bind_address = String::new();
    assert_eq!(config.validate(), Err(ConfigError::EmptyBindAddress));
    config.proxy.port = 0;
    assert_eq!(config.validate(), Err(ConfigError::ZeroPort));
    assert_eq!(ConfigError::ZeroPort.message(), "Proxy port cannot be 0");
}

#[test]
fn default_config_values() {
    let config = FilterConfig::default();
    assert_eq!(config.proxy.bind_address, "127.0.0.1");
    assert_eq!(config.proxy.port, 8080);
    assert_eq!(config.proxy.upstream_timeout_seconds, 30);
    assert_eq!(config.proxy.max_body_size_mb, 10);
    assert_eq!(config.filtering.block_categories, vec!["adult", "violence", "gambling", "drugs"]);
    assert_eq!(config.filtering.allow_categories, vec!["educational", "children", "reference"]);
    assert_eq!(config.daemon.dbus_interface, "org.dots.FamilyDaemon");
    assert!(config.daemon.check_permissions && config.daemon.log_activity);
}

#[test]
fn web_activity_record() {
    let engine = create_test_engine();
    assert!(engine.logs_activity());
    assert!(engine.wants_daemon());
    let a = engine.activity_record("https://example.org/page");
    let b = engine.activity_record("https://example.org/page");
    assert_ne!(a.id, b.id);
    assert_eq!(a.profile_id, NIL_ID);
    assert!(matches!(&a.activity_type, ActivityType::WebBrowsing { url } if url == "https://example.org/page"));
    assert_eq!(a.application, Some("web-filter".to_string()));
    assert_eq!(a.window_title, Some("https://example.org/page".to_string()));
    assert_eq!(a.duration_seconds, 0);
    assert!(a.timestamp_ms > 1_600_000_000_000);
}
