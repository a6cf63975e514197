use sw3do_browser::clock::Timestamp;
use sw3do_browser::filters::engine::FilterEngine;
use sw3do_browser::filters::rule::{
    classify_request_type, FilterOptions, FilterRule, FilterRuleType, ResourceKind,
};
use sw3do_browser::filters::shields::SiteShields;
use sw3do_browser::filters::target::ParsedUrl;
use sw3do_browser::text::chars_of;

fn at(secs: i64) -> Timestamp {
    Timestamp { secs, nanos: 0 }
}

fn rule(pattern: &str, rule_type: FilterRuleType) -> FilterRule {
    FilterRule::new(pattern.to_string(), rule_type)
}

fn engine_with(rules: Vec<FilterRule>) -> FilterEngine {
    let mut engine = FilterEngine::new_at(at(1_700_000_000));
    for r in rules {
        engine.add_custom_rule("easylist", r).unwrap();
    }
    engine
}

fn shields(domain: &str, ad: bool, tracker: bool, third_party: bool) -> SiteShields {
    let mut s = SiteShields::default_for(domain, at(5));
    s.ad_blocking = ad;
    s.tracker_blocking = tracker;
    s.third_party_cookies = third_party;
    s
}

#[test]
fn block_rule_blocks_matching_request() {
    let engine = engine_with(vec![rule("ads.example.com", FilterRuleType::Block)]);
    assert!(engine.should_block_request(
        "https://ads.example.com/banner.js",
        "script",
        "news.example"
    ));
}

#[test]
fn request_without_matching_rule_is_not_blocked() {
    let engine = engine_with(vec![rule("ads.example.com", FilterRuleType::Block)]);
    assert!(!engine.should_block_request("https://cdn.example.org/app.js", "script", "news.example"));
}

#[test]
fn fresh_engine_blocks_nothing() {
    let engine = FilterEngine::new();
    assert!(!engine.should_block_request("https://ads.example.com/banner.js", "script", "a.test"));
}

#[test]
fn malformed_url_is_never_blocked() {
    let engine = engine_with(vec![rule("ads", FilterRuleType::Block)]);
    assert!(!engine.should_block_request("not a url with ads", "script", "news.example"));
    assert!(!engine.should_block_request("", "script", "news.example"));
    assert!(!engine.should_block_request("//ads.example.com/x", "image", "news.example"));
}

#[test]
fn allow_before_block_wins() {
    let engine = engine_with(vec![
        rule("ads.example.com/ok", FilterRuleType::Allow),
        rule("ads.example.com", FilterRuleType::Block),
    ]);
    assert!(!engine.should_block_request("https://ads.example.com/ok/a.js", "script", "n.test"));
    assert!(engine.should_block_request("https://ads.example.com/bad/a.js", "script", "n.test"));
}

#[test]
fn block_before_allow_wins() {
    let engine = engine_with(vec![
        rule("ads.example.com", FilterRuleType::Block),
        rule("ads.example.com/ok", FilterRuleType::Allow),
    ]);
    assert!(engine.should_block_request("https://ads.example.com/ok/a.js", "script", "n.test"));
}

#[test]
fn hide_and_redirect_rules_decide_nothing() {
    let engine = engine_with(vec![
        rule("ads.example.com", FilterRuleType::Hide),
        rule("ads.example.com", FilterRuleType::Redirect),
    ]);
    assert!(!engine.should_block_request("https://ads.example.com/a.js", "script", "n.test"));
    let engine = engine_with(vec![
        rule("ads.example.com", FilterRuleType::Hide),
        rule("ads.example.com", FilterRuleType::Block),
    ]);
    assert!(engine.should_block_request("https://ads.example.com/a.js", "script", "n.test"));
}

#[test]
fn domains_scope_limits_rule_to_member_origins() {
    let mut scoped = rule("tracker.io", FilterRuleType::Block);
    scoped.domains = Some(vec!["news.example".to_string(), "blog.example".to_string()]);
    let engine = engine_with(vec![scoped]);
    assert!(engine.should_block_request("https://tracker.io/p.gif", "image", "news.example"));
    assert!(engine.should_block_request("https://tracker.io/p.gif", "image", "blog.example"));
    assert!(!engine.should_block_request("https://tracker.io/p.gif", "image", "shop.example"));
    assert!(!engine.should_block_request("https://tracker.io/p.gif", "image", ""));
}

#[test]
fn empty_domains_scope_matches_no_origin() {
    let mut scoped = rule("tracker.io", FilterRuleType::Block);
    scoped.domains = Some(vec![]);
    let engine = engine_with(vec![scoped]);
    assert!(!engine.should_block_request("https://tracker.io/p.gif", "image", "news.example"));
}

#[test]
fn exceptions_scope_exempts_member_origins() {
    let mut scoped = rule("tracker.io", FilterRuleType::Block);
    scoped.exceptions = Some(vec!["partner.example".to_string()]);
    let engine = engine_with(vec![scoped]);
    assert!(!engine.should_block_request("https://tracker.io/p.gif", "image", "partner.example"));
    assert!(engine.should_block_request("https://tracker.io/p.gif", "image", "news.example"));
}

#[test]
fn disabled_resource_type_keeps_rule_from_matching() {
    let mut no_scripts = rule("cdn.ads.test", FilterRuleType::Block);
    no_scripts.options = FilterOptions {
        script: false,
        image: true,
        stylesheet: true,
        xmlhttprequest: true,
        subdocument: true,
        third_party: true,
        popup: true,
    };
    let engine = engine_with(vec![no_scripts]);
    assert!(!engine.should_block_request("https://cdn.ads.test/a.js", "script", "n.test"));
    assert!(engine.should_block_request("https://cdn.ads.test/a.png", "image", "n.test"));
}

#[test]
fn each_resource_type_reads_its_own_flag() {
    let types = ["script", "image", "stylesheet", "xmlhttprequest", "subdocument"];
    for (i, off) in types.iter().enumerate() {
        let mut r = rule("x.test", FilterRuleType::Block);
        r.options = FilterOptions {
            script: i != 0,
            image: i != 1,
            stylesheet: i != 2,
            xmlhttprequest: i != 3,
            subdocument: i != 4,
            third_party: true,
            popup: true,
        };
        let engine = engine_with(vec![r]);
        for t in types.iter() {
            assert_eq!(
                engine.should_block_request("https://x.test/r", t, "n.test"),
                t != off
            );
        }
    }
}

#[test]
fn unknown_resource_types_are_always_applicable() {
    let mut r = rule("x.test", FilterRuleType::Block);
    r.options = FilterOptions {
        script: false,
        image: false,
        stylesheet: false,
        xmlhttprequest: false,
        subdocument: false,
        third_party: false,
        popup: false,
    };
    let engine = engine_with(vec![r]);
    assert!(engine.should_block_request("https://x.test/r", "document", "n.test"));
    assert!(engine.should_block_request("https://x.test/r", "other", "n.test"));
    assert!(engine.should_block_request("https://x.test/r", "font", "n.test"));
    assert!(engine.should_block_request("https://x.test/r", "Script", "n.test"));
    assert!(!engine.should_block_request("https://x.test/r", "script", "n.test"));
}

#[test]
fn shields_with_blocking_off_override_rules() {
    let mut engine = engine_with(vec![rule("ads.example.com", FilterRuleType::Block)]);
    engine.update_site_shields("news.example", shields("news.example", false, false, false));
    assert!(!engine.should_block_request("https://ads.example.com/a.js", "script", "news.example"));
    assert!(engine.should_block_request("https://ads.example.com/a.js", "script", "blog.example"));
}

#[test]
fn blocking_off_beats_third_party_heuristic() {
    let mut engine = FilterEngine::new_at(at(0));
    engine.update_site_shields("news.example", shields("news.example", false, false, true));
    assert!(!engine.should_block_request("https://other.test/a.js", "script", "news.example"));
}

#[test]
fn one_blocking_switch_left_on_keeps_rules_in_force() {
    let mut engine = engine_with(vec![rule("ads.example.com", FilterRuleType::Block)]);
    engine.update_site_shields("news.example", shields("news.example", true, false, false));
    assert!(engine.should_block_request("https://ads.example.com/a.js", "script", "news.example"));
    engine.update_site_shields("news.example", shields("news.example", false, true, false));
    assert!(engine.should_block_request("https://ads.example.com/a.js", "script", "news.example"));
}

#[test]
fn third_party_heuristic_blocks_other_domains_only() {
    let mut engine = FilterEngine::new_at(at(0));
    engine.update_site_shields("news.example", shields("news.example", true, true, true));
    assert!(engine.should_block_request("https://other.test/a.js", "script", "news.example"));
    assert!(!engine.should_block_request("https://news.example/a.js", "script", "news.example"));
    assert!(engine.should_block_request("https://cdn.news.example/a.js", "script", "news.example"));
}

#[test]
fn third_party_heuristic_compares_the_parsed_domain() {
    let mut engine = FilterEngine::new_at(at(0));
    engine.update_site_shields("news.example", shields("news.example", true, true, true));
    assert!(!engine.should_block_request(
        "https://user@NEWS.example:8443/a.js?x=1",
        "script",
        "news.example"
    ));
}

#[test]
fn third_party_heuristic_overrides_allow_rule() {
    let mut engine = engine_with(vec![rule("other.test", FilterRuleType::Allow)]);
    engine.update_site_shields("news.example", shields("news.example", true, true, true));
    assert!(engine.should_block_request("https://other.test/a.js", "script", "news.example"));
}

#[test]
fn url_without_domain_compares_as_empty_domain() {
    let mut engine = FilterEngine::new_at(at(0));
    engine.update_site_shields("", shields("", true, true, true));
    engine.update_site_shields("news.example", shields("news.example", true, true, true));
    assert!(!engine.should_block_request("https://127.0.0.1/a.js", "script", ""));
    assert!(engine.should_block_request("https://127.0.0.1/a.js", "script", "news.example"));
    assert!(!engine.should_block_request("data:text/plain,hello", "other", ""));
}

#[test]
fn decide_takes_the_parsed_url_as_given() {
    let mut engine = engine_with(vec![rule("ads", FilterRuleType::Block)]);
    assert!(!engine.decide(None, "https://ads.test/", "script", "n.test"));
    assert!(engine.decide(
        Some(ParsedUrl { domain: Some("ads.test".to_string()) }),
        "https://ads.test/",
        "script",
        "n.test"
    ));
    assert!(engine.decide(Some(ParsedUrl { domain: None }), "ads", "script", "n.test"));
    engine.update_site_shields("n.test", shields("n.test", true, true, true));
    assert!(!engine.decide(
        Some(ParsedUrl { domain: Some("n.test".to_string()) }),
        "https://n.test/",
        "script",
        "n.test"
    ));
    assert!(engine.decide(Some(ParsedUrl { domain: None }), "x", "script", "n.test"));
}

#[test]
fn matches_rule_checks_pattern_scope_and_type() {
    let engine = FilterEngine::new_at(at(0));
    let mut r = rule("ads.", FilterRuleType::Block);
    assert!(engine.matches_rule("https://ads.test/a", &r, "script", "n.test"));
    assert!(!engine.matches_rule("https://adz.test/a", &r, "script", "n.test"));
    r.domains = Some(vec!["n.test".to_string()]);
    assert!(engine.matches_rule("https://ads.test/a", &r, "script", "n.test"));
    assert!(!engine.matches_rule("https://ads.test/a", &r, "script", "m.test"));
    r.exceptions = Some(vec!["n.test".to_string()]);
    assert!(!engine.matches_rule("https://ads.test/a", &r, "script", "n.test"));
}

#[test]
fn lists_are_scanned_in_insertion_order() {
    let mut engine = FilterEngine::new_at(at(0));
    engine.add_custom_rule("easyprivacy", rule("ads.test", FilterRuleType::Allow)).unwrap();
    engine.add_custom_rule("easylist", rule("ads.test", FilterRuleType::Block)).unwrap();
    assert!(engine.should_block_request("https://ads.test/a", "script", "n.test"));
    let mut engine = FilterEngine::new_at(at(0));
    engine.add_custom_rule("easylist", rule("ads.test", FilterRuleType::Allow)).unwrap();
    engine.add_custom_rule("easyprivacy", rule("ads.test", FilterRuleType::Block)).unwrap();
    assert!(!engine.should_block_request("https://ads.test/a", "script", "n.test"));
}

#[test]
fn disabled_list_is_not_scanned() {
    let mut engine = engine_with(vec![rule("ads.test", FilterRuleType::Block)]);
    engine.set_list_enabled("easylist", false).unwrap();
    assert!(!engine.should_block_request("https://ads.test/a", "script", "n.test"));
    engine.set_list_enabled("easylist", true).unwrap();
    assert!(engine.should_block_request("https://ads.test/a", "script", "n.test"));
}

#[test]
fn disabled_allow_list_lets_later_block_decide() {
    let mut engine = FilterEngine::new_at(at(0));
    engine.add_custom_rule("easylist", rule("ads.test", FilterRuleType::Allow)).unwrap();
    engine.add_custom_rule("easyprivacy", rule("ads.test", FilterRuleType::Block)).unwrap();
    engine.set_list_enabled("easylist", false).unwrap();
    assert!(engine.should_block_request("https://ads.test/a", "script", "n.test"));
}

#[test]
fn compiled_pattern_agrees_with_substring_search() {
    let mut engine = engine_with(vec![rule("a.c/x?y=(1)", FilterRuleType::Block)]);
    let urls = [
        "https://a.c/x?y=(1)",
        "https://abc/x?y=(1)",
        "https://a.c/xy=(1)",
        "https://a.c/x?y=1",
        "https://host.test/?u=a.c/x?y=(1)&z",
    ];
    let before: Vec<bool> =
        urls.iter().map(|u| engine.should_block_request(u, "script", "n.test")).collect();
    assert_eq!(before, vec![true, false, false, false, true]);
    assert!(!engine.is_compiled("a.c/x?y=(1)"));
    assert!(engine.compile_pattern("a.c/x?y=(1)"));
    assert!(engine.is_compiled("a.c/x?y=(1)"));
    let after: Vec<bool> =
        urls.iter().map(|u| engine.should_block_request(u, "script", "n.test")).collect();
    assert_eq!(after, before);
}

#[test]
fn compiled_pattern_is_keyed_by_exact_text() {
    let mut engine = engine_with(vec![
        rule("ads", FilterRuleType::Block),
    ]);
    assert!(engine.compile_pattern("ads."));
    assert!(!engine.is_compiled("ads"));
    assert!(engine.should_block_request("https://adserver.test/a", "script", "n.test"));
}

#[test]
fn compiled_pattern_is_case_sensitive_like_substring_search() {
    let mut engine = engine_with(vec![rule("Ads", FilterRuleType::Block)]);
    assert!(engine.compile_pattern("Ads"));
    assert!(!engine.should_block_request("https://x.test/ads", "script", "n.test"));
    assert!(engine.should_block_request("https://x.test/Ads", "script", "n.test"));
}

#[test]
fn rule_matches_without_an_engine() {
    let mut r = rule("ads.", FilterRuleType::Hide);
    r.exceptions = Some(vec!["ok.test".to_string()]);
    let url = chars_of("https://ads.test/a");
    assert!(r.matches(&url, ResourceKind::Script, &chars_of("n.test")));
    assert!(!r.matches(&url, ResourceKind::Script, &chars_of("ok.test")));
    assert!(!r.matches(&chars_of("https://x.test/"), ResourceKind::Other, &chars_of("n.test")));
    assert!(r.in_scope(&chars_of("")));
    assert!(r.is_well_formed());
    assert!(!rule("", FilterRuleType::Block).is_well_formed());
}

#[test]
fn request_types_name_resource_kinds() {
    assert_eq!(classify_request_type("script"), ResourceKind::Script);
    assert_eq!(classify_request_type("image"), ResourceKind::Image);
    assert_eq!(classify_request_type("stylesheet"), ResourceKind::Stylesheet);
    assert_eq!(classify_request_type("xmlhttprequest"), ResourceKind::XmlHttpRequest);
    assert_eq!(classify_request_type("subdocument"), ResourceKind::Subdocument);
    assert_eq!(classify_request_type("document"), ResourceKind::Other);
    assert_eq!(classify_request_type("other"), ResourceKind::Other);
    assert_eq!(classify_request_type(""), ResourceKind::Other);
    assert_eq!(classify_request_type("xhr"), ResourceKind::Other);
}

#[test]
fn every_meta_character_is_matched_literally_when_compiled() {
    let pattern = "\\.+*?()|[]{}^$#&-~";
    let mut engine = engine_with(vec![rule(pattern, FilterRuleType::Block)]);
    let hit = format!("https://x.test/{}", pattern);
    assert!(engine.should_block_request(&hit, "other", "n.test"));
    assert!(!engine.should_block_request("https://x.test/aa", "other", "n.test"));
    assert!(engine.compile_pattern(pattern));
    assert!(engine.should_block_request(&hit, "other", "n.test"));
    assert!(!engine.should_block_request("https://x.test/aa", "other", "n.test"));
    assert!(!engine.should_block_request("https://x.test/.+*?()|[]{}^$#&-~", "other", "n.test"));
}
