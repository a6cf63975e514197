use sw3do_browser::clock::Timestamp;
use sw3do_browser::filters::engine::{EngineState, FilterEngine, ShieldsEntry};
use sw3do_browser::filters::error::FilterErrorKind;
use sw3do_browser::filters::rule::{FilterList, FilterRule, FilterRuleType};
use sw3do_browser::filters::shields::{GlobalStats, SiteShields};

fn at(secs: i64) -> Timestamp {
    Timestamp { secs, nanos: 0 }
}

fn rule(pattern: &str, rule_type: FilterRuleType) -> FilterRule {
    FilterRule::new(pattern.to_string(), rule_type)
}

fn list(name: &str, rules: Vec<FilterRule>) -> FilterList {
    FilterList {
        name: name.to_string(),
        url: format!("https://lists.test/{}.txt", name),
        enabled: true,
        last_updated: at(3),
        rules,
    }
}

fn busy_engine() -> FilterEngine {
    let mut engine = FilterEngine::new_at(at(1));
    engine.add_custom_rule("easylist", rule("ads.test", FilterRuleType::Block)).unwrap();
    engine.set_list_enabled("easyprivacy", false).unwrap();
    engine.update_site_shields("b.test", SiteShields::default_for("b.test", at(2)));
    engine.update_site_shields("a.test", SiteShields::default_for("a.test", at(2)));
    engine.increment_blocked_count_at("a.test", "ad", at(4));
    engine.compile_pattern("ads.test");
    engine
}

#[test]
fn exported_state_holds_everything_but_matchers() {
    let state = busy_engine().export_state();
    assert_eq!(state.list_ids, vec!["easylist".to_string(), "easyprivacy".to_string()]);
    assert_eq!(state.lists[0].rules, vec![rule("ads.test", FilterRuleType::Block)]);
    assert!(!state.lists[1].enabled);
    let mut a = SiteShields::default_for("a.test", at(4));
    a.ads_blocked = 1;
    assert_eq!(
        state.shields,
        vec![
            ShieldsEntry {
                domain: "b.test".to_string(),
                shields: SiteShields::default_for("b.test", at(2))
            },
            ShieldsEntry { domain: "a.test".to_string(), shields: a },
        ]
    );
    assert_eq!(state.stats.total_ads_blocked, 1);
}

#[test]
fn state_round_trip_keeps_decisions_and_counters() {
    let engine = busy_engine();
    let restored = FilterEngine::from_state(engine.export_state()).ok().unwrap();
    assert_eq!(restored.export_state(), engine.export_state());
    assert!(restored.should_block_request("https://ads.test/x", "script", "n.test"));
    assert!(!restored.is_compiled("ads.test"));
    assert_eq!(restored.global_stats(), engine.global_stats());
    assert_eq!(restored.site_shields_domains(), engine.site_shields_domains());
    assert_eq!(restored.get_site_shields("a.test"), engine.get_site_shields("a.test"));
}

#[test]
fn later_shields_entry_for_a_domain_counts() {
    let mut second = SiteShields::default_for("a.test", at(9));
    second.https_only = false;
    let state = EngineState {
        list_ids: vec![],
        lists: vec![],
        shields: vec![
            ShieldsEntry {
                domain: "a.test".to_string(),
                shields: SiteShields::default_for("a.test", at(2)),
            },
            ShieldsEntry { domain: "a.test".to_string(), shields: second.clone() },
        ],
        stats: GlobalStats::default(),
    };
    let engine = FilterEngine::from_state(state).ok().unwrap();
    assert_eq!(engine.get_site_shields("a.test"), second);
    assert_eq!(engine.site_shields_domains(), vec!["a.test".to_string()]);
    assert!(engine.list_ids().is_empty());
}

#[test]
fn malformed_states_are_refused() {
    let good = |ids: Vec<&str>, lists: Vec<FilterList>| EngineState {
        list_ids: ids.into_iter().map(|s| s.to_string()).collect(),
        lists,
        shields: vec![],
        stats: GlobalStats::default(),
    };
    let kind = |s: EngineState| FilterEngine::from_state(s).err().map(|e| e.kind);
    assert_eq!(kind(good(vec!["a"], vec![])), Some(FilterErrorKind::InvalidState));
    assert_eq!(kind(good(vec![], vec![list("a", vec![])])), Some(FilterErrorKind::InvalidState));
    assert_eq!(
        kind(good(vec!["a", "b", "a"], vec![list("a", vec![]), list("b", vec![]), list("c", vec![])])),
        Some(FilterErrorKind::InvalidState)
    );
    assert_eq!(
        kind(good(vec!["a"], vec![list("a", vec![rule("", FilterRuleType::Allow)])])),
        Some(FilterErrorKind::InvalidState)
    );
    assert_eq!(kind(good(vec!["a", "b"], vec![list("a", vec![]), list("b", vec![])])), None);
    assert_eq!(
        FilterEngine::from_state(good(vec!["a"], vec![])).err().unwrap().message,
        "Stored state is not valid"
    );
}

#[test]
fn parsed_rules_are_installed_as_a_whole() {
    let mut engine = FilterEngine::new_at(at(1));
    engine.add_custom_rule("easylist", rule("old.test", FilterRuleType::Block)).unwrap();
    let rules = FilterEngine::parse_filter_rules("new.test\n@@ok.test");
    assert_eq!(engine.install_rules_at("easylist", rules.clone(), at(8)), Ok(()));
    let list = engine.filter_list("easylist").unwrap();
    assert_eq!(list.rules, rules);
    assert_eq!(list.last_updated, at(8));
    assert_eq!(engine.install_rules("easyprivacy", vec![]), Ok(()));
    assert!(engine.filter_list("easyprivacy").unwrap().last_updated.secs > 1_600_000_000);
}

#[test]
fn rules_with_empty_pattern_are_not_installed() {
    let mut engine = FilterEngine::new_at(at(1));
    engine.add_custom_rule("easylist", rule("old.test", FilterRuleType::Block)).unwrap();
    let bad = vec![rule("a", FilterRuleType::Block), rule("", FilterRuleType::Block)];
    assert_eq!(
        engine.install_rules_at("easylist", bad.clone(), at(8)).unwrap_err().kind,
        FilterErrorKind::InvalidRule
    );
    assert_eq!(
        engine.install_rules_at("nope", bad, at(8)).unwrap_err().kind,
        FilterErrorKind::ListNotFound
    );
    let list = engine.filter_list("easylist").unwrap();
    assert_eq!(list.rules, vec![rule("old.test", FilterRuleType::Block)]);
    assert_eq!(list.last_updated, at(1));
}
