use cloud_core::{
    default_attempt_role, default_true, fallback_rewrite_model_names, ActiveWindow, AuthKeyRow,
    AuthUserRow, GroupStrategy, PatternRule, Route, RouteMatchType, RouteRaw, Tier,
};

#[test]
fn defaults_for_left_out_fields() {
    assert!(default_true());
    assert_eq!(default_attempt_role(), "primary");
    assert_eq!(RouteMatchType::default(), RouteMatchType::Exact);
    assert_eq!(GroupStrategy::default(), GroupStrategy::RoundRobin);
    let k = AuthKeyRow::default();
    assert!(k.id.is_empty() && k.key_hash.is_empty() && k.user_id.is_empty());
    let u = AuthUserRow::default();
    assert!(u.id.is_empty() && u.name.is_empty());
    assert_eq!((u.quota_limit, u.window_seconds), (0, 0));
}

#[test]
fn tier_text_and_comparison() {
    assert_eq!(Tier::Local.to_string(), "local");
    assert_eq!(Tier::Free.to_string(), "free");
    assert_eq!(Tier::Paid.to_string(), "paid");
    assert!(Tier::Local == "local");
    assert!(Tier::Free == "free");
    assert!(Tier::Paid == "paid");
    assert!(Tier::Local != "free");
    assert!(Tier::Paid != "Paid");
    assert!(Tier::Free != "");
    assert!(Tier::Local != "locale");
}

#[test]
fn tier_matches_only_its_own_name() {
    let all = [Tier::Local, Tier::Free, Tier::Paid];
    for a in all {
        for b in all {
            assert_eq!(a == b.to_string().as_str(), a == b);
        }
    }
}

#[test]
fn match_type_and_strategy_text() {
    assert_eq!(RouteMatchType::Prefix.to_string(), "prefix");
    assert_eq!(RouteMatchType::Exact.to_string(), "exact");
    let names: Vec<String> = [
        GroupStrategy::RoundRobin,
        GroupStrategy::Sequential,
        GroupStrategy::Random,
        GroupStrategy::LoadBalance,
        GroupStrategy::LeastLatency,
    ]
    .iter()
    .map(|s| s.to_string())
    .collect();
    assert_eq!(
        names,
        vec!["round_robin", "sequential", "random", "load_balance", "least_latency"]
    );
}

#[test]
fn fallback_rewrite_models_write_none_as_empty() {
    let models = vec![Some("gpt-4o".to_string()), None, Some(String::new())];
    assert_eq!(fallback_rewrite_model_names(&models), vec!["gpt-4o", "", ""]);
    assert!(fallback_rewrite_model_names(&[]).is_empty());
}

fn raw(
    rules: Vec<PatternRule>,
    pattern: Option<&str>,
    match_type: Option<RouteMatchType>,
) -> RouteRaw {
    RouteRaw {
        id: "r1".to_string(),
        name: "route one".to_string(),
        note: Some("n".to_string()),
        pattern: pattern.map(|p| p.to_string()),
        match_type,
        rules,
        users: vec!["u1".to_string()],
        provider: "openai".to_string(),
        fallback_providers: vec!["backup".to_string()],
        rewrite_model: Some("m".to_string()),
        fallback_rewrite_models: vec![None, Some("x".to_string())],
        supports_thinking: true,
        enabled: false,
        active_window: Some(ActiveWindow::DateRange {
            from: "2024-01-01".to_string(),
            to: "2024-02-01".to_string(),
        }),
    }
}

fn rule(p: &str, m: RouteMatchType) -> PatternRule {
    PatternRule { pattern: p.to_string(), match_type: m }
}

fn rule_pairs(route: &Route) -> Vec<(String, RouteMatchType)> {
    route.rules.iter().map(|r| (r.pattern.clone(), r.match_type)).collect()
}

#[test]
fn legacy_pattern_becomes_one_exact_rule() {
    let route = Route::from_raw(raw(vec![], Some("gpt-4"), None));
    assert_eq!(rule_pairs(&route), vec![("gpt-4".to_string(), RouteMatchType::Exact)]);
    let route = Route::from_raw(raw(vec![], Some("mistral-"), Some(RouteMatchType::Prefix)));
    assert_eq!(rule_pairs(&route), vec![("mistral-".to_string(), RouteMatchType::Prefix)]);
}

#[test]
fn rules_win_over_legacy_pattern() {
    let route = Route::from_raw(raw(
        vec![rule("a", RouteMatchType::Prefix), rule("b", RouteMatchType::Exact)],
        Some("ignored"),
        Some(RouteMatchType::Exact),
    ));
    assert_eq!(
        rule_pairs(&route),
        vec![
            ("a".to_string(), RouteMatchType::Prefix),
            ("b".to_string(), RouteMatchType::Exact)
        ]
    );
}

#[test]
fn no_rules_and_no_pattern_gives_no_rules() {
    let route = Route::from_raw(raw(vec![], None, Some(RouteMatchType::Prefix)));
    assert!(route.rules.is_empty());
}

#[test]
fn route_keeps_other_fields() {
    let route = Route::from_raw(raw(vec![], Some("p"), None));
    assert_eq!(route.id, "r1");
    assert_eq!(route.name, "route one");
    assert_eq!(route.note.as_deref(), Some("n"));
    assert_eq!(route.users, vec!["u1"]);
    assert_eq!(route.provider, "openai");
    assert_eq!(route.fallback_providers, vec!["backup"]);
    assert_eq!(route.rewrite_model.as_deref(), Some("m"));
    assert_eq!(route.fallback_rewrite_models, vec![None, Some("x".to_string())]);
    assert!(route.supports_thinking);
    assert!(!route.enabled);
    assert!(matches!(route.active_window, Some(ActiveWindow::DateRange { .. })));
}

#[test]
fn route_read_back_keeps_its_rules() {
    let first = Route::from_raw(raw(vec![], Some("gpt-4"), None));
    let again = Route::from_raw(raw(first.rules.clone(), None, None));
    assert_eq!(rule_pairs(&again), rule_pairs(&first));
}
