use alias_heaven_calculator::calculator::{
    compute_legacy_level, compute_negacy_level, compute_quacker_tier, Calculator, RoleConfig,
    Values,
};
use alias_heaven_calculator::tiers::{thresholds_ascending, tiers_met};

fn names(list: &[&str]) -> Vec<String> {
    list.iter().map(|s| s.to_string()).collect()
}

fn legacy_config() -> RoleConfig {
    RoleConfig::new(vec![50, 200], vec![30], 5, vec![100, 500, 1000], names(&["None", "Bronze", "Silver", "Gold"]))
}

#[test]
fn tiers_met_counts_thresholds_at_most_counter() {
    let t = vec![10, 20, 20, 40];
    assert_eq!(tiers_met(&t, 5), 0);
    assert_eq!(tiers_met(&t, 10), 1);
    assert_eq!(tiers_met(&t, 20), 3);
    assert_eq!(tiers_met(&t, 39), 3);
    assert_eq!(tiers_met(&t, 40), 4);
    assert_eq!(tiers_met(&t, i64::MAX), 4);
}

#[test]
fn tiers_met_stops_at_first_unmet() {
    // Unsorted: the scan stops at 30 although 5 would be met.
    assert_eq!(tiers_met(&vec![10, 30, 5], 20), 1);
}

#[test]
fn tiers_met_empty_is_zero() {
    assert_eq!(tiers_met(&vec![], 0), 0);
    assert_eq!(tiers_met(&vec![], i64::MIN), 0);
    assert_eq!(tiers_met(&vec![], i64::MAX), 0);
}

#[test]
fn quacker_tier_example() {
    let config = legacy_config();
    let mut v = Values::new();
    let expected = [(0, 0, "None"), (100, 1, "Bronze"), (999, 2, "Silver"), (1000, 3, "Gold")];
    for (quacks, index, name) in expected {
        v.quacks = quacks;
        let (i, n) = compute_quacker_tier(&config, &v);
        assert_eq!(i, index);
        assert_eq!(n, name);
    }
}

#[test]
fn legacy_level_example() {
    let config = legacy_config();
    let mut v = Values::new();
    v.general_messages = 200;
    v.counting_messages = 30;
    v.secret_area_access = true;
    v.negacies_converted = 0;
    assert_eq!(compute_legacy_level(&config, &v), -2);
}

#[test]
fn legacy_level_monotone_in_messages() {
    let config = legacy_config();
    let mut last = i128::MIN;
    for g in [0i64, 49, 50, 199, 200, 10_000] {
        for c in [0i64, 29, 30, 1_000] {
            let mut v = Values::new();
            v.general_messages = g;
            v.counting_messages = c;
            let level = compute_legacy_level(&config, &v);
            let mut w = Values::new();
            w.general_messages = g + 1;
            w.counting_messages = c + 1;
            assert!(compute_legacy_level(&config, &w) >= level);
            if c == 0 {
                assert!(level >= last);
                last = level;
            }
        }
    }
}

#[test]
fn secret_area_costs_exactly_the_cost() {
    let config = legacy_config();
    let mut v = Values::new();
    v.general_messages = 60;
    v.negacies_converted = 3;
    v.negacies_converted_direction = true;
    let without = compute_legacy_level(&config, &v);
    v.secret_area_access = true;
    assert_eq!(compute_legacy_level(&config, &v), without - 5);
    assert_eq!(without, 4);
}

#[test]
fn conversion_direction_negates_contribution() {
    let config = RoleConfig::new(vec![], vec![], 0, vec![], names(&["None"]));
    let mut v = Values::new();
    v.negacies_converted = 7;
    v.negacies_earned = 10;
    v.negacies_converted_direction = true;
    assert_eq!(compute_legacy_level(&config, &v), 7);
    assert_eq!(compute_negacy_level(&v), 3);
    v.negacies_converted_direction = false;
    assert_eq!(compute_legacy_level(&config, &v), -7);
    assert_eq!(compute_negacy_level(&v), 17);
}

#[test]
fn extreme_counters_do_not_overflow() {
    let config = RoleConfig::new(vec![i64::MIN], vec![i64::MIN], i64::MIN, vec![], names(&["None"]));
    let mut v = Values::new();
    v.general_messages = i64::MAX;
    v.counting_messages = i64::MAX;
    v.secret_area_access = true;
    v.negacies_converted = i64::MAX;
    v.negacies_converted_direction = true;
    assert_eq!(compute_legacy_level(&config, &v), i64::MAX as i128 + 2 - i64::MIN as i128);
    v.negacies_earned = i64::MIN;
    assert_eq!(compute_negacy_level(&v), i64::MIN as i128 - i64::MAX as i128);
}

#[test]
fn computations_are_repeatable() {
    let config = legacy_config();
    let mut v = Values::new();
    v.general_messages = 75;
    v.counting_messages = 31;
    v.quacks = 600;
    v.negacies_converted = 2;
    v.negacies_earned = 4;
    assert_eq!(compute_legacy_level(&config, &v), compute_legacy_level(&config, &v));
    assert_eq!(compute_negacy_level(&v), compute_negacy_level(&v));
    assert_eq!(compute_quacker_tier(&config, &v), compute_quacker_tier(&config, &v));
}

#[test]
fn clamp_counters_raises_negatives_only() {
    let mut v = Values::new();
    v.general_messages = -3;
    v.counting_messages = 8;
    v.quacks = i64::MIN;
    v.negacies_converted = -1;
    v.negacies_earned = 2;
    v.secret_area_access = true;
    v.negacies_converted_direction = true;
    v.clamp_counters();
    assert_eq!(v.general_messages, 0);
    assert_eq!(v.counting_messages, 8);
    assert_eq!(v.quacks, 0);
    assert_eq!(v.negacies_converted, 0);
    assert_eq!(v.negacies_earned, 2);
    assert!(v.secret_area_access);
    assert!(v.negacies_converted_direction);
}

#[test]
fn new_values_are_zero() {
    let v = Values::new();
    assert_eq!(v.general_messages, 0);
    assert_eq!(v.counting_messages, 0);
    assert_eq!(v.quacks, 0);
    assert!(!v.secret_area_access);
    assert_eq!(v.negacies_converted, 0);
    assert!(!v.negacies_converted_direction);
    assert_eq!(v.negacies_earned, 0);
}

#[test]
fn thresholds_ascending_checks_order() {
    assert!(thresholds_ascending(&vec![]));
    assert!(thresholds_ascending(&vec![3]));
    assert!(thresholds_ascending(&vec![1, 1, 2]));
    assert!(!thresholds_ascending(&vec![2, 1]));
    assert!(!thresholds_ascending(&vec![1, 5, 9, 4]));
}

#[test]
fn validated_rejects_bad_configuration() {
    let ok = RoleConfig::validated(vec![1, 2], vec![3], 5, vec![10], names(&["a", "b"]));
    assert!(ok.is_some());
    assert_eq!(ok.unwrap().secret_area_cost, 5);
    assert!(RoleConfig::validated(vec![2, 1], vec![3], 5, vec![10], names(&["a", "b"])).is_none());
    assert!(RoleConfig::validated(vec![1], vec![4, 3], 5, vec![10], names(&["a", "b"])).is_none());
    assert!(RoleConfig::validated(vec![1], vec![3], 5, vec![10, 9], names(&["a", "b", "c"])).is_none());
    assert!(RoleConfig::validated(vec![1], vec![3], 5, vec![10], names(&["a"])).is_none());
    assert!(RoleConfig::validated(vec![1], vec![3], 5, vec![10], names(&[])).is_none());
    assert!(RoleConfig::validated(vec![1], vec![3], 5, vec![10], names(&["a", "b", "c"])).is_none());
}

#[test]
fn calculator_uses_its_values() {
    let mut calc = Calculator::new(vec!["2022".to_string()], "1.0.0".to_string(), legacy_config());
    assert!(!calc.info_active);
    assert_eq!(calc.name(), "Alias' Heaven Calculator");
    assert_eq!(calc.legacy_level(), 0);
    assert_eq!(calc.quacker_tier(), (0, "None".to_string()));
    calc.values.general_messages = 250;
    calc.values.counting_messages = 40;
    calc.values.quacks = 500;
    calc.values.negacies_earned = 6;
    calc.values.negacies_converted = 1;
    calc.values.negacies_converted_direction = true;
    assert_eq!(calc.legacy_level(), 4);
    assert_eq!(calc.negacy_level(), 5);
    assert_eq!(calc.quacker_tier(), (2, "Silver".to_string()));
}
