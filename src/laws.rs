use vstd::prelude::*;

use crate::calculator::{legacy_level, negacy_level, quacker_tier, RoleConfig, Values};
use crate::tiers::{ascending, count_at_most, scan_met};

verus! {

/// An ascending list stays ascending without its first element.
proof fn lemma_ascending_drop_first(t: Seq<i64>)
    requires
        ascending(t),
        t.len() > 0,
    ensures
        ascending(t.drop_first()),
{
    let rest = t.drop_first();
    assert forall|i: int, j: int| 0 <= i <= j < rest.len() implies rest[i] <= rest[j] by {
        assert(t[i + 1] <= t[j + 1]);
    }
}

/// If the first element of an ascending list exceeds `c`, no element is at
/// most `c`.
proof fn lemma_none_at_most(t: Seq<i64>, c: i64)
    requires
        ascending(t),
        t.len() > 0,
        c < t[0],
    ensures
        count_at_most(t, c) == 0,
    decreases t.len(),
{
    let rest = t.drop_first();
    lemma_ascending_drop_first(t);
    if rest.len() > 0 {
        assert(t[0] <= t[1]);
        lemma_none_at_most(rest, c);
    }
}

/// On an ascending threshold list, the number of thresholds that the scan
/// finds met is the number of thresholds at most the counter.
pub proof fn lemma_scan_met_counts(t: Seq<i64>, c: i64)
    requires
        ascending(t),
    ensures
        scan_met(t, c) == count_at_most(t, c),
    decreases t.len(),
{
    if t.len() > 0 {
        if c < t[0] {
            lemma_none_at_most(t, c);
        } else {
            lemma_ascending_drop_first(t);
            lemma_scan_met_counts(t.drop_first(), c);
        }
    }
}

/// An empty threshold list is never met.
pub proof fn lemma_scan_met_empty(c: i64)
    ensures
        scan_met(Seq::<i64>::empty(), c) == 0,
{
}

/// A larger counter meets at least as many thresholds.
pub proof fn lemma_scan_met_monotone(t: Seq<i64>, c1: i64, c2: i64)
    requires
        c1 <= c2,
    ensures
        scan_met(t, c1) <= scan_met(t, c2),
    decreases t.len(),
{
    if t.len() > 0 && c1 >= t[0] {
        lemma_scan_met_monotone(t.drop_first(), c1, c2);
    }
}

/// Raising the general or the counting message count, all else fixed, never
/// lowers the legacy level.
pub proof fn lemma_legacy_level_monotone(config: RoleConfig, v1: Values, v2: Values)
    requires
        v1.general_messages <= v2.general_messages,
        v1.counting_messages <= v2.counting_messages,
        v2 == (Values {
            general_messages: v2.general_messages,
            counting_messages: v2.counting_messages,
            ..v1
        }),
    ensures
        legacy_level(config, v1) <= legacy_level(config, v2),
{
    lemma_scan_met_monotone(config.general_legacies@, v1.general_messages, v2.general_messages);
    lemma_scan_met_monotone(config.counting_legacies@, v1.counting_messages, v2.counting_messages);
}

/// Gaining secret area access, all else fixed, lowers the legacy level by
/// exactly the secret area cost.
pub proof fn lemma_secret_area_cost(config: RoleConfig, v: Values)
    requires
        !v.secret_area_access,
    ensures
        legacy_level(config, Values { secret_area_access: true, ..v }) == legacy_level(config, v)
            - config.secret_area_cost,
{
}

/// Flipping the conversion direction, the amount fixed, negates what the
/// conversion contributes to the legacy and to the negacy level.
pub proof fn lemma_conversion_direction(config: RoleConfig, v: Values)
    ensures
        ({
            let w = Values { negacies_converted_direction: !v.negacies_converted_direction, ..v };
            &&& w.legacy_conversion() == -v.legacy_conversion()
            &&& legacy_level(config, w) == legacy_level(config, v) - 2 * v.legacy_conversion()
            &&& negacy_level(w) == negacy_level(v) + 2 * v.legacy_conversion()
        }),
{
}

/// The role computations depend on the configuration and the input alone:
/// equal arguments give equal results.
pub proof fn lemma_computations_deterministic(
    config1: RoleConfig,
    v1: Values,
    config2: RoleConfig,
    v2: Values,
)
    requires
        config1.general_legacies@ == config2.general_legacies@,
        config1.counting_legacies@ == config2.counting_legacies@,
        config1.secret_area_cost == config2.secret_area_cost,
        config1.quacker_roles@ == config2.quacker_roles@,
        v1 == v2,
    ensures
        legacy_level(config1, v1) == legacy_level(config2, v2),
        negacy_level(v1) == negacy_level(v2),
        quacker_tier(config1, v1) == quacker_tier(config2, v2),
{
}

} // verus!
