use vstd::prelude::*;

verus! {

/// Number of thresholds met by `c` when `t` is scanned from the front,
/// stopping at the first threshold that `c` falls short of.
pub open spec fn scan_met(t: Seq<i64>, c: i64) -> nat
    decreases t.len(),
{
    if t.len() == 0 {
        0
    } else if c < t[0] {
        0
    } else {
        1 + scan_met(t.drop_first(), c)
    }
}

/// Number of elements of `t` that are at most `c`, wherever they stand.
pub open spec fn count_at_most(t: Seq<i64>, c: i64) -> nat
    decreases t.len(),
{
    if t.len() == 0 {
        0
    } else {
        (if t[0] <= c { 1nat } else { 0nat }) + count_at_most(t.drop_first(), c)
    }
}

/// `t` is non-decreasing.
pub open spec fn ascending(t: Seq<i64>) -> bool {
    forall|i: int, j: int| 0 <= i <= j < t.len() ==> t[i] <= t[j]
}

/// The scan stops at `i` exactly when every earlier threshold is met and
/// the one at `i` (if any) is not.
proof fn lemma_scan_met_stops_at(t: Seq<i64>, c: i64, i: int)
    requires
        0 <= i <= t.len(),
        forall|j: int| 0 <= j < i ==> t[j] <= c,
        i == t.len() || c < t[i],
    ensures
        scan_met(t, c) == i,
    decreases i,
{
    if i > 0 {
        let rest = t.drop_first();
        assert forall|j: int| 0 <= j < i - 1 implies rest[j] <= c by {
            assert(rest[j] == t[j + 1]);
        }
        if i < t.len() {
            assert(rest[i - 1] == t[i]);
        }
        lemma_scan_met_stops_at(rest, c, i - 1);
    }
}

/// Counts the thresholds of `thresholds` that `counter` meets, scanning in
/// order and stopping at the first one it falls short of. A counter equal to
/// a threshold meets it.
pub fn tiers_met(thresholds: &Vec<i64>, counter: i64) -> (r: usize)
    ensures
        r == scan_met(thresholds@, counter),
        r <= thresholds@.len(),
{
    let mut i: usize = 0;
    while i < thresholds.len()
        invariant
            i <= thresholds@.len(),
            forall|j: int| 0 <= j < i ==> thresholds@[j] <= counter,
        ensures
            i <= thresholds@.len(),
            forall|j: int| 0 <= j < i ==> thresholds@[j] <= counter,
            i == thresholds@.len() || counter < thresholds@[i as int],
        decreases thresholds@.len() - i,
    {
        if counter < thresholds[i] {
            break;
        }
        i = i + 1;
    }
    proof {
        lemma_scan_met_stops_at(thresholds@, counter, i as int);
    }
    i
}

/// Whether `thresholds` is non-decreasing.
pub fn thresholds_ascending(thresholds: &Vec<i64>) -> (r: bool)
    ensures
        r == ascending(thresholds@),
{
    let n = thresholds.len();
    if n == 0 {
        return true;
    }
    let mut i: usize = 1;
    while i < n
        invariant
            1 <= i <= n,
            n == thresholds@.len(),
            forall|a: int, b: int| 0 <= a <= b < i ==> thresholds@[a] <= thresholds@[b],
        decreases n - i,
    {
        if thresholds[i] < thresholds[i - 1] {
            return false;
        }
        proof {
            assert forall|a: int, b: int| 0 <= a <= b < i + 1 implies thresholds@[a] <= thresholds@[b] by {
                if b == i && a < i {
                    assert(thresholds@[a] <= thresholds@[i - 1]);
                }
            }
        }
        i = i + 1;
    }
    true
}

} // verus!
