use thermal_governor::table::{ThermalTable, MAX_CAP, MIN_CAP};
use thermal_governor::clamp_freq;

fn balanced_at(cap: u64) -> (ThermalTable, u64) {
    (ThermalTable::balanced(), cap)
}

#[test]
fn defaults_power_saver() {
    let t = ThermalTable::power_saver();
    assert_eq!(t.max_cap, 3_000_000);
    assert_eq!(t.thresholds, [50, 55, 58, 62]);
    assert_eq!(t.caps, [2_500_000, 2_000_000, 1_500_000, 1_200_000]);
    assert_eq!(t.hysteresis, 2);
}

#[test]
fn defaults_balanced() {
    let t = ThermalTable::balanced();
    assert_eq!(t.max_cap, 4_000_000);
    assert_eq!(t.thresholds, [65, 72, 78, 83]);
    assert_eq!(t.caps, [3_500_000, 3_000_000, 2_500_000, 2_000_000]);
    assert_eq!(t.hysteresis, 5);
}

#[test]
fn defaults_performance() {
    let t = ThermalTable::performance();
    assert_eq!(t.max_cap, 4_500_000);
    assert_eq!(t.thresholds, [75, 85, 92, 95]);
    assert_eq!(t.caps, [3_800_000, 3_200_000, 2_800_000, 2_200_000]);
    assert_eq!(t.hysteresis, 5);
}

#[test]
fn hold_below_all_thresholds() {
    let (t, cap) = balanced_at(4_000_000);
    assert_eq!(t.target_cap(60, cap), 4_000_000);
}

#[test]
fn deep_descent_in_one_tick() {
    let (t, cap) = balanced_at(4_000_000);
    assert_eq!(t.target_cap(79, cap), 2_500_000);
}

#[test]
fn hysteresis_blocks_ascent() {
    let (t, cap) = balanced_at(2_500_000);
    // 2_500_000 sits at level 3, whose gate is thresholds[2] = 78; the
    // ascent needs the temperature below 78 - 5 = 73.
    assert_eq!(t.target_cap(74, cap), 2_500_000);
    assert_eq!(t.target_cap(73, cap), 2_500_000);
    assert_eq!(t.target_cap(72, cap), 3_000_000);
}

#[test]
fn ascend_exactly_one_rung() {
    let (t, cap) = balanced_at(2_500_000);
    assert_eq!(t.target_cap(59, cap), 3_000_000);
    // Still one rung only, even well inside the ascent band.
    assert_eq!(t.target_cap(66, cap), 3_000_000);
}

#[test]
fn descent_never_hysteretic() {
    let t = ThermalTable::balanced();
    // One degree above a threshold steps down immediately.
    assert_eq!(t.target_cap(66, 4_000_000), 3_500_000);
    // A tie with the threshold does not.
    assert_eq!(t.target_cap(65, 4_000_000), 4_000_000);
}

#[test]
fn step_down_unbounded_from_top() {
    let t = ThermalTable::performance();
    assert_eq!(t.target_cap(96, 4_500_000), 2_200_000);
    assert_eq!(t.target_cap(96, 2_200_000), 2_200_000);
}

#[test]
fn current_level_indexing() {
    let t = ThermalTable::balanced();
    assert_eq!(t.current_level(4_000_000), 0);
    assert_eq!(t.current_level(4_200_000), 0);
    assert_eq!(t.current_level(3_500_000), 1);
    assert_eq!(t.current_level(2_100_000), 4);
    assert_eq!(t.current_level(1_000_000), 4);
}

#[test]
fn all_levels_and_lowest() {
    let t = ThermalTable::balanced();
    assert_eq!(
        t.all_levels(),
        [4_000_000, 3_500_000, 3_000_000, 2_500_000, 2_000_000]
    );
    assert_eq!(t.lowest_cap(), 2_000_000);
}

#[test]
fn enforce_restores_spread() {
    let mut t = ThermalTable::balanced();
    // Push caps[0] above max_cap; the sweep pulls it back under.
    t.caps[0] = 4_100_000;
    t.enforce_invariants(4_500_000);
    assert_eq!(t.max_cap, 4_000_000);
    assert_eq!(t.caps, [3_800_000, 3_000_000, 2_500_000, 2_000_000]);
}

#[test]
fn enforce_clamps_to_ceiling_and_floor() {
    let mut t = ThermalTable::power_saver();
    t.max_cap = 4_000_000;
    t.enforce_invariants(3_500_000);
    assert_eq!(t.max_cap, 3_500_000);

    let mut low = ThermalTable::power_saver();
    low.max_cap = 500_000;
    low.caps = [400_000, 300_000, 200_000, 100_000];
    low.enforce_invariants(3_500_000);
    assert_eq!(low.max_cap, MIN_CAP);
    assert_eq!(low.caps, [MIN_CAP, MIN_CAP, MIN_CAP, MIN_CAP]);
}

#[test]
fn enforce_is_idempotent() {
    let mut t = ThermalTable::balanced();
    t.max_cap = 4_700_000;
    t.caps = [4_600_000, 1_000_000, 2_900_000, 2_950_000];
    t.enforce_invariants(4_500_000);
    let once = t;
    t.enforce_invariants(4_500_000);
    assert_eq!(t, once);
}

#[test]
fn enforce_keeps_thresholds() {
    let mut t = ThermalTable::performance();
    t.max_cap = 9_000_000;
    t.enforce_invariants(4_500_000);
    assert_eq!(t.thresholds, [75, 85, 92, 95]);
    assert_eq!(t.hysteresis, 5);
}

#[test]
fn clamp_freq_band() {
    assert_eq!(clamp_freq(0), MIN_CAP);
    assert_eq!(clamp_freq(MIN_CAP), MIN_CAP);
    assert_eq!(clamp_freq(2_345_678), 2_345_678);
    assert_eq!(clamp_freq(MAX_CAP), MAX_CAP);
    assert_eq!(clamp_freq(u64::MAX), MAX_CAP);
}
