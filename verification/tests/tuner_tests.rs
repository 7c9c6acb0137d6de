use thermal_governor::profile::Profile;
use thermal_governor::state::State;
use thermal_governor::stats::TuneStats;
use thermal_governor::table::MIN_CAP;
use thermal_governor::tuner::auto_tune;

fn window(samples: u32, fan_active: u32, max_temp: i32, avg_temp: i64, at_lowest: u32) -> TuneStats {
    TuneStats {
        samples,
        fan_active,
        max_temp,
        temp_sum: avg_temp * samples as i64,
        at_lowest,
    }
}

#[test]
fn quiet_loaded_window_raises_power_saver_cap() {
    let mut state = State::default();
    let stats = window(60, 0, 56, 49, 0);
    auto_tune(Profile::PowerSaver, &stats, &mut state);
    assert_eq!(state.power_saver.max_cap, 3_100_000);
    assert_eq!(
        state.power_saver.caps,
        [2_500_000, 2_000_000, 1_500_000, 1_200_000]
    );
    assert_eq!(state.power_saver.thresholds, [50, 55, 58, 62]);
}

#[test]
fn short_window_is_ignored() {
    let mut state = State::default();
    let stats = window(9, 9, 99, 90, 9);
    auto_tune(Profile::PowerSaver, &stats, &mut state);
    assert_eq!(state, State::default());
}

#[test]
fn chronic_fan_lowers_every_rung() {
    let mut state = State::default();
    // 15 of 60 samples with fan: 25%.
    let stats = window(60, 15, 52, 48, 0);
    auto_tune(Profile::PowerSaver, &stats, &mut state);
    assert_eq!(state.power_saver.max_cap, 2_900_000);
    // The lowest rung was already at the floor and stays there.
    assert_eq!(
        state.power_saver.caps,
        [2_400_000, 1_900_000, 1_400_000, MIN_CAP]
    );
}

#[test]
fn fan_blip_tightens_first_threshold() {
    let mut state = State::default();
    // 1 of 60 samples with fan: 1%.
    let stats = window(60, 1, 52, 48, 0);
    auto_tune(Profile::PowerSaver, &stats, &mut state);
    assert_eq!(state.power_saver.thresholds, [49, 55, 58, 62]);
    assert_eq!(state.power_saver.max_cap, 3_000_000);
}

#[test]
fn first_threshold_never_leaves_its_band() {
    let mut state = State::default();
    state.power_saver.thresholds[0] = 40;
    let stats = window(60, 1, 52, 48, 0);
    auto_tune(Profile::PowerSaver, &stats, &mut state);
    assert_eq!(state.power_saver.thresholds[0], 40);
}

#[test]
fn balanced_headroom_raises_top_of_ladder() {
    let mut state = State::default();
    // Peak 72 < thresholds[2] - 5 = 73, never on the bottom rail.
    let stats = window(60, 0, 72, 60, 0);
    auto_tune(Profile::Balanced, &stats, &mut state);
    assert_eq!(state.balanced.max_cap, 4_100_000);
    assert_eq!(
        state.balanced.caps,
        [3_600_000, 3_000_000, 2_500_000, 2_000_000]
    );
}

#[test]
fn balanced_hot_window_lowers_top_of_ladder() {
    let mut state = State::default();
    let stats = window(60, 30, 84, 70, 10);
    auto_tune(Profile::Balanced, &stats, &mut state);
    assert_eq!(state.balanced.max_cap, 3_900_000);
    assert_eq!(
        state.balanced.caps,
        [3_400_000, 3_000_000, 2_500_000, 2_000_000]
    );
}

#[test]
fn balanced_bottom_rail_residency_blocks_raise() {
    let mut state = State::default();
    let stats = window(60, 0, 72, 60, 1);
    auto_tune(Profile::Balanced, &stats, &mut state);
    assert_eq!(state, State::default());
}

#[test]
fn performance_danger_response() {
    let mut state = State::default();
    let stats = window(60, 60, 96, 90, 0);
    auto_tune(Profile::Performance, &stats, &mut state);
    assert_eq!(state.performance.max_cap, 4_300_000);
    assert_eq!(
        state.performance.caps,
        [3_600_000, 3_100_000, 2_800_000, 2_200_000]
    );
}

#[test]
fn performance_warm_window_lowers_top() {
    let mut state = State::default();
    // Above thresholds[2] = 92 but not above 95.
    let stats = window(60, 60, 93, 85, 0);
    auto_tune(Profile::Performance, &stats, &mut state);
    assert_eq!(state.performance.max_cap, 4_400_000);
    assert_eq!(
        state.performance.caps,
        [3_700_000, 3_200_000, 2_800_000, 2_200_000]
    );
}

#[test]
fn performance_headroom_is_capped_by_ceiling() {
    let mut state = State::default();
    // Peak 88 < thresholds[2] - 3 = 89; max_cap already at the ceiling.
    let stats = window(60, 0, 88, 70, 0);
    auto_tune(Profile::Performance, &stats, &mut state);
    assert_eq!(state.performance.max_cap, 4_500_000);
    assert_eq!(
        state.performance.caps,
        [3_900_000, 3_200_000, 2_800_000, 2_200_000]
    );
}

#[test]
fn tuning_one_profile_leaves_the_others() {
    let mut state = State::default();
    let stats = window(60, 60, 96, 90, 0);
    auto_tune(Profile::Performance, &stats, &mut state);
    assert_eq!(state.power_saver, State::default().power_saver);
    assert_eq!(state.balanced, State::default().balanced);
}
