//! The auto-tuner: once per tune window it nudges the active profile's
//! ladder from the window's statistics, then re-enforces the ladder
//! invariant.

use vstd::prelude::*;
use crate::profile::Profile;
use crate::stats::TuneStats;
use crate::state::State;
use crate::table::{ThermalTable, clamp_freq_spec, FREQ_STEP, MIN_CAP};

verus! {

/// The tuner acts only on windows with at least this many samples.
pub const TUNE_MIN_SAMPLES: u32 = 10;

/// A cap raised by one tuner step, saturating, then clamped into the
/// absolute band.
pub open spec fn step_up_spec(c: u64) -> u64 {
    clamp_freq_spec(
        if c + FREQ_STEP > u64::MAX {
            u64::MAX
        } else {
            (c + FREQ_STEP) as u64
        },
    )
}

/// A cap lowered by `amt`, saturating at zero, then clamped into the
/// absolute band.
pub open spec fn step_down_spec(c: u64, amt: u64) -> u64 {
    clamp_freq_spec(
        if c >= amt {
            (c - amt) as u64
        } else {
            0
        },
    )
}

/// The first threshold lowered by one degree, kept inside `[40, 55]`.
pub open spec fn tightened_thresh_spec(th: i32) -> i32 {
    let d = th - 1;
    if d < 40 {
        40
    } else if d > 55 {
        55
    } else {
        d as i32
    }
}

/// The ladder after the per-profile heuristic, before enforcement.
///
/// Power-saver favours silence: reward a quiet loaded window by raising
/// `max_cap`; punish chronic fan activity by lowering every rung; tighten
/// the first threshold on occasional fan blips. Balanced and performance
/// raise or lower the top of the ladder from the window's peak
/// temperature, performance with a two-step emergency response above 95.
pub open spec fn adjusted_spec(p: Profile, st: TuneStats, t: ThermalTable) -> ThermalTable {
    let maxt = st.max_temp;
    let fan = st.fan_pct_spec();
    let low = st.lowest_pct_spec();
    let avg = st.avg_temp_spec();
    match p {
        Profile::PowerSaver => {
            if fan == 0 && maxt < t.thresholds[2] && avg >= 48 {
                ThermalTable { max_cap: step_up_spec(t.max_cap), ..t }
            } else if fan > 20 {
                ThermalTable {
                    max_cap: step_down_spec(t.max_cap, FREQ_STEP),
                    caps: [
                        step_down_spec(t.caps[0], FREQ_STEP),
                        step_down_spec(t.caps[1], FREQ_STEP),
                        step_down_spec(t.caps[2], FREQ_STEP),
                        step_down_spec(t.caps[3], FREQ_STEP),
                    ],
                    ..t
                }
            } else if fan > 0 {
                ThermalTable {
                    thresholds: [
                        tightened_thresh_spec(t.thresholds[0]),
                        t.thresholds[1],
                        t.thresholds[2],
                        t.thresholds[3],
                    ],
                    ..t
                }
            } else {
                t
            }
        },
        Profile::Balanced => {
            if maxt < t.thresholds[2] - 5 && low == 0 {
                ThermalTable {
                    max_cap: step_up_spec(t.max_cap),
                    caps: [step_up_spec(t.caps[0]), t.caps[1], t.caps[2], t.caps[3]],
                    ..t
                }
            } else if maxt > t.thresholds[3] {
                ThermalTable {
                    max_cap: step_down_spec(t.max_cap, FREQ_STEP),
                    caps: [step_down_spec(t.caps[0], FREQ_STEP), t.caps[1], t.caps[2], t.caps[3]],
                    ..t
                }
            } else {
                t
            }
        },
        Profile::Performance => {
            if maxt < t.thresholds[2] - 3 && low == 0 {
                ThermalTable {
                    max_cap: step_up_spec(t.max_cap),
                    caps: [step_up_spec(t.caps[0]), t.caps[1], t.caps[2], t.caps[3]],
                    ..t
                }
            } else if maxt > 95 {
                ThermalTable {
                    max_cap: step_down_spec(t.max_cap, (2 * FREQ_STEP) as u64),
                    caps: [
                        step_down_spec(t.caps[0], (2 * FREQ_STEP) as u64),
                        step_down_spec(t.caps[1], FREQ_STEP),
                        t.caps[2],
                        t.caps[3],
                    ],
                    ..t
                }
            } else if maxt > t.thresholds[2] {
                ThermalTable {
                    max_cap: step_down_spec(t.max_cap, FREQ_STEP),
                    caps: [step_down_spec(t.caps[0], FREQ_STEP), t.caps[1], t.caps[2], t.caps[3]],
                    ..t
                }
            } else {
                t
            }
        },
    }
}

/// The whole tuner action: below the sample floor nothing changes; else
/// the active profile's ladder is adjusted and re-enforced, the others
/// are untouched.
pub open spec fn auto_tune_spec(p: Profile, st: TuneStats, s: State) -> State {
    if st.samples < TUNE_MIN_SAMPLES {
        s
    } else {
        s.with_table(p, adjusted_spec(p, st, s.table_spec(p)).enforced(p.ceiling_spec()))
    }
}

/// A cap raised by one tuner step.
fn step_up(c: u64) -> (r: u64)
    ensures
        r == step_up_spec(c),
{
    let s: u64 = if c > u64::MAX - FREQ_STEP {
        u64::MAX
    } else {
        c + FREQ_STEP
    };
    crate::clamp_freq(s)
}

/// A cap lowered by `amt` tuner steps' worth of kHz.
fn step_down(c: u64, amt: u64) -> (r: u64)
    ensures
        r == step_down_spec(c, amt),
{
    let s: u64 = if c >= amt {
        c - amt
    } else {
        0
    };
    crate::clamp_freq(s)
}

/// Adjust the active profile's ladder from one window of statistics,
/// then enforce the ladder invariant on it. Windows with fewer than
/// `TUNE_MIN_SAMPLES` samples are ignored.
pub fn auto_tune(profile: Profile, stats: &TuneStats, state: &mut State)
    requires
        stats.wf(),
    ensures
        *final(state) == auto_tune_spec(profile, *stats, *old(state)),
        stats.samples >= TUNE_MIN_SAMPLES ==> final(state).table_spec(profile).caps_valid(
            profile.ceiling_spec(),
        ),
{
    if stats.samples < TUNE_MIN_SAMPLES {
        return;
    }

    let maxt = stats.max_temp;
    let fan_pct = stats.fan_pct();
    let lowest_pct = stats.lowest_pct();
    let avg = stats.avg_temp();

    let mut t = *state.table(profile);

    match profile {
        Profile::PowerSaver => {
            if fan_pct == 0 && maxt < t.thresholds[2] && avg >= 48 {
                t.max_cap = step_up(t.max_cap);
            } else if fan_pct > 20 {
                t.max_cap = step_down(t.max_cap, FREQ_STEP);
                t.caps = [
                    step_down(t.caps[0], FREQ_STEP),
                    step_down(t.caps[1], FREQ_STEP),
                    step_down(t.caps[2], FREQ_STEP),
                    step_down(t.caps[3], FREQ_STEP),
                ];
            } else if fan_pct > 0 {
                let d: i64 = t.thresholds[0] as i64 - 1;
                let tightened: i32 = if d < 40 {
                    40
                } else if d > 55 {
                    55
                } else {
                    d as i32
                };
                t.thresholds = [tightened, t.thresholds[1], t.thresholds[2], t.thresholds[3]];
            }
        },
        Profile::Balanced => {
            if (maxt as i64) < t.thresholds[2] as i64 - 5 && lowest_pct == 0 {
                t.max_cap = step_up(t.max_cap);
                t.caps = [step_up(t.caps[0]), t.caps[1], t.caps[2], t.caps[3]];
            } else if maxt > t.thresholds[3] {
                t.max_cap = step_down(t.max_cap, FREQ_STEP);
                t.caps = [step_down(t.caps[0], FREQ_STEP), t.caps[1], t.caps[2], t.caps[3]];
            }
        },
        Profile::Performance => {
            if (maxt as i64) < t.thresholds[2] as i64 - 3 && lowest_pct == 0 {
                t.max_cap = step_up(t.max_cap);
                t.caps = [step_up(t.caps[0]), t.caps[1], t.caps[2], t.caps[3]];
            } else if maxt > 95 {
                t.max_cap = step_down(t.max_cap, 2 * FREQ_STEP);
                t.caps = [
                    step_down(t.caps[0], 2 * FREQ_STEP),
                    step_down(t.caps[1], FREQ_STEP),
                    t.caps[2],
                    t.caps[3],
                ];
            } else if maxt > t.thresholds[2] {
                t.max_cap = step_down(t.max_cap, FREQ_STEP);
                t.caps = [step_down(t.caps[0], FREQ_STEP), t.caps[1], t.caps[2], t.caps[3]];
            }
        },
    }

    proof {
        assert(t =~= adjusted_spec(profile, *stats, old(state).table_spec(profile)));
    }

    let ceiling = profile.ceiling();
    assert(ceiling >= MIN_CAP);
    t.enforce_invariants(ceiling);
    *state.table_mut(profile) = t;
}

} // verus!
