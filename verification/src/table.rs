//! The thermal table: a ladder of five frequency caps gated by four
//! temperature thresholds, with hysteretic single-rung ascent and
//! unbounded immediate descent.

use vstd::prelude::*;

verus! {

/// Absolute floor for any cap, in kHz.
pub const MIN_CAP: u64 = 1_200_000;

/// Absolute ceiling for any cap, in kHz.
pub const MAX_CAP: u64 = 4_500_000;

/// Minimum gap between adjacent ladder rungs, in kHz.
pub const MIN_SPREAD: u64 = 200_000;

/// Tuner adjustment granularity, in kHz.
pub const FREQ_STEP: u64 = 100_000;

/// Clamp of a frequency into the absolute `[MIN_CAP, MAX_CAP]` band.
pub open spec fn clamp_freq_spec(f: u64) -> u64 {
    if f < MIN_CAP {
        MIN_CAP
    } else if f > MAX_CAP {
        MAX_CAP
    } else {
        f
    }
}

/// A per-profile cap ladder. `max_cap` applies below all thresholds;
/// `caps[i]` applies once the temperature exceeds `thresholds[i]`.
#[derive(Debug, Clone, Copy, PartialEq, Eq)]
#[verifier::ext_equal]
pub struct ThermalTable {
    /// Cap when below all thresholds (full power for this profile), kHz.
    pub max_cap: u64,
    /// Temperature thresholds in degrees C, ascending by convention.
    pub thresholds: [i32; 4],
    /// Frequency caps in kHz, descending, one per threshold.
    pub caps: [u64; 4],
    /// Margin in degrees C subtracted from a threshold before ascent.
    pub hysteresis: i32,
}

impl ThermalTable {
    /// The ladder rung at `i`: rung 0 is `max_cap`, rungs 1 to 4 are the caps.
    pub open spec fn level_at(self, i: int) -> u64 {
        if i <= 0 {
            self.max_cap
        } else {
            self.caps[i - 1]
        }
    }

    /// The deepest level whose threshold the temperature strictly exceeds.
    pub open spec fn target_level_spec(self, temp: i32) -> int {
        if temp > self.thresholds[3] {
            4
        } else if temp > self.thresholds[2] {
            3
        } else if temp > self.thresholds[1] {
            2
        } else if temp > self.thresholds[0] {
            1
        } else {
            0
        }
    }

    /// The smallest level index whose rung the current cap reaches.
    pub open spec fn current_level_spec(self, current_cap: u64) -> int {
        if current_cap >= self.max_cap {
            0
        } else if current_cap >= self.caps[0] {
            1
        } else if current_cap >= self.caps[1] {
            2
        } else if current_cap >= self.caps[2] {
            3
        } else {
            4
        }
    }

    /// The cap decision: immediate descent to the level the temperature
    /// demands; otherwise at most one rung of ascent, gated by hysteresis;
    /// otherwise hold.
    pub open spec fn target_cap_spec(self, temp: i32, current_cap: u64) -> u64 {
        let down_cap = self.level_at(self.target_level_spec(temp));
        if down_cap < current_cap {
            down_cap
        } else {
            let cur_level = self.current_level_spec(current_cap);
            if cur_level > 0 && (temp as int) < self.thresholds[cur_level - 1] - self.hysteresis {
                self.level_at(cur_level - 1)
            } else {
                current_cap
            }
        }
    }

    /// All cap levels ordered from highest to lowest.
    pub fn all_levels(&self) -> (r: [u64; 5])
        ensures
            forall|i: int| 0 <= i < 5 ==> r[i] == self.level_at(i),
    {
        [self.max_cap, self.caps[0], self.caps[1], self.caps[2], self.caps[3]]
    }

    /// Find which level index (0 to 4) the current cap is at or closest below.
    pub fn current_level(&self, current_cap: u64) -> (r: usize)
        ensures
            r as int == self.current_level_spec(current_cap),
    {
        if current_cap >= self.max_cap {
            0
        } else if current_cap >= self.caps[0] {
            1
        } else if current_cap >= self.caps[1] {
            2
        } else if current_cap >= self.caps[2] {
            3
        } else {
            4
        }
    }

    /// Compute the target cap for a temperature reading and the cap in force.
    /// Step-down is immediate; step-up is one rung at a time with hysteresis.
    pub fn target_cap(&self, temp: i32, current_cap: u64) -> (r: u64)
        ensures
            r == self.target_cap_spec(temp, current_cap),
    {
        let down_cap: u64 = if temp > self.thresholds[3] {
            self.caps[3]
        } else if temp > self.thresholds[2] {
            self.caps[2]
        } else if temp > self.thresholds[1] {
            self.caps[1]
        } else if temp > self.thresholds[0] {
            self.caps[0]
        } else {
            self.max_cap
        };
        if down_cap < current_cap {
            return down_cap;
        }
        let cur_level = self.current_level(current_cap);
        if cur_level > 0 {
            let up_thresh: i64 = self.thresholds[cur_level - 1] as i64 - self.hysteresis as i64;
            if (temp as i64) < up_thresh {
                let levels = self.all_levels();
                return levels[cur_level - 1];
            }
        }
        current_cap
    }

    /// The lowest rung of the ladder.
    pub fn lowest_cap(&self) -> (r: u64)
        ensures
            r == self.caps[3],
    {
        self.caps[3]
    }

    /// The largest value the rung below `prev` may take: `prev` less the
    /// minimum spread, or the floor once `prev` is already near the floor.
    pub open spec fn upper_for(prev: u64) -> u64 {
        if prev > MIN_CAP + MIN_SPREAD {
            (prev - MIN_SPREAD) as u64
        } else {
            MIN_CAP
        }
    }

    /// One sweep step of invariant enforcement: clamp a cap below its
    /// predecessor's allowance and above the absolute floor.
    pub open spec fn clamp_step(prev: u64, c: u64) -> u64 {
        let upper = Self::upper_for(prev);
        if c > upper {
            upper
        } else if c < MIN_CAP {
            MIN_CAP
        } else {
            c
        }
    }

    /// A cap respects its predecessor: at or above the floor, and at or
    /// below the predecessor's allowance.
    pub open spec fn in_step(prev: u64, c: u64) -> bool {
        MIN_CAP <= c && c <= Self::upper_for(prev)
    }

    /// The table invariant on caps: `max_cap` within `[MIN_CAP, ceiling]`
    /// and each rung within its predecessor's allowance.
    pub open spec fn caps_valid(self, ceiling: u64) -> bool {
        &&& MIN_CAP <= self.max_cap <= ceiling
        &&& Self::in_step(self.max_cap, self.caps[0])
        &&& Self::in_step(self.caps[0], self.caps[1])
        &&& Self::in_step(self.caps[1], self.caps[2])
        &&& Self::in_step(self.caps[2], self.caps[3])
    }

    /// The table after one enforcement sweep: `max_cap` clamped to
    /// `[MIN_CAP, ceiling]`, then each cap clamped under its predecessor.
    pub open spec fn enforced(self, ceiling: u64) -> ThermalTable {
        let m: u64 = if self.max_cap < MIN_CAP {
            MIN_CAP
        } else if self.max_cap > ceiling {
            ceiling
        } else {
            self.max_cap
        };
        let c0 = Self::clamp_step(m, self.caps[0]);
        let c1 = Self::clamp_step(c0, self.caps[1]);
        let c2 = Self::clamp_step(c1, self.caps[2]);
        let c3 = Self::clamp_step(c2, self.caps[3]);
        ThermalTable { max_cap: m, caps: [c0, c1, c2, c3], ..self }
    }

    /// Clamp `max_cap` to the profile ceiling, then sweep the caps left to
    /// right so the ladder descends with at least the minimum spread,
    /// never below the absolute floor. Thresholds and hysteresis are kept.
    pub fn enforce_invariants(&mut self, ceiling: u64)
        requires
            MIN_CAP <= ceiling,
        ensures
            *final(self) == old(self).enforced(ceiling),
            final(self).caps_valid(ceiling),
    {
        let m: u64 = if self.max_cap < MIN_CAP {
            MIN_CAP
        } else if self.max_cap > ceiling {
            ceiling
        } else {
            self.max_cap
        };
        let c0 = Self::clamp_step_exec(m, self.caps[0]);
        let c1 = Self::clamp_step_exec(c0, self.caps[1]);
        let c2 = Self::clamp_step_exec(c1, self.caps[2]);
        let c3 = Self::clamp_step_exec(c2, self.caps[3]);
        self.max_cap = m;
        self.caps = [c0, c1, c2, c3];
        proof {
            assert(*self =~= old(self).enforced(ceiling));
        }
    }

    /// One executable sweep step, matching `clamp_step`.
    fn clamp_step_exec(prev: u64, c: u64) -> (r: u64)
        ensures
            r == Self::clamp_step(prev, c),
            Self::in_step(prev, r),
    {
        let upper: u64 = if prev > MIN_CAP + MIN_SPREAD {
            prev - MIN_SPREAD
        } else {
            MIN_CAP
        };
        if c > upper {
            upper
        } else if c < MIN_CAP {
            MIN_CAP
        } else {
            c
        }
    }

    /// Default ladder for the power-saver profile.
    pub fn power_saver() -> (r: Self)
        ensures
            r == Self::power_saver_spec(),
    {
        Self {
            max_cap: 3_000_000,
            thresholds: [50, 55, 58, 62],
            caps: [2_500_000, 2_000_000, 1_500_000, 1_200_000],
            hysteresis: 2,
        }
    }

    /// The power-saver default ladder.
    pub open spec fn power_saver_spec() -> Self {
        ThermalTable {
            max_cap: 3_000_000,
            thresholds: [50, 55, 58, 62],
            caps: [2_500_000, 2_000_000, 1_500_000, 1_200_000],
            hysteresis: 2,
        }
    }

    /// Default ladder for the balanced profile.
    pub fn balanced() -> (r: Self)
        ensures
            r == Self::balanced_spec(),
    {
        Self {
            max_cap: 4_000_000,
            thresholds: [65, 72, 78, 83],
            caps: [3_500_000, 3_000_000, 2_500_000, 2_000_000],
            hysteresis: 5,
        }
    }

    /// The balanced default ladder.
    pub open spec fn balanced_spec() -> Self {
        ThermalTable {
            max_cap: 4_000_000,
            thresholds: [65, 72, 78, 83],
            caps: [3_500_000, 3_000_000, 2_500_000, 2_000_000],
            hysteresis: 5,
        }
    }

    /// Default ladder for the performance profile.
    pub fn performance() -> (r: Self)
        ensures
            r == Self::performance_spec(),
    {
        Self {
            max_cap: 4_500_000,
            thresholds: [75, 85, 92, 95],
            caps: [3_800_000, 3_200_000, 2_800_000, 2_200_000],
            hysteresis: 5,
        }
    }

    /// The performance default ladder.
    pub open spec fn performance_spec() -> Self {
        ThermalTable {
            max_cap: 4_500_000,
            thresholds: [75, 85, 92, 95],
            caps: [3_800_000, 3_200_000, 2_800_000, 2_200_000],
            hysteresis: 5,
        }
    }
}

/// The ladder descends: each rung is at least the floor, at most its
/// predecessor, and sits at least the minimum spread below any predecessor
/// that is itself above `MIN_CAP + MIN_SPREAD`; `max_cap` stays under the
/// ceiling.
pub proof fn lemma_ladder_shape(t: ThermalTable, ceiling: u64)
    requires
        t.caps_valid(ceiling),
    ensures
        MIN_CAP <= t.caps[3] <= t.caps[2] <= t.caps[1] <= t.caps[0] <= t.max_cap <= ceiling,
        t.max_cap > MIN_CAP + MIN_SPREAD ==> t.caps[0] + MIN_SPREAD <= t.max_cap,
        t.caps[0] > MIN_CAP + MIN_SPREAD ==> t.caps[1] + MIN_SPREAD <= t.caps[0],
        t.caps[1] > MIN_CAP + MIN_SPREAD ==> t.caps[2] + MIN_SPREAD <= t.caps[1],
        t.caps[2] > MIN_CAP + MIN_SPREAD ==> t.caps[3] + MIN_SPREAD <= t.caps[2],
{
}

/// Thresholds ascend and the hysteresis margin is non-negative. Every
/// default ladder has this shape; the ascent laws below rely on it.
pub open spec fn thresholds_ordered(t: ThermalTable) -> bool {
    &&& t.thresholds[0] <= t.thresholds[1] <= t.thresholds[2] <= t.thresholds[3]
    &&& t.hysteresis >= 0
}

/// Descent dominates: with the ladder descending, a hotter reading never
/// yields a higher target than a cooler one, at any fixed current cap.
pub proof fn lemma_target_monotone_in_temp(t: ThermalTable, temp1: i32, temp2: i32, current_cap: u64)
    requires
        t.caps[3] <= t.caps[2] <= t.caps[1] <= t.caps[0] <= t.max_cap,
        temp1 <= temp2,
    ensures
        t.target_cap_spec(temp1, current_cap) >= t.target_cap_spec(temp2, current_cap),
{
}

/// Step-down is unbounded: above the last threshold the target is the
/// lowest rung, whatever cap was in force, provided the cap in force is
/// itself no lower than the lowest rung.
pub proof fn lemma_step_down_unbounded(t: ThermalTable, temp: i32, current_cap: u64, ceiling: u64)
    requires
        t.caps_valid(ceiling),
        thresholds_ordered(t),
        temp > t.thresholds[3],
        current_cap >= t.caps[3],
    ensures
        t.target_cap_spec(temp, current_cap) == t.caps[3],
{
}

/// Ascent is single-rung: whenever the decision exceeds the cap in force,
/// it is exactly the rung above the current level.
pub proof fn lemma_single_rung_ascent(t: ThermalTable, temp: i32, current_cap: u64)
    ensures
        t.target_cap_spec(temp, current_cap) > current_cap ==> {
            let cur_level = t.current_level_spec(current_cap);
            cur_level >= 1 && t.target_cap_spec(temp, current_cap) == t.level_at(cur_level - 1)
        },
{
}

/// Hold under hysteresis: inside the margin below the threshold that
/// gates the current level, the decision keeps the cap in force.
pub proof fn lemma_hold_under_hysteresis(t: ThermalTable, temp: i32, current_cap: u64, ceiling: u64)
    requires
        t.caps_valid(ceiling),
        thresholds_ordered(t),
        t.current_level_spec(current_cap) >= 1,
        t.thresholds[t.current_level_spec(current_cap) - 1] - t.hysteresis <= temp as int,
        temp as int <= t.thresholds[t.current_level_spec(current_cap) - 1],
    ensures
        t.target_cap_spec(temp, current_cap) == current_cap,
{
}

/// Enforcement is idempotent: on a table already satisfying the cap
/// invariant — as any table just enforced does — the sweep changes
/// nothing, so enforcing twice equals enforcing once.
pub proof fn lemma_enforce_idempotent(t: ThermalTable, ceiling: u64)
    requires
        MIN_CAP <= ceiling,
        t.caps_valid(ceiling),
    ensures
        t.enforced(ceiling) == t,
{
    assert(t.enforced(ceiling) =~= t);
}

} // verus!
