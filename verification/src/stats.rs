//! Rolling statistics over one tune window: sample count, temperature sum
//! and peak, fan-activity count, and bottom-rail residency.

use vstd::prelude::*;
use vstd::arithmetic::div_mod::{lemma_div_is_ordered, lemma_div_by_multiple};

verus! {

/// Truncating integer division, the semantics of machine signed division.
pub open spec fn div_trunc(a: int, b: int) -> int {
    if a >= 0 {
        a / b
    } else {
        -((-a) / b)
    }
}

/// Accumulator over one tune window.
#[derive(Debug, Clone, Copy, PartialEq, Eq)]
pub struct TuneStats {
    /// Number of samples recorded.
    pub samples: u32,
    /// Samples during which a fan was spinning.
    pub fan_active: u32,
    /// Peak temperature seen, degrees C.
    pub max_temp: i32,
    /// Sum of all temperature samples, degrees C.
    pub temp_sum: i64,
    /// Samples during which the acting cap sat on the lowest rung.
    pub at_lowest: u32,
}

impl TuneStats {
    /// The window with nothing recorded.
    pub open spec fn fresh() -> TuneStats {
        TuneStats { samples: 0, fan_active: 0, max_temp: 0, temp_sum: 0, at_lowest: 0 }
    }

    /// Counters never exceed the sample count and the temperature sum is
    /// bounded by it; holds of the fresh window and is kept by `record`.
    pub open spec fn wf(self) -> bool {
        &&& self.fan_active <= self.samples
        &&& self.at_lowest <= self.samples
        &&& (self.samples as int) * (i32::MIN as int) <= self.temp_sum as int
        &&& self.temp_sum as int <= (self.samples as int) * (i32::MAX as int)
    }

    /// Record one poll: the temperature, whether a fan was spinning, and
    /// whether the acting cap sat on the lowest rung.
    pub fn record(&mut self, temp: i32, fan_rpm: u32, current_cap: u64, lowest_cap: u64)
        requires
            old(self).wf(),
            old(self).samples < u32::MAX,
        ensures
            final(self).wf(),
            final(self).samples == old(self).samples + 1,
            final(self).temp_sum == old(self).temp_sum + temp,
            final(self).max_temp == if temp > old(self).max_temp {
                temp
            } else {
                old(self).max_temp
            },
            final(self).fan_active == old(self).fan_active + if fan_rpm > 100 {
                1int
            } else {
                0int
            },
            final(self).at_lowest == old(self).at_lowest + if current_cap == lowest_cap {
                1int
            } else {
                0int
            },
    {
        self.samples += 1;
        self.temp_sum += temp as i64;
        if temp > self.max_temp {
            self.max_temp = temp;
        }
        if fan_rpm > 100 {
            self.fan_active += 1;
        }
        if current_cap == lowest_cap {
            self.at_lowest += 1;
        }
    }

    /// The mean recorded temperature, truncated toward zero; zero while
    /// the window is empty.
    pub open spec fn avg_temp_spec(self) -> int {
        if self.samples == 0 {
            0
        } else {
            div_trunc(self.temp_sum as int, self.samples as int)
        }
    }

    /// The mean recorded temperature.
    pub fn avg_temp(&self) -> (r: i32)
        requires
            self.wf(),
        ensures
            r as int == self.avg_temp_spec(),
    {
        if self.samples == 0 {
            0
        } else if self.temp_sum >= 0 {
            let q: u64 = self.temp_sum as u64 / self.samples as u64;
            proof {
                lemma_div_is_ordered(
                    self.temp_sum as int,
                    (self.samples as int) * (i32::MAX as int),
                    self.samples as int,
                );
                lemma_div_by_multiple(i32::MAX as int, self.samples as int);
            }
            q as i32
        } else {
            let neg: i64 = -self.temp_sum;
            let q: u64 = neg as u64 / self.samples as u64;
            proof {
                lemma_div_is_ordered(
                    neg as int,
                    (self.samples as int) * (0x8000_0000int),
                    self.samples as int,
                );
                lemma_div_by_multiple(0x8000_0000int, self.samples as int);
            }
            -(q as i64) as i32
        }
    }

    /// The percentage of samples with a fan spinning; zero while the
    /// window is empty.
    pub open spec fn fan_pct_spec(self) -> int {
        if self.samples == 0 {
            0
        } else {
            (self.fan_active as int) * 100 / (self.samples as int)
        }
    }

    /// The percentage of samples with a fan spinning.
    pub fn fan_pct(&self) -> (r: u32)
        requires
            self.wf(),
        ensures
            r as int == self.fan_pct_spec(),
            r <= 100,
    {
        if self.samples == 0 {
            0
        } else {
            let q: u64 = self.fan_active as u64 * 100 / self.samples as u64;
            proof {
                lemma_pct_bound(self.fan_active as int, self.samples as int);
            }
            q as u32
        }
    }

    /// The percentage of samples spent on the lowest rung; zero while the
    /// window is empty.
    pub open spec fn lowest_pct_spec(self) -> int {
        if self.samples == 0 {
            0
        } else {
            (self.at_lowest as int) * 100 / (self.samples as int)
        }
    }

    /// The percentage of samples spent on the lowest rung.
    pub fn lowest_pct(&self) -> (r: u32)
        requires
            self.wf(),
        ensures
            r as int == self.lowest_pct_spec(),
            r <= 100,
    {
        if self.samples == 0 {
            0
        } else {
            let q: u64 = self.at_lowest as u64 * 100 / self.samples as u64;
            proof {
                lemma_pct_bound(self.at_lowest as int, self.samples as int);
            }
            q as u32
        }
    }
}

/// A part never exceeds the whole: the percentage of a count within its
/// sample total is at most 100.
proof fn lemma_pct_bound(part: int, total: int)
    requires
        0 <= part <= total,
        0 < total,
    ensures
        0 <= part * 100 / total <= 100,
{
    lemma_div_is_ordered(0, part * 100, total);
    lemma_div_is_ordered(part * 100, total * 100, total);
    lemma_div_by_multiple(100, total);
}

impl Default for TuneStats {
    /// The window with nothing recorded.
    fn default() -> (r: Self)
        ensures
            r == TuneStats::fresh(),
    {
        TuneStats { samples: 0, fan_active: 0, max_temp: 0, temp_sum: 0, at_lowest: 0 }
    }
}

} // verus!
