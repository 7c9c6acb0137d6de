//! The per-tick decision of the governor loop: combine the table's cap
//! decision with the post-descent cooldown gate, and record the sample.

use vstd::prelude::*;
use crate::stats::TuneStats;
use crate::table::ThermalTable;

verus! {

/// Ticks of suppressed ascent after a step-down.
pub const COOLDOWN_TICKS: u32 = 3;

/// The cap to apply and the cooldown counter after one tick: an ascent
/// wished for during cooldown is held back and spends one cooldown tick;
/// an adopted descent rearms the cooldown.
pub open spec fn tick_spec(t: ThermalTable, temp: i32, current_cap: u64, cooldown: u32) -> (
    u64,
    u32,
) {
    let raw_target = t.target_cap_spec(temp, current_cap);
    if raw_target > current_cap && cooldown > 0 {
        (current_cap, (cooldown - 1) as u32)
    } else {
        (raw_target, if raw_target < current_cap {
            COOLDOWN_TICKS
        } else {
            cooldown
        })
    }
}

/// The cooldown dynamics: a tick that wishes to ascend while the
/// cooldown is armed holds the cap and spends one cooldown tick — so a
/// descent's armed cooldown of three yields exactly three held ticks —
/// and once it is spent the next such tick adopts the ascent. A tick
/// that wishes to descend or hold is never gated, and an adopted descent
/// arms the cooldown again.
pub proof fn lemma_cooldown_dynamics(t: ThermalTable, temp: i32, current_cap: u64, cooldown: u32)
    ensures
        t.target_cap_spec(temp, current_cap) > current_cap && cooldown > 0 ==> tick_spec(
            t,
            temp,
            current_cap,
            cooldown,
        ) == (current_cap, (cooldown - 1) as u32),
        t.target_cap_spec(temp, current_cap) > current_cap && cooldown == 0 ==> tick_spec(
            t,
            temp,
            current_cap,
            cooldown,
        ) == (t.target_cap_spec(temp, current_cap), 0u32),
        t.target_cap_spec(temp, current_cap) <= current_cap ==> tick_spec(
            t,
            temp,
            current_cap,
            cooldown,
        ).0 == t.target_cap_spec(temp, current_cap),
        t.target_cap_spec(temp, current_cap) < current_cap ==> tick_spec(
            t,
            temp,
            current_cap,
            cooldown,
        ).1 == COOLDOWN_TICKS,
{
}

/// One governor tick: decide the new cap from the temperature and the
/// cooldown gate, and record the sample into the tune window using the
/// pre-change cap and the table's lowest rung. Returns the cap to apply
/// and the new cooldown counter; the caller writes the cap out only when
/// it differs from the one in force.
pub fn governor_tick(
    t: &ThermalTable,
    temp: i32,
    fan_rpm: u32,
    current_cap: u64,
    cooldown: u32,
    stats: &mut TuneStats,
) -> (r: (u64, u32))
    requires
        old(stats).wf(),
        old(stats).samples < u32::MAX,
    ensures
        r == tick_spec(*t, temp, current_cap, cooldown),
        final(stats).wf(),
        final(stats).samples == old(stats).samples + 1,
        final(stats).temp_sum == old(stats).temp_sum + temp,
        final(stats).max_temp == if temp > old(stats).max_temp {
            temp
        } else {
            old(stats).max_temp
        },
        final(stats).fan_active == old(stats).fan_active + if fan_rpm > 100 {
            1int
        } else {
            0int
        },
        final(stats).at_lowest == old(stats).at_lowest + if current_cap == t.caps[3] {
            1int
        } else {
            0int
        },
{
    let raw_target = t.target_cap(temp, current_cap);
    let lowest = t.lowest_cap();

    let (new_cap, new_cooldown): (u64, u32) = if raw_target > current_cap && cooldown > 0 {
        (current_cap, cooldown - 1)
    } else {
        (raw_target, if raw_target < current_cap {
            COOLDOWN_TICKS
        } else {
            cooldown
        })
    };

    stats.record(temp, fan_rpm, current_cap, lowest);

    (new_cap, new_cooldown)
}

} // verus!
