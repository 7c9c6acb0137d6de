//! The computational side of the sensor/actuator surface: converting raw
//! sensor readings and recognising per-CPU control directories. The reads
//! and writes themselves live outside the library.

use vstd::prelude::*;
use vstd::string::StrSliceExecFns;
use crate::stats::div_trunc;

verus! {

/// A millicelsius reading reduced to whole degrees, truncated toward
/// zero and saturated at the bounds of `i32`.
pub open spec fn temp_from_millic_spec(raw: i64) -> int {
    let d = div_trunc(raw as int, 1000);
    if d < i32::MIN {
        i32::MIN as int
    } else if d > i32::MAX {
        i32::MAX as int
    } else {
        d
    }
}

/// Reduce a raw millicelsius sensor value to whole degrees C.
pub fn temp_from_millic(raw: i64) -> (r: i32)
    ensures
        r as int == temp_from_millic_spec(raw),
{
    if raw >= 0 {
        let q: u64 = raw as u64 / 1000;
        proof {
            vstd::arithmetic::div_mod::lemma_div_is_ordered(0, raw as int, 1000);
        }
        if q > i32::MAX as u64 {
            i32::MAX
        } else {
            q as i32
        }
    } else if raw <= -2_147_483_649_000i64 {
        proof {
            vstd::arithmetic::div_mod::lemma_div_is_ordered(
                2_147_483_649_000,
                -(raw as int),
                1000,
            );
            vstd::arithmetic::div_mod::lemma_div_by_multiple(2_147_483_649, 1000);
        }
        i32::MIN
    } else {
        let neg: u64 = (-raw) as u64;
        let q: u64 = neg / 1000;
        proof {
            vstd::arithmetic::div_mod::lemma_div_is_ordered(0, neg as int, 1000);
            vstd::arithmetic::div_mod::lemma_div_is_ordered(neg as int, 2_147_483_648_999, 1000);
            vstd::arithmetic::div_mod::lemma_fundamental_div_mod_converse(
                2_147_483_648_999,
                1000,
                2_147_483_648,
                999,
            );
        }
        -(q as i64) as i32
    }
}

/// A raw reading narrowed to its low 32 bits, the machine's truncating
/// cast.
pub open spec fn wrap_u32(x: i64) -> u32 {
    x as u32
}

/// Combine the two fan channels into one RPM figure: each raw reading
/// narrowed as the machine does, the larger kept.
pub fn fan_rpm_from(f1: i64, f2: i64) -> (r: u32)
    ensures
        r == if wrap_u32(f1) >= wrap_u32(f2) {
            wrap_u32(f1)
        } else {
            wrap_u32(f2)
        },
{
    let a: u32 = #[verifier::truncate] (f1 as u32);
    let b: u32 = #[verifier::truncate] (f2 as u32);
    if a >= b {
        a
    } else {
        b
    }
}

/// A directory entry names a CPU control directory: the prefix `cpu`
/// followed by at least one character, the first of them a decimal digit.
pub open spec fn is_cpu_entry_name_spec(s: Seq<char>) -> bool {
    &&& s.len() > 3
    &&& s.subrange(0, 3) == "cpu"@
    &&& '0' <= s[3] <= '9'
}

/// Whether a directory entry under the CPU-topology root is a per-CPU
/// directory (`cpu` followed by a decimal number).
pub fn is_cpu_entry_name(s: &str) -> (r: bool)
    ensures
        r == is_cpu_entry_name_spec(s@),
{
    proof {
        reveal_strlit("cpu");
    }
    let n = s.unicode_len();
    if n <= 3 {
        return false;
    }
    if s.get_char(0) != 'c' || s.get_char(1) != 'p' || s.get_char(2) != 'u' {
        assert(s@.subrange(0, 3) != "cpu"@) by {
            assert("cpu"@[0] == 'c' && "cpu"@[1] == 'p' && "cpu"@[2] == 'u');
            assert(s@.subrange(0, 3)[0] == s@[0]);
            assert(s@.subrange(0, 3)[1] == s@[1]);
            assert(s@.subrange(0, 3)[2] == s@[2]);
        }
        return false;
    }
    proof {
        assert(s@.subrange(0, 3) =~= "cpu"@);
    }
    let c = s.get_char(3);
    '0' <= c && c <= '9'
}

} // verus!
