//! Decimal rendering of caps and thresholds for log lines: frequencies in
//! GHz with one decimal place, thresholds in whole degrees C.

use vstd::prelude::*;
use vstd::string::StringExecFns;
use crate::table::ThermalTable;

verus! {

/// The decimal digit character for `d` in 0 to 9.
pub open spec fn digit_char(d: int) -> char {
    if d == 0 {
        '0'
    } else if d == 1 {
        '1'
    } else if d == 2 {
        '2'
    } else if d == 3 {
        '3'
    } else if d == 4 {
        '4'
    } else if d == 5 {
        '5'
    } else if d == 6 {
        '6'
    } else if d == 7 {
        '7'
    } else if d == 8 {
        '8'
    } else {
        '9'
    }
}

/// The decimal digits of a non-negative number, most significant first.
pub open spec fn dec_digits(n: int) -> Seq<char>
    decreases n,
{
    if n < 10 {
        seq![digit_char(n)]
    } else {
        dec_digits(n / 10).push(digit_char(n % 10))
    }
}

/// A signed number in decimal, with a leading minus when negative.
pub open spec fn int_digits(n: int) -> Seq<char> {
    if n < 0 {
        seq!['-'] + dec_digits(-n)
    } else {
        dec_digits(n)
    }
}

/// The one-character string for a decimal digit.
fn digit_str(d: u64) -> (r: &'static str)
    requires
        d < 10,
    ensures
        r@ == seq![digit_char(d as int)],
{
    proof {
        reveal_strlit("0");
        reveal_strlit("1");
        reveal_strlit("2");
        reveal_strlit("3");
        reveal_strlit("4");
        reveal_strlit("5");
        reveal_strlit("6");
        reveal_strlit("7");
        reveal_strlit("8");
        reveal_strlit("9");
    }
    let r: &'static str = if d == 0 {
        "0"
    } else if d == 1 {
        "1"
    } else if d == 2 {
        "2"
    } else if d == 3 {
        "3"
    } else if d == 4 {
        "4"
    } else if d == 5 {
        "5"
    } else if d == 6 {
        "6"
    } else if d == 7 {
        "7"
    } else if d == 8 {
        "8"
    } else {
        "9"
    };
    proof {
        assert(r@ =~= seq![digit_char(d as int)]);
    }
    r
}

/// Render a number in decimal.
pub fn u64_to_string(n: u64) -> (s: String)
    ensures
        s@ == dec_digits(n as int),
    decreases n,
{
    if n < 10 {
        String::from_str(digit_str(n))
    } else {
        let mut s = u64_to_string(n / 10);
        s.append(digit_str(n % 10));
        proof {
            assert(s@ =~= dec_digits(n as int));
        }
        s
    }
}

/// Render a signed number in decimal.
pub fn i32_to_string(n: i32) -> (s: String)
    ensures
        s@ == int_digits(n as int),
{
    if n >= 0 {
        u64_to_string(n as u64)
    } else {
        let mag: u64 = (-(n as i64)) as u64;
        let mut s = String::from_str("-");
        let digits = u64_to_string(mag);
        s.append(digits.as_str());
        proof {
            reveal_strlit("-");
            assert(s@ =~= int_digits(n as int));
        }
        s
    }
}

/// A frequency in kHz reduced to tenths of a GHz, rounded to nearest
/// (half away from zero).
pub open spec fn ghz_tenths(freq: u64) -> int {
    freq as int / 100_000 + if freq as int % 100_000 >= 50_000 {
        1int
    } else {
        0int
    }
}

/// A frequency rendered in GHz with one decimal place.
pub open spec fn freq_ghz_spec(freq: u64) -> Seq<char> {
    dec_digits(ghz_tenths(freq) / 10) + seq!['.'] + seq![digit_char(ghz_tenths(freq) % 10)]
}

/// Render a frequency in kHz as GHz with one decimal place.
pub fn freq_ghz(freq: u64) -> (s: String)
    ensures
        s@ == freq_ghz_spec(freq),
{
    let t: u64 = freq / 100_000 + if freq % 100_000 >= 50_000 {
        1
    } else {
        0
    };
    let mut s = u64_to_string(t / 10);
    s.append(".");
    s.append(digit_str(t % 10));
    proof {
        reveal_strlit(".");
        assert(s@ =~= freq_ghz_spec(freq));
    }
    s
}

impl ThermalTable {
    /// The five ladder rungs rendered in GHz, slash-separated.
    pub open spec fn caps_str_spec(self) -> Seq<char> {
        freq_ghz_spec(self.max_cap) + seq!['/'] + freq_ghz_spec(self.caps[0]) + seq!['/']
            + freq_ghz_spec(self.caps[1]) + seq!['/'] + freq_ghz_spec(self.caps[2]) + seq!['/']
            + freq_ghz_spec(self.caps[3])
    }

    /// Render the ladder for a log line.
    pub fn caps_str(&self) -> (s: String)
        ensures
            s@ == self.caps_str_spec(),
    {
        let mut s = freq_ghz(self.max_cap);
        s.append("/");
        s.append(freq_ghz(self.caps[0]).as_str());
        s.append("/");
        s.append(freq_ghz(self.caps[1]).as_str());
        s.append("/");
        s.append(freq_ghz(self.caps[2]).as_str());
        s.append("/");
        s.append(freq_ghz(self.caps[3]).as_str());
        proof {
            reveal_strlit("/");
            assert(s@ =~= self.caps_str_spec());
        }
        s
    }

    /// The four thresholds rendered in degrees C, slash-separated.
    pub open spec fn thresholds_str_spec(self) -> Seq<char> {
        int_digits(self.thresholds[0] as int) + seq!['/'] + int_digits(self.thresholds[1] as int)
            + seq!['/'] + int_digits(self.thresholds[2] as int) + seq!['/'] + int_digits(
            self.thresholds[3] as int,
        ) + "\u{b0}C"@
    }

    /// Render the thresholds for a log line.
    pub fn thresholds_str(&self) -> (s: String)
        ensures
            s@ == self.thresholds_str_spec(),
    {
        let mut s = i32_to_string(self.thresholds[0]);
        s.append("/");
        s.append(i32_to_string(self.thresholds[1]).as_str());
        s.append("/");
        s.append(i32_to_string(self.thresholds[2]).as_str());
        s.append("/");
        s.append(i32_to_string(self.thresholds[3]).as_str());
        s.append("\u{b0}C");
        proof {
            reveal_strlit("/");
            assert(s@ =~= self.thresholds_str_spec());
        }
        s
    }
}

} // verus!
