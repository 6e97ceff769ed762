use vstd::arithmetic::div_mod::lemma_fundamental_div_mod;
use vstd::prelude::*;

verus! {

pub const SECS_PER_YEAR: u64 = 31_536_000;

pub const SECS_PER_MONTH: u64 = 2_628_000;

pub const SECS_PER_DAY: u64 = 86_400;

pub const SECS_PER_HOUR: u64 = 3_600;

pub const SECS_PER_MINUTE: u64 = 60;

/// A span of time split into calendar-like units: a year is 365 days and a
/// month is 30 days and 10 hours.
#[derive(Clone, Copy, Debug, PartialEq, Eq, Structural, Hash)]
pub struct Elapsed {
    pub years: u64,
    pub months: u64,
    pub days: u64,
    pub hours: u64,
    pub minutes: u64,
    pub seconds: u64,
}

/// The split of `total` seconds: each unit takes as much as it can of what
/// the larger units left.
pub open spec fn split_spec(total: u64) -> Elapsed {
    let y_rest = total % SECS_PER_YEAR;
    let mo_rest = y_rest % SECS_PER_MONTH;
    let d_rest = mo_rest % SECS_PER_DAY;
    let h_rest = d_rest % SECS_PER_HOUR;
    Elapsed {
        years: total / SECS_PER_YEAR,
        months: y_rest / SECS_PER_MONTH,
        days: mo_rest / SECS_PER_DAY,
        hours: d_rest / SECS_PER_HOUR,
        minutes: h_rest / SECS_PER_MINUTE,
        seconds: h_rest % SECS_PER_MINUTE,
    }
}

/// The seconds that the split `e` stands for.
pub open spec fn total_secs(e: Elapsed) -> int {
    e.years * SECS_PER_YEAR + e.months * SECS_PER_MONTH + e.days * SECS_PER_DAY + e.hours
        * SECS_PER_HOUR + e.minutes * SECS_PER_MINUTE + e.seconds
}

impl Elapsed {
    /// Splits `total` seconds into years, months, days, hours, minutes and seconds.
    pub fn from_secs(total: u64) -> (r: Elapsed)
        ensures
            r == split_spec(total),
            total_secs(r) == total,
            r.months < 12,
            r.days < 31,
            r.hours < 24,
            r.minutes < 60,
            r.seconds < 60,
    {
        let mut seconds = total;
        let years = seconds / SECS_PER_YEAR;
        seconds = seconds % SECS_PER_YEAR;
        let months = seconds / SECS_PER_MONTH;
        seconds = seconds % SECS_PER_MONTH;
        let days = seconds / SECS_PER_DAY;
        seconds = seconds % SECS_PER_DAY;
        let hours = seconds / SECS_PER_HOUR;
        seconds = seconds % SECS_PER_HOUR;
        let minutes = seconds / SECS_PER_MINUTE;
        seconds = seconds % SECS_PER_MINUTE;
        let r = Elapsed { years, months, days, hours, minutes, seconds };
        proof {
            let t = total as int;
            let y = t % 31_536_000;
            let mo = y % 2_628_000;
            let d = mo % 86_400;
            let h = d % 3_600;
            lemma_fundamental_div_mod(t, 31_536_000);
            lemma_fundamental_div_mod(y, 2_628_000);
            lemma_fundamental_div_mod(mo, 86_400);
            lemma_fundamental_div_mod(d, 3_600);
            lemma_fundamental_div_mod(h, 60);
        }
        r
    }
}

} // verus!
