use vstd::prelude::*;

use crate::timestamp::Timestamp;
use crate::timestamp::days_in_month;
use crate::timestamp::spec_days_in_month;

verus! {

/// ASCII '0' ..= '9'.
pub open spec fn is_ascii_digit(b: u8) -> bool {
    0x30 <= b <= 0x39
}

/// Numeric value of an ASCII digit.
pub open spec fn digit_val(b: u8) -> int {
    b as int - 0x30
}

/// Index at which the run of digits starting at `from` ends: the first
/// index at or after `from` that is past the end or holds a non-digit.
pub open spec fn digit_run_end(s: Seq<u8>, from: int) -> int
    recommends
        0 <= from <= s.len(),
    decreases s.len() - from
        when 0 <= from <= s.len()
{
    if from >= s.len() {
        from
    } else if !is_ascii_digit(s[from]) {
        from
    } else {
        digit_run_end(s, from + 1)
    }
}

/// Decimal value of the digits `s[from..to)`, most significant first.
pub open spec fn run_val(s: Seq<u8>, from: int, to: int) -> int
    decreases to - from,
{
    if to <= from {
        0
    } else {
        run_val(s, from, to - 1) * 10 + digit_val(s[to - 1])
    }
}

proof fn lemma_digit_run_end_at(s: Seq<u8>, from: int, i: int)
    requires
        0 <= from <= i <= s.len(),
        forall|k: int| from <= k < i ==> is_ascii_digit(s[k]),
        i == s.len() || !is_ascii_digit(s[i]),
    ensures
        digit_run_end(s, from) == i,
    decreases i - from,
{
    if from < i {
        lemma_digit_run_end_at(s, from + 1, i);
    }
}

/// The saturation bound of `scan_number`: one more than any value a
/// valid date or time component may take.
pub const COMPONENT_CAP: u32 = 100000;

/// Reads the run of digits starting at `from` and returns where it ends
/// together with its decimal value, saturated at `COMPONENT_CAP` so that
/// arbitrarily long runs cannot overflow.
pub fn scan_number(s: &Vec<u8>, from: usize) -> (r: (usize, u32))
    requires
        from <= s@.len(),
    ensures
        from <= r.0 <= s@.len(),
        r.0 as int == digit_run_end(s@, from as int),
        r.1 as int == if run_val(s@, from as int, r.0 as int) < COMPONENT_CAP as int {
            run_val(s@, from as int, r.0 as int)
        } else {
            COMPONENT_CAP as int
        },
{
    let mut i: usize = from;
    let mut acc: u32 = 0;
    while i < s.len() && s[i] >= 0x30 && s[i] <= 0x39
        invariant
            from <= i <= s@.len(),
            forall|k: int| from <= k < i ==> is_ascii_digit(s@[k]),
            acc as int == if run_val(s@, from as int, i as int) < COMPONENT_CAP as int {
                run_val(s@, from as int, i as int)
            } else {
                COMPONENT_CAP as int
            },
        decreases s@.len() - i,
    {
        let d: u32 = (s[i] - 0x30) as u32;
        if acc < COMPONENT_CAP {
            let next: u32 = acc * 10 + d;
            if next > COMPONENT_CAP {
                acc = COMPONENT_CAP;
            } else {
                acc = next;
            }
        }
        i = i + 1;
    }
    proof {
        lemma_digit_run_end_at(s@, from as int, i as int);
    }
    (i, acc)
}

/// The capture-time pattern: a run of digits for each of year, month,
/// day, hour, minute and second, separated in order by '-', '-', ' ',
/// ':' and ':', with nothing after the seconds. The parse succeeds
/// exactly when the text has this shape and the six values form a valid
/// timestamp.
pub open spec fn spec_parse_capture_time(s: Seq<u8>) -> Option<Timestamp> {
    let e1 = digit_run_end(s, 0);
    let e2 = digit_run_end(s, e1 + 1);
    let e3 = digit_run_end(s, e2 + 1);
    let e4 = digit_run_end(s, e3 + 1);
    let e5 = digit_run_end(s, e4 + 1);
    let e6 = digit_run_end(s, e5 + 1);
    if e1 > 0 && e1 < s.len() && s[e1] == 0x2d && e2 > e1 + 1 && e2 < s.len() && s[e2] == 0x2d
        && e3 > e2 + 1 && e3 < s.len() && s[e3] == 0x20 && e4 > e3 + 1 && e4 < s.len() && s[e4]
        == 0x3a && e5 > e4 + 1 && e5 < s.len() && s[e5] == 0x3a && e6 > e5 + 1 && e6 == s.len() {
        let ts = Timestamp {
            year: run_val(s, 0, e1) as i32,
            month: run_val(s, e1 + 1, e2) as u32,
            day: run_val(s, e2 + 1, e3) as u32,
            hour: run_val(s, e3 + 1, e4) as u32,
            minute: run_val(s, e4 + 1, e5) as u32,
            second: run_val(s, e5 + 1, e6) as u32,
        };
        if 0 <= run_val(s, 0, e1) <= 9999 && 1 <= run_val(s, e1 + 1, e2) <= 12 && 1 <= run_val(
            s,
            e2 + 1,
            e3,
        ) && run_val(s, e2 + 1, e3) <= spec_days_in_month(
            run_val(s, 0, e1),
            run_val(s, e1 + 1, e2),
        ) && 0 <= run_val(s, e3 + 1, e4) <= 23 && 0 <= run_val(s, e4 + 1, e5) <= 59 && 0
            <= run_val(s, e5 + 1, e6) <= 59 {
            Some(ts)
        } else {
            None
        }
    } else {
        None
    }
}

/// A parsed capture time is always a valid calendar timestamp.
pub proof fn lemma_parsed_time_valid(s: Seq<u8>)
    ensures
        spec_parse_capture_time(s) is Some ==> spec_parse_capture_time(s)->0.valid(),
{
}

/// Parses the textual capture time into a timestamp; `None` exactly on
/// text that does not match the pattern or does not name a valid
/// calendar date and time.
pub fn parse_capture_time(s: &Vec<u8>) -> (r: Option<Timestamp>)
    ensures
        r == spec_parse_capture_time(s@),
{
    let (e1, y) = scan_number(s, 0);
    if !(e1 > 0 && e1 < s.len() && s[e1] == 0x2d) {
        return None;
    }
    let (e2, mo) = scan_number(s, e1 + 1);
    if !(e2 > e1 + 1 && e2 < s.len() && s[e2] == 0x2d) {
        return None;
    }
    let (e3, d) = scan_number(s, e2 + 1);
    if !(e3 > e2 + 1 && e3 < s.len() && s[e3] == 0x20) {
        return None;
    }
    let (e4, h) = scan_number(s, e3 + 1);
    if !(e4 > e3 + 1 && e4 < s.len() && s[e4] == 0x3a) {
        return None;
    }
    let (e5, mi) = scan_number(s, e4 + 1);
    if !(e5 > e4 + 1 && e5 < s.len() && s[e5] == 0x3a) {
        return None;
    }
    let (e6, sec) = scan_number(s, e5 + 1);
    if !(e6 > e5 + 1 && e6 == s.len()) {
        return None;
    }
    if !(y <= 9999 && 1 <= mo && mo <= 12 && 1 <= d && h <= 23 && mi <= 59 && sec <= 59) {
        return None;
    }
    if d > days_in_month(y as i32, mo) {
        return None;
    }
    Some(
        Timestamp {
            year: y as i32,
            month: mo,
            day: d,
            hour: h,
            minute: mi,
            second: sec,
        },
    )
}

} // verus!
