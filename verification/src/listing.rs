//! Helpers behind the process listing: uptime formatting, parsing of
//! `ps` elapsed-time values, and the listing filters.

use vstd::prelude::*;
use vstd::string::{StrSliceExecFns, StringExecFns};
use crate::strutil::{
    all_digits, contains_at, dec_rep, digits_val, find_char, first_index,
    lemma_find_matches_first_index, parse_u64, str_contains, u64_to_string,
};

verus! {

/// The human-readable form of an uptime: days and hours once a day has
/// passed, hours and minutes within the first day, minutes only within
/// the first hour.
pub open spec fn spec_format_uptime(seconds: nat) -> Seq<char> {
    let days = seconds / 86400;
    let hours = (seconds % 86400) / 3600;
    let minutes = (seconds % 3600) / 60;
    if days > 0 {
        dec_rep(days) + "d "@ + dec_rep(hours) + "h"@
    } else if hours > 0 {
        dec_rep(hours) + "h "@ + dec_rep(minutes) + "m"@
    } else {
        dec_rep(minutes) + "m"@
    }
}

/// Renders an uptime in seconds for the listing table.
pub fn format_uptime(seconds: u64) -> (r: String)
    ensures
        r@ == spec_format_uptime(seconds as nat),
{
    let days = seconds / 86400;
    let hours = (seconds % 86400) / 3600;
    let minutes = (seconds % 3600) / 60;
    proof {
        reveal_strlit("d ");
        reveal_strlit("h ");
        reveal_strlit("h");
        reveal_strlit("m");
    }
    if days > 0 {
        let mut s = u64_to_string(days);
        s.append("d ");
        let h = u64_to_string(hours);
        s.append(h.as_str());
        s.append("h");
        proof {
            assert(s@ =~= spec_format_uptime(seconds as nat));
        }
        s
    } else if hours > 0 {
        let mut s = u64_to_string(hours);
        s.append("h ");
        let m = u64_to_string(minutes);
        s.append(m.as_str());
        s.append("m");
        proof {
            assert(s@ =~= spec_format_uptime(seconds as nat));
        }
        s
    } else {
        let mut s = u64_to_string(minutes);
        s.append("m");
        proof {
            assert(s@ =~= spec_format_uptime(seconds as nat));
        }
        s
    }
}

/// The value of a numeric field, with anything unparsable read as zero.
pub open spec fn spec_parse_or_zero(s: Seq<char>) -> nat {
    if s.len() > 0 && all_digits(s) && digits_val(s) <= u64::MAX {
        digits_val(s)
    } else {
        0
    }
}

/// Parses a numeric field, reading anything unparsable as zero.
pub fn parse_or_zero(s: &str) -> (r: u64)
    ensures
        r as nat == spec_parse_or_zero(s@),
{
    match parse_u64(s) {
        Some(v) => v,
        None => 0,
    }
}

/// A value capped at what fits in 64 bits.
pub open spec fn sat_u64(n: nat) -> nat {
    if n > u64::MAX {
        u64::MAX as nat
    } else {
        n
    }
}

/// The seconds encoded by a `ps` elapsed-time field: a bare seconds
/// value, `MM:SS`, or `HH:MM:SS`, with unparsable pieces read as zero,
/// the total capped at 64 bits, and anything with more colons read as
/// zero.
pub open spec fn spec_etime_seconds(s: Seq<char>) -> nat {
    let i = first_index(s, ':');
    if i == -1 {
        spec_parse_or_zero(s)
    } else {
        let head = s.subrange(0, i);
        let rest = s.subrange(i + 1, s.len() as int);
        let j = first_index(rest, ':');
        if j == -1 {
            sat_u64(spec_parse_or_zero(head) * 60 + spec_parse_or_zero(rest))
        } else {
            let mid = rest.subrange(0, j);
            let tail = rest.subrange(j + 1, rest.len() as int);
            if first_index(tail, ':') == -1 {
                sat_u64(
                    spec_parse_or_zero(head) * 3600 + spec_parse_or_zero(mid) * 60
                        + spec_parse_or_zero(tail),
                )
            } else {
                0
            }
        }
    }
}

/// Parses a `ps` elapsed-time field into seconds.
pub fn parse_ps_etime(etime: &str) -> (r: u64)
    ensures
        r as nat == spec_etime_seconds(etime@),
{
    let n = etime.unicode_len();
    let first = find_char(etime, 0, ':');
    proof {
        lemma_find_matches_first_index(etime@, ':', first);
    }
    match first {
        None => parse_or_zero(etime),
        Some(i) => {
            let head = etime.substring_char(0, i);
            let rest = etime.substring_char(i + 1, n);
            let second = find_char(rest, 0, ':');
            proof {
                lemma_find_matches_first_index(rest@, ':', second);
            }
            match second {
                None => {
                    let minutes = parse_or_zero(head);
                    let secs = parse_or_zero(rest);
                    let wide: u128 = (minutes as u128) * 60 + (secs as u128);
                    if wide > u64::MAX as u128 {
                        u64::MAX
                    } else {
                        wide as u64
                    }
                },
                Some(j) => {
                    let m = rest.unicode_len();
                    let mid = rest.substring_char(0, j);
                    let tail = rest.substring_char(j + 1, m);
                    let third = find_char(tail, 0, ':');
                    proof {
                        lemma_find_matches_first_index(tail@, ':', third);
                    }
                    match third {
                        None => {
                            let hours = parse_or_zero(head);
                            let minutes = parse_or_zero(mid);
                            let secs = parse_or_zero(tail);
                            let wide: u128 = (hours as u128) * 3600 + (minutes as u128) * 60 + (
                            secs as u128);
                            if wide > u64::MAX as u128 {
                                u64::MAX
                            } else {
                                wide as u64
                            }
                        },
                        Some(_) => 0,
                    }
                },
            }
        },
    }
}

/// Whether a value lies within optional lower and upper bounds.
pub open spec fn spec_in_bounds(v: u64, min: Option<u64>, max: Option<u64>) -> bool {
    (match min {
        Some(m) => v >= m,
        None => true,
    }) && (match max {
        Some(m) => v <= m,
        None => true,
    })
}

/// Applies an optional minimum and maximum to a listed value.
pub fn passes_bounds(value: u64, min: Option<u64>, max: Option<u64>) -> (r: bool)
    ensures
        r == spec_in_bounds(value, min, max),
{
    let lo = match min {
        Some(m) => value >= m,
        None => true,
    };
    let hi = match max {
        Some(m) => value <= m,
        None => true,
    };
    lo && hi
}

/// Whether a process name passes an optional substring filter.
pub fn name_matches(name: &str, filter: &Option<String>) -> (r: bool)
    ensures
        r == match filter {
            Some(f) => exists|i: int| contains_at(name@, f@, i),
            None => true,
        },
{
    match filter {
        Some(f) => str_contains(name, f.as_str()),
        None => true,
    }
}

} // verus!
