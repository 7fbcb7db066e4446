//! Human-readable formatting of the report's numbers, in pure integer
//! arithmetic with exact string specifications.
//!
//! Byte counts are scaled to the largest binary unit with one decimal
//! place; percent changes carry two decimal places and an arrow for the
//! direction; durations render as `hh:mm:ss`. Scaled decimals round half
//! up; percentages of a change are relative to the previous value.

use vstd::prelude::*;

verus! {

/// The decimal digit character for `d` in `0..=9`.
pub open spec fn digit_char(d: int) -> char {
    if d == 0 {
        '0'
    } else if d == 1 {
        '1'
    } else if d == 2 {
        '2'
    } else if d == 3 {
        '3'
    } else if d == 4 {
        '4'
    } else if d == 5 {
        '5'
    } else if d == 6 {
        '6'
    } else if d == 7 {
        '7'
    } else if d == 8 {
        '8'
    } else {
        '9'
    }
}

/// The decimal rendering of `n`, without leading zeros (a single `'0'`
/// for zero).
pub open spec fn dec_str(n: nat) -> Seq<char>
    decreases n,
{
    if n < 10 {
        seq![digit_char(n as int)]
    } else {
        dec_str(n / 10) + seq![digit_char((n % 10) as int)]
    }
}

/// `n` rendered with at least two digits: a leading zero below ten.
pub open spec fn spec_pad2(n: int) -> Seq<char> {
    if 0 <= n < 10 {
        seq!['0'] + dec_str(n as nat)
    } else {
        dec_str(if n >= 0 {
            n as nat
        } else {
            0
        })
    }
}

/// One decimal digit as a string slice.
fn digit_str(d: u64) -> (r: &'static str)
    requires
        d < 10,
    ensures
        r@.len() == 1,
        r@[0] == digit_char(d as int),
{
    proof {
        reveal_strlit("0");
        reveal_strlit("1");
        reveal_strlit("2");
        reveal_strlit("3");
        reveal_strlit("4");
        reveal_strlit("5");
        reveal_strlit("6");
        reveal_strlit("7");
        reveal_strlit("8");
        reveal_strlit("9");
    }
    match d {
        0 => "0",
        1 => "1",
        2 => "2",
        3 => "3",
        4 => "4",
        5 => "5",
        6 => "6",
        7 => "7",
        8 => "8",
        _ => "9",
    }
}

/// Renders `n` in decimal.
pub fn decimal_string(n: u128) -> (r: String)
    ensures
        r@ == dec_str(n as nat),
    decreases n,
{
    if n < 10 {
        let s = String::from_str(digit_str(n as u64));
        proof {
            assert(s@ =~= dec_str(n as nat));
        }
        s
    } else {
        let mut s = decimal_string(n / 10);
        s.append(digit_str((n % 10) as u64));
        proof {
            assert(s@ =~= dec_str(n as nat));
        }
        s
    }
}

/// Renders `n` in decimal with at least two digits.
pub fn pad2(n: u64) -> (r: String)
    ensures
        r@ == spec_pad2(n as int),
{
    if n < 10 {
        let mut s = String::from_str("0");
        s.append(digit_str(n));
        proof {
            reveal_strlit("0");
            assert(s@ =~= spec_pad2(n as int));
        }
        s
    } else {
        decimal_string(n as u128)
    }
}

/// `hh:mm:ss` for a duration of `secs` seconds, with zero for a negative
/// input; hours may take more than two digits.
pub open spec fn spec_duration(secs: i64) -> Seq<char> {
    let total: int = if secs > 0 {
        secs as int
    } else {
        0
    };
    spec_pad2(total / 3600) + ":"@ + spec_pad2((total % 3600) / 60) + ":"@ + spec_pad2(total % 60)
}

/// Converts a duration in seconds to `hh:mm:ss`; zero or negative input
/// renders as `00:00:00`.
pub fn format_duration_secs(secs: i64) -> (r: String)
    ensures
        r@ == spec_duration(secs),
{
    let total: u64 = if secs > 0 {
        secs as u64
    } else {
        0
    };
    let hours = total / 3600;
    let minutes = (total % 3600) / 60;
    let seconds = total % 60;
    let mut out = pad2(hours);
    out.append(":");
    let m = pad2(minutes);
    out.append(m.as_str());
    out.append(":");
    let s = pad2(seconds);
    out.append(s.as_str());
    proof {
        assert(out@ =~= spec_duration(secs));
    }
    out
}

/// Bytes in one binary kilobyte.
pub const BYTES_PER_KB: u64 = 1024;

/// Bytes in one binary megabyte.
pub const BYTES_PER_MB: u64 = 1024 * 1024;

/// Bytes in one binary gigabyte.
pub const BYTES_PER_GB: u64 = 1024 * 1024 * 1024;

/// Bytes in one binary terabyte.
pub const BYTES_PER_TB: u64 = 1024 * 1024 * 1024 * 1024;

/// `b / unit` with one decimal place, rounded half up: the whole part,
/// a dot, and one fractional digit.
pub open spec fn spec_scaled(b: u64, unit: u64) -> Seq<char> {
    let t = ((b as int) * 10 + (unit as int) / 2) / (unit as int);
    dec_str((t / 10) as nat) + "."@ + seq![digit_char(t % 10)]
}

/// `b` scaled by `unit` with one decimal place.
fn scaled_str(b: u64, unit: u64) -> (r: String)
    requires
        unit >= 1,
    ensures
        r@ == spec_scaled(b, unit),
{
    let t: u128 = ((b as u128) * 10 + (unit as u128) / 2) / (unit as u128);
    let mut s = decimal_string(t / 10);
    s.append(".");
    s.append(digit_str((t % 10) as u64));
    proof {
        assert(s@ =~= spec_scaled(b, unit));
    }
    s
}

/// The human-readable form of a byte count: the largest binary unit the
/// count reaches, with one decimal place, or the raw count in bytes
/// below one kilobyte.
pub open spec fn spec_format_bytes(bytes: u64) -> Seq<char> {
    if bytes >= BYTES_PER_TB {
        spec_scaled(bytes, BYTES_PER_TB) + " TB"@
    } else if bytes >= BYTES_PER_GB {
        spec_scaled(bytes, BYTES_PER_GB) + " GB"@
    } else if bytes >= BYTES_PER_MB {
        spec_scaled(bytes, BYTES_PER_MB) + " MB"@
    } else if bytes >= BYTES_PER_KB {
        spec_scaled(bytes, BYTES_PER_KB) + " KB"@
    } else {
        dec_str(bytes as nat) + " B"@
    }
}

/// Converts a byte count into a human-readable string with one decimal
/// place, using binary units.
pub fn format_bytes(bytes: u64) -> (r: String)
    ensures
        r@ == spec_format_bytes(bytes),
{
    if bytes >= BYTES_PER_TB {
        let mut s = scaled_str(bytes, BYTES_PER_TB);
        s.append(" TB");
        proof {
            assert(s@ =~= spec_format_bytes(bytes));
        }
        s
    } else if bytes >= BYTES_PER_GB {
        let mut s = scaled_str(bytes, BYTES_PER_GB);
        s.append(" GB");
        proof {
            assert(s@ =~= spec_format_bytes(bytes));
        }
        s
    } else if bytes >= BYTES_PER_MB {
        let mut s = scaled_str(bytes, BYTES_PER_MB);
        s.append(" MB");
        proof {
            assert(s@ =~= spec_format_bytes(bytes));
        }
        s
    } else if bytes >= BYTES_PER_KB {
        let mut s = scaled_str(bytes, BYTES_PER_KB);
        s.append(" KB");
        proof {
            assert(s@ =~= spec_format_bytes(bytes));
        }
        s
    } else {
        let mut s = decimal_string(bytes as u128);
        s.append(" B");
        proof {
            assert(s@ =~= spec_format_bytes(bytes));
        }
        s
    }
}

/// An absolute change of `diff` against a previous value `prev`, as a
/// percentage with two decimals (rounded half up) behind a direction
/// arrow.
pub open spec fn spec_pct_body(diff: int, prev: int, up: bool) -> Seq<char> {
    let h = (diff * 10000 + prev / 2) / prev;
    (if up {
        "↑"@
    } else {
        "↓"@
    }) + dec_str((h / 100) as nat) + "."@ + spec_pad2(h % 100) + "%"@
}

/// The percent change from `prev` to `current`: magnitude relative to
/// `prev`, arrow up when `current >= prev`.
pub open spec fn spec_change_pct(current: int, prev: int) -> Seq<char> {
    spec_pct_body(
        if current >= prev {
            current - prev
        } else {
            prev - current
        },
        prev,
        current >= prev,
    )
}

/// Renders an absolute change as an arrow-and-percent string.
fn pct_string(diff: u128, prev: u128, up: bool) -> (r: String)
    requires
        prev >= 1,
        (diff as int) * 10000 + (prev as int) / 2 <= u128::MAX,
    ensures
        r@ == spec_pct_body(diff as int, prev as int, up),
{
    let h: u128 = (diff * 10000 + prev / 2) / prev;
    let mut s = if up {
        String::from_str("↑")
    } else {
        String::from_str("↓")
    };
    let whole = decimal_string(h / 100);
    s.append(whole.as_str());
    s.append(".");
    let frac = pad2((h % 100) as u64);
    s.append(frac.as_str());
    s.append("%");
    proof {
        assert(s@ =~= spec_pct_body(diff as int, prev as int, up));
    }
    s
}

/// Formats the percent change between current and previous byte counts:
/// an arrow and two decimals when a non-zero previous value exists, a
/// dash (`-`) with no previous value, and `–` when the previous value is
/// zero (no ratio exists).
pub fn fmt_bytes_change_pct(current: u64, previous_opt: Option<u64>) -> (r: String)
    ensures
        previous_opt is None ==> r@ == "-"@,
        previous_opt matches Some(p) ==> r@ == (if p == 0 {
            "–"@
        } else {
            spec_change_pct(current as int, p as int)
        }),
{
    match previous_opt {
        None => String::from_str("-"),
        Some(p) => {
            if p == 0 {
                String::from_str("–")
            } else {
                let diff: u64 = if current >= p {
                    current - p
                } else {
                    p - current
                };
                pct_string(diff as u128, p as u128, current >= p)
            }
        },
    }
}

/// Formats the percent change between current and previous durations in
/// seconds: an arrow and two decimals when the previous value is
/// positive, `–` otherwise or with no previous value.
pub fn fmt_duration_change_pct(current: i64, previous_opt: Option<i64>) -> (r: String)
    ensures
        previous_opt is None ==> r@ == "–"@,
        previous_opt matches Some(p) ==> r@ == (if p <= 0 {
            "–"@
        } else {
            spec_change_pct(current as int, p as int)
        }),
{
    match previous_opt {
        None => String::from_str("–"),
        Some(p) => {
            if p <= 0 {
                String::from_str("–")
            } else {
                let c = current as i128;
                let pw = p as i128;
                let diff: i128 = if c >= pw {
                    c - pw
                } else {
                    pw - c
                };
                pct_string(diff as u128, p as u128, current >= p)
            }
        },
    }
}

/// The difference between two percentages given in hundredths of a
/// percent, as an arrow and the absolute difference with two decimals.
pub open spec fn spec_percent_point_change(current: int, prev: int) -> Seq<char> {
    let diff = if current >= prev {
        current - prev
    } else {
        prev - current
    };
    (if current >= prev {
        "↑"@
    } else {
        "↓"@
    }) + dec_str((diff / 100) as nat) + "."@ + spec_pad2(diff % 100) + "%"@
}

/// Formats the percent-point change between a current and an optional
/// previous used-percentage (both in hundredths of a percent): the
/// absolute difference behind a direction arrow, or a dash with no
/// previous value.
pub fn fmt_percent_change(current: u64, previous_opt: Option<u64>) -> (r: String)
    ensures
        previous_opt is None ==> r@ == "-"@,
        previous_opt matches Some(p) ==> r@ == spec_percent_point_change(
            current as int,
            p as int,
        ),
{
    match previous_opt {
        None => String::from_str("-"),
        Some(p) => {
            let diff: u64 = if current >= p {
                current - p
            } else {
                p - current
            };
            let mut s = if current >= p {
                String::from_str("↑")
            } else {
                String::from_str("↓")
            };
            let whole = decimal_string((diff / 100) as u128);
            s.append(whole.as_str());
            s.append(".");
            let frac = pad2(diff % 100);
            s.append(frac.as_str());
            s.append("%");
            proof {
                assert(s@ =~= spec_percent_point_change(current as int, p as int));
            }
            s
        },
    }
}

/// The gauge color for a used-percentage given in hundredths of a
/// percent: red from 90%, yellow from 80%, green below.
pub fn percent_used_color(percent_hundredths: u64) -> (r: &'static str)
    ensures
        r@ == (if percent_hundredths >= 9000 {
            "#b02020"@
        } else if percent_hundredths >= 8000 {
            "#e0c020"@
        } else {
            "#80c080"@
        }),
{
    if percent_hundredths >= 9000 {
        "#b02020"
    } else if percent_hundredths >= 8000 {
        "#e0c020"
    } else {
        "#80c080"
    }
}

} // verus!
