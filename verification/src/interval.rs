//! Durations for granularities, partition sizes and materialization timing
//! knobs, held as whole seconds.
//!
//! Two written forms are read: the clock form the database prints for an
//! interval (`00:15:00`, `1 day`, `2 days 01:30:00`, with `mon` counted as
//! thirty days), and the compact form definition files use (`15m`, `1d`,
//! `3days`). One form is written back for SQL: `<n> seconds`, which the
//! database reads unambiguously.

use vstd::prelude::*;

verus! {

use crate::text::{spec_dec_digits, u64_to_string, join_str, str_eq};
use crate::meas_value::{spec_all_digits, spec_digits_value, spec_is_digit};

/// The index of the first occurrence of `c` in `s`, or the length of `s`
/// when it does not occur.
pub open spec fn spec_first_idx(s: Seq<char>, c: char) -> int
    decreases s.len(),
{
    if s.len() == 0 {
        0
    } else if s[0] == c {
        0
    } else {
        1 + spec_first_idx(s.drop_first(), c)
    }
}

proof fn lemma_first_idx_at(s: Seq<char>, c: char, k: int)
    requires
        0 <= k <= s.len(),
        forall|i: int| 0 <= i < k ==> s[i] != c,
        k == s.len() || s[k] == c,
    ensures
        spec_first_idx(s, c) == k,
    decreases k,
{
    if s.len() > 0 {
        if k > 0 {
            assert(s[0] != c);
            assert(forall|i: int| 0 <= i < k - 1 ==> s.drop_first()[i] != c);
            lemma_first_idx_at(s.drop_first(), c, k - 1);
        }
    }
}

/// `s` cut at every occurrence of `c`; the empty text has one empty piece.
pub open spec fn spec_split(s: Seq<char>, c: char) -> Seq<Seq<char>>
    decreases s.len(),
{
    let i = spec_first_idx(s, c);
    if 0 <= i < s.len() {
        seq![s.take(i)] + spec_split(s.skip(i + 1), c)
    } else {
        seq![s]
    }
}

/// Cuts `s` at every occurrence of `c`.
pub fn split_on(s: &str, c: char) -> (r: Vec<String>)
    ensures
        r.deep_view() == spec_split(s@, c),
{
    let len = s.unicode_len();
    let mut parts: Vec<String> = Vec::new();
    let mut from: usize = 0;
    proof {
        assert(s@.skip(0) =~= s@);
        assert(parts.deep_view() =~= Seq::<Seq<char>>::empty());
        assert(Seq::<Seq<char>>::empty() + spec_split(s@, c) =~= spec_split(s@, c));
    }
    loop
        invariant
            from <= len,
            len == s@.len(),
            spec_split(s@, c) == parts.deep_view() + spec_split(s@.skip(from as int), c),
        decreases len - from + 1,
    {
        let ghost from0: int = from as int;
        let ghost parts0: Seq<Seq<char>> = parts.deep_view();
        let ghost rest: Seq<char> = s@.skip(from0);
        let mut j: usize = from;
        while j < len && s.get_char(j) != c
            invariant
                from <= j <= len,
                len == s@.len(),
                forall|i: int| from <= i < j ==> s@[i] != c,
            decreases len - j,
        {
            j = j + 1;
        }
        proof {
            assert forall|i: int| 0 <= i < j - from0 implies rest[i] != c by {
                assert(rest[i] == s@[from0 + i]);
            }
            if j < len {
                assert(rest[j - from0] == s@[j as int]);
            }
            lemma_first_idx_at(rest, c, j - from0);
        }
        let piece = s.substring_char(from, j);
        let piece_string = piece.to_owned();
        parts.push(piece_string);
        proof {
            assert(piece@ =~= rest.take(j - from0));
            assert(parts.deep_view() =~= parts0.push(piece@));
        }
        if j < len {
            from = j + 1;
            proof {
                assert(spec_split(rest, c) == seq![rest.take(j - from0)] + spec_split(
                    rest.skip(j - from0 + 1),
                    c,
                ));
                assert(rest.skip(j - from0 + 1) =~= s@.skip(from as int));
                assert(parts0.push(piece@) + spec_split(s@.skip(from as int), c) =~= parts0 + (seq![
                    piece@,
                ] + spec_split(s@.skip(from as int), c)));
            }
        } else {
            proof {
                assert(spec_first_idx(rest, c) == rest.len());
                assert(spec_split(rest, c) == seq![rest]);
                assert(piece@ =~= rest);
                assert(parts0.push(piece@) =~= parts0 + seq![rest]);
            }
            return parts;
        }
    }
}

/// Ten to the `k`.
pub open spec fn spec_pow10(k: int) -> int
    decreases k,
{
    if k <= 0 {
        1
    } else {
        10 * spec_pow10(k - 1)
    }
}

proof fn lemma_digits_value_upper(s: Seq<char>)
    requires
        spec_all_digits(s),
    ensures
        0 <= spec_digits_value(s) < spec_pow10(s.len() as int),
    decreases s.len(),
{
    if s.len() > 0 {
        lemma_digits_value_upper(s.drop_last());
        assert(spec_digits_value(s) == spec_digits_value(s.drop_last()) * 10 + (s.last() as int
            - 48));
        assert(spec_digits_value(s.drop_last()) * 10 <= (spec_pow10(s.len() - 1) - 1) * 10)
            by (nonlinear_arith)
            requires
                spec_digits_value(s.drop_last()) <= spec_pow10(s.len() - 1) - 1,
        ;
    }
}

/// The value of a component: one to eighteen decimal digits, nothing else.
pub open spec fn spec_digits_opt(s: Seq<char>) -> Option<int> {
    if 0 < s.len() <= 18 && spec_all_digits(s) {
        Some(spec_digits_value(s))
    } else {
        None
    }
}

/// Reads a component of one to eighteen decimal digits.
pub fn parse_digits18(s: &str) -> (r: Option<u64>)
    ensures
        match spec_digits_opt(s@) {
            Option::None => r is None,
            Option::Some(v) => 0 <= v < 1000000000000000000 && r == Some(v as u64),
        },
        r matches Some(n) ==> n < 1000000000000000000,
{
    proof {
        reveal_with_fuel(spec_pow10, 20);
    }
    let len = s.unicode_len();
    if len == 0 || len > 18 {
        return None;
    }
    let mut acc: u64 = 0;
    let mut i: usize = 0;
    while i < len
        invariant
            0 <= i <= len,
            len == s@.len(),
            len <= 18,
            spec_all_digits(s@.take(i as int)),
            acc == spec_digits_value(s@.take(i as int)),
            acc < spec_pow10(i as int),
        decreases len - i,
    {
        let c = s.get_char(i);
        let u = c as u32;
        if u < 48 || u > 57 {
            proof {
                assert(!spec_is_digit(s@[i as int]));
                assert(!spec_all_digits(s@));
            }
            return None;
        }
        proof {
            reveal_with_fuel(spec_pow10, 20);
            assert(s@.take(i + 1).drop_last() =~= s@.take(i as int));
            assert(s@.take(i + 1).last() == s@[i as int]);
            lemma_pow10_monotonic(i + 1, 18);
            assert(spec_pow10(18) == 1000000000000000000);
            assert(acc * 10 + 9 < spec_pow10(i + 1)) by (nonlinear_arith)
                requires
                    acc < spec_pow10(i as int),
                    spec_pow10(i + 1) == 10 * spec_pow10(i as int),
            ;
        }
        acc = acc * 10 + ((u - 48) as u64);
        i = i + 1;
    }
    proof {
        reveal_with_fuel(spec_pow10, 20);
        assert(s@.take(len as int) =~= s@);
        lemma_pow10_monotonic(len as int, 18);
        assert(spec_pow10(18) == 1000000000000000000);
    }
    Some(acc)
}

proof fn lemma_pow10_pos(k: int)
    ensures
        spec_pow10(k) >= 1,
    decreases k,
{
    if k > 0 {
        lemma_pow10_pos(k - 1);
    }
}

proof fn lemma_pow10_monotonic(a: int, b: int)
    requires
        a <= b,
    ensures
        spec_pow10(a) <= spec_pow10(b),
    decreases b - a,
{
    if a < b {
        lemma_pow10_monotonic(a, b - 1);
        lemma_pow10_pos(b - 1);
    }
}

/// The seconds of a `HH:MM:SS` clock text.
pub open spec fn spec_clock_seconds(s: Seq<char>) -> Option<int> {
    let ps = spec_split(s, ':');
    if ps.len() == 3 {
        match (spec_digits_opt(ps[0]), spec_digits_opt(ps[1]), spec_digits_opt(ps[2])) {
            (Option::Some(h), Option::Some(m), Option::Some(sec)) => Some(
                h * 3600 + m * 60 + sec,
            ),
            _ => None,
        }
    } else {
        None
    }
}

/// The seconds one unit word stands for: seconds, minutes, hours, days,
/// weeks, and months counted as thirty days.
pub open spec fn spec_unit_seconds(u: Seq<char>) -> Option<int> {
    if u == "s"@ || u == "sec"@ || u == "secs"@ || u == "second"@ || u == "seconds"@ {
        Some(1)
    } else if u == "m"@ || u == "min"@ || u == "mins"@ || u == "minute"@ || u == "minutes"@ {
        Some(60)
    } else if u == "h"@ || u == "hour"@ || u == "hours"@ {
        Some(3600)
    } else if u == "d"@ || u == "day"@ || u == "days"@ {
        Some(86400)
    } else if u == "w"@ || u == "week"@ || u == "weeks"@ {
        Some(604800)
    } else if u == "mon"@ || u == "mons"@ || u == "month"@ || u == "months"@ {
        Some(2592000)
    } else {
        None
    }
}

/// The length of the leading run of decimal digits.
pub open spec fn spec_digit_prefix_len(s: Seq<char>) -> int
    decreases s.len(),
{
    if s.len() > 0 && spec_is_digit(s[0]) {
        1 + spec_digit_prefix_len(s.drop_first())
    } else {
        0
    }
}

proof fn lemma_digit_prefix(s: Seq<char>)
    ensures
        0 <= spec_digit_prefix_len(s) <= s.len(),
        spec_all_digits(s.take(spec_digit_prefix_len(s))),
        spec_digit_prefix_len(s) < s.len() ==> !spec_is_digit(s[spec_digit_prefix_len(s)]),
    decreases s.len(),
{
    if s.len() > 0 && spec_is_digit(s[0]) {
        lemma_digit_prefix(s.drop_first());
        let k = spec_digit_prefix_len(s);
        assert forall|i: int| 0 <= i < k implies spec_is_digit(#[trigger] s.take(k)[i]) by {
            if i > 0 {
                assert(s.drop_first().take(k - 1)[i - 1] == s[i]);
                assert(spec_is_digit(s.drop_first().take(k - 1)[i - 1]));
            }
        }
    }
}

/// The seconds of a compact text: a digit run directly followed by a unit
/// word, as in `15m` or `3days`.
pub open spec fn spec_compact_seconds(s: Seq<char>) -> Option<int> {
    let k = spec_digit_prefix_len(s);
    if 0 < k < s.len() {
        match (spec_digits_opt(s.take(k)), spec_unit_seconds(s.skip(k))) {
            (Option::Some(n), Option::Some(u)) => Some(n * u),
            _ => None,
        }
    } else {
        None
    }
}

/// The seconds a duration text denotes. The written forms read are the
/// clock form `HH:MM:SS`, the day forms `D day` and `D days`, the combined
/// form `D day(s) HH:MM:SS`, the spaced pair `N <unit>`, and the compact
/// pair `N<unit>`.
pub open spec fn spec_parse_interval(s: Seq<char>) -> Option<int> {
    let tokens = spec_split(s, ' ');
    if tokens.len() == 1 {
        if spec_split(s, ':').len() == 3 {
            spec_clock_seconds(s)
        } else {
            spec_compact_seconds(s)
        }
    } else if tokens.len() == 2 {
        match (spec_digits_opt(tokens[0]), spec_unit_seconds(tokens[1])) {
            (Option::Some(n), Option::Some(u)) => Some(n * u),
            _ => None,
        }
    } else if tokens.len() == 3 {
        match (spec_digits_opt(tokens[0]), spec_unit_seconds(tokens[1]), spec_clock_seconds(
            tokens[2],
        )) {
            (Option::Some(d), Option::Some(u), Option::Some(clock)) => if u == 86400 {
                Some(d * 86400 + clock)
            } else {
                None
            },
            _ => None,
        }
    } else {
        None
    }
}

/// Reads a unit word.
fn parse_unit(u: &str) -> (r: Option<u64>)
    ensures
        match spec_unit_seconds(u@) {
            Option::None => r is None,
            Option::Some(v) => r == Some(v as u64),
        },
        r matches Some(n) ==> 1 <= n <= 2592000,
{
    if str_eq(u, "s") || str_eq(u, "sec") || str_eq(u, "secs") || str_eq(u, "second") || str_eq(
        u,
        "seconds",
    ) {
        Some(1)
    } else if str_eq(u, "m") || str_eq(u, "min") || str_eq(u, "mins") || str_eq(u, "minute")
        || str_eq(u, "minutes") {
        Some(60)
    } else if str_eq(u, "h") || str_eq(u, "hour") || str_eq(u, "hours") {
        Some(3600)
    } else if str_eq(u, "d") || str_eq(u, "day") || str_eq(u, "days") {
        Some(86400)
    } else if str_eq(u, "w") || str_eq(u, "week") || str_eq(u, "weeks") {
        Some(604800)
    } else if str_eq(u, "mon") || str_eq(u, "mons") || str_eq(u, "month") || str_eq(u, "months") {
        Some(2592000)
    } else {
        None
    }
}

/// Reads a `HH:MM:SS` clock text; `None` also when its value passes
/// `u64`.
fn parse_clock(s: &str) -> (r: Option<u64>)
    ensures
        match spec_clock_seconds(s@) {
            Option::None => r is None,
            Option::Some(v) => 0 <= v && if v <= u64::MAX {
                r == Some(v as u64)
            } else {
                r is None
            },
        },
{
    let ps = split_on(s, ':');
    if ps.len() != 3 {
        return None;
    }
    proof {
        assert(ps.deep_view()[0] == ps@[0]@);
        assert(ps.deep_view()[1] == ps@[1]@);
        assert(ps.deep_view()[2] == ps@[2]@);
    }
    let h = parse_digits18(ps[0].as_str());
    let m = parse_digits18(ps[1].as_str());
    let sec = parse_digits18(ps[2].as_str());
    match (h, m, sec) {
        (Option::Some(h), Option::Some(m), Option::Some(sec)) => {
            let total: u128 = (h as u128) * 3600u128 + (m as u128) * 60u128 + (sec as u128);
            if total <= 0xFFFF_FFFF_FFFF_FFFFu128 {
                Some(total as u64)
            } else {
                None
            }
        },
        _ => None,
    }
}

/// Reads a duration text into whole seconds; `None` exactly when the text
/// fits none of the written forms (or its value passes `u64`).
pub fn parse_interval(s: &str) -> (r: Option<u64>)
    ensures
        match spec_parse_interval(s@) {
            Option::None => r is None,
            Option::Some(v) => if v <= u64::MAX {
                r == Some(v as u64)
            } else {
                r is None
            },
        },
{
    let tokens = split_on(s, ' ');
    proof {
        assert forall|i: int| 0 <= i < tokens@.len() implies tokens.deep_view()[i]
            == tokens@[i]@ by {}
    }
    if tokens.len() == 1 {
        let colon_parts = split_on(s, ':');
        if colon_parts.len() == 3 {
            parse_clock(s)
        } else {
            parse_compact(s)
        }
    } else if tokens.len() == 2 {
        let n = parse_digits18(tokens[0].as_str());
        let u = parse_unit(tokens[1].as_str());
        match (n, u) {
            (Option::Some(n), Option::Some(u)) => {
                proof {
                    assert((n as u128) * (u as u128) <= 1000000000000000000u128 * 2592000u128)
                        by (nonlinear_arith)
                        requires
                            n < 1000000000000000000,
                            1 <= u <= 2592000,
                    ;
                }
                let prod: u128 = (n as u128) * (u as u128);
                if prod <= 0xFFFF_FFFF_FFFF_FFFFu128 {
                    Some(prod as u64)
                } else {
                    None
                }
            },
            _ => None,
        }
    } else if tokens.len() == 3 {
        let d = parse_digits18(tokens[0].as_str());
        let u = parse_unit(tokens[1].as_str());
        let clock = parse_clock(tokens[2].as_str());
        match (d, u, clock) {
            (Option::Some(d), Option::Some(u), Option::Some(clock)) => {
                if u != 86400 {
                    return None;
                }
                proof {
                    assert((d as u128) * 86400u128 <= 1000000000000000000u128 * 86400u128)
                        by (nonlinear_arith)
                        requires
                            d < 1000000000000000000,
                    ;
                }
                let total: u128 = (d as u128) * 86400u128 + (clock as u128);
                if total <= 0xFFFF_FFFF_FFFF_FFFFu128 {
                    Some(total as u64)
                } else {
                    None
                }
            },
            _ => None,
        }
    } else {
        None
    }
}

/// Whether `c` is a decimal digit.
fn char_is_digit(c: char) -> (b: bool)
    ensures
        b == spec_is_digit(c),
{
    let u = c as u32;
    48 <= u && u <= 57
}

/// Reads a compact pair `N<unit>`.
fn parse_compact(s: &str) -> (r: Option<u64>)
    ensures
        match spec_compact_seconds(s@) {
            Option::None => r is None,
            Option::Some(v) => if v <= u64::MAX {
                r == Some(v as u64)
            } else {
                r is None
            },
        },
{
    let len = s.unicode_len();
    let mut k: usize = 0;
    while k < len && char_is_digit(s.get_char(k))
        invariant
            0 <= k <= len,
            len == s@.len(),
            forall|i: int| 0 <= i < k ==> spec_is_digit(#[trigger] s@[i]),
        decreases len - k,
    {
        k = k + 1;
    }
    proof {
        lemma_digit_prefix_at(s@, k as int);
    }
    if k == 0 || k >= len {
        return None;
    }
    let num_text = s.substring_char(0, k);
    let unit_text = s.substring_char(k, len);
    proof {
        assert(num_text@ =~= s@.take(k as int));
        assert(unit_text@ =~= s@.skip(k as int));
    }
    let n = parse_digits18(num_text);
    let u = parse_unit(unit_text);
    match (n, u) {
        (Option::Some(n), Option::Some(u)) => {
            proof {
                assert((n as u128) * (u as u128) <= 1000000000000000000u128 * 2592000u128)
                    by (nonlinear_arith)
                    requires
                        n < 1000000000000000000,
                        1 <= u <= 2592000,
                ;
            }
            let prod: u128 = (n as u128) * (u as u128);
            if prod <= 0xFFFF_FFFF_FFFF_FFFFu128 {
                Some(prod as u64)
            } else {
                None
            }
        },
        _ => None,
    }
}

proof fn lemma_digit_prefix_at(s: Seq<char>, k: int)
    requires
        0 <= k <= s.len(),
        forall|i: int| 0 <= i < k ==> spec_is_digit(#[trigger] s[i]),
        k == s.len() || !spec_is_digit(s[k]),
    ensures
        spec_digit_prefix_len(s) == k,
    decreases k,
{
    if s.len() > 0 {
        if k > 0 {
            assert(spec_is_digit(s[0]));
            assert(forall|i: int| 0 <= i < k - 1 ==> spec_is_digit(#[trigger] s.drop_first()[i]));
            lemma_digit_prefix_at(s.drop_first(), k - 1);
        }
    }
}

/// The SQL text of a duration: the seconds in decimal, then ` seconds`.
pub open spec fn spec_interval_sql(n: int) -> Seq<char> {
    spec_dec_digits(n) + " seconds"@
}

/// Writes a duration the way SQL reads it back: `<n> seconds`.
pub fn interval_sql_text(n: u64) -> (r: String)
    ensures
        r@ == spec_interval_sql(n as int),
{
    join_str(u64_to_string(n).as_str(), " seconds")
}

/// The compact text of a duration: whole days as `<n>d`, whole hours as
/// `<n>h`, whole minutes as `<n>m`, anything else as `<n>s`.
pub open spec fn spec_interval_compact(n: int) -> Seq<char> {
    if n >= 86400 && n % 86400 == 0 {
        spec_dec_digits(n / 86400) + "d"@
    } else if n >= 3600 && n % 3600 == 0 {
        spec_dec_digits(n / 3600) + "h"@
    } else if n >= 60 && n % 60 == 0 {
        spec_dec_digits(n / 60) + "m"@
    } else {
        spec_dec_digits(n) + "s"@
    }
}

/// Writes a duration compactly, the way definition files write one.
pub fn interval_compact_text(n: u64) -> (r: String)
    ensures
        r@ == spec_interval_compact(n as int),
{
    if n >= 86400 && n % 86400 == 0 {
        join_str(u64_to_string(n / 86400).as_str(), "d")
    } else if n >= 3600 && n % 3600 == 0 {
        join_str(u64_to_string(n / 3600).as_str(), "h")
    } else if n >= 60 && n % 60 == 0 {
        join_str(u64_to_string(n / 60).as_str(), "m")
    } else {
        join_str(u64_to_string(n).as_str(), "s")
    }
}

} // verus!
