//! Verified text building blocks: decimal rendering of integers, joining,
//! SQL quoting of identifiers and literals, and case-insensitive matching.
//!
//! SQL statements in this library are built as complete texts, so correct
//! quoting is what keeps a name or a value from escaping its place in a
//! statement. The quoting functions are specified exactly.

use vstd::prelude::*;

verus! {

use vstd::string::StringExecFns;

/// The decimal digit character for `d`, which must lie below ten.
pub open spec fn spec_digit_char(d: int) -> char {
    if d == 0 {
        '0'
    } else if d == 1 {
        '1'
    } else if d == 2 {
        '2'
    } else if d == 3 {
        '3'
    } else if d == 4 {
        '4'
    } else if d == 5 {
        '5'
    } else if d == 6 {
        '6'
    } else if d == 7 {
        '7'
    } else if d == 8 {
        '8'
    } else {
        '9'
    }
}

/// The decimal rendering of a non-negative integer, most significant digit
/// first, without leading zeroes (a single zero for zero itself).
pub open spec fn spec_dec_digits(n: int) -> Seq<char>
    decreases n,
{
    if n < 10 {
        seq![spec_digit_char(n)]
    } else {
        spec_dec_digits(n / 10).push(spec_digit_char(n % 10))
    }
}

/// The decimal rendering of an integer, with a leading minus sign when
/// negative.
pub open spec fn spec_int_string(n: int) -> Seq<char> {
    if n < 0 {
        seq!['-'] + spec_dec_digits(-n)
    } else {
        spec_dec_digits(n)
    }
}

fn digit_str(d: u64) -> (r: &'static str)
    requires
        d < 10,
    ensures
        r@ == seq![spec_digit_char(d as int)],
{
    proof {
        reveal_strlit("0");
        reveal_strlit("1");
        reveal_strlit("2");
        reveal_strlit("3");
        reveal_strlit("4");
        reveal_strlit("5");
        reveal_strlit("6");
        reveal_strlit("7");
        reveal_strlit("8");
        reveal_strlit("9");
    }
    if d == 0 {
        "0"
    } else if d == 1 {
        "1"
    } else if d == 2 {
        "2"
    } else if d == 3 {
        "3"
    } else if d == 4 {
        "4"
    } else if d == 5 {
        "5"
    } else if d == 6 {
        "6"
    } else if d == 7 {
        "7"
    } else if d == 8 {
        "8"
    } else {
        "9"
    }
}

/// Renders `n` in decimal.
pub fn u64_to_string(n: u64) -> (r: String)
    ensures
        r@ == spec_dec_digits(n as int),
{
    let mut rest: u64 = n;
    let mut r: String = digit_str(rest % 10).to_owned();
    proof {
        if n >= 10 {
            assert(spec_dec_digits(n as int / 10).push(spec_digit_char(n as int % 10))
                =~= spec_dec_digits(n as int / 10) + seq![spec_digit_char(n as int % 10)]);
        }
    }
    rest = rest / 10;
    while rest > 0
        invariant
            rest > 0 ==> spec_dec_digits(n as int) == spec_dec_digits(rest as int) + r@,
            rest == 0 ==> r@ == spec_dec_digits(n as int),
        decreases rest,
    {
        let ghost r_pre: Seq<char> = r@;
        let ghost rest_pre: int = rest as int;
        let d = digit_str(rest % 10);
        r = d.to_owned().concat(r.as_str());
        rest = rest / 10;
        proof {
            let dg = seq![spec_digit_char(rest_pre % 10)];
            if rest > 0 {
                assert(spec_dec_digits(rest_pre) == spec_dec_digits(rest_pre / 10).push(
                    spec_digit_char(rest_pre % 10)));
                assert(spec_dec_digits(rest_pre / 10).push(spec_digit_char(rest_pre % 10))
                    =~= spec_dec_digits(rest_pre / 10) + dg);
                assert((spec_dec_digits(rest_pre / 10) + dg) + r_pre =~= spec_dec_digits(
                    rest_pre / 10,
                ) + (dg + r_pre));
            }
        }
    }
    r
}

/// Renders `n` in decimal, with a minus sign when it is negative.
pub fn i64_to_string(n: i64) -> (r: String)
    ensures
        r@ == spec_int_string(n as int),
{
    if n >= 0 {
        u64_to_string(n as u64)
    } else if n == i64::MIN {
        let r = join_str("-", u64_to_string(9223372036854775808u64).as_str());
        proof {
            reveal_strlit("-");
        }
        r
    } else {
        let r = join_str("-", u64_to_string((-n) as u64).as_str());
        proof {
            reveal_strlit("-");
        }
        r
    }
}

/// The concatenation of two texts.
pub fn join_str(a: &str, b: &str) -> (r: String)
    ensures
        r@ == a@ + b@,
{
    let mut r = a.to_owned();
    r.append(b);
    r
}

/// `parts` joined with `sep` between neighbours.
pub open spec fn spec_join(parts: Seq<Seq<char>>, sep: Seq<char>) -> Seq<char>
    decreases parts.len(),
{
    if parts.len() == 0 {
        Seq::empty()
    } else if parts.len() == 1 {
        parts[0]
    } else {
        spec_join(parts.drop_last(), sep) + sep + parts.last()
    }
}

/// Joins the texts in `parts` with `sep` between neighbours.
pub fn join(parts: &Vec<String>, sep: &str) -> (r: String)
    ensures
        r@ == spec_join(parts.deep_view(), sep@),
{
    let mut r = String::new();
    let mut i: usize = 0;
    while i < parts.len()
        invariant
            i <= parts.len(),
            r@ == spec_join(parts.deep_view().take(i as int), sep@),
        decreases parts.len() - i,
    {
        if i > 0 {
            r.append(sep);
        }
        r.append(parts[i].as_str());
        proof {
            let pv = parts.deep_view();
            assert(pv.take(i + 1).drop_last() =~= pv.take(i as int));
            assert(pv.take(i + 1).last() == pv[i as int]);
        }
        i = i + 1;
    }
    proof {
        assert(parts.deep_view().take(parts.len() as int) =~= parts.deep_view());
    }
    r
}

/// Every occurrence of `q` in `s` doubled; all else kept as it is.
pub open spec fn spec_double_char(s: Seq<char>, q: char) -> Seq<char>
    decreases s.len(),
{
    if s.len() == 0 {
        Seq::empty()
    } else if s.last() == q {
        spec_double_char(s.drop_last(), q) + seq![q, q]
    } else {
        spec_double_char(s.drop_last(), q).push(s.last())
    }
}

/// A SQL identifier: surrounded by double quotes, inner double quotes
/// doubled.
pub open spec fn spec_sql_ident(s: Seq<char>) -> Seq<char> {
    seq!['"'] + spec_double_char(s, '"') + seq!['"']
}

/// A SQL string literal without backslashes: surrounded by single quotes,
/// inner single quotes doubled.
pub open spec fn spec_sql_literal_plain(s: Seq<char>) -> Seq<char> {
    seq!['\''] + spec_double_char(s, '\'') + seq!['\'']
}

/// Relies on `postgres_protocol::escape::escape_identifier`: the input
/// surrounded by double quotes, with inner double quotes doubled.
#[verifier::external_body]
pub fn sql_ident(s: &str) -> (r: String)
    ensures
        r@ == spec_sql_ident(s@),
{
    postgres_protocol::escape::escape_identifier(s)
}

/// Quotes a SQL string literal: surrounds it with single quotes and
/// doubles inner single quotes. Under standard conforming strings — the
/// server default — a backslash inside quotes is an ordinary character,
/// so this quoting is complete.
pub fn sql_literal(s: &str) -> (r: String)
    ensures
        r@ == spec_sql_literal_plain(s@),
{
    let len = s.unicode_len();
    let mut r = "'".to_owned();
    let mut i: usize = 0;
    proof {
        assert(s@.take(0) =~= Seq::<char>::empty());
        reveal_strlit("'");
    }
    while i < len
        invariant
            0 <= i <= len,
            len == s@.len(),
            r@ == seq!['\''] + spec_double_char(s@.take(i as int), '\''),
        decreases len - i,
    {
        proof {
            assert(s@.take(i + 1).drop_last() =~= s@.take(i as int));
            assert(s@.take(i + 1).last() == s@[i as int]);
        }
        let c = s.get_char(i);
        if c == '\'' {
            r.append("''");
            proof {
                reveal_strlit("''");
                assert(r@ =~= seq!['\''] + spec_double_char(s@.take(i + 1), '\''));
            }
        } else {
            let piece = s.substring_char(i, i + 1);
            r.append(piece);
            proof {
                assert(piece@ =~= seq![s@[i as int]]);
                assert(r@ =~= seq!['\''] + spec_double_char(s@.take(i + 1), '\''));
            }
        }
        i = i + 1;
    }
    proof {
        assert(s@.take(len as int) =~= s@);
    }
    r.append("'");
    proof {
        assert(r@ =~= spec_sql_literal_plain(s@));
    }
    r
}

/// What `str::to_lowercase` returns; it depends on the characters alone.
pub uninterp spec fn lower_of(s: Seq<char>) -> Seq<char>;

/// Relies on `str::to_lowercase`: the result depends on the characters
/// alone.
#[verifier::external_body]
pub fn lowercase(s: &str) -> (r: String)
    ensures
        r@ == lower_of(s@),
{
    s.to_lowercase()
}

/// Whether two names match ignoring case, the way column names are matched
/// during loading.
pub fn eq_ignore_case(a: &str, b: &str) -> (r: bool)
    ensures
        r == (lower_of(a@) == lower_of(b@)),
{
    lowercase(a) == lowercase(b)
}

/// Whether `s` ends in `suffix`.
pub open spec fn spec_ends_with(s: Seq<char>, suffix: Seq<char>) -> bool {
    s.len() >= suffix.len() && s.skip(s.len() - suffix.len()) == suffix
}

/// Whether `s` ends in `suffix`.
pub fn ends_with_text(s: &str, suffix: &str) -> (r: bool)
    ensures
        r == spec_ends_with(s@, suffix@),
{
    let n = s.unicode_len();
    let m = suffix.unicode_len();
    if n < m {
        return false;
    }
    let tail = s.substring_char(n - m, n);
    let r = str_eq(tail, suffix);
    proof {
        assert(s@.subrange(n - m, n as int) =~= s@.skip(n - m));
    }
    r
}

/// Whether two texts are equal.
pub fn str_eq(a: &str, b: &str) -> (r: bool)
    ensures
        r == (a@ == b@),
{
    a.to_owned() == b.to_owned()
}

} // verus!
