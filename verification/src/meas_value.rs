//! Typed measurement values.
//!
//! Incoming data arrives as optional texts; each declared column type turns
//! its text into a typed value, and an absent text into that type's own
//! NULL sentinel. The storage layer allocates fixed-width NULL
//! representations per type, so the sentinel is always type-appropriate,
//! never a generic null marker.

use vstd::prelude::*;

verus! {

use crate::text::{spec_int_string, i64_to_string, str_eq};

/// The sentinel stored for an absent two-byte integer.
pub const INT2_NONE: i16 = -32768;

/// The sentinel stored for an absent four-byte integer.
pub const INT4_NONE: i32 = -2147483648;

/// The sentinel stored for an absent eight-byte integer.
pub const INT8_NONE: i64 = -9223372036854775808;

/// A column's declared data type.
#[derive(Clone, Copy, PartialEq, Eq, Structural, Debug)]
pub enum DataType {
    Int2,
    Integer,
    Int8,
    Numeric,
    Real,
    Double,
    Timestamp,
    Text,
}

/// The PostgreSQL name of a data type.
pub open spec fn spec_data_type_text(t: DataType) -> Seq<char> {
    match t {
        DataType::Int2 => "smallint"@,
        DataType::Integer => "integer"@,
        DataType::Int8 => "bigint"@,
        DataType::Numeric => "numeric"@,
        DataType::Real => "real"@,
        DataType::Double => "double precision"@,
        DataType::Timestamp => "timestamp with time zone"@,
        DataType::Text => "text"@,
    }
}

/// The data type named by a PostgreSQL type name; unknown names read as
/// text, the widest family.
pub open spec fn spec_data_type_from(s: Seq<char>) -> DataType {
    if s == "smallint"@ || s == "int2"@ {
        DataType::Int2
    } else if s == "integer"@ || s == "int4"@ || s == "int"@ {
        DataType::Integer
    } else if s == "bigint"@ || s == "int8"@ {
        DataType::Int8
    } else if s == "numeric"@ {
        DataType::Numeric
    } else if s == "real"@ || s == "float4"@ {
        DataType::Real
    } else if s == "double precision"@ || s == "float8"@ {
        DataType::Double
    } else if s == "timestamp with time zone"@ || s == "timestamptz"@ {
        DataType::Timestamp
    } else {
        DataType::Text
    }
}

impl DataType {
    /// The PostgreSQL name of this type.
    pub fn to_text(&self) -> (r: String)
        ensures
            r@ == spec_data_type_text(*self),
    {
        match self {
            DataType::Int2 => "smallint".to_owned(),
            DataType::Integer => "integer".to_owned(),
            DataType::Int8 => "bigint".to_owned(),
            DataType::Numeric => "numeric".to_owned(),
            DataType::Real => "real".to_owned(),
            DataType::Double => "double precision".to_owned(),
            DataType::Timestamp => "timestamp with time zone".to_owned(),
            DataType::Text => "text".to_owned(),
        }
    }

    /// Reads a PostgreSQL type name; an unknown name reads as text.
    pub fn from_text(s: &str) -> (r: DataType)
        ensures
            r == spec_data_type_from(s@),
    {
        if str_eq(s, "smallint") || str_eq(s, "int2") {
            DataType::Int2
        } else if str_eq(s, "integer") || str_eq(s, "int4") || str_eq(s, "int") {
            DataType::Integer
        } else if str_eq(s, "bigint") || str_eq(s, "int8") {
            DataType::Int8
        } else if str_eq(s, "numeric") {
            DataType::Numeric
        } else if str_eq(s, "real") || str_eq(s, "float4") {
            DataType::Real
        } else if str_eq(s, "double precision") || str_eq(s, "float8") {
            DataType::Double
        } else if str_eq(s, "timestamp with time zone") || str_eq(s, "timestamptz") {
            DataType::Timestamp
        } else {
            DataType::Text
        }
    }
}

/// A typed measurement value. The fractional and temporal families carry
/// their source text: the database casts it on arrival, and the library
/// never computes with it.
pub enum MeasValue {
    Int2(i16),
    Integer(i32),
    Int8(i64),
    Numeric(String),
    Real(String),
    Double(String),
    Timestamp(String),
    Text(String),
}

/// The mathematical shape of a typed value.
pub ghost enum MeasValueView {
    Int2(int),
    Integer(int),
    Int8(int),
    Numeric(Seq<char>),
    Real(Seq<char>),
    Double(Seq<char>),
    Timestamp(Seq<char>),
    Text(Seq<char>),
}

impl View for MeasValue {
    type V = MeasValueView;

    open spec fn view(&self) -> MeasValueView {
        match self {
            MeasValue::Int2(v) => MeasValueView::Int2(*v as int),
            MeasValue::Integer(v) => MeasValueView::Integer(*v as int),
            MeasValue::Int8(v) => MeasValueView::Int8(*v as int),
            MeasValue::Numeric(s) => MeasValueView::Numeric(s@),
            MeasValue::Real(s) => MeasValueView::Real(s@),
            MeasValue::Double(s) => MeasValueView::Double(s@),
            MeasValue::Timestamp(s) => MeasValueView::Timestamp(s@),
            MeasValue::Text(s) => MeasValueView::Text(s@),
        }
    }
}

/// The type family a value belongs to.
pub open spec fn spec_value_type(v: MeasValueView) -> DataType {
    match v {
        MeasValueView::Int2(_) => DataType::Int2,
        MeasValueView::Integer(_) => DataType::Integer,
        MeasValueView::Int8(_) => DataType::Int8,
        MeasValueView::Numeric(_) => DataType::Numeric,
        MeasValueView::Real(_) => DataType::Real,
        MeasValueView::Double(_) => DataType::Double,
        MeasValueView::Timestamp(_) => DataType::Timestamp,
        MeasValueView::Text(_) => DataType::Text,
    }
}

/// The NULL sentinel of a type: a distinct in-band value per family, never
/// a generic null marker.
pub open spec fn spec_null_value(t: DataType) -> MeasValueView {
    match t {
        DataType::Int2 => MeasValueView::Int2(INT2_NONE as int),
        DataType::Integer => MeasValueView::Integer(INT4_NONE as int),
        DataType::Int8 => MeasValueView::Int8(INT8_NONE as int),
        DataType::Numeric => MeasValueView::Numeric("NaN"@),
        DataType::Real => MeasValueView::Real("NaN"@),
        DataType::Double => MeasValueView::Double("NaN"@),
        DataType::Timestamp => MeasValueView::Timestamp("-infinity"@),
        DataType::Text => MeasValueView::Text(""@),
    }
}

impl MeasValue {
    /// The NULL sentinel of `t`.
    pub fn null_value_of_type(t: DataType) -> (r: MeasValue)
        ensures
            r@ == spec_null_value(t),
    {
        match t {
            DataType::Int2 => MeasValue::Int2(INT2_NONE),
            DataType::Integer => MeasValue::Integer(INT4_NONE),
            DataType::Int8 => MeasValue::Int8(INT8_NONE),
            DataType::Numeric => MeasValue::Numeric("NaN".to_owned()),
            DataType::Real => MeasValue::Real("NaN".to_owned()),
            DataType::Double => MeasValue::Double("NaN".to_owned()),
            DataType::Timestamp => MeasValue::Timestamp("-infinity".to_owned()),
            DataType::Text => MeasValue::Text("".to_owned()),
        }
    }
}

/// Whether `c` is a decimal digit.
pub open spec fn spec_is_digit(c: char) -> bool {
    48 <= c as int && c as int <= 57
}

/// Whether every character of `s` is a decimal digit.
pub open spec fn spec_all_digits(s: Seq<char>) -> bool {
    forall|i: int| 0 <= i < s.len() ==> spec_is_digit(#[trigger] s[i])
}

/// The value of a non-empty digit string.
pub open spec fn spec_digits_value(s: Seq<char>) -> int
    decreases s.len(),
{
    if s.len() == 0 {
        0
    } else {
        spec_digits_value(s.drop_last()) * 10 + (s.last() as int - 48)
    }
}

/// The integer a text denotes: an optional minus sign, then one or more
/// decimal digits, nothing else.
pub open spec fn spec_parse_int_text(s: Seq<char>) -> Option<int> {
    if s.len() > 0 && s[0] == '-' {
        if s.len() > 1 && spec_all_digits(s.drop_first()) {
            Some(-spec_digits_value(s.drop_first()))
        } else {
            None
        }
    } else {
        if s.len() > 0 && spec_all_digits(s) {
            Some(spec_digits_value(s))
        } else {
            None
        }
    }
}

proof fn lemma_digits_value_bounds(s: Seq<char>)
    requires
        spec_all_digits(s),
    ensures
        spec_digits_value(s) >= 0,
    decreases s.len(),
{
    if s.len() > 0 {
        lemma_digits_value_bounds(s.drop_last());
    }
}

/// Reads a decimal integer; `None` exactly when the text is not an
/// optionally signed digit string or its value falls outside `i64`.
pub fn parse_i64(s: &str) -> (r: Option<i64>)
    ensures
        match spec_parse_int_text(s@) {
            Option::None => r is None,
            Option::Some(v) => if i64::MIN <= v <= i64::MAX {
                r == Some(v as i64)
            } else {
                r is None
            },
        },
{
    let len = s.unicode_len();
    let negative = len > 0 && s.get_char(0) == '-';
    let start: usize = if negative {
        1
    } else {
        0
    };
    if len == start {
        return None;
    }
    let ghost digits: Seq<char> = if negative {
        s@.drop_first()
    } else {
        s@
    };
    let mut acc: u128 = 0;
    let mut i: usize = start;
    while i < len
        invariant
            start <= i <= len,
            len == s@.len(),
            negative <==> (s@.len() > 0 && s@[0] == '-'),
            start == if negative {
                1int
            } else {
                0int
            },
            digits == if negative {
                s@.drop_first()
            } else {
                s@
            },
            spec_all_digits(digits.take(i - start)),
            acc == spec_digits_value(digits.take(i - start)),
            acc <= 0x8000_0000_0000_0000u128,
        decreases len - i,
    {
        let c = s.get_char(i);
        let u = c as u32;
        if u < 48 || u > 57 {
            proof {
                assert(digits[i - start] == s@[i as int]);
                assert(!spec_is_digit(digits[i - start]));
                assert(!spec_all_digits(digits));
            }
            return None;
        }
        let d: u128 = (u - 48) as u128;
        let next: u128 = acc * 10 + d;
        proof {
            assert(digits.take(i - start + 1).drop_last() =~= digits.take(i - start));
            assert(digits.take(i - start + 1).last() == digits[i - start]);
            assert(digits[i - start] == s@[i as int]);
        }
        if next > 0x8000_0000_0000_0000u128 {
            proof {
                if spec_all_digits(digits) {
                    lemma_digits_prefix_monotonic(digits, i - start + 1);
                }
            }
            return None;
        }
        acc = next;
        i = i + 1;
    }
    proof {
        assert(digits.take(len - start) =~= digits);
    }
    if negative {
        if acc == 0x8000_0000_0000_0000u128 {
            Some(i64::MIN)
        } else {
            Some(-((acc as u64) as i64))
        }
    } else {
        if acc == 0x8000_0000_0000_0000u128 {
            None
        } else {
            Some((acc as u64) as i64)
        }
    }
}

/// A digit string is worth at least any of its prefixes scaled up: once a
/// prefix passes the magnitude cap, the whole string does too.
proof fn lemma_digits_prefix_monotonic(s: Seq<char>, k: int)
    requires
        0 < k <= s.len(),
        spec_all_digits(s),
    ensures
        spec_digits_value(s) >= spec_digits_value(s.take(k)),
    decreases s.len() - k,
{
    if k == s.len() {
        assert(s.take(k) =~= s);
    } else {
        lemma_digits_prefix_monotonic(s, k + 1);
        assert(s.take(k + 1).drop_last() =~= s.take(k));
        lemma_digits_value_bounds(s.take(k));
        assert(spec_digits_value(s.take(k + 1)) == spec_digits_value(s.take(k)) * 10 + (s[k] as int
            - 48));
        assert(spec_digits_value(s.take(k)) * 10 >= spec_digits_value(s.take(k))) by (nonlinear_arith)
            requires
                spec_digits_value(s.take(k)) >= 0,
        ;
    }
}

/// Reads a decimal integer into `i32` range.
pub fn parse_i32(s: &str) -> (r: Option<i32>)
    ensures
        match spec_parse_int_text(s@) {
            Option::None => r is None,
            Option::Some(v) => if i32::MIN <= v <= i32::MAX {
                r == Some(v as i32)
            } else {
                r is None
            },
        },
{
    match parse_i64(s) {
        Option::Some(v) => {
            if v >= -2147483648i64 && v <= 2147483647i64 {
                Some(v as i32)
            } else {
                None
            }
        },
        Option::None => None,
    }
}

/// Reads a decimal integer into `i16` range.
pub fn parse_i16(s: &str) -> (r: Option<i16>)
    ensures
        match spec_parse_int_text(s@) {
            Option::None => r is None,
            Option::Some(v) => if i16::MIN <= v <= i16::MAX {
                r == Some(v as i16)
            } else {
                r is None
            },
        },
{
    match parse_i64(s) {
        Option::Some(v) => {
            if v >= -32768i64 && v <= 32767i64 {
                Some(v as i16)
            } else {
                None
            }
        },
        Option::None => None,
    }
}

/// The typed value a text denotes under a declared type. Integer families
/// must parse as in-range decimals; the carried-text families keep their
/// text.
pub open spec fn spec_parse_value(t: DataType, s: Seq<char>) -> Option<MeasValueView> {
    match t {
        DataType::Int2 => match spec_parse_int_text(s) {
            Option::Some(v) => if i16::MIN <= v <= i16::MAX {
                Some(MeasValueView::Int2(v))
            } else {
                None
            },
            Option::None => None,
        },
        DataType::Integer => match spec_parse_int_text(s) {
            Option::Some(v) => if i32::MIN <= v <= i32::MAX {
                Some(MeasValueView::Integer(v))
            } else {
                None
            },
            Option::None => None,
        },
        DataType::Int8 => match spec_parse_int_text(s) {
            Option::Some(v) => if i64::MIN <= v <= i64::MAX {
                Some(MeasValueView::Int8(v))
            } else {
                None
            },
            Option::None => None,
        },
        DataType::Numeric => Some(MeasValueView::Numeric(s)),
        DataType::Real => Some(MeasValueView::Real(s)),
        DataType::Double => Some(MeasValueView::Double(s)),
        DataType::Timestamp => Some(MeasValueView::Timestamp(s)),
        DataType::Text => Some(MeasValueView::Text(s)),
    }
}

/// Turns a text into the typed value its column calls for; fails exactly
/// on an integer column whose text is not an in-range decimal.
pub fn parse_meas_value(data_type: DataType, value: &str) -> (r: Option<MeasValue>)
    ensures
        match spec_parse_value(data_type, value@) {
            Option::Some(v) => r matches Some(m) && m@ == v,
            Option::None => r is None,
        },
{
    match data_type {
        DataType::Int2 => match parse_i16(value) {
            Option::Some(v) => Some(MeasValue::Int2(v)),
            Option::None => None,
        },
        DataType::Integer => match parse_i32(value) {
            Option::Some(v) => Some(MeasValue::Integer(v)),
            Option::None => None,
        },
        DataType::Int8 => match parse_i64(value) {
            Option::Some(v) => Some(MeasValue::Int8(v)),
            Option::None => None,
        },
        DataType::Numeric => Some(MeasValue::Numeric(value.to_owned())),
        DataType::Real => Some(MeasValue::Real(value.to_owned())),
        DataType::Double => Some(MeasValue::Double(value.to_owned())),
        DataType::Timestamp => Some(MeasValue::Timestamp(value.to_owned())),
        DataType::Text => Some(MeasValue::Text(value.to_owned())),
    }
}

/// The text of a value in a COPY data stream, before escaping: integers in
/// decimal, carried-text families as their text.
pub open spec fn spec_value_raw_text(v: MeasValueView) -> Seq<char> {
    match v {
        MeasValueView::Int2(n) => spec_int_string(n),
        MeasValueView::Integer(n) => spec_int_string(n),
        MeasValueView::Int8(n) => spec_int_string(n),
        MeasValueView::Numeric(s) => s,
        MeasValueView::Real(s) => s,
        MeasValueView::Double(s) => s,
        MeasValueView::Timestamp(s) => s,
        MeasValueView::Text(s) => s,
    }
}

impl MeasValue {
    /// The text of this value in a COPY data stream, before escaping.
    pub fn raw_text(&self) -> (r: String)
        ensures
            r@ == spec_value_raw_text(self@),
    {
        match self {
            MeasValue::Int2(n) => i64_to_string(*n as i64),
            MeasValue::Integer(n) => i64_to_string(*n as i64),
            MeasValue::Int8(n) => i64_to_string(*n),
            MeasValue::Numeric(s) => s.clone(),
            MeasValue::Real(s) => s.clone(),
            MeasValue::Double(s) => s.clone(),
            MeasValue::Timestamp(s) => s.clone(),
            MeasValue::Text(s) => s.clone(),
        }
    }
}

} // verus!
