//! Scalar semantic reinterpretation: pure conversion of the decoding engine's
//! raw tagged values into semantically typed values, applying the
//! conventional epoch and unit conversions.
//!
//! The engine's raw numerics are carried across the verified boundary in
//! fixed point: a raw number is represented by its value scaled by `10^9`
//! (billionths of the raw unit), so that every conversion below is exact
//! integer arithmetic.  A raw day count of `18700.0` arrives as
//! `18_700_000_000_000`, and a raw time of `3.5` seconds as `3_500_000_000`.

use vstd::prelude::*;
use vstd::arithmetic::div_mod::{
    lemma_div_is_ordered,
    lemma_fundamental_div_mod,
    lemma_fundamental_div_mod_converse,
};

verus! {

/// Resolution of a datetime or time-of-day column.
#[derive(Clone, Copy, Debug, PartialEq, Eq, Structural)]
pub enum TimeUnit {
    Second,
    Millisecond,
    Microsecond,
    Nanosecond,
}

/// The canonical, engine-independent value classification of a column.
#[derive(Clone, Copy, Debug, PartialEq, Eq, Structural)]
pub enum SemanticType {
    Text,
    Float64,
    Int64,
    Date,
    DateTime(TimeUnit),
    Time(TimeUnit),
}

/// Scale of the fixed-point representation: one raw unit in billionths.
pub const FIXED_POINT_SCALE: i64 = 1_000_000_000;

/// Conventional epoch difference between the source's day numbering and the
/// Unix epoch, in days.
pub const DATE_EPOCH_OFFSET_DAYS: i64 = 3653;

/// Conventional epoch difference between the source's second numbering and
/// the Unix epoch, in seconds.
pub const DATETIME_EPOCH_OFFSET_SECONDS: i64 = 315_619_200;

/// The datetime epoch offset in the fixed-point (billionths) scale.
pub const DATETIME_EPOCH_OFFSET_FIXED: i64 = 315_619_200_000_000_000;

/// A raw tagged value as handed over by the decoding engine: a null flag
/// plus a payload tag.
#[derive(Clone, Debug, PartialEq)]
pub struct RawScalar {
    pub is_null: bool,
    pub payload: RawPayload,
}

/// The payload tag of a raw value.  `Number` carries the value in the
/// fixed-point billionths scale; `Other` stands for any tag outside the
/// engine's documented pair of text and numeric.
#[derive(Clone, Debug, PartialEq)]
pub enum RawPayload {
    Text(String),
    Number(i64),
    Other,
}

/// A semantically typed value.  `Numeric` keeps the fixed-point billionths
/// scale; `Date` counts days since the Unix epoch; `DateTime` microseconds
/// since the Unix epoch; `Time` nanoseconds since midnight.
#[derive(Clone, Debug, PartialEq)]
pub enum ScalarValue {
    Text(String),
    Numeric(i64),
    Date(i64),
    DateTime(i64),
    Time(i64),
    Null,
}

/// Mathematical model of a raw payload.
pub enum RawPayloadV {
    Text(Seq<char>),
    Number(int),
    Other,
}

/// Mathematical model of a raw tagged value.
pub struct RawScalarV {
    pub is_null: bool,
    pub payload: RawPayloadV,
}

/// Mathematical model of a semantically typed value.
pub enum ScalarV {
    Text(Seq<char>),
    Numeric(int),
    Date(int),
    DateTime(int),
    Time(int),
    Null,
}

impl View for RawScalar {
    type V = RawScalarV;

    open spec fn view(&self) -> RawScalarV {
        RawScalarV {
            is_null: self.is_null,
            payload: match self.payload {
                RawPayload::Text(s) => RawPayloadV::Text(s@),
                RawPayload::Number(n) => RawPayloadV::Number(n as int),
                RawPayload::Other => RawPayloadV::Other,
            },
        }
    }
}

impl View for ScalarValue {
    type V = ScalarV;

    open spec fn view(&self) -> ScalarV {
        match *self {
            ScalarValue::Text(s) => ScalarV::Text(s@),
            ScalarValue::Numeric(n) => ScalarV::Numeric(n as int),
            ScalarValue::Date(n) => ScalarV::Date(n as int),
            ScalarValue::DateTime(n) => ScalarV::DateTime(n as int),
            ScalarValue::Time(n) => ScalarV::Time(n as int),
            ScalarValue::Null => ScalarV::Null,
        }
    }
}

/// What `decode` returns: the total semantic reinterpretation of one raw
/// value under the originating column's semantic type.
///
/// A set null flag wins over everything; a text payload decodes to text
/// whatever the column type; a numeric payload is reinterpreted by the
/// column type, with the epoch offsets compensated and the result scaled to
/// the semantic unit; an unknown payload tag decodes to null.
pub open spec fn spec_decode(r: RawScalarV, t: SemanticType) -> ScalarV {
    if r.is_null {
        ScalarV::Null
    } else {
        match r.payload {
            RawPayloadV::Text(s) => ScalarV::Text(s),
            RawPayloadV::Number(n) => match t {
                SemanticType::Date => ScalarV::Date(
                    n / (FIXED_POINT_SCALE as int) - DATE_EPOCH_OFFSET_DAYS as int,
                ),
                SemanticType::DateTime(_) => ScalarV::DateTime(
                    (n - DATETIME_EPOCH_OFFSET_FIXED as int) / 1000,
                ),
                SemanticType::Time(_) => ScalarV::Time(n),
                _ => ScalarV::Numeric(n),
            },
            RawPayloadV::Other => ScalarV::Null,
        }
    }
}

/// Floor division of `n` by a positive divisor, avoiding any reliance on the
/// rounding direction of machine division on signed values.
fn div_floor_i128(n: i128, d: i128) -> (q: i128)
    requires
        0 < d,
        i128::MIN < n,
    ensures
        q == n as int / d as int,
        n >= 0 ==> 0 <= q <= n,
        n < 0 ==> n <= q <= 0,
{
    if n >= 0 {
        let nu: u128 = n as u128;
        let du: u128 = d as u128;
        let qu: u128 = nu / du;
        proof {
            lemma_div_is_ordered(0, n as int, d as int);
            lemma_div_is_ordered(n as int, n as int, d as int);
            lemma_fundamental_div_mod(n as int, d as int);
            assert(qu <= nu) by {
                lemma_div_is_ordered(0, nu as int, du as int);
                assert(nu as int / du as int <= nu as int) by (nonlinear_arith)
                    requires 0 < du, 0 <= nu;
            }
        }
        qu as i128
    } else {
        // m == -n, computed without overflowing at the type's minimum
        let m: u128 = ((-(n + 1)) as u128) + 1;
        let du: u128 = d as u128;
        let qu: u128 = m / du;
        let ru: u128 = m % du;
        proof {
            lemma_fundamental_div_mod(m as int, du as int);
            assert(qu as int <= m as int) by {
                assert(m as int / du as int <= m as int) by (nonlinear_arith)
                    requires 0 < du, 0 <= m;
            }
        }
        if ru == 0 {
            proof {
                assert(n as int == (-(qu as int)) * (d as int) + 0) by (nonlinear_arith)
                    requires
                        m as int == d as int * (qu as int) + ru as int,
                        ru == 0,
                        n as int == -(m as int);
                lemma_fundamental_div_mod_converse(n as int, d as int, -(qu as int), 0);
            }
            -(qu as i128)
        } else {
            proof {
                assert(n as int == (-(qu as int) - 1) * (d as int) + (d as int - ru as int))
                    by (nonlinear_arith)
                    requires
                        m as int == d as int * (qu as int) + ru as int,
                        n as int == -(m as int);
                lemma_fundamental_div_mod_converse(
                    n as int,
                    d as int,
                    -(qu as int) - 1,
                    d as int - ru as int,
                );
                assert(m as int > qu as int) by (nonlinear_arith)
                    requires
                        m as int == d as int * (qu as int) + ru as int,
                        ru > 0,
                        d >= 1,
                        qu >= 0;
            }
            -(qu as i128) - 1
        }
    }
}

/// Pure semantic reinterpretation of one raw tagged value under the
/// originating column's semantic type.  Total: every raw value and every
/// column type decode to some value, with the unknown-tag arm decoding to
/// null by design rather than failing.
pub fn decode(raw: &RawScalar, t: SemanticType) -> (v: ScalarValue)
    ensures
        v@ == spec_decode(raw@, t),
{
    if raw.is_null {
        return ScalarValue::Null;
    }
    match &raw.payload {
        RawPayload::Text(s) => ScalarValue::Text(s.clone()),
        RawPayload::Number(n) => {
            let num: i64 = *n;
            match t {
                SemanticType::Date => {
                    let days_raw = div_floor_i128(num as i128, FIXED_POINT_SCALE as i128);
                    proof {
                        lemma_div_is_ordered(
                            i64::MIN as int,
                            num as int,
                            FIXED_POINT_SCALE as int,
                        );
                        lemma_div_is_ordered(
                            num as int,
                            i64::MAX as int,
                            FIXED_POINT_SCALE as int,
                        );
                    }
                    ScalarValue::Date((days_raw as i64) - DATE_EPOCH_OFFSET_DAYS)
                },
                SemanticType::DateTime(_) => {
                    let shifted: i128 = (num as i128) - (DATETIME_EPOCH_OFFSET_FIXED as i128);
                    let micros = div_floor_i128(shifted, 1000);
                    proof {
                        lemma_div_is_ordered(
                            i64::MIN as int - DATETIME_EPOCH_OFFSET_FIXED as int,
                            shifted as int,
                            1000,
                        );
                        lemma_div_is_ordered(
                            shifted as int,
                            i64::MAX as int,
                            1000,
                        );
                    }
                    ScalarValue::DateTime(micros as i64)
                },
                SemanticType::Time(_) => ScalarValue::Time(num),
                _ => ScalarValue::Numeric(num),
            }
        },
        RawPayload::Other => ScalarValue::Null,
    }
}

} // verus!
