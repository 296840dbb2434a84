//! Raw and decoded batches.  A raw batch is one engine-owned row group in
//! columnar layout; a decoded batch is the semantic table fragment produced
//! from it under the resolved schema, with no further dependency on the
//! engine's buffer.

use vstd::prelude::*;
use crate::errors::{BridgeError, ErrorCode, spec_compose_message, spec_static_message};
use crate::scalar::{RawPayload, RawScalar, RawScalarV, ScalarV, ScalarValue, SemanticType, decode,
    spec_decode};
use crate::schema::{SchemaDescriptor, SchemaV};

verus! {

/// One raw row batch in columnar layout: one vector of raw tagged values per
/// column, in the schema's column order.
#[derive(Debug, PartialEq)]
pub struct RawBatch {
    pub columns: Vec<Vec<RawScalar>>,
}

/// One decoded column: the column's name and its typed values, with explicit
/// nulls, one per row of the batch.
#[derive(Debug, PartialEq)]
pub struct DecodedColumn {
    pub name: String,
    pub values: Vec<ScalarValue>,
}

/// A decoded batch: ordered columns matching the resolved schema.  Owned by
/// the consumer once produced.
#[derive(Debug, PartialEq)]
pub struct DecodedBatch {
    pub columns: Vec<DecodedColumn>,
}

/// Mathematical model of a decoded column.
pub struct DecodedColV {
    pub name: Seq<char>,
    pub values: Seq<ScalarV>,
}

impl View for RawBatch {
    type V = Seq<Seq<RawScalarV>>;

    open spec fn view(&self) -> Seq<Seq<RawScalarV>> {
        Seq::new(
            self.columns@.len(),
            |j: int| Seq::new(self.columns@[j]@.len(), |k: int| self.columns@[j]@[k]@),
        )
    }
}

impl View for DecodedColumn {
    type V = DecodedColV;

    open spec fn view(&self) -> DecodedColV {
        DecodedColV {
            name: self.name@,
            values: Seq::new(self.values@.len(), |k: int| self.values@[k]@),
        }
    }
}

impl View for DecodedBatch {
    type V = Seq<DecodedColV>;

    open spec fn view(&self) -> Seq<DecodedColV> {
        Seq::new(self.columns@.len(), |j: int| self.columns@[j]@)
    }
}

/// The number of rows a raw batch holds: the length of its first column, or
/// zero for a batch of no columns.
pub open spec fn spec_batch_rows(b: Seq<Seq<RawScalarV>>) -> int {
    if b.len() == 0 {
        0
    } else {
        b[0].len() as int
    }
}

/// An exact copy of a raw tagged value.
pub fn clone_scalar(r: &RawScalar) -> (c: RawScalar)
    ensures
        c@ == r@,
{
    RawScalar {
        is_null: r.is_null,
        payload: match &r.payload {
            RawPayload::Text(s) => RawPayload::Text(s.clone()),
            RawPayload::Number(n) => RawPayload::Number(*n),
            RawPayload::Other => RawPayload::Other,
        },
    }
}

/// An exact copy of one raw column.
pub fn clone_column(col: &Vec<RawScalar>) -> (c: Vec<RawScalar>)
    ensures
        c@.len() == col@.len(),
        forall|k: int| 0 <= k < col@.len() ==> #[trigger] c@[k]@ == col@[k]@,
{
    let mut out: Vec<RawScalar> = Vec::new();
    let n = col.len();
    let mut k: usize = 0;
    while k < n
        invariant
            n == col@.len(),
            k <= n,
            out@.len() == k as int,
            forall|j: int| 0 <= j < k as int ==> #[trigger] out@[j]@ == col@[j]@,
        decreases n - k,
    {
        out.push(clone_scalar(&col[k]));
        k += 1;
    }
    out
}

/// An exact copy of a raw batch, as the engine hands one out: the copy's
/// model is the original's.
pub fn clone_batch(b: &RawBatch) -> (c: RawBatch)
    ensures
        c@ == b@,
{
    let mut columns: Vec<Vec<RawScalar>> = Vec::new();
    let n = b.columns.len();
    let mut j: usize = 0;
    while j < n
        invariant
            n == b.columns@.len(),
            j <= n,
            columns@.len() == j as int,
            forall|x: int, y: int|
                0 <= x < j as int && 0 <= y < b.columns@[x]@.len() ==> #[trigger] columns@[x]@[y]@
                    == b.columns@[x]@[y]@,
            forall|x: int| 0 <= x < j as int ==> #[trigger] columns@[x]@.len()
                == b.columns@[x]@.len(),
        decreases n - j,
    {
        columns.push(clone_column(&b.columns[j]));
        j += 1;
    }
    let c = RawBatch { columns };
    proof {
        assert(c@ =~~= b@);
    }
    c
}

/// What decoding one column yields: each raw value reinterpreted under the
/// column's semantic type.
pub open spec fn spec_decode_column(vals: Seq<RawScalarV>, t: SemanticType) -> Seq<ScalarV> {
    Seq::new(vals.len(), |k: int| spec_decode(vals[k], t))
}

/// What decoding a raw batch under a resolved schema yields: `None` when the
/// batch's column count does not match the schema, otherwise one decoded
/// column per schema column, in order, keeping the schema's names.
pub open spec fn spec_decode_batch(b: Seq<Seq<RawScalarV>>, s: SchemaV) -> Option<
    Seq<DecodedColV>,
> {
    if b.len() == s.columns.len() {
        Some(
            Seq::new(
                b.len(),
                |j: int| DecodedColV {
                    name: s.columns[j].name,
                    values: spec_decode_column(b[j], s.columns[j].semantic_type),
                },
            ),
        )
    } else {
        None
    }
}

/// Decode one raw column under a semantic type.
fn decode_column(vals: &Vec<RawScalar>, t: SemanticType) -> (out: Vec<ScalarValue>)
    ensures
        out@.len() == vals@.len(),
        forall|k: int| 0 <= k < vals@.len() ==> #[trigger] out@[k]@ == spec_decode(vals@[k]@, t),
{
    let mut out: Vec<ScalarValue> = Vec::new();
    let n = vals.len();
    let mut k: usize = 0;
    while k < n
        invariant
            n == vals@.len(),
            k <= n,
            out@.len() == k as int,
            forall|j: int| 0 <= j < k as int ==> #[trigger] out@[j]@ == spec_decode(vals@[j]@, t),
        decreases n - k,
    {
        out.push(decode(&vals[k], t));
        k += 1;
    }
    out
}

/// Decode a raw batch into a semantic table fragment under the resolved
/// schema.
///
/// Succeeds exactly when the batch's column count matches the schema's; a
/// mismatch means the engine handed over a batch inconsistent with the
/// schema it reported, which is surfaced as an internal engine error rather
/// than decoded loosely.
pub fn decode_batch(raw: &RawBatch, schema: &SchemaDescriptor) -> (r: Result<
    DecodedBatch,
    BridgeError,
>)
    ensures
        match r {
            Ok(d) => spec_decode_batch(raw@, schema@) == Some(d@),
            Err(e) => {
                &&& spec_decode_batch(raw@, schema@) is None
                &&& e.code == ErrorCode::InternalEngineError
                &&& e.message@ == spec_compose_message(
                    spec_static_message(ErrorCode::InternalEngineError),
                    "batch column count does not match the resolved schema"@,
                )
            },
        },
{
    if raw.columns.len() != schema.columns.len() {
        return Err(
            BridgeError::new(
                ErrorCode::InternalEngineError,
                "batch column count does not match the resolved schema",
            ),
        );
    }
    let mut columns: Vec<DecodedColumn> = Vec::new();
    let n = raw.columns.len();
    let mut j: usize = 0;
    while j < n
        invariant
            n == raw.columns@.len(),
            n == schema.columns@.len(),
            j <= n,
            columns@.len() == j as int,
            forall|x: int|
                0 <= x < j as int ==> #[trigger] columns@[x]@ == (DecodedColV {
                    name: schema@.columns[x].name,
                    values: spec_decode_column(raw@[x], schema@.columns[x].semantic_type),
                }),
        decreases n - j,
    {
        let values = decode_column(&raw.columns[j], schema.columns[j].semantic_type);
        let col = DecodedColumn { name: schema.columns[j].name.clone(), values };
        proof {
            assert(col@.values =~= spec_decode_column(
                raw@[j as int],
                schema@.columns[j as int].semantic_type,
            ));
        }
        columns.push(col);
        j += 1;
    }
    let d = DecodedBatch { columns };
    proof {
        assert(d@ =~= spec_decode_batch(raw@, schema@)->Some_0);
    }
    Ok(d)
}

} // verus!
