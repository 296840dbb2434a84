//! Schema resolution: conversion of the raw columnar-interchange schema
//! description produced once by the decoding engine into the bridge's
//! semantic column schema.
//!
//! The physical-to-semantic type mapping is a closed, total dispatch with an
//! explicit unsupported arm: no physical type silently falls back to a
//! default semantic type.

use vstd::prelude::*;
use crate::errors::{BridgeError, ErrorCode, spec_compose_message, spec_static_message};
use crate::scalar::{SemanticType, TimeUnit};

verus! {

/// The physical type of one field of the raw interchange schema, as the
/// decoding engine describes it.  `Other` stands for every physical type
/// outside the bridge's supported table.
#[derive(Clone, Copy, Debug, PartialEq, Eq, Structural)]
pub enum PhysicalType {
    Utf8,
    LargeUtf8,
    Int64,
    Float64,
    Timestamp(TimeUnit),
    Date32,
    Time64(TimeUnit),
    Other,
}

/// One field of the raw interchange schema: a name plus a physical type.
#[derive(Clone, Debug, PartialEq)]
pub struct RawField {
    pub name: String,
    pub dtype: PhysicalType,
}

/// The raw schema as handed over by the engine.  A well-formed source is
/// always described by a struct-typed container whose children are the
/// table's columns; any other shape is a contract violation.
#[derive(Clone, Debug, PartialEq)]
pub enum RawSchemaRoot {
    Record(Vec<RawField>),
    Other,
}

/// One column of the resolved semantic schema.  Column order is the physical
/// order in the source; every column is nullable.
#[derive(Clone, Debug, PartialEq)]
pub struct ColumnDescriptor {
    pub name: String,
    pub semantic_type: SemanticType,
    pub nullable: bool,
}

/// The resolved semantic schema: ordered column descriptors plus the row and
/// batch counts known for the reader.  Created at most once per reader and
/// immutable thereafter.
#[derive(Clone, Debug, PartialEq)]
pub struct SchemaDescriptor {
    pub columns: Vec<ColumnDescriptor>,
    pub row_count: u64,
    pub batch_count: u32,
}

/// Mathematical model of a raw schema field.
pub struct RawFieldV {
    pub name: Seq<char>,
    pub dtype: PhysicalType,
}

/// Mathematical model of the raw schema.
pub enum RawSchemaV {
    Record(Seq<RawFieldV>),
    Other,
}

/// Mathematical model of a column descriptor.
pub struct ColV {
    pub name: Seq<char>,
    pub semantic_type: SemanticType,
    pub nullable: bool,
}

/// Mathematical model of the resolved schema.
pub struct SchemaV {
    pub columns: Seq<ColV>,
    pub row_count: int,
    pub batch_count: int,
}

impl View for RawField {
    type V = RawFieldV;

    open spec fn view(&self) -> RawFieldV {
        RawFieldV { name: self.name@, dtype: self.dtype }
    }
}

impl View for RawSchemaRoot {
    type V = RawSchemaV;

    open spec fn view(&self) -> RawSchemaV {
        match self {
            RawSchemaRoot::Record(fields) => RawSchemaV::Record(
                Seq::new(fields@.len(), |i: int| fields@[i]@),
            ),
            RawSchemaRoot::Other => RawSchemaV::Other,
        }
    }
}

impl View for ColumnDescriptor {
    type V = ColV;

    open spec fn view(&self) -> ColV {
        ColV { name: self.name@, semantic_type: self.semantic_type, nullable: self.nullable }
    }
}

impl View for SchemaDescriptor {
    type V = SchemaV;

    open spec fn view(&self) -> SchemaV {
        SchemaV {
            columns: Seq::new(self.columns@.len(), |i: int| self.columns@[i]@),
            row_count: self.row_count as int,
            batch_count: self.batch_count as int,
        }
    }
}

/// An exact copy of one column descriptor.
pub fn clone_column_descriptor(c: &ColumnDescriptor) -> (r: ColumnDescriptor)
    ensures
        r@ == c@,
{
    ColumnDescriptor {
        name: c.name.clone(),
        semantic_type: c.semantic_type,
        nullable: c.nullable,
    }
}

/// An exact copy of a resolved schema: successive schema queries hand out
/// structurally identical descriptors.
pub fn clone_schema(s: &SchemaDescriptor) -> (r: SchemaDescriptor)
    ensures
        r@ == s@,
{
    let mut columns: Vec<ColumnDescriptor> = Vec::new();
    let n = s.columns.len();
    let mut i: usize = 0;
    while i < n
        invariant
            n == s.columns@.len(),
            i <= n,
            columns@.len() == i as int,
            forall|j: int| 0 <= j < i as int ==> #[trigger] columns@[j]@ == s.columns@[j]@,
        decreases n - i,
    {
        columns.push(clone_column_descriptor(&s.columns[i]));
        i += 1;
    }
    let r = SchemaDescriptor { columns, row_count: s.row_count, batch_count: s.batch_count };
    proof {
        assert(r@.columns =~= s@.columns);
    }
    r
}

/// Unit normalization for datetime columns: second resolution is upgraded to
/// millisecond to avoid precision loss; finer units are kept.
pub open spec fn spec_normalize_unit(u: TimeUnit) -> TimeUnit {
    match u {
        TimeUnit::Second => TimeUnit::Millisecond,
        _ => u,
    }
}

/// The closed physical-to-semantic type mapping.  `None` exactly for
/// physical types outside the supported table.
pub open spec fn spec_map_physical(p: PhysicalType) -> Option<SemanticType> {
    match p {
        PhysicalType::Utf8 => Some(SemanticType::Text),
        PhysicalType::LargeUtf8 => Some(SemanticType::Text),
        PhysicalType::Int64 => Some(SemanticType::Int64),
        PhysicalType::Float64 => Some(SemanticType::Float64),
        PhysicalType::Timestamp(u) => Some(SemanticType::DateTime(spec_normalize_unit(u))),
        PhysicalType::Date32 => Some(SemanticType::Date),
        PhysicalType::Time64(_) => Some(SemanticType::Time(TimeUnit::Nanosecond)),
        PhysicalType::Other => None,
    }
}

/// Map one physical type to its semantic type, or report it unsupported.
pub fn map_physical(p: PhysicalType) -> (r: Option<SemanticType>)
    ensures
        r == spec_map_physical(p),
{
    match p {
        PhysicalType::Utf8 => Some(SemanticType::Text),
        PhysicalType::LargeUtf8 => Some(SemanticType::Text),
        PhysicalType::Int64 => Some(SemanticType::Int64),
        PhysicalType::Float64 => Some(SemanticType::Float64),
        PhysicalType::Timestamp(u) => match u {
            TimeUnit::Second => Some(SemanticType::DateTime(TimeUnit::Millisecond)),
            _ => Some(SemanticType::DateTime(u)),
        },
        PhysicalType::Date32 => Some(SemanticType::Date),
        PhysicalType::Time64(_) => Some(SemanticType::Time(TimeUnit::Nanosecond)),
        PhysicalType::Other => None,
    }
}

/// The column descriptor a raw field resolves to, assuming its physical type
/// is supported.
pub open spec fn spec_resolve_field(f: RawFieldV) -> ColV {
    ColV {
        name: f.name,
        semantic_type: spec_map_physical(f.dtype)->Some_0,
        nullable: true,
    }
}

/// What schema resolution returns: `None` when the root is not a
/// struct-typed container or any field's physical type is unsupported,
/// otherwise the semantic schema with the columns in source order.
pub open spec fn spec_resolve(raw: RawSchemaV, row_count: int, batch_count: int) -> Option<
    SchemaV,
> {
    match raw {
        RawSchemaV::Other => None,
        RawSchemaV::Record(fields) => {
            if forall|i: int|
                0 <= i < fields.len() ==> #[trigger] spec_map_physical(fields[i].dtype) is Some {
                Some(
                    SchemaV {
                        columns: Seq::new(fields.len(), |i: int| spec_resolve_field(fields[i])),
                        row_count: row_count,
                        batch_count: batch_count,
                    },
                )
            } else {
                None
            }
        },
    }
}

/// Resolve the raw interchange schema into the semantic schema.
///
/// Succeeds exactly when the root is a struct-typed container and every
/// child's physical type is in the supported table; otherwise fails with
/// `UnsupportedType`, naming the first offending column where there is one.
pub fn resolve(raw: &RawSchemaRoot, row_count: u64, batch_count: u32) -> (r: Result<
    SchemaDescriptor,
    BridgeError,
>)
    ensures
        match r {
            Ok(s) => spec_resolve(raw@, row_count as int, batch_count as int) == Some(s@),
            Err(e) => {
                &&& spec_resolve(raw@, row_count as int, batch_count as int) is None
                &&& e.code == ErrorCode::UnsupportedType
                &&& match raw@ {
                    RawSchemaV::Other => e.message@ == spec_compose_message(
                        spec_static_message(ErrorCode::UnsupportedType),
                        "expected a struct-typed schema root"@,
                    ),
                    RawSchemaV::Record(fields) => exists|i: int|
                        {
                            &&& 0 <= i < fields.len()
                            &&& #[trigger] spec_map_physical(fields[i].dtype) is None
                            &&& (forall|j: int|
                                0 <= j < i ==> #[trigger] spec_map_physical(
                                    fields[j].dtype,
                                ) is Some)
                            &&& e.message@ == spec_compose_message(
                                spec_static_message(ErrorCode::UnsupportedType),
                                fields[i].name,
                            )
                        },
                }
            },
        },
{
    match raw {
        RawSchemaRoot::Other => Err(
            BridgeError::new(ErrorCode::UnsupportedType, "expected a struct-typed schema root"),
        ),
        RawSchemaRoot::Record(fields) => {
            let ghost rawv = raw@;
            let mut columns: Vec<ColumnDescriptor> = Vec::new();
            let n = fields.len();
            let mut i: usize = 0;
            while i < n
                invariant
                    n == fields@.len(),
                    i <= n,
                    rawv == raw@,
                    raw@ == RawSchemaV::Record(Seq::new(fields@.len(), |k: int| fields@[k]@)),
                    columns@.len() == i as int,
                    forall|j: int|
                        0 <= j < i as int ==> #[trigger] spec_map_physical(
                            fields@[j]@.dtype,
                        ) is Some,
                    forall|j: int|
                        0 <= j < i as int ==> #[trigger] columns@[j]@ == spec_resolve_field(
                            fields@[j]@,
                        ),
                decreases n - i,
            {
                let f = &fields[i];
                match map_physical(f.dtype) {
                    Some(st) => {
                        columns.push(
                            ColumnDescriptor {
                                name: f.name.clone(),
                                semantic_type: st,
                                nullable: true,
                            },
                        );
                    },
                    None => {
                        let e = BridgeError::new(ErrorCode::UnsupportedType, f.name.as_str());
                        proof {
                            let fieldsv = raw@->Record_0;
                            assert(fieldsv[i as int] == fields@[i as int]@);
                            assert(spec_map_physical(fieldsv[i as int].dtype) is None);
                        }
                        return Err(e);
                    },
                }
                i += 1;
            }
            let s = SchemaDescriptor { columns, row_count, batch_count };
            proof {
                let fieldsv = raw@->Record_0;
                assert(forall|k: int|
                    0 <= k < fieldsv.len() ==> #[trigger] spec_map_physical(
                        fieldsv[k].dtype,
                    ) is Some);
                assert(s@.columns =~= Seq::new(
                    fieldsv.len(),
                    |k: int| spec_resolve_field(fieldsv[k]),
                ));
                assert(spec_resolve(raw@, row_count as int, batch_count as int) == Some(s@));
            }
            Ok(s)
        },
    }
}

} // verus!
