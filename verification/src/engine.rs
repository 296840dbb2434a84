//! An instrumented, deterministic in-memory decoding engine.
//!
//! It serves a fixed raw schema and a fixed sequence of raw batches through
//! the same surface the bridge expects of the real engine: a physical schema
//! fetch, a forward batch cursor, random access by index, reset, and an
//! explicit per-buffer release obligation.  It counts physical schema
//! fetches and tracks every buffer it ever handed out, so the caching and
//! ownership laws can be stated, proved and tested against it.  Failures can
//! be injected to exercise every error path.

use vstd::prelude::*;
use crate::batch::{RawBatch, clone_batch};
use crate::errors::SasArrowErrorCode;
use crate::scalar::RawScalarV;
use crate::schema::{RawField, RawSchemaRoot, RawSchemaV};

verus! {

/// A raw batch handed out by the engine, together with the serial number of
/// the buffer that backs it.  The buffer must be released exactly once; the
/// value is not copyable, so a release consumes it.
pub struct FetchedBatch {
    pub data: RawBatch,
    pub serial: usize,
}

/// A raw schema descriptor handed out by the engine, with its buffer serial.
/// Ownership transfers to the caller, which must release it after
/// conversion, whether or not conversion succeeds.
pub struct FetchedSchema {
    pub root: RawSchemaRoot,
    pub serial: usize,
}

/// The outcome of a physical batch fetch.
pub enum FetchBatchResult {
    Fetched(FetchedBatch),
    End,
    Fail(SasArrowErrorCode),
}

/// The outcome of a physical schema fetch.
pub enum FetchSchemaResult {
    Fetched(FetchedSchema),
    Fail(SasArrowErrorCode),
}

/// Mathematical model of the engine.
pub struct EngineV {
    pub schema: RawSchemaV,
    pub batches: Seq<Seq<Seq<RawScalarV>>>,
    pub num_rows: int,
    pub num_columns: int,
    pub chunk_size: int,
    pub cursor: int,
    pub schema_fetches: int,
    pub buffers: Seq<bool>,
    pub batch_failure: Option<SasArrowErrorCode>,
    pub schema_failure: Option<SasArrowErrorCode>,
    pub last_error: Seq<char>,
}

/// The instrumented in-memory engine.
pub struct MemEngine {
    /// The raw schema the engine serves.
    pub schema: RawSchemaRoot,
    /// The raw batches the engine serves, in order.
    pub batches: Vec<RawBatch>,
    /// Total row count as the engine's metadata reports it.
    pub num_rows: u64,
    /// Column count as the engine's metadata reports it.
    pub num_columns: u32,
    /// The configured batch size (0 = engine default).
    pub chunk_size: u32,
    /// The forward cursor: index of the next batch `fetch_next` serves.
    pub cursor: usize,
    /// Instrumentation: how many physical schema fetches happened.
    pub schema_fetches: u64,
    /// One entry per buffer ever handed out; `true` once released.
    pub buffers: Vec<bool>,
    /// Injected failure for batch fetches and reset, when not the OK status.
    pub batch_failure: Option<SasArrowErrorCode>,
    /// Injected failure for schema fetches, when not the OK status.
    pub schema_failure: Option<SasArrowErrorCode>,
    /// The engine's dynamically captured last-error detail.
    pub last_error: String,
}

impl View for MemEngine {
    type V = EngineV;

    open spec fn view(&self) -> EngineV {
        EngineV {
            schema: self.schema@,
            batches: Seq::new(self.batches@.len(), |i: int| self.batches@[i]@),
            num_rows: self.num_rows as int,
            num_columns: self.num_columns as int,
            chunk_size: self.chunk_size as int,
            cursor: self.cursor as int,
            schema_fetches: self.schema_fetches as int,
            buffers: self.buffers@,
            batch_failure: self.batch_failure,
            schema_failure: self.schema_failure,
            last_error: self.last_error@,
        }
    }
}

/// An injected failure is effective when it is present and not the OK
/// status.
pub open spec fn spec_effective_failure(f: Option<SasArrowErrorCode>) -> Option<
    SasArrowErrorCode,
> {
    match f {
        Some(c) => if c == SasArrowErrorCode::SasArrowOk {
            None
        } else {
            Some(c)
        },
        None => None,
    }
}

/// Every buffer the engine ever handed out has been released.
pub open spec fn all_released(e: EngineV) -> bool {
    forall|i: int| 0 <= i < e.buffers.len() ==> e.buffers[i]
}

/// A fetch counter advances by one, saturating at the type's maximum.
pub open spec fn spec_count_up(x: int) -> int {
    if x < u64::MAX as int {
        x + 1
    } else {
        x
    }
}

impl MemEngine {
    /// Build an engine over a raw schema and its batches.  `num_rows` and
    /// `chunk_size` are the metadata the engine will report.  Fails with
    /// `OutOfMemory` exactly when a count exceeds what the reported metadata
    /// can carry.
    pub fn new(
        schema: RawSchemaRoot,
        batches: Vec<RawBatch>,
        num_rows: u64,
        chunk_size: u32,
    ) -> (r: Result<MemEngine, crate::errors::BridgeError>)
        ensures
            match r {
                Ok(e) => {
                    &&& batches@.len() <= u32::MAX as int
                    &&& (schema@ matches RawSchemaV::Record(fields) ==> fields.len()
                        <= u32::MAX as int)
                    &&& e@.schema == schema@
                    &&& e@.batches == Seq::new(batches@.len(), |i: int| batches@[i]@)
                    &&& e@.num_rows == num_rows as int
                    &&& e@.num_columns == (match schema@ {
                        RawSchemaV::Record(fields) => fields.len() as int,
                        RawSchemaV::Other => 0int,
                    })
                    &&& e@.chunk_size == chunk_size as int
                    &&& e@.cursor == 0
                    &&& e@.schema_fetches == 0
                    &&& e@.buffers.len() == 0
                    &&& e@.batch_failure is None
                    &&& e@.schema_failure is None
                    &&& e@.last_error.len() == 0
                },
                Err(e) => {
                    &&& e.code == crate::errors::ErrorCode::OutOfMemory
                    &&& (batches@.len() > u32::MAX as int || (schema@ matches RawSchemaV::Record(
                        fields,
                    ) && fields.len() > u32::MAX as int))
                },
            },
    {
        if batches.len() > u32::MAX as usize {
            return Err(
                crate::errors::BridgeError::new(
                    crate::errors::ErrorCode::OutOfMemory,
                    "too many batches for the engine metadata",
                ),
            );
        }
        let num_columns: u32 = match &schema {
            RawSchemaRoot::Record(fields) => {
                if fields.len() > u32::MAX as usize {
                    return Err(
                        crate::errors::BridgeError::new(
                            crate::errors::ErrorCode::OutOfMemory,
                            "too many columns for the engine metadata",
                        ),
                    );
                }
                fields.len() as u32
            },
            RawSchemaRoot::Other => 0,
        };
        Ok(
            MemEngine {
                schema,
                batches,
                num_rows,
                num_columns,
                chunk_size,
                cursor: 0,
                schema_fetches: 0,
                buffers: Vec::new(),
                batch_failure: None,
                schema_failure: None,
                last_error: String::new(),
            },
        )
    }

    /// Physically fetch the raw schema descriptor, transferring a new buffer
    /// to the caller.  Counts one physical fetch on success; an injected
    /// schema failure is returned instead, with nothing counted and no
    /// buffer issued.
    pub fn fetch_schema(&mut self) -> (r: FetchSchemaResult)
        ensures
            match spec_effective_failure(old(self)@.schema_failure) {
                Some(c) => r matches FetchSchemaResult::Fail(c2) && c2 == c && final(self)@ == old(
                    self,
                )@,
                None => {
                    &&& r matches FetchSchemaResult::Fetched(f) && f.root@ == old(self)@.schema
                        && f.serial as int == old(self)@.buffers.len()
                    &&& final(self)@ == (EngineV {
                        schema_fetches: spec_count_up(old(self)@.schema_fetches),
                        buffers: old(self)@.buffers.push(false),
                        ..old(self)@
                    })
                },
            },
    {
        match self.schema_failure {
            Some(c) => {
                if !matches!(c, SasArrowErrorCode::SasArrowOk) {
                    return FetchSchemaResult::Fail(c);
                }
            },
            None => {},
        }
        let serial = self.buffers.len();
        self.buffers.push(false);
        if self.schema_fetches < u64::MAX {
            self.schema_fetches = self.schema_fetches + 1;
        }
        let root = clone_schema_root(&self.schema);
        FetchSchemaResult::Fetched(FetchedSchema { root, serial })
    }

    /// Physically fetch the next batch under the forward cursor.  Past the
    /// last batch the engine keeps answering end-of-data; an injected batch
    /// failure is returned instead, with the cursor untouched and no buffer
    /// issued.
    pub fn fetch_next(&mut self) -> (r: FetchBatchResult)
        ensures
            match spec_effective_failure(old(self)@.batch_failure) {
                Some(c) => r matches FetchBatchResult::Fail(c2) && c2 == c && final(self)@ == old(
                    self,
                )@,
                None => {
                    if old(self)@.cursor >= old(self)@.batches.len() {
                        r is End && final(self)@ == old(self)@
                    } else {
                        &&& r matches FetchBatchResult::Fetched(f) && f.data@ == old(
                            self,
                        )@.batches[old(self)@.cursor] && f.serial as int == old(
                            self,
                        )@.buffers.len()
                        &&& final(self)@ == (EngineV {
                            cursor: old(self)@.cursor + 1,
                            buffers: old(self)@.buffers.push(false),
                            ..old(self)@
                        })
                    }
                },
            },
    {
        match self.batch_failure {
            Some(c) => {
                if !matches!(c, SasArrowErrorCode::SasArrowOk) {
                    return FetchBatchResult::Fail(c);
                }
            },
            None => {},
        }
        if self.cursor >= self.batches.len() {
            return FetchBatchResult::End;
        }
        let serial = self.buffers.len();
        self.buffers.push(false);
        let data = clone_batch(&self.batches[self.cursor]);
        self.cursor = self.cursor + 1;
        FetchBatchResult::Fetched(FetchedBatch { data, serial })
    }

    /// Physically fetch the batch at an explicit index, leaving the forward
    /// cursor untouched.  The two access modes read the same underlying
    /// batches.
    pub fn fetch_by_index(&mut self, i: u32) -> (r: FetchBatchResult)
        requires
            (i as int) < old(self)@.batches.len(),
        ensures
            match spec_effective_failure(old(self)@.batch_failure) {
                Some(c) => r matches FetchBatchResult::Fail(c2) && c2 == c && final(self)@ == old(
                    self,
                )@,
                None => {
                    &&& r matches FetchBatchResult::Fetched(f) && f.data@ == old(self)@.batches[
                        i as int
                    ] && f.serial as int == old(self)@.buffers.len()
                    &&& final(self)@ == (EngineV {
                        buffers: old(self)@.buffers.push(false),
                        ..old(self)@
                    })
                },
            },
    {
        match self.batch_failure {
            Some(c) => {
                if !matches!(c, SasArrowErrorCode::SasArrowOk) {
                    return FetchBatchResult::Fail(c);
                }
            },
            None => {},
        }
        let serial = self.buffers.len();
        self.buffers.push(false);
        let data = clone_batch(&self.batches[i as usize]);
        FetchBatchResult::Fetched(FetchedBatch { data, serial })
    }

    /// Release the buffer backing a fetched batch.  Consumes the handle, and
    /// the buffer must not have been released before: the release callback
    /// fires exactly once per buffer.
    pub fn release_batch(&mut self, f: FetchedBatch)
        requires
            (f.serial as int) < old(self)@.buffers.len(),
            !old(self)@.buffers[f.serial as int],
        ensures
            final(self)@ == (EngineV {
                buffers: old(self)@.buffers.update(f.serial as int, true),
                ..old(self)@
            }),
    {
        self.buffers.set(f.serial, true);
    }

    /// Release the buffer backing a fetched schema descriptor; same
    /// exactly-once obligation as for batches.
    pub fn release_schema(&mut self, f: FetchedSchema)
        requires
            (f.serial as int) < old(self)@.buffers.len(),
            !old(self)@.buffers[f.serial as int],
        ensures
            final(self)@ == (EngineV {
                buffers: old(self)@.buffers.update(f.serial as int, true),
                ..old(self)@
            }),
    {
        self.buffers.set(f.serial, true);
    }

    /// Rewind the forward cursor to the first batch.  Touches nothing else;
    /// in particular the instrumentation and the handed-out buffers stay.
    pub fn reset(&mut self) -> (r: Result<(), SasArrowErrorCode>)
        ensures
            match spec_effective_failure(old(self)@.batch_failure) {
                Some(c) => r matches Err(c2) && c2 == c && final(self)@ == old(self)@,
                None => r is Ok && final(self)@ == (EngineV { cursor: 0, ..old(self)@ }),
            },
    {
        match self.batch_failure {
            Some(c) => {
                if !matches!(c, SasArrowErrorCode::SasArrowOk) {
                    return Err(c);
                }
            },
            None => {},
        }
        self.cursor = 0;
        Ok(())
    }
}

/// An exact copy of a raw schema field.
fn clone_field(f: &RawField) -> (c: RawField)
    ensures
        c@ == f@,
{
    RawField { name: f.name.clone(), dtype: f.dtype }
}

/// An exact copy of the raw schema, as the engine hands one out.
pub fn clone_schema_root(s: &RawSchemaRoot) -> (c: RawSchemaRoot)
    ensures
        c@ == s@,
{
    match s {
        RawSchemaRoot::Other => RawSchemaRoot::Other,
        RawSchemaRoot::Record(fields) => {
            let mut out: Vec<RawField> = Vec::new();
            let n = fields.len();
            let mut i: usize = 0;
            while i < n
                invariant
                    n == fields@.len(),
                    i <= n,
                    out@.len() == i as int,
                    forall|j: int| 0 <= j < i as int ==> #[trigger] out@[j]@ == fields@[j]@,
                decreases n - i,
            {
                out.push(clone_field(&fields[i]));
                i += 1;
            }
            let c = RawSchemaRoot::Record(out);
            proof {
                assert(c@ matches RawSchemaV::Record(cf) && s@ matches RawSchemaV::Record(sf)
                    && cf =~= sf);
            }
            c
        },
    }
}

} // verus!
