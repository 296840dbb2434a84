//! The batch transport and schema cache: a reader that owns the engine
//! handle, resolves and caches the semantic schema on first access, and
//! serves decoded batches both sequentially and by explicit index, releasing
//! every engine buffer it obtains on every exit path.

use vstd::prelude::*;
use crate::batch::{DecodedBatch, DecodedColV, decode_batch, spec_decode_batch};
use crate::engine::{
    EngineV, FetchBatchResult, FetchSchemaResult, MemEngine, all_released, spec_count_up,
    spec_effective_failure,
};
use crate::errors::{
    BridgeError, ErrorCode, spec_compose_message, spec_static_message, spec_translate_status,
    translate_status,
};
use crate::schema::{SchemaDescriptor, SchemaV, clone_schema, resolve, spec_resolve};

verus! {

/// The reader metadata, immutable for the handle's lifetime: total row
/// count, column count, batch count, and the configured batch size.
#[derive(Clone, Copy, Debug, PartialEq, Eq, Structural)]
pub struct SasArrowReaderInfo {
    pub num_rows: u64,
    pub num_columns: u32,
    pub num_batches: u32,
    pub chunk_size: u32,
}

/// Mathematical model of the reader.
pub struct ReaderV {
    pub engine: EngineV,
    pub info: SasArrowReaderInfo,
    pub cached_schema: Option<SchemaV>,
}

/// The reader: owns the engine exclusively, caches the resolved schema, and
/// mediates every batch access.
pub struct SasReader {
    engine: MemEngine,
    info: SasArrowReaderInfo,
    cached_schema: Option<SchemaDescriptor>,
}

impl View for SasReader {
    type V = ReaderV;

    closed spec fn view(&self) -> ReaderV {
        ReaderV {
            engine: self.engine@,
            info: self.info,
            cached_schema: match self.cached_schema {
                Some(s) => Some(s@),
                None => None,
            },
        }
    }
}

/// The reader's metadata agrees with the engine it owns.  Established at
/// construction and preserved by every operation.
pub open spec fn reader_wf(r: ReaderV) -> bool {
    &&& r.info.num_batches as int == r.engine.batches.len()
    &&& r.info.num_rows as int == r.engine.num_rows
    &&& r.info.num_columns as int == r.engine.num_columns
    &&& r.info.chunk_size as int == r.engine.chunk_size
}

/// The reader a successful `new` produces for an engine: metadata queried
/// from the engine, nothing cached yet.
pub open spec fn spec_fresh_reader(e: EngineV) -> ReaderV {
    ReaderV {
        engine: e,
        info: SasArrowReaderInfo {
            num_rows: e.num_rows as u64,
            num_columns: e.num_columns as u32,
            num_batches: e.batches.len() as u32,
            chunk_size: e.chunk_size as u32,
        },
        cached_schema: None,
    }
}

/// What a schema query does: a cached descriptor is returned as is, with no
/// physical fetch; otherwise the raw schema is fetched once, its buffer
/// released after conversion whether or not conversion succeeds, and the
/// resolved schema cached exactly on success.
pub open spec fn spec_schema_step(r: ReaderV) -> (ReaderV, Result<SchemaV, ErrorCode>) {
    match r.cached_schema {
        Some(s) => (r, Ok(s)),
        None => match spec_effective_failure(r.engine.schema_failure) {
            Some(c) => (r, Err(spec_translate_status(c)->Some_0)),
            None => {
                let e1 = EngineV {
                    schema_fetches: spec_count_up(r.engine.schema_fetches),
                    buffers: r.engine.buffers.push(true),
                    ..r.engine
                };
                match spec_resolve(
                    r.engine.schema,
                    r.info.num_rows as int,
                    r.info.num_batches as int,
                ) {
                    Some(s) => (
                        ReaderV { engine: e1, cached_schema: Some(s), ..r },
                        Ok(s),
                    ),
                    None => (ReaderV { engine: e1, ..r }, Err(ErrorCode::UnsupportedType)),
                }
            },
        },
    }
}

/// What a sequential batch fetch does: the schema query runs first; then the
/// forward cursor serves the next batch, whose buffer is released once the
/// batch is decoded; exhaustion surfaces as the `EndOfData` code.
pub open spec fn spec_next_batch_step(r: ReaderV) -> (
    ReaderV,
    Result<Seq<DecodedColV>, ErrorCode>,
) {
    let (r1, sres) = spec_schema_step(r);
    match sres {
        Err(c) => (r1, Err(c)),
        Ok(s) => match spec_effective_failure(r1.engine.batch_failure) {
            Some(c) => (r1, Err(spec_translate_status(c)->Some_0)),
            None => {
                if r1.engine.cursor >= r1.engine.batches.len() {
                    (r1, Err(ErrorCode::EndOfData))
                } else {
                    let e2 = EngineV {
                        cursor: r1.engine.cursor + 1,
                        buffers: r1.engine.buffers.push(true),
                        ..r1.engine
                    };
                    let r2 = ReaderV { engine: e2, ..r1 };
                    match spec_decode_batch(r1.engine.batches[r1.engine.cursor], s) {
                        Some(d) => (r2, Ok(d)),
                        None => (r2, Err(ErrorCode::InternalEngineError)),
                    }
                }
            },
        },
    }
}

/// What a random-access batch fetch does: the index is validated against the
/// immutable batch count first; the forward cursor is never disturbed.
pub open spec fn spec_read_batch_step(r: ReaderV, i: int) -> (
    ReaderV,
    Result<Seq<DecodedColV>, ErrorCode>,
) {
    if i >= r.info.num_batches as int {
        (r, Err(ErrorCode::InvalidBatchIndex))
    } else {
        let (r1, sres) = spec_schema_step(r);
        match sres {
            Err(c) => (r1, Err(c)),
            Ok(s) => match spec_effective_failure(r1.engine.batch_failure) {
                Some(c) => (r1, Err(spec_translate_status(c)->Some_0)),
                None => {
                    let e2 = EngineV { buffers: r1.engine.buffers.push(true), ..r1.engine };
                    let r2 = ReaderV { engine: e2, ..r1 };
                    match spec_decode_batch(r1.engine.batches[i], s) {
                        Some(d) => (r2, Ok(d)),
                        None => (r2, Err(ErrorCode::InternalEngineError)),
                    }
                },
            },
        }
    }
}

/// What a reset does: rewinds the forward cursor to the first batch and
/// touches nothing else; in particular the cached schema stays valid.
pub open spec fn spec_reset_step(r: ReaderV) -> (ReaderV, Result<(), ErrorCode>) {
    match spec_effective_failure(r.engine.batch_failure) {
        Some(c) => (r, Err(spec_translate_status(c)->Some_0)),
        None => (
            ReaderV { engine: EngineV { cursor: 0, ..r.engine }, ..r },
            Ok(()),
        ),
    }
}

/// The executable schema result refines the model's.
pub open spec fn schema_res_matches(
    r: Result<SchemaDescriptor, BridgeError>,
    v: Result<SchemaV, ErrorCode>,
) -> bool {
    match r {
        Ok(s) => v matches Ok(sv) && s@ == sv,
        Err(e) => v matches Err(c) && e.code == c,
    }
}

/// The executable batch result refines the model's.
pub open spec fn batch_res_matches(
    r: Result<DecodedBatch, BridgeError>,
    v: Result<Seq<DecodedColV>, ErrorCode>,
) -> bool {
    match r {
        Ok(d) => v matches Ok(dv) && d@ == dv,
        Err(e) => v matches Err(c) && e.code == c,
    }
}

impl SasReader {
    /// Open a reader over an engine: queries the engine's metadata once and
    /// holds it immutable for the handle's lifetime.  Fails with
    /// `OutOfMemory` exactly when the engine serves more batches than the
    /// metadata can count.
    pub fn new(engine: MemEngine) -> (r: Result<SasReader, BridgeError>)
        ensures
            match r {
                Ok(rd) => {
                    &&& engine@.batches.len() <= u32::MAX as int
                    &&& rd@ == spec_fresh_reader(engine@)
                    &&& reader_wf(rd@)
                },
                Err(e) => {
                    &&& e.code == ErrorCode::OutOfMemory
                    &&& engine@.batches.len() > u32::MAX as int
                },
            },
    {
        if engine.batches.len() > u32::MAX as usize {
            return Err(
                BridgeError::new(ErrorCode::OutOfMemory, "too many batches for the reader info"),
            );
        }
        let info = SasArrowReaderInfo {
            num_rows: engine.num_rows,
            num_columns: engine.num_columns,
            num_batches: engine.batches.len() as u32,
            chunk_size: engine.chunk_size,
        };
        Ok(SasReader { engine, info, cached_schema: None })
    }

    /// The reader metadata; callable any number of times, immutable for the
    /// handle's lifetime.
    pub fn info(&self) -> (r: SasArrowReaderInfo)
        ensures
            r == self@.info,
    {
        self.info
    }

    /// Instrumentation: how many physical schema fetches the engine served.
    pub fn schema_fetch_count(&self) -> (n: u64)
        ensures
            n as int == self@.engine.schema_fetches,
    {
        self.engine.schema_fetches
    }

    /// Instrumentation: how many buffers the engine ever handed out.
    pub fn buffer_count(&self) -> (n: usize)
        ensures
            n as int == self@.engine.buffers.len(),
    {
        self.engine.buffers.len()
    }

    /// Instrumentation: whether every buffer the engine ever handed out has
    /// been released exactly once.
    pub fn all_buffers_released(&self) -> (b: bool)
        ensures
            b == all_released(self@.engine),
    {
        let n = self.engine.buffers.len();
        let mut i: usize = 0;
        while i < n
            invariant
                n == self.engine.buffers@.len(),
                i <= n,
                forall|j: int| 0 <= j < i as int ==> self.engine.buffers@[j],
            decreases n - i,
        {
            if !self.engine.buffers[i] {
                proof {
                    assert(!self@.engine.buffers[i as int]);
                }
                return false;
            }
            i += 1;
        }
        true
    }

    /// Get the semantic schema, resolving and caching it on first access.
    ///
    /// The physical schema is fetched at most once per reader lifetime:
    /// later queries are served from the cache with no engine call.  On a
    /// failed resolution nothing is cached and the raw descriptor's buffer
    /// is still released.
    pub fn get_schema_info(&mut self) -> (r: Result<SchemaDescriptor, BridgeError>)
        requires
            reader_wf(old(self)@),
        ensures
            reader_wf(final(self)@),
            final(self)@ == spec_schema_step(old(self)@).0,
            schema_res_matches(r, spec_schema_step(old(self)@).1),
            old(self)@.cached_schema is None ==> (spec_effective_failure(
                old(self)@.engine.schema_failure,
            ) matches Some(c) ==> ({
                &&& r matches Err(e)
                &&& e.message@ == spec_compose_message(
                    spec_static_message(spec_translate_status(c)->Some_0),
                    old(self)@.engine.last_error,
                )
            })),
    {
        match &self.cached_schema {
            Some(s) => {
                return Ok(clone_schema(s));
            },
            None => {},
        }
        let fr = self.engine.fetch_schema();
        match fr {
            FetchSchemaResult::Fail(c) => {
                match translate_status(c) {
                    Some(code) => Err(BridgeError::new(code, self.engine.last_error.as_str())),
                    None => vstd::pervasive::unreached(),
                }
            },
            FetchSchemaResult::Fetched(fs) => {
                let rr = resolve(&fs.root, self.info.num_rows, self.info.num_batches);
                self.engine.release_schema(fs);
                proof {
                    assert(self@.engine.buffers =~= old(self)@.engine.buffers.push(true));
                }
                match rr {
                    Ok(s) => {
                        let out = clone_schema(&s);
                        self.cached_schema = Some(s);
                        Ok(out)
                    },
                    Err(e) => Err(e),
                }
            },
        }
    }

    /// Fetch and decode the next batch under the forward cursor.  The raw
    /// buffer is released before returning, on every path; exhaustion is
    /// reported as the `EndOfData` code, carrying its static message.
    pub fn read_next_batch(&mut self) -> (r: Result<DecodedBatch, BridgeError>)
        requires
            reader_wf(old(self)@),
        ensures
            reader_wf(final(self)@),
            final(self)@ == spec_next_batch_step(old(self)@).0,
            batch_res_matches(r, spec_next_batch_step(old(self)@).1),
            spec_schema_step(old(self)@).1 is Ok ==> (spec_effective_failure(
                old(self)@.engine.batch_failure,
            ) matches Some(c) ==> ({
                &&& r matches Err(e)
                &&& e.message@ == spec_compose_message(
                    spec_static_message(spec_translate_status(c)->Some_0),
                    old(self)@.engine.last_error,
                )
            })),
            spec_schema_step(old(self)@).1 is Ok && spec_effective_failure(
                old(self)@.engine.batch_failure,
            ) is None && old(self)@.engine.cursor >= old(self)@.engine.batches.len() ==> ({
                &&& r matches Err(e)
                &&& e.code == ErrorCode::EndOfData
                &&& e.message@ == spec_static_message(ErrorCode::EndOfData)
            }),
    {
        let schema = match self.get_schema_info() {
            Ok(s) => s,
            Err(e) => {
                return Err(e);
            },
        };
        let fr = self.engine.fetch_next();
        match fr {
            FetchBatchResult::Fail(c) => {
                match translate_status(c) {
                    Some(code) => Err(BridgeError::new(code, self.engine.last_error.as_str())),
                    None => vstd::pervasive::unreached(),
                }
            },
            FetchBatchResult::End => {
                proof {
                    reveal_strlit("");
                }
                Err(BridgeError::new(ErrorCode::EndOfData, ""))
            },
            FetchBatchResult::Fetched(fb) => {
                let dr = decode_batch(&fb.data, &schema);
                self.engine.release_batch(fb);
                proof {
                    assert(self@.engine.buffers =~= spec_next_batch_step(
                        old(self)@,
                    ).0.engine.buffers);
                }
                dr
            },
        }
    }

    /// Fetch and decode the batch at an explicit 0-based index, without
    /// disturbing the forward cursor.  An index at or past the batch count
    /// is rejected with `InvalidBatchIndex` before the engine is consulted.
    pub fn read_batch(&mut self, batch_index: u32) -> (r: Result<DecodedBatch, BridgeError>)
        requires
            reader_wf(old(self)@),
        ensures
            reader_wf(final(self)@),
            final(self)@ == spec_read_batch_step(old(self)@, batch_index as int).0,
            batch_res_matches(r, spec_read_batch_step(old(self)@, batch_index as int).1),
            (batch_index as int) < old(self)@.info.num_batches as int && spec_schema_step(
                old(self)@,
            ).1 is Ok ==> (spec_effective_failure(old(self)@.engine.batch_failure) matches Some(
                c,
            ) ==> ({
                &&& r matches Err(e)
                &&& e.message@ == spec_compose_message(
                    spec_static_message(spec_translate_status(c)->Some_0),
                    old(self)@.engine.last_error,
                )
            })),
            batch_index as int >= old(self)@.info.num_batches as int ==> ({
                &&& final(self)@ == old(self)@
                &&& match r {
                    Err(e) => e.code == ErrorCode::InvalidBatchIndex && e.message@
                        == spec_static_message(ErrorCode::InvalidBatchIndex),
                    Ok(_) => false,
                }
            }),
    {
        if batch_index >= self.info.num_batches {
            proof {
                reveal_strlit("");
            }
            return Err(BridgeError::new(ErrorCode::InvalidBatchIndex, ""));
        }
        let schema = match self.get_schema_info() {
            Ok(s) => s,
            Err(e) => {
                return Err(e);
            },
        };
        let fr = self.engine.fetch_by_index(batch_index);
        match fr {
            FetchBatchResult::Fail(c) => {
                match translate_status(c) {
                    Some(code) => Err(BridgeError::new(code, self.engine.last_error.as_str())),
                    None => vstd::pervasive::unreached(),
                }
            },
            FetchBatchResult::End => vstd::pervasive::unreached(),
            FetchBatchResult::Fetched(fb) => {
                let dr = decode_batch(&fb.data, &schema);
                self.engine.release_batch(fb);
                proof {
                    assert(self@.engine.buffers =~= spec_read_batch_step(
                        old(self)@,
                        batch_index as int,
                    ).0.engine.buffers);
                }
                dr
            },
        }
    }

    /// Rewind the forward cursor to the first batch.  The cached schema is
    /// not invalidated.
    pub fn reset(&mut self) -> (r: Result<(), BridgeError>)
        requires
            reader_wf(old(self)@),
        ensures
            reader_wf(final(self)@),
            final(self)@ == spec_reset_step(old(self)@).0,
            match r {
                Ok(_) => spec_reset_step(old(self)@).1 is Ok,
                Err(e) => spec_reset_step(old(self)@).1 matches Err(c) && e.code == c,
            },
    {
        match self.engine.reset() {
            Ok(_) => Ok(()),
            Err(c) => match translate_status(c) {
                Some(code) => Err(BridgeError::new(code, self.engine.last_error.as_str())),
                None => vstd::pervasive::unreached(),
            },
        }
    }

    /// Open a reader over an engine and resolve just the schema in one call.
    pub fn read_sas_schema(engine: MemEngine) -> (r: Result<SchemaDescriptor, BridgeError>)
        ensures
            engine@.batches.len() > u32::MAX as int ==> (r matches Err(e) && e.code
                == ErrorCode::OutOfMemory),
            engine@.batches.len() <= u32::MAX as int ==> schema_res_matches(
                r,
                spec_schema_step(spec_fresh_reader(engine@)).1,
            ),
    {
        let mut reader = match SasReader::new(engine) {
            Ok(rd) => rd,
            Err(e) => {
                return Err(e);
            },
        };
        reader.get_schema_info()
    }
}

/// Schema caching idempotence: once a schema query has succeeded, every
/// later query on the same reader returns the structurally identical
/// descriptor, leaves the reader untouched, and performs no additional
/// physical schema fetch.
pub proof fn lemma_schema_caching_idempotent(r: ReaderV)
    ensures
        ({
            let (r1, res1) = spec_schema_step(r);
            let (r2, res2) = spec_schema_step(r1);
            res1 is Ok ==> {
                &&& res2 == res1
                &&& r2 == r1
                &&& r1.engine.schema_fetches <= spec_count_up(r.engine.schema_fetches)
            }
        }),
{
}

/// A failed schema query caches nothing: the reader stays without a schema,
/// so no later query is ever served a descriptor that failed to resolve —
/// and the raw descriptor's buffer was still released.
pub proof fn lemma_unsupported_type_caches_nothing(r: ReaderV)
    ensures
        ({
            let (r1, res1) = spec_schema_step(r);
            &&& (res1 is Err ==> r1.cached_schema is None)
            &&& (all_released(r.engine) ==> all_released(r1.engine))
        }),
{
    let (r1, res1) = spec_schema_step(r);
    if res1 is Err {
        assert(r.cached_schema is None);
    }
    if all_released(r.engine) {
        lemma_ownership_schema_step(r);
    }
}

/// Ownership preservation: a schema query releases every buffer it obtains.
pub proof fn lemma_ownership_schema_step(r: ReaderV)
    requires
        all_released(r.engine),
    ensures
        all_released(spec_schema_step(r).0.engine),
{
    let b0 = r.engine.buffers;
    let b1 = spec_schema_step(r).0.engine.buffers;
    assert(b1 == b0 || b1 == b0.push(true));
    assert forall|i: int| 0 <= i < b1.len() implies b1[i] by {
        if i < b0.len() {
            assert(b0[i]);
        }
    }
}

/// Ownership preservation: a sequential batch fetch releases every buffer it
/// obtains.
pub proof fn lemma_ownership_next_batch_step(r: ReaderV)
    requires
        all_released(r.engine),
    ensures
        all_released(spec_next_batch_step(r).0.engine),
{
    lemma_ownership_schema_step(r);
    let r1 = spec_schema_step(r).0;
    let b1 = r1.engine.buffers;
    let b2 = spec_next_batch_step(r).0.engine.buffers;
    assert(b2 == b1 || b2 == b1.push(true));
    assert forall|i: int| 0 <= i < b2.len() implies b2[i] by {
        if i < b1.len() {
            assert(b1[i]);
        }
    }
}

/// Ownership preservation: a random-access batch fetch releases every buffer
/// it obtains.
pub proof fn lemma_ownership_read_batch_step(r: ReaderV, i: int)
    requires
        all_released(r.engine),
    ensures
        all_released(spec_read_batch_step(r, i).0.engine),
{
    lemma_ownership_schema_step(r);
    let r1 = spec_schema_step(r).0;
    let b1 = r1.engine.buffers;
    let b2 = spec_read_batch_step(r, i).0.engine.buffers;
    assert(b2 == r.engine.buffers || b2 == b1 || b2 == b1.push(true));
    assert forall|j: int| 0 <= j < b2.len() implies b2[j] by {
        if b2 == r.engine.buffers {
            assert(r.engine.buffers[j]);
        } else if j < b1.len() {
            assert(b1[j]);
        }
    }
}

} // verus!
