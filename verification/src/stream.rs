//! The stream controller: a forward-only, stateful cursor that turns the
//! pull-based batch fetch into a lazy, finite, non-restartable sequence of
//! decoded batches.  It tracks a terminal state so that no further transport
//! call happens after end-of-data or a fatal error.

use vstd::prelude::*;
use crate::batch::{DecodedBatch, DecodedColV, spec_decode_batch};
use crate::engine::{MemEngine, spec_effective_failure};
use crate::errors::{BridgeError, ErrorCode};
use crate::reader::{
    ReaderV, SasArrowReaderInfo, SasReader, reader_wf, schema_res_matches, spec_next_batch_step,
    spec_read_batch_step, spec_schema_step,
};
use crate::schema::SchemaDescriptor;

verus! {

/// Mathematical model of the stream controller.
pub struct IterV {
    pub reader: ReaderV,
    pub finished: bool,
}

/// A forward-only iterator over a reader's batches.  Once terminal — after
/// end-of-data or after the first error, which is yielded exactly once — it
/// stays terminal and never touches the transport again.  Restarting means
/// explicitly building a new iterator over a reset transport.
pub struct SasBatchIterator {
    reader: SasReader,
    finished: bool,
}

impl View for SasBatchIterator {
    type V = IterV;

    closed spec fn view(&self) -> IterV {
        IterV { reader: self.reader@, finished: self.finished }
    }
}

/// What one pull on the stream does.  In the terminal state: nothing, and
/// the pull yields nothing.  Otherwise one sequential batch fetch runs; a
/// decoded batch keeps the stream live, the end-of-data signal ends it
/// cleanly with no yield, and any other error ends it while being yielded
/// this one time.
pub open spec fn spec_iter_step(it: IterV) -> (IterV, Option<Result<Seq<DecodedColV>, ErrorCode>>) {
    if it.finished {
        (it, None)
    } else {
        let (r1, res) = spec_next_batch_step(it.reader);
        match res {
            Ok(d) => (IterV { reader: r1, finished: false }, Some(Ok(d))),
            Err(c) => if c == ErrorCode::EndOfData {
                (IterV { reader: r1, finished: true }, None)
            } else {
                (IterV { reader: r1, finished: true }, Some(Err(c)))
            },
        }
    }
}

/// The stream state after `n` pulls.
pub open spec fn spec_iter_run(it: IterV, n: nat) -> IterV
    decreases n,
{
    if n == 0 {
        it
    } else {
        spec_iter_step(spec_iter_run(it, (n - 1) as nat)).0
    }
}

/// What the pull after `n` earlier pulls yields.
pub open spec fn spec_iter_yield(it: IterV, n: nat) -> Option<Result<Seq<DecodedColV>, ErrorCode>> {
    spec_iter_step(spec_iter_run(it, n)).1
}

/// The executable pull result refines the model's.
pub open spec fn iter_res_matches(
    r: Option<Result<DecodedBatch, BridgeError>>,
    v: Option<Result<Seq<DecodedColV>, ErrorCode>>,
) -> bool {
    match r {
        None => v is None,
        Some(Ok(d)) => v matches Some(Ok(dv)) && d@ == dv,
        Some(Err(e)) => v matches Some(Err(c)) && e.code == c,
    }
}

impl SasBatchIterator {
    /// Build a stream over a fresh reader for the given engine.
    pub fn new(engine: MemEngine) -> (r: Result<SasBatchIterator, BridgeError>)
        ensures
            match r {
                Ok(it) => {
                    &&& engine@.batches.len() <= u32::MAX as int
                    &&& it@.reader == crate::reader::spec_fresh_reader(engine@)
                    &&& !it@.finished
                    &&& reader_wf(it@.reader)
                },
                Err(e) => {
                    &&& e.code == ErrorCode::OutOfMemory
                    &&& engine@.batches.len() > u32::MAX as int
                },
            },
    {
        match SasReader::new(engine) {
            Ok(reader) => Ok(SasBatchIterator { reader, finished: false }),
            Err(e) => Err(e),
        }
    }

    /// The schema, without reading any data; resolved and cached on first
    /// use exactly as by the reader itself.
    pub fn schema(&mut self) -> (r: Result<SchemaDescriptor, BridgeError>)
        requires
            reader_wf(old(self)@.reader),
        ensures
            reader_wf(final(self)@.reader),
            final(self)@.reader == spec_schema_step(old(self)@.reader).0,
            final(self)@.finished == old(self)@.finished,
            schema_res_matches(r, spec_schema_step(old(self)@.reader).1),
    {
        self.reader.get_schema_info()
    }

    /// The reader metadata.
    pub fn info(&self) -> (r: SasArrowReaderInfo)
        ensures
            r == self@.reader.info,
    {
        self.reader.info()
    }

    /// Instrumentation of the underlying engine: physical schema fetches.
    pub fn schema_fetch_count(&self) -> (n: u64)
        ensures
            n as int == self@.reader.engine.schema_fetches,
    {
        self.reader.schema_fetch_count()
    }

    /// Instrumentation of the underlying engine: buffers ever handed out.
    pub fn buffer_count(&self) -> (n: usize)
        ensures
            n as int == self@.reader.engine.buffers.len(),
    {
        self.reader.buffer_count()
    }

    /// Instrumentation of the underlying engine: every buffer released.
    pub fn all_buffers_released(&self) -> (b: bool)
        ensures
            b == crate::engine::all_released(self@.reader.engine),
    {
        self.reader.all_buffers_released()
    }

    /// Pull the next decoded batch, or nothing once the stream is terminal.
    pub fn next(&mut self) -> (r: Option<Result<DecodedBatch, BridgeError>>)
        requires
            reader_wf(old(self)@.reader),
        ensures
            reader_wf(final(self)@.reader),
            final(self)@ == spec_iter_step(old(self)@).0,
            iter_res_matches(r, spec_iter_step(old(self)@).1),
    {
        if self.finished {
            return None;
        }
        match self.reader.read_next_batch() {
            Ok(d) => Some(Ok(d)),
            Err(e) => {
                self.finished = true;
                if e.code == ErrorCode::EndOfData {
                    None
                } else {
                    Some(Err(e))
                }
            },
        }
    }
}

/// A stream in its initial state over an intact engine: not terminal, cursor
/// at the first batch, no injected batch failure, a schema query that
/// succeeds, and every batch decodable under the resolved schema.
pub open spec fn stream_ok(it: IterV) -> bool {
    &&& !it.finished
    &&& reader_wf(it.reader)
    &&& it.reader.engine.cursor == 0
    &&& spec_effective_failure(it.reader.engine.batch_failure) is None
    &&& spec_schema_step(it.reader).1 is Ok
    &&& forall|j: int|
        0 <= j < it.reader.engine.batches.len() ==> #[trigger] spec_decode_batch(
            it.reader.engine.batches[j],
            spec_schema_step(it.reader).1->Ok_0,
        ) is Some
}

/// The stream invariant: after `k` pulls of a stream over `n >= k` batches,
/// the stream is still live, the cursor stands at batch `k`, the engine's
/// data and the metadata are untouched, and the schema query answers as it
/// did at the start.
pub proof fn lemma_stream_invariant(it: IterV, k: nat)
    requires
        stream_ok(it),
        k <= it.reader.engine.batches.len(),
    ensures
        ({
            let itk = spec_iter_run(it, k);
            &&& !itk.finished
            &&& itk.reader.engine.cursor == k
            &&& itk.reader.engine.batches == it.reader.engine.batches
            &&& itk.reader.engine.batch_failure == it.reader.engine.batch_failure
            &&& itk.reader.info == it.reader.info
            &&& reader_wf(itk.reader)
            &&& spec_schema_step(itk.reader).1 == spec_schema_step(it.reader).1
        }),
    decreases k,
{
    if k > 0 {
        lemma_stream_invariant(it, (k - 1) as nat);
        let itp = spec_iter_run(it, (k - 1) as nat);
        let s = spec_schema_step(it.reader).1->Ok_0;
        assert(spec_decode_batch(it.reader.engine.batches[k - 1], s) is Some);
        assert(spec_iter_run(it, k) == spec_iter_step(itp).0);
    }
}

/// Monotonic exhaustion: a stream over `n` batches yields the `n` decoded
/// batches in order; the pull after them yields nothing; and every later
/// pull also yields nothing while leaving the whole state — transport
/// included — exactly as it was after the terminating pull.
pub proof fn lemma_monotonic_exhaustion(it: IterV, k: nat)
    requires
        stream_ok(it),
    ensures
        ({
            let n = it.reader.engine.batches.len();
            let s = spec_schema_step(it.reader).1->Ok_0;
            &&& (k < n ==> spec_iter_yield(it, k) == Some(
                Ok::<Seq<DecodedColV>, ErrorCode>(
                    spec_decode_batch(it.reader.engine.batches[k as int], s)->Some_0,
                ),
            ))
            &&& (k >= n ==> spec_iter_yield(it, k) is None)
            &&& spec_iter_run(it, (n + 1) as nat).finished
            &&& (k >= n + 1 ==> spec_iter_run(it, k) == spec_iter_run(it, (n + 1) as nat))
        }),
    decreases k,
{
    let n = it.reader.engine.batches.len();
    let s = spec_schema_step(it.reader).1->Ok_0;
    lemma_stream_invariant(it, n);
    let itn = spec_iter_run(it, n);
    assert(spec_iter_run(it, (n + 1) as nat) == spec_iter_step(itn).0);
    if k < n {
        lemma_stream_invariant(it, k);
        let itk = spec_iter_run(it, k);
        assert(spec_decode_batch(it.reader.engine.batches[k as int], s) is Some);
        assert(spec_iter_yield(it, k) == spec_iter_step(itk).1);
    } else if k == n {
        assert(spec_iter_yield(it, k) == spec_iter_step(itn).1);
    } else {
        lemma_monotonic_exhaustion(it, (k - 1) as nat);
        assert(spec_iter_run(it, k) == spec_iter_step(spec_iter_run(it, (k - 1) as nat)).0);
        if k - 1 >= n + 1 {
            assert(spec_iter_run(it, (k - 1) as nat) == spec_iter_run(it, (n + 1) as nat));
        }
    }
}

/// Random-access/stream equivalence: for every valid batch index, fetching
/// that batch by explicit index from the stream's starting reader decodes to
/// exactly the batch the stream yields at that position.
pub proof fn lemma_random_access_stream_equivalence(it: IterV, i: nat)
    requires
        stream_ok(it),
        i < it.reader.engine.batches.len(),
    ensures
        ({
            let s = spec_schema_step(it.reader).1->Ok_0;
            let d = spec_decode_batch(it.reader.engine.batches[i as int], s)->Some_0;
            &&& spec_iter_yield(it, i) == Some(Ok::<Seq<DecodedColV>, ErrorCode>(d))
            &&& spec_read_batch_step(it.reader, i as int).1 == Ok::<Seq<DecodedColV>, ErrorCode>(d)
        }),
{
    lemma_monotonic_exhaustion(it, i);
    let s = spec_schema_step(it.reader).1->Ok_0;
    assert(spec_decode_batch(it.reader.engine.batches[i as int], s) is Some);
    assert(i < it.reader.info.num_batches as int);
}

} // verus!
