use sas_bridge::batch::RawBatch;
use sas_bridge::engine::MemEngine;
use sas_bridge::errors::{ErrorCode, SasArrowErrorCode};
use sas_bridge::reader::SasReader;
use sas_bridge::scalar::{RawPayload, RawScalar, ScalarValue, TimeUnit};
use sas_bridge::schema::{PhysicalType, RawField, RawSchemaRoot};
use sas_bridge::stream::SasBatchIterator;

fn num(n: i64) -> RawScalar {
    RawScalar { is_null: false, payload: RawPayload::Number(n) }
}

fn null_num() -> RawScalar {
    RawScalar { is_null: true, payload: RawPayload::Number(0) }
}

/// One date column and one datetime column, `n` single-row batches.
fn temporal_engine(n: usize) -> MemEngine {
    let schema = RawSchemaRoot::Record(vec![
        RawField { name: "day".to_string(), dtype: PhysicalType::Date32 },
        RawField { name: "stamp".to_string(), dtype: PhysicalType::Timestamp(TimeUnit::Second) },
    ]);
    let mut batches = Vec::new();
    for b in 0..n {
        batches.push(RawBatch {
            columns: vec![
                vec![num((18_700 + b as i64) * 1_000_000_000)],
                vec![num(315_619_200_000_000_000 + (b as i64) * 1_000_000_000)],
            ],
        });
    }
    MemEngine::new(schema, batches, n as u64, 1).unwrap()
}

#[test]
fn monotonic_exhaustion() {
    let n = 3;
    let mut it = SasBatchIterator::new(temporal_engine(n)).unwrap();
    for b in 0..n {
        let d = it.next().expect("a batch was due").expect("no error was due");
        assert_eq!(d.columns[0].values, vec![ScalarValue::Date(15047 + b as i64)]);
        assert_eq!(d.columns[1].values, vec![ScalarValue::DateTime((b as i64) * 1_000_000)]);
    }
    // The pull after the last batch terminates the stream cleanly.
    assert!(it.next().is_none());
    let buffers_at_termination = it.buffer_count();
    // Every further pull yields nothing and performs no transport call.
    assert!(it.next().is_none());
    assert!(it.next().is_none());
    assert_eq!(it.buffer_count(), buffers_at_termination);
    // One buffer per schema fetch plus one per batch, all released.
    assert_eq!(buffers_at_termination, n + 1);
    assert!(it.all_buffers_released());
    assert_eq!(it.schema_fetch_count(), 1);
}

#[test]
fn random_access_stream_equivalence() {
    let n = 4;
    let mut streamed = Vec::new();
    let mut it = SasBatchIterator::new(temporal_engine(n)).unwrap();
    while let Some(r) = it.next() {
        streamed.push(r.unwrap());
    }
    assert_eq!(streamed.len(), n);
    let mut reader = SasReader::new(temporal_engine(n)).unwrap();
    for (i, from_stream) in streamed.iter().enumerate() {
        let by_index = reader.read_batch(i as u32).unwrap();
        assert_eq!(&by_index, from_stream);
    }
}

#[test]
fn a_stream_error_is_terminal_and_yielded_exactly_once() {
    let mut engine = temporal_engine(2);
    engine.batch_failure = Some(SasArrowErrorCode::SasArrowErrorInvalidFile);
    engine.last_error = "truncated page".to_string();
    let mut it = SasBatchIterator::new(engine).unwrap();
    let e = it.next().expect("the error was due").unwrap_err();
    assert_eq!(e.code, ErrorCode::InvalidFile);
    assert_eq!(e.message, "Invalid SAS file: truncated page");
    // Terminal thereafter: no yield, no further transport calls.
    let buffers = it.buffer_count();
    assert!(it.next().is_none());
    assert!(it.next().is_none());
    assert_eq!(it.buffer_count(), buffers);
}

#[test]
fn an_empty_reader_terminates_on_the_first_pull() {
    let mut it = SasBatchIterator::new(temporal_engine(0)).unwrap();
    assert!(it.next().is_none());
    assert!(it.next().is_none());
    // The schema query still ran once for the first pull.
    assert_eq!(it.schema_fetch_count(), 1);
    assert!(it.all_buffers_released());
}

#[test]
fn the_iterator_serves_schema_and_info_without_reading_data() {
    let mut it = SasBatchIterator::new(temporal_engine(2)).unwrap();
    let s = it.schema().unwrap();
    assert_eq!(s.columns.len(), 2);
    assert_eq!(s.columns[0].name, "day");
    assert_eq!(it.info().num_batches, 2);
    assert_eq!(it.buffer_count(), 1);
    // The streaming pulls reuse the cached schema.
    it.next().unwrap().unwrap();
    assert_eq!(it.schema_fetch_count(), 1);
}

#[test]
fn explicit_nulls_stream_through() {
    let schema = RawSchemaRoot::Record(vec![RawField {
        name: "maybe".to_string(),
        dtype: PhysicalType::Float64,
    }]);
    let batch = RawBatch { columns: vec![vec![num(5_000_000_000), null_num()]] };
    let engine = MemEngine::new(schema, vec![batch], 2, 2).unwrap();
    let mut it = SasBatchIterator::new(engine).unwrap();
    let d = it.next().unwrap().unwrap();
    assert_eq!(d.columns[0].values, vec![ScalarValue::Numeric(5_000_000_000), ScalarValue::Null]);
}

#[test]
fn test_read_sas_all() {
    let mut reader = SasReader::new(temporal_engine(3)).unwrap();
    let mut rows = 0;
    loop {
        match reader.read_next_batch() {
            Ok(df) => {
                rows += df.columns.get(0).map_or(0, |c| c.values.len());
            },
            Err(e) => {
                assert_eq!(e.code, ErrorCode::EndOfData);
                break;
            },
        }
    }
    assert_eq!(rows, 3);
}

#[test]
fn test_streaming_read() {
    let iterator = SasBatchIterator::new(temporal_engine(2));
    match iterator {
        Ok(mut iter) => {
            let mut i = 0;
            while let Some(batch_result) = iter.next() {
                match batch_result {
                    Ok(batch) => {
                        println!("Batch {}: {} rows", i, batch.columns[0].values.len());
                    },
                    Err(e) => {
                        println!("Error in batch {}: {}", i, e.message);
                        break;
                    },
                }
                i += 1;
            }
            assert_eq!(i, 2);
        },
        Err(e) => println!("Error creating iterator: {}", e.message),
    }
}

#[test]
fn test_schema_only() {
    let result = SasReader::read_sas_schema(temporal_engine(1));
    match result {
        Ok(schema) => {
            println!("Schema: {:?}", schema);
            for c in schema.columns.iter() {
                println!("Column: {} -> {:?}", c.name, c.semantic_type);
            }
            assert_eq!(schema.columns.len(), 2);
        },
        Err(e) => println!("Error reading schema: {}", e.message),
    }
}
