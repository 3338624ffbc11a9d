use std::sync::Arc;

use arrow_array::{ArrayRef, Int32Array, RecordBatch, StringArray};
use arrow_ipc::reader::StreamReader;
use arrow_schema::{DataType, Field, Schema};

use datafusion_sharp_native::dataframe::{
    collect_stream, datafusion_dataframe_stream_destroy, DataFrameStreamWrapper,
};
use datafusion_sharp_native::error::{ErrorCode, ErrorInfo};
use datafusion_sharp_native::ipc::{open_writer, schema_bytes, writer_take};
use datafusion_sharp_native::runtime::{runtime_destroy, runtime_new, runtime_share};
use datafusion_sharp_native::stream::{CallOutcome, CursorState, Delivery};

fn two_columns() -> Schema {
    Schema::new(vec![
        Field::new("id", DataType::Int32, false),
        Field::new("name", DataType::Utf8, true),
    ])
}

fn rows(ids: Vec<i32>, names: Vec<&str>) -> RecordBatch {
    let columns: Vec<ArrayRef> =
        vec![Arc::new(Int32Array::from(ids)), Arc::new(StringArray::from(names))];
    RecordBatch::try_new(Arc::new(two_columns()), columns).unwrap()
}

fn decode(bytes: &[u8]) -> (Schema, Vec<usize>) {
    let reader = StreamReader::try_new(bytes, None).unwrap();
    let schema = reader.schema().as_ref().clone();
    let counts = reader.map(|batch| batch.unwrap().num_rows()).collect();
    (schema, counts)
}

#[test]
fn schema_bytes_describe_the_schema_and_hold_no_batch() {
    let bytes = schema_bytes(&two_columns()).unwrap();
    assert!(!bytes.is_empty());
    let (schema, counts) = decode(&bytes);
    assert_eq!(schema, two_columns());
    assert_eq!(schema.fields().len(), 2);
    assert!(counts.is_empty());
}

#[test]
fn schema_bytes_are_the_same_on_every_call() {
    let first = schema_bytes(&two_columns()).unwrap();
    let second = schema_bytes(&two_columns()).unwrap();
    assert_eq!(first, second);
    let other = schema_bytes(&Schema::empty()).unwrap();
    assert_ne!(first, other);
}

#[test]
fn writer_take_hands_out_the_header_and_empties_the_buffer() {
    let mut writer = open_writer(&two_columns()).unwrap();
    let held = writer.get_ref().clone();
    assert!(!held.is_empty());
    let taken = writer_take(&mut writer);
    assert_eq!(taken, held);
    assert_eq!(taken, schema_bytes(&two_columns()).unwrap());
    assert!(writer.get_ref().is_empty());
    assert!(writer_take(&mut writer).is_empty());
}

#[test]
fn collected_frames_decode_to_two_fields_and_three_rows() {
    let mut writer = open_writer(&two_columns()).unwrap();
    let header = writer_take(&mut writer);
    let batches = vec![rows(vec![1, 2], vec!["a", "b"]), rows(vec![3], vec!["c"])];
    let mut frames = Vec::new();
    for batch in &batches {
        writer.write(batch).unwrap();
        frames.push(Ok(writer_take(&mut writer)));
    }
    let buffer = collect_stream(header, &frames).unwrap();
    let (schema, counts) = decode(&buffer);
    assert_eq!(schema.fields().len(), 2);
    assert_eq!(counts, vec![2, 1]);
    let counted: usize = batches.iter().map(RecordBatch::num_rows).sum();
    assert_eq!(counts.iter().sum::<usize>(), counted);
    assert_eq!(counted, 3);
}

#[test]
fn collected_frames_of_an_empty_result_decode_to_the_schema_alone() {
    let mut writer = open_writer(&two_columns()).unwrap();
    let header = writer_take(&mut writer);
    let buffer = collect_stream(header, &vec![]).unwrap();
    assert_eq!(buffer, schema_bytes(&two_columns()).unwrap());
    let (schema, counts) = decode(&buffer);
    assert_eq!(schema, two_columns());
    assert!(counts.is_empty());
}

#[test]
fn stream_cursor_delivers_each_batch_once_and_then_ends() {
    let runtime = runtime_new(1, 1, 2).unwrap();
    let mut cursor =
        DataFrameStreamWrapper::open(runtime_share(&runtime), &two_columns(), "stream").unwrap();
    assert_eq!(cursor.cursor.state, CursorState::Open);
    assert_eq!(DataFrameStreamWrapper::begin_next(Some(&cursor)), ErrorCode::Success);

    let batches = vec![rows(vec![1, 2, 3], vec!["a", "b", "c"]), rows(vec![4, 5], vec!["d", "e"])];
    let mut delivered: Vec<u8> = Vec::new();
    for batch in &batches {
        cursor.writer.write(batch).unwrap();
        match cursor.stream_next(Some(Ok(()))) {
            CallOutcome::Delivered(Delivery::Bytes(bytes)) => {
                assert!(!bytes.is_empty());
                delivered.extend_from_slice(&bytes);
            }
            other => panic!("expected a batch, got {:?}", other),
        }
        assert!(cursor.writer.get_ref().is_empty());
        assert_eq!(cursor.cursor.state, CursorState::Emitting);
    }
    let (schema, counts) = decode(&delivered);
    assert_eq!(schema, two_columns());
    assert_eq!(counts, vec![3, 2]);

    assert_eq!(cursor.stream_next(None), CallOutcome::Delivered(Delivery::EndOfStream));
    assert_eq!(cursor.cursor.state, CursorState::Exhausted);
    assert_eq!(DataFrameStreamWrapper::begin_next(Some(&cursor)), ErrorCode::InvalidArgument);
    assert_eq!(cursor.stream_next(None), CallOutcome::Refused(ErrorCode::InvalidArgument));
    assert_eq!(
        cursor.stream_next(Some(Ok(()))),
        CallOutcome::Refused(ErrorCode::InvalidArgument)
    );
    assert_eq!(cursor.stream, "stream");

    let mut slot = Some(cursor);
    assert_eq!(datafusion_dataframe_stream_destroy(&mut slot), ErrorCode::Success);
    assert!(slot.is_none());
    assert_eq!(runtime_destroy(Some(runtime), 0).0, ErrorCode::Success);
}

#[test]
fn first_delivery_of_a_stream_carries_the_schema_header() {
    let runtime = runtime_new(1, 1, 2).unwrap();
    let mut cursor =
        DataFrameStreamWrapper::open(runtime_share(&runtime), &two_columns(), ()).unwrap();
    cursor.writer.write(&rows(vec![7], vec!["x"])).unwrap();
    let CallOutcome::Delivered(Delivery::Bytes(first)) = cursor.stream_next(Some(Ok(()))) else {
        panic!("expected a batch");
    };
    let header = schema_bytes(&two_columns()).unwrap();
    assert!(first.starts_with(&header));
    let (schema, counts) = decode(&first);
    assert_eq!(schema.fields().len(), 2);
    assert_eq!(counts, vec![1]);
    drop(cursor);
    assert_eq!(runtime_destroy(Some(runtime), 0).0, ErrorCode::Success);
}

#[test]
fn failure_mid_stream_drops_the_buffer_and_ends_the_cursor() {
    let runtime = runtime_new(1, 1, 2).unwrap();
    let mut cursor =
        DataFrameStreamWrapper::open(runtime_share(&runtime), &two_columns(), ()).unwrap();
    cursor.writer.write(&rows(vec![1], vec!["a"])).unwrap();
    assert_eq!(
        cursor.stream_next(Some(Err("connection reset".to_string()))),
        CallOutcome::Delivered(Delivery::Error(ErrorInfo::with_message(
            ErrorCode::DataFrameError,
            "connection reset"
        )))
    );
    assert!(cursor.writer.get_ref().is_empty());
    assert_eq!(cursor.cursor.state, CursorState::Exhausted);
    assert_eq!(
        cursor.stream_next(Some(Ok(()))),
        CallOutcome::Refused(ErrorCode::InvalidArgument)
    );
    assert_eq!(DataFrameStreamWrapper::<()>::begin_next(None), ErrorCode::InvalidArgument);
    drop(cursor);
    assert_eq!(runtime_destroy(Some(runtime), 0).0, ErrorCode::Success);
}

fn dictionary_of_dictionary() -> Schema {
    let inner = DataType::Dictionary(Box::new(DataType::Int8), Box::new(DataType::Utf8));
    let outer = DataType::Dictionary(Box::new(DataType::Int8), Box::new(inner));
    Schema::new(vec![Field::new("nested", outer, true)])
}

#[test]
fn a_schema_that_cannot_be_framed_is_a_data_frame_error() {
    let opened = open_writer(&dictionary_of_dictionary());
    let error = opened.err().unwrap();
    assert_eq!(error.code, ErrorCode::DataFrameError);
    assert!(error.message.contains("nested"));
    let bytes = schema_bytes(&dictionary_of_dictionary());
    assert_eq!(bytes, Err(error));
}

#[test]
fn an_opened_writer_holds_the_schema_header_and_nothing_else() {
    let plain = open_writer(&two_columns()).unwrap();
    assert_eq!(plain.get_ref(), &schema_bytes(&two_columns()).unwrap());
    let empty = open_writer(&Schema::empty()).unwrap();
    assert_eq!(empty.get_ref(), &schema_bytes(&Schema::empty()).unwrap());
    assert_ne!(plain.get_ref(), empty.get_ref());
}

#[test]
fn schema_bytes_do_not_depend_on_the_order_metadata_was_added_in() {
    let mut forward = std::collections::HashMap::new();
    forward.insert("a".to_string(), "1".to_string());
    forward.insert("b".to_string(), "2".to_string());
    forward.insert("c".to_string(), "3".to_string());
    let mut backward = std::collections::HashMap::new();
    backward.insert("c".to_string(), "3".to_string());
    backward.insert("b".to_string(), "2".to_string());
    backward.insert("a".to_string(), "1".to_string());
    let first = two_columns().with_metadata(forward);
    let second = two_columns().with_metadata(backward);
    assert_eq!(schema_bytes(&first).unwrap(), schema_bytes(&second).unwrap());
    assert_ne!(schema_bytes(&first).unwrap(), schema_bytes(&two_columns()).unwrap());
}
