use datafusion_sharp_native::error::{ErrorCode, ErrorInfo};
use datafusion_sharp_native::stream::{
    CallOutcome, CursorState, Delivery, StreamCursor, StreamEvent,
};

#[test]
fn new_cursor_is_open() {
    let cursor = StreamCursor::new();
    assert_eq!(cursor.state, CursorState::Open);
    assert!(!cursor.is_exhausted());
    assert_eq!(cursor.begin_next(), Ok(()));
}

#[test]
fn three_batches_then_one_sentinel_then_refusal() {
    let mut cursor = StreamCursor::new();
    let batches = vec![vec![1u8, 2], vec![3u8], vec![4u8, 5, 6]];
    for batch in &batches {
        let outcome = cursor.stream_next(StreamEvent::Batch(batch.clone()));
        assert_eq!(outcome, CallOutcome::Delivered(Delivery::Bytes(batch.clone())));
        assert_eq!(cursor.state, CursorState::Emitting);
    }
    assert_eq!(
        cursor.stream_next(StreamEvent::End),
        CallOutcome::Delivered(Delivery::EndOfStream)
    );
    assert_eq!(cursor.state, CursorState::Exhausted);
    assert_eq!(
        cursor.stream_next(StreamEvent::End),
        CallOutcome::Refused(ErrorCode::InvalidArgument)
    );
    assert_eq!(
        cursor.stream_next(StreamEvent::Batch(vec![7])),
        CallOutcome::Refused(ErrorCode::InvalidArgument)
    );
    assert_eq!(cursor.state, CursorState::Exhausted);
}

#[test]
fn empty_stream_ends_at_once() {
    let mut cursor = StreamCursor::new();
    assert_eq!(
        cursor.stream_next(StreamEvent::End),
        CallOutcome::Delivered(Delivery::EndOfStream)
    );
    assert!(cursor.is_exhausted());
    assert_eq!(cursor.begin_next(), Err(ErrorCode::InvalidArgument));
}

#[test]
fn failure_mid_stream_is_a_data_frame_error_and_ends_the_cursor() {
    let mut cursor = StreamCursor::new();
    cursor.stream_next(StreamEvent::Batch(vec![1]));
    let outcome = cursor.stream_next(StreamEvent::Failed("disk gone".to_string()));
    assert_eq!(
        outcome,
        CallOutcome::Delivered(Delivery::Error(ErrorInfo::new(
            ErrorCode::DataFrameError,
            "disk gone"
        )))
    );
    assert!(cursor.is_exhausted());
    assert_eq!(
        cursor.stream_next(StreamEvent::Batch(vec![2])),
        CallOutcome::Refused(ErrorCode::InvalidArgument)
    );
}

#[test]
fn complete_next_reports_what_the_stream_gave() {
    let mut cursor = StreamCursor::new();
    assert_eq!(cursor.begin_next(), Ok(()));
    assert_eq!(
        cursor.complete_next(StreamEvent::Batch(vec![])),
        Delivery::Bytes(vec![])
    );
    assert_eq!(cursor.state, CursorState::Emitting);
    assert_eq!(cursor.begin_next(), Ok(()));
    assert_eq!(cursor.complete_next(StreamEvent::End), Delivery::EndOfStream);
    assert_eq!(cursor.state, CursorState::Exhausted);
}
