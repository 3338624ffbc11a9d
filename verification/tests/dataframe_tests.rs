use datafusion_sharp_native::common::{invoke_callback, BytesData};
use datafusion_sharp_native::dataframe::{
    datafusion_dataframe_destroy, decoded_write_options,
    operation_result, row_count, show_limit, write_arguments, DataFrameWrapper, Operation,
    WriteRequest,
};
use datafusion_sharp_native::error::{ErrorCode, ErrorInfo};
use datafusion_sharp_native::runtime::{runtime_destroy, runtime_new, runtime_share};

#[test]
fn each_operation_has_its_failure_code() {
    assert_eq!(Operation::RegisterTable.failure_code(), ErrorCode::TableRegistrationFailed);
    assert_eq!(Operation::Sql.failure_code(), ErrorCode::SqlError);
    for op in [
        Operation::Count,
        Operation::Show,
        Operation::ToString,
        Operation::Schema,
        Operation::Collect,
        Operation::ExecuteStream,
        Operation::StreamNext,
        Operation::Write,
    ] {
        assert_eq!(op.failure_code(), ErrorCode::DataFrameError);
    }
}

#[test]
fn failed_registration_is_reported_with_the_engine_text() {
    let r: Result<(), ErrorInfo> = operation_result(
        Operation::RegisterTable,
        Err("No such file or directory: /nowhere/t.csv".to_string()),
    );
    assert_eq!(
        r,
        Err(ErrorInfo::new(
            ErrorCode::TableRegistrationFailed,
            "No such file or directory: /nowhere/t.csv"
        ))
    );
}

#[test]
fn invalid_sql_delivers_an_error_and_no_result() {
    let r: Result<u32, ErrorInfo> =
        operation_result(Operation::Sql, Err("sql parser error: SELEC".to_string()));
    let args = invoke_callback(&r, 11);
    assert!(args.result.is_none());
    let error = args.error.unwrap();
    assert_eq!(error.code, ErrorCode::SqlError);
    assert_eq!(error.message.as_opt_slice(), Some("sql parser error: SELEC".as_bytes()));
    assert_eq!(args.user_data, 11);
}

#[test]
fn successful_operation_delivers_the_value() {
    let r: Result<u64, ErrorInfo> = operation_result(Operation::Count, Ok(3));
    assert_eq!(r, Ok(3));
    let args = invoke_callback(&r, 1);
    assert_eq!(args.result, Some(&3));
    assert!(args.error.is_none());
}

#[test]
fn show_limit_zero_is_unbounded() {
    assert_eq!(show_limit(0), None);
    assert_eq!(show_limit(1), Some(1));
    assert_eq!(show_limit(20), Some(20));
    assert_eq!(show_limit(u64::MAX), Some(u64::MAX as usize));
}

#[test]
fn row_count_is_reported_as_u64() {
    assert_eq!(row_count(0), 0);
    assert_eq!(row_count(3), 3);
    assert_eq!(row_count(usize::MAX), usize::MAX as u64);
}

#[test]
fn write_arguments_copy_the_option_bytes() {
    let options = [8u8, 1, 16, 44];
    let r = write_arguments(true, Some(b"/tmp/out.csv"), &BytesData::new(&options));
    assert_eq!(
        r,
        Ok(WriteRequest { path: "/tmp/out.csv".to_string(), options: Some(options.to_vec()) })
    );
    let r = write_arguments(true, Some(b"out.json"), &BytesData::null());
    assert_eq!(r, Ok(WriteRequest { path: "out.json".to_string(), options: None }));
}

#[test]
fn write_arguments_refuse_missing_or_malformed_input() {
    let none = BytesData::null();
    assert_eq!(write_arguments(false, Some(b"p"), &none), Err(ErrorCode::InvalidArgument));
    assert_eq!(write_arguments(true, None, &none), Err(ErrorCode::InvalidArgument));
    assert_eq!(write_arguments(true, Some(&[0xff]), &none), Err(ErrorCode::InvalidArgument));
}

#[test]
fn undecodable_write_options_are_invalid_before_execution() {
    assert_eq!(decoded_write_options::<u8>(None), Ok(None));
    assert_eq!(decoded_write_options(Some(Ok(2u8))), Ok(Some(2u8)));
    assert_eq!(
        decoded_write_options::<u8>(Some(Err("unexpected end of buffer".to_string()))),
        Err(ErrorCode::InvalidArgument)
    );
}

#[test]
fn result_handle_keeps_the_runtime_alive() {
    let runtime = runtime_new(1, 1, 2).unwrap();
    let mut df = Some(DataFrameWrapper::new(runtime_share(&runtime), "plan"));
    assert_eq!(df.as_ref().unwrap().inner, "plan");
    let (code, runtime) = runtime_destroy(Some(runtime), 0);
    assert_eq!(code, ErrorCode::RuntimeShutdownFailed);
    assert_eq!(datafusion_dataframe_destroy(&mut df), ErrorCode::Success);
    assert!(df.is_none());
    assert_eq!(datafusion_dataframe_destroy(&mut df), ErrorCode::Success);
    assert_eq!(runtime_destroy(runtime, 0).0, ErrorCode::Success);
}

#[test]
fn panic_in_a_task_is_reported_as_panic() {
    let r: Result<u64, ErrorInfo> =
        datafusion_sharp_native::dataframe::task_result(Operation::Collect, Err("index out of bounds".to_string()));
    assert_eq!(r, Err(ErrorInfo::new(ErrorCode::Panic, "index out of bounds")));
    let r: Result<u64, ErrorInfo> = datafusion_sharp_native::dataframe::task_result(
        Operation::Collect,
        Ok(Err("out of memory".to_string())),
    );
    assert_eq!(r, Err(ErrorInfo::new(ErrorCode::DataFrameError, "out of memory")));
    let r: Result<u64, ErrorInfo> =
        datafusion_sharp_native::dataframe::task_result(Operation::Count, Ok(Ok(12)));
    assert_eq!(r, Ok(12));
}

#[test]
fn collect_puts_the_header_once_before_the_frames_in_order() {
    let frames = vec![Ok(vec![3u8]), Ok(vec![]), Ok(vec![4u8, 5])];
    assert_eq!(
        datafusion_sharp_native::dataframe::collect_stream(vec![1, 2], &frames),
        Ok(vec![1, 2, 3, 4, 5])
    );
}

#[test]
fn collect_without_batches_is_the_header_alone() {
    assert_eq!(
        datafusion_sharp_native::dataframe::collect_stream(vec![9, 9, 9], &vec![]),
        Ok(vec![9, 9, 9])
    );
    assert_eq!(datafusion_sharp_native::dataframe::collect_stream(vec![], &vec![]), Ok(vec![]));
}

#[test]
fn collect_reports_the_first_failure_as_a_data_frame_error() {
    let frames = vec![
        Ok(vec![1u8]),
        Err("type mismatch in column b".to_string()),
        Ok(vec![2u8]),
        Err("later failure".to_string()),
    ];
    assert_eq!(
        datafusion_sharp_native::dataframe::collect_stream(vec![0], &frames),
        Err(ErrorInfo::new(ErrorCode::DataFrameError, "type mismatch in column b"))
    );
}

#[test]
fn task_outcome_keeps_the_tasks_own_error() {
    let own: Result<(), ErrorInfo> = datafusion_sharp_native::dataframe::task_outcome(Ok(Err(ErrorInfo::with_message(
        ErrorCode::InvalidArgument,
        "bad options table",
    ))));
    assert_eq!(own, Err(ErrorInfo::with_message(ErrorCode::InvalidArgument, "bad options table")));
    let panicked: Result<(), ErrorInfo> = datafusion_sharp_native::dataframe::task_outcome(Err("overflow".to_string()));
    assert_eq!(panicked, Err(ErrorInfo::with_message(ErrorCode::Panic, "overflow")));
    assert_eq!(datafusion_sharp_native::dataframe::task_outcome(Ok(Ok(5u8))), Ok(5u8));
}
