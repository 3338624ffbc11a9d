use datafusion_sharp_native::common::{
    invoke_callback, invoke_callback_error, invoke_callback_null_result, BytesData, CallbackArgs,
    ErrorInfoData,
};
use datafusion_sharp_native::error::{ErrorCode, ErrorInfo};

#[test]
fn bytes_data_describes_a_slice() {
    let bytes = [1u8, 2, 3, 4, 5];
    let data = BytesData::new(&bytes);
    assert_eq!(data.len, 5);
    assert_eq!(data.data, Some(&bytes[..]));
    assert_eq!(data.as_opt_slice(), Some(&bytes[..]));
}

#[test]
fn bytes_data_of_an_empty_slice_is_not_null() {
    let bytes: [u8; 0] = [];
    let data = BytesData::new(&bytes);
    assert_eq!(data.len, 0);
    assert_eq!(data.as_opt_slice(), Some(&bytes[..]));
}

#[test]
fn bytes_data_null_has_no_slice() {
    let data = BytesData::null();
    assert_eq!(data.len, 0);
    assert_eq!(data.data, None);
    assert_eq!(data.as_opt_slice(), None);
}

#[test]
fn bytes_data_reads_only_the_recorded_length() {
    let bytes = [9u8, 8, 7, 6];
    let data = BytesData { data: Some(&bytes), len: 2 };
    assert_eq!(data.as_opt_slice(), Some(&bytes[..2]));
}

#[test]
fn error_info_data_borrows_the_message_bytes() {
    let e = ErrorInfo::new(ErrorCode::TableRegistrationFailed, "no such file");
    let data = ErrorInfoData::new(&e);
    assert_eq!(data.code, ErrorCode::TableRegistrationFailed);
    assert_eq!(data.message.len, 12);
    assert_eq!(data.message.as_opt_slice(), Some("no such file".as_bytes()));
}

#[test]
fn error_info_data_counts_bytes_not_characters() {
    let e = ErrorInfo::new(ErrorCode::SqlError, "é");
    let data = ErrorInfoData::new(&e);
    assert_eq!(data.message.len, 2);
    assert_eq!(data.message.as_opt_slice(), Some(&[0xc3u8, 0xa9][..]));
}

#[test]
fn callback_for_success_carries_only_the_value() {
    let result: Result<u64, ErrorInfo> = Ok(3);
    let args = invoke_callback(&result, 77);
    assert_eq!(args.result, Some(&3u64));
    assert!(args.error.is_none());
    assert_eq!(args.user_data, 77);
}

#[test]
fn callback_for_failure_carries_only_the_error() {
    let result: Result<u64, ErrorInfo> = Err(ErrorInfo::new(ErrorCode::DataFrameError, "boom"));
    let args = invoke_callback(&result, u64::MAX);
    assert!(args.result.is_none());
    let error = args.error.unwrap();
    assert_eq!(error.code, ErrorCode::DataFrameError);
    assert_eq!(error.message.as_opt_slice(), Some("boom".as_bytes()));
    assert_eq!(args.user_data, u64::MAX);
}

#[test]
fn callback_error_is_an_error_firing() {
    let e = ErrorInfo::new(ErrorCode::InvalidArgument, "bad options");
    let args: CallbackArgs<'_, ()> = invoke_callback_error(&e, 5);
    assert!(args.result.is_none());
    let error = args.error.unwrap();
    assert_eq!(error.code, ErrorCode::InvalidArgument);
    assert_eq!(error.message.len, 11);
    assert_eq!(args.user_data, 5);
}

#[test]
fn callback_null_result_is_the_end_of_stream_sentinel() {
    let args: CallbackArgs<'_, Vec<u8>> = invoke_callback_null_result(42);
    assert!(args.result.is_none());
    assert!(args.error.is_none());
    assert_eq!(args.user_data, 42);
}

#[test]
fn callback_token_passes_through_unchanged() {
    for token in [0u64, 1, 0xdead_beef, u64::MAX] {
        let ok: Result<(), ErrorInfo> = Ok(());
        assert_eq!(invoke_callback(&ok, token).user_data, token);
        let end: CallbackArgs<'_, ()> = invoke_callback_null_result(token);
        assert_eq!(end.user_data, token);
    }
}

#[test]
fn bytes_data_with_a_length_past_the_end_reads_what_is_there() {
    let bytes = [1u8, 2, 3];
    let data = BytesData { data: Some(&bytes), len: 10 };
    assert_eq!(data.as_opt_slice(), Some(&bytes[..]));
}
